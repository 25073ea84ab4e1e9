use vstd::prelude::*;

use crate::error::ProtocolError;

verus! {

/// Every frame written to the transport is exactly this long.
pub const FRAME_LEN: usize = 64;

/// A frame carries at most this many payload bytes after the two header bytes.
pub const MAX_PAYLOAD: usize = 62;

/// The bytes of a well-formed frame: ack byte, command byte, payload,
/// zero padding up to 64 bytes. Meaningful only when `payload.len() <= 62`.
pub open spec fn frame_bytes(ack: u8, cmd: u8, payload: Seq<u8>) -> Seq<u8> {
    seq![ack, cmd] + payload + Seq::new((62 - payload.len()) as nat, |i: int| 0u8)
}

/// Encode one outgoing frame: byte 0 is the ack byte, byte 1 the command
/// byte, then the payload, zero-padded to a total of 64 bytes. A payload
/// longer than 62 bytes is a caller error and is rejected.
pub fn encode(ack: u8, cmd: u8, payload: &[u8]) -> (r: Result<Vec<u8>, ProtocolError>)
    ensures
        r is Ok <==> payload@.len() <= MAX_PAYLOAD,
        r is Ok ==> r->Ok_0@ == frame_bytes(ack, cmd, payload@),
        r is Err ==> r->Err_0 == ProtocolError::PayloadTooLarge,
{
    if payload.len() > MAX_PAYLOAD {
        return Err(ProtocolError::PayloadTooLarge);
    }
    let mut data: Vec<u8> = Vec::new();
    data.push(ack);
    data.push(cmd);
    let mut i: usize = 0;
    while i < payload.len()
        invariant
            i <= payload@.len() <= MAX_PAYLOAD,
            data@ == seq![ack, cmd] + payload@.take(i as int),
        decreases payload@.len() - i,
    {
        data.push(payload[i]);
        i = i + 1;
        proof {
            assert(data@ == seq![ack, cmd] + payload@.take(i as int));
        }
    }
    assert(payload@.take(payload@.len() as int) == payload@);
    while data.len() < FRAME_LEN
        invariant
            2 + payload@.len() <= data@.len() <= FRAME_LEN,
            data@.take(2 + payload@.len() as int) == seq![ack, cmd] + payload@,
            forall|j: int| 2 + payload@.len() <= j < data@.len() ==> data@[j] == 0u8,
        decreases FRAME_LEN - data@.len(),
    {
        data.push(0u8);
        proof {
            assert(data@.take(2 + payload@.len() as int) == seq![ack, cmd] + payload@);
        }
    }
    proof {
        assert(data@ =~= frame_bytes(ack, cmd, payload@));
    }
    Ok(data)
}

/// A well-formed frame is 64 bytes and is the encoding of its own header and
/// payload: the codec loses nothing.
pub proof fn lemma_frame_shape(ack: u8, cmd: u8, payload: Seq<u8>)
    requires
        payload.len() <= MAX_PAYLOAD,
    ensures
        frame_bytes(ack, cmd, payload).len() == FRAME_LEN,
        frame_bytes(ack, cmd, payload)[0] == ack,
        frame_bytes(ack, cmd, payload)[1] == cmd,
        frame_bytes(ack, cmd, payload).subrange(2, 2 + payload.len() as int) == payload,
        forall|j: int|
            2 + payload.len() <= j < FRAME_LEN ==> frame_bytes(ack, cmd, payload)[j] == 0u8,
{
    assert(frame_bytes(ack, cmd, payload).subrange(2, 2 + payload.len() as int) =~= payload);
}

} // verus!
