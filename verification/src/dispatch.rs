use vstd::prelude::*;

use crate::error::ProtocolError;
use crate::frame::{encode, frame_bytes};
use crate::report::{report_bytes, Input};
use crate::spi::{spi_region, SpiFlash};

verus! {

/// The received buffer is always the full fixed-size read of the transport.
pub const RECV_LEN: usize = 128;

/// The handshake state of a session. The wire protocol never names it, but
/// it is implied by which replies have been sent, and modelling it
/// explicitly makes the dispatcher's behaviour checkable.
#[derive(Debug, Clone, Copy, PartialEq, Eq, Structural)]
pub enum SessionState {
    /// Before the console has spoken.
    Idle,
    /// The console has sent its baud-rate / handshake-info commands.
    Handshaking,
    /// Regular input reports have been requested.
    Streaming,
}

/// What the caller must do with its schedulers after a dispatch: nothing,
/// start the input sender and counter loops, or raise the stop signal so
/// the running loops terminate at their next poll.
#[derive(Debug, Clone, Copy, PartialEq, Eq, Structural)]
pub enum Action {
    NoAction,
    StartStreaming,
    RaiseStop,
}

/// The result of dispatching one received buffer: the frame to write back,
/// if any; the scheduler action; and whether the bytes were recognized at
/// all, so the caller can log unknown requests for protocol debugging.
pub struct DispatchOutcome {
    pub reply: Option<Vec<u8>>,
    pub action: Action,
    pub recognized: bool,
}

/// The ack byte of a subcommand reply: the subcommand id with its top bit
/// set when acknowledging with data, zero when acknowledging with no data
/// or refusing.
pub open spec fn uart_ack_byte(ack: bool, sub_cmd: u8, data_len: nat) -> u8 {
    if ack && data_len > 0 {
        (0x80u8 | sub_cmd)
    } else {
        0
    }
}

/// The payload of a subcommand reply: the live 11-byte input report, the
/// ack byte, the subcommand id, then the subcommand data.
pub open spec fn uart_payload(i: Input, ack: bool, sub_cmd: u8, data: Seq<u8>) -> Seq<u8> {
    report_bytes(i) + seq![uart_ack_byte(ack, sub_cmd, data.len()), sub_cmd] + data
}

/// A full subcommand reply frame: outer ack byte 0x21, command byte = the
/// rolling session counter.
pub open spec fn uart_frame(i: Input, count: u8, ack: bool, sub_cmd: u8, data: Seq<u8>) -> Seq<
    u8,
> {
    frame_bytes(0x21, count, uart_payload(i, ack, sub_cmd, data))
}

/// A subcommand reply can carry at most this much subcommand data: the
/// 62-byte frame payload minus the 11-byte report and the two header bytes.
pub const MAX_UART_DATA: usize = 49;

/// SPI reads can return at most this many bytes: the subcommand data
/// budget minus the five echoed request bytes.
pub const MAX_SPI_READ: usize = 44;

/// Whether an SPI read request can be served: the selector must be present
/// in the flash table, the range must lie inside the stored region, and
/// the data must fit in a reply frame.
pub open spec fn spi_hit(selector: u8, offset: u8, length: u8) -> bool {
    &&& spi_region(selector) is Some
    &&& offset + length <= spi_region(selector)->Some_0.len()
    &&& length <= MAX_SPI_READ
}

/// The subcommand data of a served SPI read: the request head
/// [offset, 0, 0, selector, length] followed by the bytes read from the
/// region.
pub open spec fn spi_reply_data(selector: u8, offset: u8, length: u8) -> Seq<u8> {
    seq![offset, 0u8, 0u8, selector, length] + spi_region(selector)->Some_0.subrange(
        offset as int,
        offset + length,
    )
}

/// The handshake-info payload sent for command 0x01: console- and
/// controller-side identifiers.
pub open spec fn handshake_info_data() -> Seq<u8> {
    seq![0x00u8, 0x03u8, 0x00u8, 0x00u8, 0x5eu8, 0x00u8, 0x53u8, 0x5eu8]
}

/// The device-info-lite payload sent for subcommand 0x01.
pub open spec fn device_info_lite_data() -> Seq<u8> {
    seq![0x03u8, 0x01u8]
}

/// The fixed capability payload sent for subcommand 0x02.
pub open spec fn capability_data() -> Seq<u8> {
    seq![
        0x03u8,
        0x48u8,
        0x03u8,
        0x02u8,
        0x5eu8,
        0x53u8,
        0x00u8,
        0x5eu8,
        0x00u8,
        0x00u8,
        0x03u8,
        0x01u8,
    ]
}

/// The stub payload sent for the NFC/IR subcommand 0x21; its contents are
/// acknowledged but not decoded.
pub open spec fn nfc_ir_stub_data() -> Seq<u8> {
    seq![0x01u8, 0x00u8, 0xffu8, 0x00u8, 0x03u8, 0x00u8, 0x05u8, 0x01u8]
}

/// Whether a subcommand id is answered with a plain empty acknowledgment
/// (mode-set subcommands).
pub open spec fn is_mode_set_sub(sub: u8) -> bool {
    sub == 0x03 || sub == 0x04 || sub == 0x08 || sub == 0x30 || sub == 0x38 || sub == 0x40 || sub
        == 0x41 || sub == 0x48
}

/// Whether the dispatcher recognizes the received bytes at all. Unknown
/// requests draw no reply; the caller logs them.
pub open spec fn recognized(buf: Seq<u8>) -> bool {
    if buf[0] == 0x80 {
        0x01 <= buf[1] <= 0x05
    } else if buf[0] == 0x01 {
        let sub = buf[10];
        sub == 0x01 || sub == 0x02 || is_mode_set_sub(sub) || sub == 0x10 || sub == 0x21
    } else {
        false
    }
}

/// The reply frame one received buffer draws, given the live input state
/// and the session counter; `None` when no reply is sent.
pub open spec fn reply_for(buf: Seq<u8>, i: Input, count: u8) -> Option<Seq<u8>> {
    if buf[0] == 0x80 {
        if buf[1] == 0x01 {
            Some(frame_bytes(0x81, 0x01, handshake_info_data()))
        } else if buf[1] == 0x02 || buf[1] == 0x03 {
            Some(frame_bytes(0x81, buf[1], seq![]))
        } else {
            None
        }
    } else if buf[0] == 0x01 {
        let sub = buf[10];
        if sub == 0x01 {
            Some(uart_frame(i, count, true, sub, device_info_lite_data()))
        } else if sub == 0x02 {
            Some(uart_frame(i, count, true, sub, capability_data()))
        } else if is_mode_set_sub(sub) {
            Some(uart_frame(i, count, true, sub, seq![]))
        } else if sub == 0x10 {
            let selector = buf[12];
            let offset = buf[11];
            let length = buf[15];
            if spi_hit(selector, offset, length) {
                Some(uart_frame(i, count, true, sub, spi_reply_data(selector, offset, length)))
            } else {
                Some(uart_frame(i, count, false, sub, seq![]))
            }
        } else if sub == 0x21 {
            Some(uart_frame(i, count, true, sub, nfc_ir_stub_data()))
        } else {
            None
        }
    } else {
        None
    }
}

/// The session state after one received buffer: the handshake commands
/// enter Handshaking, 0x04 enters Streaming, 0x05 ends the session, and
/// everything else leaves the state alone.
pub open spec fn next_state(s: SessionState, buf: Seq<u8>) -> SessionState {
    if buf[0] == 0x80 {
        if buf[1] == 0x01 || buf[1] == 0x02 || buf[1] == 0x03 {
            SessionState::Handshaking
        } else if buf[1] == 0x04 {
            SessionState::Streaming
        } else if buf[1] == 0x05 {
            SessionState::Idle
        } else {
            s
        }
    } else {
        s
    }
}

/// The scheduler action one received buffer demands: 0x04 starts the
/// report scheduler, 0x05 raises the stop signal.
pub open spec fn action_for(buf: Seq<u8>) -> Action {
    if buf[0] == 0x80 && buf[1] == 0x04 {
        Action::StartStreaming
    } else if buf[0] == 0x80 && buf[1] == 0x05 {
        Action::RaiseStop
    } else {
        Action::NoAction
    }
}

/// Law: a start-streaming command (report id 0x80, sub-byte 0x04) moves
/// the session to Streaming and demands that the report scheduler be
/// started, and an end-communication command (sub-byte 0x05) returns it to
/// Idle and raises the stop signal, whatever state the session was in.
pub proof fn lemma_streaming_transitions(s: SessionState, buf: Seq<u8>)
    ensures
        buf[0] == 0x80 && buf[1] == 0x04 ==> next_state(s, buf) == SessionState::Streaming
            && action_for(buf) == Action::StartStreaming,
        buf[0] == 0x80 && buf[1] == 0x05 ==> next_state(s, buf) == SessionState::Idle
            && action_for(buf) == Action::RaiseStop,
{
}

/// Law: every reply the dispatcher produces is exactly one whole 64-byte
/// frame, so a transport that performs each write atomically never splits
/// a frame or interleaves two.
pub proof fn lemma_reply_is_one_frame(buf: Seq<u8>, i: Input, count: u8)
    ensures
        reply_for(buf, i, count) is Some ==> reply_for(buf, i, count)->Some_0.len()
            == crate::frame::FRAME_LEN,
{
    if reply_for(buf, i, count) is Some {
        if buf[0] == 0x01 && buf[10] == 0x10 && spi_hit(buf[12], buf[11], buf[15]) {
            assert(spi_reply_data(buf[12], buf[11], buf[15]).len() == 5 + buf[15]);
        }
    }
}

/// Build a subcommand reply frame around the live input report. The frame
/// is refused only when the subcommand data would not fit.
pub fn uart(input: &Input, count: u8, ack: bool, sub_cmd: u8, data: &[u8]) -> (r: Result<
    Vec<u8>,
    ProtocolError,
>)
    ensures
        r is Ok <==> data@.len() <= MAX_UART_DATA,
        r is Ok ==> r->Ok_0@ == uart_frame(*input, count, ack, sub_cmd, data@),
        r is Err ==> r->Err_0 == ProtocolError::PayloadTooLarge,
{
    let ack_byte: u8 = if ack {
        if data.len() > 0 {
            0x80 | sub_cmd
        } else {
            0x00
        }
    } else {
        0x00
    };

    let rep = input.get_buf();
    let mut buf: Vec<u8> = Vec::new();
    let mut i: usize = 0;
    while i < 11
        invariant
            i <= 11,
            rep@ == report_bytes(*input),
            buf@ == report_bytes(*input).take(i as int),
        decreases 11 - i,
    {
        buf.push(rep[i]);
        i = i + 1;
        proof {
            assert(buf@ =~= report_bytes(*input).take(i as int));
        }
    }
    proof {
        assert(buf@ =~= report_bytes(*input));
    }
    buf.push(ack_byte);
    buf.push(sub_cmd);
    let mut j: usize = 0;
    while j < data.len()
        invariant
            j <= data@.len(),
            buf@ == report_bytes(*input) + seq![
                uart_ack_byte(ack, sub_cmd, data@.len()),
                sub_cmd,
            ] + data@.take(j as int),
        decreases data@.len() - j,
    {
        buf.push(data[j]);
        j = j + 1;
        proof {
            assert(buf@ =~= report_bytes(*input) + seq![
                uart_ack_byte(ack, sub_cmd, data@.len()),
                sub_cmd,
            ] + data@.take(j as int));
        }
    }
    proof {
        assert(buf@ =~= uart_payload(*input, ack, sub_cmd, data@));
    }
    encode(0x21, count, buf.as_slice())
}

/// The frame the input sender writes on every tick: outer ack byte 0x30,
/// command byte = the session counter, payload = the live input report.
pub fn input_report_frame(input: &Input, count: u8) -> (r: Vec<u8>)
    ensures
        r@ == frame_bytes(0x30, count, report_bytes(*input)),
{
    let rep = input.get_buf();
    match encode(0x30, count, rep.as_slice()) {
        Ok(v) => v,
        Err(_) => {
            proof {
                assert(false);
            }
            Vec::new()
        },
    }
}

/// The two fixed frames written when communication starts, before the
/// console has sent anything.
pub fn magic_packet_frames() -> (r: (Vec<u8>, Vec<u8>))
    ensures
        r.0@ == frame_bytes(0x81, 0x03, seq![]),
        r.1@ == frame_bytes(0x81, 0x01, seq![0x00u8, 0x03u8]),
{
    let empty: [u8; 0] = [];
    let first = match encode(0x81, 0x03, empty.as_slice()) {
        Ok(v) => v,
        Err(_) => {
            proof {
                assert(false);
            }
            Vec::new()
        },
    };
    let pair: [u8; 2] = [0x00, 0x03];
    let second = match encode(0x81, 0x01, pair.as_slice()) {
        Ok(v) => v,
        Err(_) => {
            proof {
                assert(false);
            }
            Vec::new()
        },
    };
    proof {
        assert(pair@ =~= seq![0x00u8, 0x03u8]);
    }
    (first, second)
}

/// The protocol state machine: classifies each received buffer, produces
/// the reply it draws, and tracks the implied handshake state.
pub struct Dispatcher {
    /// The current handshake state.
    pub state: SessionState,
    /// The emulated flash served for SPI read subcommands.
    pub spi: SpiFlash,
}

impl Dispatcher {
    /// The dispatcher's flash table holds the factory data regions.
    pub open spec fn wf(&self) -> bool {
        self.spi.wf()
    }

    /// A fresh dispatcher: session not yet started, flash table populated.
    pub fn new() -> (r: Self)
        ensures
            r.wf(),
            r.state == SessionState::Idle,
    {
        Dispatcher { state: SessionState::Idle, spi: SpiFlash::new() }
    }

    /// Interpret one received buffer: compute the reply frame it draws,
    /// the scheduler action it demands, and the next session state.
    pub fn dispatch(&mut self, buf: &[u8], input: &Input, count: u8) -> (r: DispatchOutcome)
        requires
            old(self).wf(),
            buf@.len() == RECV_LEN,
        ensures
            final (self).wf(),
            final (self).state == next_state(old(self).state, buf@),
            r.action == action_for(buf@),
            r.recognized == recognized(buf@),
            match reply_for(buf@, *input, count) {
                Some(f) => r.reply is Some && r.reply->Some_0@ == f,
                None => r.reply is None,
            },
    {
        match buf[0] {
            0x80 => self.dispatch_command(buf, input, count),
            0x01 => self.dispatch_subcommand(buf, input, count),
            _ => DispatchOutcome { reply: None, action: Action::NoAction, recognized: false },
        }
    }

    /// Handle a 2-byte command report (report id 0x80).
    fn dispatch_command(&mut self, buf: &[u8], input: &Input, count: u8) -> (r: DispatchOutcome)
        requires
            old(self).wf(),
            buf@.len() == RECV_LEN,
            buf@[0] == 0x80,
        ensures
            final (self).wf(),
            final (self).state == next_state(old(self).state, buf@),
            r.action == action_for(buf@),
            r.recognized == recognized(buf@),
            match reply_for(buf@, *input, count) {
                Some(f) => r.reply is Some && r.reply->Some_0@ == f,
                None => r.reply is None,
            },
    {
        let sub = buf[1];
        match sub {
            0x01 => {
                self.state = SessionState::Handshaking;
                let data: [u8; 8] = [0x00, 0x03, 0x00, 0x00, 0x5e, 0x00, 0x53, 0x5e];
                proof {
                    assert(data@ =~= handshake_info_data());
                }
                let reply = match encode(0x81, sub, data.as_slice()) {
                    Ok(v) => v,
                    Err(_) => {
                        proof {
                            assert(false);
                        }
                        Vec::new()
                    },
                };
                DispatchOutcome {
                    reply: Some(reply),
                    action: Action::NoAction,
                    recognized: true,
                }
            },
            0x02 | 0x03 => {
                self.state = SessionState::Handshaking;
                let empty: [u8; 0] = [];
                let reply = match encode(0x81, sub, empty.as_slice()) {
                    Ok(v) => v,
                    Err(_) => {
                        proof {
                            assert(false);
                        }
                        Vec::new()
                    },
                };
                DispatchOutcome {
                    reply: Some(reply),
                    action: Action::NoAction,
                    recognized: true,
                }
            },
            0x04 => {
                self.state = SessionState::Streaming;
                DispatchOutcome { reply: None, action: Action::StartStreaming, recognized: true }
            },
            0x05 => {
                self.state = SessionState::Idle;
                DispatchOutcome { reply: None, action: Action::RaiseStop, recognized: true }
            },
            _ => DispatchOutcome { reply: None, action: Action::NoAction, recognized: false },
        }
    }

    /// Handle a rumble+subcommand report (report id 0x01, subcommand id at
    /// offset 10, arguments from offset 11).
    fn dispatch_subcommand(&mut self, buf: &[u8], input: &Input, count: u8) -> (r:
        DispatchOutcome)
        requires
            old(self).wf(),
            buf@.len() == RECV_LEN,
            buf@[0] == 0x01,
        ensures
            final (self).wf(),
            final (self).state == old(self).state,
            r.action == Action::NoAction,
            r.recognized == recognized(buf@),
            match reply_for(buf@, *input, count) {
                Some(f) => r.reply is Some && r.reply->Some_0@ == f,
                None => r.reply is None,
            },
    {
        let sub = buf[10];
        let outcome: Result<Vec<u8>, ProtocolError> = match sub {
            0x01 => {
                let data: [u8; 2] = [0x03, 0x01];
                proof {
                    assert(data@ =~= device_info_lite_data());
                }
                uart(input, count, true, sub, data.as_slice())
            },
            0x02 => {
                let data: [u8; 12] = [
                    0x03,
                    0x48,
                    0x03,
                    0x02,
                    0x5e,
                    0x53,
                    0x00,
                    0x5e,
                    0x00,
                    0x00,
                    0x03,
                    0x01,
                ];
                proof {
                    assert(data@ =~= capability_data());
                }
                uart(input, count, true, sub, data.as_slice())
            },
            0x03 | 0x04 | 0x08 | 0x30 | 0x38 | 0x40 | 0x41 | 0x48 => {
                let empty: [u8; 0] = [];
                uart(input, count, true, sub, empty.as_slice())
            },
            0x10 => {
                return self.dispatch_spi_read(buf, input, count);
            },
            0x21 => {
                let data: [u8; 8] = [0x01, 0x00, 0xff, 0x00, 0x03, 0x00, 0x05, 0x01];
                proof {
                    assert(data@ =~= nfc_ir_stub_data());
                }
                uart(input, count, true, sub, data.as_slice())
            },
            _ => {
                return DispatchOutcome {
                    reply: None,
                    action: Action::NoAction,
                    recognized: false,
                };
            },
        };
        let reply = match outcome {
            Ok(v) => v,
            Err(_) => {
                proof {
                    assert(false);
                }
                Vec::new()
            },
        };
        DispatchOutcome { reply: Some(reply), action: Action::NoAction, recognized: true }
    }

    /// Serve an SPI flash read request (subcommand 0x10): selector at
    /// offset 12, base offset at offset 11, length at offset 15. A hit
    /// echoes the request head and the data; a miss or a bad range draws a
    /// negative acknowledgment.
    fn dispatch_spi_read(&mut self, buf: &[u8], input: &Input, count: u8) -> (r: DispatchOutcome)
        requires
            old(self).wf(),
            buf@.len() == RECV_LEN,
            buf@[0] == 0x01,
            buf@[10] == 0x10,
        ensures
            final (self).wf(),
            final (self).state == old(self).state,
            r.action == Action::NoAction,
            r.recognized,
            r.reply is Some,
            reply_for(buf@, *input, count) is Some,
            r.reply->Some_0@ == reply_for(buf@, *input, count)->Some_0,
    {
        let sub = buf[10];
        let selector = buf[12];
        let offset = buf[11];
        let length = buf[15];

        let served: Option<Vec<u8>> = if length as usize > MAX_SPI_READ {
            None
        } else {
            match self.spi.read(selector, offset, length) {
                Ok(d) => {
                    let mut data: Vec<u8> = vec![offset, 0u8, 0u8, selector, length];
                    let mut k: usize = 0;
                    proof {
                        assert(data@ =~= seq![offset, 0u8, 0u8, selector, length]);
                    }
                    while k < d.len()
                        invariant
                            k <= d@.len(),
                            data@ == seq![offset, 0u8, 0u8, selector, length] + d@.take(
                                k as int,
                            ),
                        decreases d@.len() - k,
                    {
                        data.push(d[k]);
                        k = k + 1;
                        proof {
                            assert(data@ =~= seq![offset, 0u8, 0u8, selector, length]
                                + d@.take(k as int));
                        }
                    }
                    proof {
                        assert(data@ =~= spi_reply_data(selector, offset, length));
                    }
                    Some(data)
                },
                Err(_) => None,
            }
        };

        let outcome: Result<Vec<u8>, ProtocolError> = match served {
            Some(data) => uart(input, count, true, sub, data.as_slice()),
            None => {
                let empty: [u8; 0] = [];
                uart(input, count, false, sub, empty.as_slice())
            },
        };
        let reply = match outcome {
            Ok(v) => v,
            Err(_) => {
                proof {
                    assert(false);
                }
                Vec::new()
            },
        };
        DispatchOutcome { reply: Some(reply), action: Action::NoAction, recognized: true }
    }
}

} // verus!
