use vstd::prelude::*;

verus! {

/// Directional-pad flags as raw bytes; zero means released.
pub struct Dpad {
    pub up: u8,
    pub down: u8,
    pub left: u8,
    pub right: u8,
}

/// Face, shoulder and system button flags as raw bytes; zero means released.
pub struct Button {
    pub a: u8,
    pub b: u8,
    pub x: u8,
    pub y: u8,
    pub l: u8,
    pub r: u8,
    pub zl: u8,
    pub zr: u8,
    pub minus: u8,
    pub plus: u8,
    pub home: u8,
    pub capture: u8,
}

/// One analog stick. Each axis already carries the unsigned 12-bit wire
/// value (0..=4095); the neutral position is 2047. The mapping from a
/// signed unit-range reading to this value is the input source's concern.
#[derive(Clone, Copy)]
pub struct Stick {
    pub x: u16,
    pub y: u16,
    pub press: bool,
}

/// Grouped controller state, for callers that keep pad and buttons apart.
pub struct ControllerInput {
    pub dpad: Dpad,
    pub button: Button,
    pub stick_l: Stick,
    pub stick_r: Stick,
}

/// The logical controller state the report builder packs into wire bytes.
#[derive(Clone, Copy)]
pub struct Input {
    pub up: bool,
    pub down: bool,
    pub left: bool,
    pub right: bool,
    pub a: bool,
    pub b: bool,
    pub x: bool,
    pub y: bool,
    pub l: bool,
    pub r: bool,
    pub zl: bool,
    pub zr: bool,
    pub minus: bool,
    pub plus: bool,
    pub home: bool,
    pub capture: bool,
    pub stick_l: Stick,
    pub stick_r: Stick,
}

/// A button contributes 1 to its byte when pressed, 0 when released.
pub open spec fn bbit(b: bool) -> u8 {
    if b {
        1
    } else {
        0
    }
}

/// The single bit a press sets at a given offset; offsets past the byte
/// width contribute nothing.
pub open spec fn single_bit(offset: u32) -> u8 {
    if offset == 0 {
        1
    } else if offset == 1 {
        2
    } else if offset == 2 {
        4
    } else if offset == 3 {
        8
    } else if offset == 4 {
        16
    } else if offset == 5 {
        32
    } else if offset == 6 {
        64
    } else if offset == 7 {
        128
    } else {
        0
    }
}

/// Byte 1 of the report: bits 0-3 are Y, X, B, A; bits 6-7 are R, ZR.
pub open spec fn left_byte(i: Input) -> u8 {
    (bbit(i.y) + 2 * bbit(i.x) + 4 * bbit(i.b) + 8 * bbit(i.a) + 64 * bbit(i.r) + 128 * bbit(
        i.zr,
    )) as u8
}

/// Byte 2 of the report: bits 0-1 are minus, plus; bits 2-3 the stick
/// presses; bits 4-5 home and capture.
pub open spec fn center_byte(i: Input) -> u8 {
    (bbit(i.minus) + 2 * bbit(i.plus) + 4 * bbit(i.stick_l.press) + 8 * bbit(i.stick_r.press) + 16
        * bbit(i.home) + 32 * bbit(i.capture)) as u8
}

/// Byte 3 of the report: bits 0-3 are down, up, right, left; bits 6-7 are
/// L, ZL.
pub open spec fn right_byte(i: Input) -> u8 {
    (bbit(i.down) + 2 * bbit(i.up) + 4 * bbit(i.right) + 8 * bbit(i.left) + 64 * bbit(i.l) + 128
        * bbit(i.zl)) as u8
}

/// First of the three bytes holding a packed axis pair: the low 8 bits of
/// the first axis.
pub open spec fn stick_low(x: u16) -> u8 {
    (x % 256) as u8
}

/// Middle byte: high 4 bits of the first axis in the low nibble, low 4 bits
/// of the second axis in the high nibble.
pub open spec fn stick_mid(x: u16, y: u16) -> u8 {
    ((x / 256) % 16 + (y % 16) * 16) as u8
}

/// Last byte: the high 8 bits of the second axis.
pub open spec fn stick_high(y: u16) -> u8 {
    ((y / 16) % 256) as u8
}

/// Two 12-bit axis values packed little-endian into three bytes.
pub open spec fn stick_bytes(x: u16, y: u16) -> Seq<u8> {
    seq![stick_low(x), stick_mid(x, y), stick_high(y)]
}

/// The full 11-byte input report for a given controller state: marker,
/// three button bytes, both packed sticks, and a reserved zero byte.
pub open spec fn report_bytes(i: Input) -> Seq<u8> {
    seq![
        0x81u8,
        left_byte(i),
        center_byte(i),
        right_byte(i),
        stick_low(i.stick_l.x),
        stick_mid(i.stick_l.x, i.stick_l.y),
        stick_high(i.stick_l.y),
        stick_low(i.stick_r.x),
        stick_mid(i.stick_r.x, i.stick_r.y),
        stick_high(i.stick_r.y),
        0u8,
    ]
}

/// The state a fresh controller starts in: nothing pressed, sticks centered.
pub open spec fn neutral_input() -> Input {
    Input {
        up: false,
        down: false,
        left: false,
        right: false,
        a: false,
        b: false,
        x: false,
        y: false,
        l: false,
        r: false,
        zl: false,
        zr: false,
        minus: false,
        plus: false,
        home: false,
        capture: false,
        stick_l: Stick { x: 2047, y: 2047, press: false },
        stick_r: Stick { x: 2047, y: 2047, press: false },
    }
}

proof fn lemma_or_edge(a: u8, b: u8, c: u8, d: u8, e: u8, f: u8)
    by (bit_vector)
    requires
        a == 0 || a == 1,
        b == 0 || b == 2,
        c == 0 || c == 4,
        d == 0 || d == 8,
        e == 0 || e == 64,
        f == 0 || f == 128,
    ensures
        (a | b | c | d | e | f) == a + b + c + d + e + f,
{
}

proof fn lemma_or_center(a: u8, b: u8, c: u8, d: u8, e: u8, f: u8)
    by (bit_vector)
    requires
        a == 0 || a == 1,
        b == 0 || b == 2,
        c == 0 || c == 4,
        d == 0 || d == 8,
        e == 0 || e == 16,
        f == 0 || f == 32,
    ensures
        (a | b | c | d | e | f) == a + b + c + d + e + f,
{
}

/// Whether bit `k` of `v` is set.
pub open spec fn get_bit(v: u8, k: u8) -> bool {
    (v >> k) & 1 == 1
}

proof fn lemma_byte_bits(v: u8, a: u8, b: u8, c: u8, d: u8, e: u8, f: u8, g: u8, h: u8)
    by (bit_vector)
    requires
        a <= 1,
        b <= 1,
        c <= 1,
        d <= 1,
        e <= 1,
        f <= 1,
        g <= 1,
        h <= 1,
        v == a + 2 * b + 4 * c + 8 * d + 16 * e + 32 * f + 64 * g + 128 * h,
    ensures
        ((v >> 0u8) & 1 == 1) <==> a == 1,
        ((v >> 1u8) & 1 == 1) <==> b == 1,
        ((v >> 2u8) & 1 == 1) <==> c == 1,
        ((v >> 3u8) & 1 == 1) <==> d == 1,
        ((v >> 4u8) & 1 == 1) <==> e == 1,
        ((v >> 5u8) & 1 == 1) <==> f == 1,
        ((v >> 6u8) & 1 == 1) <==> g == 1,
        ((v >> 7u8) & 1 == 1) <==> h == 1,
{
}

proof fn lemma_left_byte_bits(i: Input)
    ensures
        get_bit(left_byte(i), 0) == i.y,
        get_bit(left_byte(i), 1) == i.x,
        get_bit(left_byte(i), 2) == i.b,
        get_bit(left_byte(i), 3) == i.a,
        !get_bit(left_byte(i), 4),
        !get_bit(left_byte(i), 5),
        get_bit(left_byte(i), 6) == i.r,
        get_bit(left_byte(i), 7) == i.zr,
{
    lemma_byte_bits(
        left_byte(i),
        bbit(i.y),
        bbit(i.x),
        bbit(i.b),
        bbit(i.a),
        0,
        0,
        bbit(i.r),
        bbit(i.zr),
    );
}

proof fn lemma_center_byte_bits(i: Input)
    ensures
        get_bit(center_byte(i), 0) == i.minus,
        get_bit(center_byte(i), 1) == i.plus,
        get_bit(center_byte(i), 2) == i.stick_l.press,
        get_bit(center_byte(i), 3) == i.stick_r.press,
        get_bit(center_byte(i), 4) == i.home,
        get_bit(center_byte(i), 5) == i.capture,
        !get_bit(center_byte(i), 6),
        !get_bit(center_byte(i), 7),
{
    lemma_byte_bits(
        center_byte(i),
        bbit(i.minus),
        bbit(i.plus),
        bbit(i.stick_l.press),
        bbit(i.stick_r.press),
        bbit(i.home),
        bbit(i.capture),
        0,
        0,
    );
}

proof fn lemma_right_byte_bits(i: Input)
    ensures
        get_bit(right_byte(i), 0) == i.down,
        get_bit(right_byte(i), 1) == i.up,
        get_bit(right_byte(i), 2) == i.right,
        get_bit(right_byte(i), 3) == i.left,
        !get_bit(right_byte(i), 4),
        !get_bit(right_byte(i), 5),
        get_bit(right_byte(i), 6) == i.l,
        get_bit(right_byte(i), 7) == i.zl,
{
    lemma_byte_bits(
        right_byte(i),
        bbit(i.down),
        bbit(i.up),
        bbit(i.right),
        bbit(i.left),
        0,
        0,
        bbit(i.l),
        bbit(i.zl),
    );
}

/// Law: for every combination of button states, the three button bytes of
/// the report carry exactly the documented bit layout — byte 1 holds
/// Y, X, B, A in bits 0-3 and R, ZR in bits 6-7; byte 2 holds minus, plus,
/// the stick presses, home and capture in bits 0-5; byte 3 holds down, up,
/// right, left in bits 0-3 and L, ZL in bits 6-7; all unused bits are zero.
pub proof fn lemma_report_bit_layout(i: Input)
    ensures
        get_bit(left_byte(i), 0) == i.y,
        get_bit(left_byte(i), 1) == i.x,
        get_bit(left_byte(i), 2) == i.b,
        get_bit(left_byte(i), 3) == i.a,
        !get_bit(left_byte(i), 4),
        !get_bit(left_byte(i), 5),
        get_bit(left_byte(i), 6) == i.r,
        get_bit(left_byte(i), 7) == i.zr,
        get_bit(center_byte(i), 0) == i.minus,
        get_bit(center_byte(i), 1) == i.plus,
        get_bit(center_byte(i), 2) == i.stick_l.press,
        get_bit(center_byte(i), 3) == i.stick_r.press,
        get_bit(center_byte(i), 4) == i.home,
        get_bit(center_byte(i), 5) == i.capture,
        !get_bit(center_byte(i), 6),
        !get_bit(center_byte(i), 7),
        get_bit(right_byte(i), 0) == i.down,
        get_bit(right_byte(i), 1) == i.up,
        get_bit(right_byte(i), 2) == i.right,
        get_bit(right_byte(i), 3) == i.left,
        !get_bit(right_byte(i), 4),
        !get_bit(right_byte(i), 5),
        get_bit(right_byte(i), 6) == i.l,
        get_bit(right_byte(i), 7) == i.zl,
{
    lemma_left_byte_bits(i);
    lemma_center_byte_bits(i);
    lemma_right_byte_bits(i);
}

/// The first axis value read back from three packed stick bytes.
pub open spec fn unpack_first(b: Seq<u8>) -> u16 {
    (b[0] + (b[1] % 16) * 256) as u16
}

/// The second axis value read back from three packed stick bytes.
pub open spec fn unpack_second(b: Seq<u8>) -> u16 {
    (b[1] / 16 + b[2] * 16) as u16
}

/// Law: packing two 12-bit axis values into three bytes loses nothing —
/// both values can be read back exactly from the packed bytes.
pub proof fn lemma_stick_pack_round_trip(x: u16, y: u16)
    requires
        x < 4096,
        y < 4096,
    ensures
        unpack_first(stick_bytes(x, y)) == x,
        unpack_second(stick_bytes(x, y)) == y,
{
    let b0 = stick_low(x) as u16;
    let b1 = stick_mid(x, y) as u16;
    let b2 = stick_high(y) as u16;
    assert(b0 + (b1 % 16) * 256 == x && b1 / 16 + b2 * 16 == y) by (bit_vector)
        requires
            x < 4096,
            y < 4096,
            b0 == x % 256,
            b1 == (x / 256) % 16 + (y % 16) * 16,
            b2 == (y / 16) % 256,
    ;
}

impl Input {
    /// A fresh controller state: all buttons released, both sticks at the
    /// center of their 12-bit range.
    pub fn new() -> (r: Self)
        ensures
            r == neutral_input(),
    {
        Self {
            up: false,
            down: false,
            left: false,
            right: false,
            a: false,
            b: false,
            x: false,
            y: false,
            l: false,
            r: false,
            zl: false,
            zr: false,
            minus: false,
            plus: false,
            home: false,
            capture: false,
            stick_l: Stick { x: 2047, y: 2047, press: false },
            stick_r: Stick { x: 2047, y: 2047, press: false },
        }
    }

    /// The contribution of one button to its report byte: its bit when
    /// pressed, zero otherwise. An offset past the byte width is a defined
    /// no-op, not a fault.
    pub fn bit_input(input: bool, offset: u32) -> (r: u8)
        ensures
            r == (if input {
                single_bit(offset)
            } else {
                0u8
            }),
    {
        if input && offset < 8 {
            let r = 1u8 << offset;
            assert(offset < 8 ==> 1u8 << offset == single_bit(offset)) by (bit_vector);
            r
        } else {
            0
        }
    }

    /// Pack two 12-bit axis values into three little-endian bytes. Axis
    /// bits beyond the 12-bit range are masked away by the packing.
    pub fn pack_shorts(v1: u16, v2: u16) -> (r: [u8; 3])
        ensures
            r@ == stick_bytes(v1, v2),
    {
        let b0 = (v1 % 256) as u8;
        let b1 = ((v1 / 256) % 16 + (v2 % 16) * 16) as u8;
        let b2 = ((v2 / 16) % 256) as u8;
        let r = [b0, b1, b2];
        proof {
            assert(r@ =~= stick_bytes(v1, v2));
        }
        r
    }

    /// Byte 1 of the report, packed from the face and right-shoulder
    /// buttons.
    pub fn left_byte_of(&self) -> (r: u8)
        ensures
            r == left_byte(*self),
    {
        let l0 = Self::bit_input(self.y, 0);
        let l1 = Self::bit_input(self.x, 1);
        let l2 = Self::bit_input(self.b, 2);
        let l3 = Self::bit_input(self.a, 3);
        let l6 = Self::bit_input(self.r, 6);
        let l7 = Self::bit_input(self.zr, 7);
        let r = l0 | l1 | l2 | l3 | l6 | l7;
        proof {
            lemma_or_edge(l0, l1, l2, l3, l6, l7);
        }
        r
    }

    /// Byte 2 of the report, packed from the system buttons and stick
    /// presses.
    pub fn center_byte_of(&self) -> (r: u8)
        ensures
            r == center_byte(*self),
    {
        let c0 = Self::bit_input(self.minus, 0);
        let c1 = Self::bit_input(self.plus, 1);
        let c2 = Self::bit_input(self.stick_l.press, 2);
        let c3 = Self::bit_input(self.stick_r.press, 3);
        let c4 = Self::bit_input(self.home, 4);
        let c5 = Self::bit_input(self.capture, 5);
        let r = c0 | c1 | c2 | c3 | c4 | c5;
        proof {
            lemma_or_center(c0, c1, c2, c3, c4, c5);
        }
        r
    }

    /// Byte 3 of the report, packed from the directional pad and left
    /// shoulder buttons.
    pub fn right_byte_of(&self) -> (r: u8)
        ensures
            r == right_byte(*self),
    {
        let r0 = Self::bit_input(self.down, 0);
        let r1 = Self::bit_input(self.up, 1);
        let r2 = Self::bit_input(self.right, 2);
        let r3 = Self::bit_input(self.left, 3);
        let r6 = Self::bit_input(self.l, 6);
        let r7 = Self::bit_input(self.zl, 7);
        let r = r0 | r1 | r2 | r3 | r6 | r7;
        proof {
            lemma_or_edge(r0, r1, r2, r3, r6, r7);
        }
        r
    }

    /// Build the 11-byte input report: marker byte, the three button bytes,
    /// both packed sticks, and a reserved zero byte.
    pub fn get_buf(&self) -> (r: [u8; 11])
        ensures
            r@ == report_bytes(*self),
    {
        let left = self.left_byte_of();
        let center = self.center_byte_of();
        let right = self.right_byte_of();
        let left_stick = Self::pack_shorts(self.stick_l.x, self.stick_l.y);
        let right_stick = Self::pack_shorts(self.stick_r.x, self.stick_r.y);

        let r = [
            0x81u8,
            left,
            center,
            right,
            left_stick[0],
            left_stick[1],
            left_stick[2],
            right_stick[0],
            right_stick[1],
            right_stick[2],
            0x00u8,
        ];
        proof {
            assert(r@ =~= report_bytes(*self));
        }
        r
    }
}

} // verus!
