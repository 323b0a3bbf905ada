//! The WebSocket frame codec: one frame to bytes and back.

use vstd::prelude::*;

use crate::errors::{FrameError, StdStupidError};

verus! {

/// The opcodes of a frame; `NonControl` and `FutureControl` stand for the
/// reserved ranges 3–7 and 11–15.
#[derive(Debug, Clone, Copy, PartialEq, Eq, Structural)]
pub enum WebSocketOpCode {
    Continuation,
    Text,
    Binary,
    NonControl,
    ConnectionClose,
    Ping,
    Pong,
    FutureControl,
    Invalid,
}

impl Default for WebSocketOpCode {
    fn default() -> (r: Self)
        ensures
            r == WebSocketOpCode::Text,
    {
        WebSocketOpCode::Text
    }
}

/// The four-bit code written for an opcode; a reserved range is written as
/// its lowest code.
pub open spec fn opcode_code(op: WebSocketOpCode) -> Option<u8> {
    match op {
        WebSocketOpCode::Continuation => Some(0u8),
        WebSocketOpCode::Text => Some(1u8),
        WebSocketOpCode::Binary => Some(2u8),
        WebSocketOpCode::NonControl => Some(3u8),
        WebSocketOpCode::ConnectionClose => Some(8u8),
        WebSocketOpCode::Ping => Some(9u8),
        WebSocketOpCode::Pong => Some(10u8),
        WebSocketOpCode::FutureControl => Some(11u8),
        WebSocketOpCode::Invalid => None,
    }
}

/// The opcode that a four-bit code stands for.
pub open spec fn opcode_of(bits: u8) -> WebSocketOpCode {
    if bits == 0 {
        WebSocketOpCode::Continuation
    } else if bits == 1 {
        WebSocketOpCode::Text
    } else if bits == 2 {
        WebSocketOpCode::Binary
    } else if bits <= 7 {
        WebSocketOpCode::NonControl
    } else if bits == 8 {
        WebSocketOpCode::ConnectionClose
    } else if bits == 9 {
        WebSocketOpCode::Ping
    } else if bits == 10 {
        WebSocketOpCode::Pong
    } else {
        WebSocketOpCode::FutureControl
    }
}

fn opcode_from_bits(bits: u8) -> (r: WebSocketOpCode)
    ensures
        r == opcode_of(bits),
{
    if bits == 0 {
        WebSocketOpCode::Continuation
    } else if bits == 1 {
        WebSocketOpCode::Text
    } else if bits == 2 {
        WebSocketOpCode::Binary
    } else if bits <= 7 {
        WebSocketOpCode::NonControl
    } else if bits == 8 {
        WebSocketOpCode::ConnectionClose
    } else if bits == 9 {
        WebSocketOpCode::Ping
    } else if bits == 10 {
        WebSocketOpCode::Pong
    } else {
        WebSocketOpCode::FutureControl
    }
}

fn opcode_bits(op: WebSocketOpCode) -> (r: Option<u8>)
    ensures
        r == opcode_code(op),
{
    match op {
        WebSocketOpCode::Continuation => Some(0),
        WebSocketOpCode::Text => Some(1),
        WebSocketOpCode::Binary => Some(2),
        WebSocketOpCode::NonControl => Some(3),
        WebSocketOpCode::ConnectionClose => Some(8),
        WebSocketOpCode::Ping => Some(9),
        WebSocketOpCode::Pong => Some(10),
        WebSocketOpCode::FutureControl => Some(11),
        WebSocketOpCode::Invalid => None,
    }
}

// ---------------------------------------------------------------------------
// Big-endian integers

pub open spec fn pow256(k: nat) -> nat
    decreases k,
{
    if k == 0 {
        1
    } else {
        256 * pow256((k - 1) as nat)
    }
}

/// The `k` low bytes of `n`, most significant first.
pub open spec fn be_bytes(n: nat, k: nat) -> Seq<u8>
    decreases k,
{
    if k == 0 {
        seq![]
    } else {
        be_bytes(n / 256, (k - 1) as nat).push((n % 256) as u8)
    }
}

/// The number that big-endian bytes denote.
pub open spec fn be_value(s: Seq<u8>) -> nat
    decreases s.len(),
{
    if s.len() == 0 {
        0
    } else {
        be_value(s.drop_last()) * 256 + s.last() as nat
    }
}

pub proof fn lemma_be_value_bound(s: Seq<u8>)
    ensures
        be_value(s) < pow256(s.len()),
    decreases s.len(),
{
    if s.len() > 0 {
        lemma_be_value_bound(s.drop_last());
        let v = be_value(s.drop_last());
        let p = pow256((s.len() - 1) as nat);
        let b = s.last() as nat;
        assert(v * 256 + b < 256 * p) by (nonlinear_arith)
            requires
                v < p,
                b < 256,
        ;
    }
}

pub proof fn lemma_be_round_trip(n: nat, k: nat)
    requires
        n < pow256(k),
    ensures
        be_bytes(n, k).len() == k,
        be_value(be_bytes(n, k)) == n,
    decreases k,
{
    if k > 0 {
        let p = pow256((k - 1) as nat);
        assert(n / 256 < p) by (nonlinear_arith)
            requires
                n < 256 * p,
        ;
        lemma_be_round_trip(n / 256, (k - 1) as nat);
        let s = be_bytes(n, k);
        assert(s.drop_last() =~= be_bytes(n / 256, (k - 1) as nat));
        assert(n == (n / 256) * 256 + n % 256) by (nonlinear_arith);
    }
}

/// Appends the `k` low bytes of `n`, most significant first.
fn push_be(out: &mut Vec<u8>, n: u64, k: usize)
    ensures
        final(out)@ == old(out)@ + be_bytes(n as nat, k as nat),
    decreases k,
{
    if k > 0 {
        push_be(out, n / 256, k - 1);
        out.push((n % 256) as u8);
        assert(final(out)@ =~= old(out)@ + be_bytes(n as nat, k as nat));
    } else {
        assert(final(out)@ =~= old(out)@ + be_bytes(n as nat, k as nat));
    }
}

/// The value of `s[lo..lo + k]` read big-endian.
fn read_be(s: &[u8], lo: usize, k: usize) -> (r: u64)
    requires
        k <= 8,
        lo + k <= s@.len(),
    ensures
        r as nat == be_value(s@.subrange(lo as int, lo + k)),
{
    let mut v: u64 = 0;
    let mut i: usize = 0;
    assert(s@.subrange(lo as int, lo as int) =~= Seq::<u8>::empty());
    while i < k
        invariant
            i <= k <= 8,
            lo + k <= s.len(),
            v as nat == be_value(s@.subrange(lo as int, lo + i)),
        decreases k - i,
    {
        proof {
            lemma_be_value_bound(s@.subrange(lo as int, lo + i));
            assert(pow256(i as nat) <= pow256(7)) by {
                lemma_pow256_mono(i as nat, 7);
            }
            lemma_pow256_seven();
            assert(v as nat * 256 + 255 < 0x1_0000_0000_0000_0000) by (nonlinear_arith)
                requires
                    v < 0x100_0000_0000_0000,
            ;
        }
        let b = s[lo + i];
        v = v * 256 + b as u64;
        assert(s@.subrange(lo as int, lo + i + 1).drop_last() =~= s@.subrange(lo as int, lo + i));
        i = i + 1;
    }
    v
}

pub proof fn lemma_pow256_seven()
    ensures
        pow256(7) == 0x100_0000_0000_0000,
{
    assert(pow256(0) == 1);
    assert(pow256(1) == 0x100);
    assert(pow256(2) == 0x1_0000);
    assert(pow256(3) == 0x100_0000);
    assert(pow256(4) == 0x1_0000_0000);
    assert(pow256(5) == 0x100_0000_0000);
    assert(pow256(6) == 0x1_0000_0000_0000);
}

pub proof fn lemma_pow256_mono(a: nat, b: nat)
    requires
        a <= b,
    ensures
        pow256(a) <= pow256(b),
    decreases b,
{
    if a < b {
        lemma_pow256_mono(a, (b - 1) as nat);
    }
}

// ---------------------------------------------------------------------------
// Frames

/// The length field of a frame: one byte below 126; the marker 126 and two
/// bytes up to 65535; else the marker 127 and eight bytes.
pub open spec fn length_field(n: nat) -> Seq<u8> {
    if n < 126 {
        seq![n as u8]
    } else if n <= 65535 {
        seq![126u8] + be_bytes(n, 2)
    } else {
        seq![127u8] + be_bytes(n, 8)
    }
}

pub open spec fn bit(b: bool, weight: u8) -> u8 {
    if b {
        weight
    } else {
        0
    }
}

/// FIN, the three reserved bits and the opcode in one byte.
pub open spec fn first_byte(fin: bool, rsv1: bool, rsv2: bool, rsv3: bool, code: u8) -> u8 {
    (bit(fin, 128) + bit(rsv1, 64) + bit(rsv2, 32) + bit(rsv3, 16) + code) as u8
}

/// What a frame holds.
pub struct FrameView {
    pub fin: bool,
    pub rsv1: bool,
    pub rsv2: bool,
    pub rsv3: bool,
    pub op_code: WebSocketOpCode,
    pub mask: bool,
    pub payload_length: u64,
    pub mask_key: Seq<u8>,
    pub data: Seq<u8>,
}

/// The bytes of a frame that the server sends.
pub open spec fn encode_frame(f: FrameView) -> Result<Seq<u8>, FrameError> {
    match opcode_code(f.op_code) {
        None => Err(FrameError::InvalidOpCode),
        Some(code) => if f.mask {
            Err(FrameError::MaskedServerFrame)
        } else {
            Ok(
                seq![first_byte(f.fin, f.rsv1, f.rsv2, f.rsv3, code)] + length_field(f.data.len())
                    + f.data,
            )
        },
    }
}

/// The payload with byte `i` XOR-ed with `key[i % 4]`.
pub open spec fn unmask(payload: Seq<u8>, key: Seq<u8>) -> Seq<u8> {
    Seq::new(payload.len(), |i: int| payload[i] ^ key[i % 4])
}

/// Masking is its own inverse: a payload masked with a key and unmasked with
/// the same key is the payload again.
pub proof fn lemma_unmask_involution(payload: Seq<u8>, key: Seq<u8>)
    requires
        key.len() == 4,
    ensures
        unmask(unmask(payload, key), key) == payload,
{
    assert forall|i: int| 0 <= i < payload.len() implies #[trigger] unmask(
        unmask(payload, key),
        key,
    )[i] == payload[i] by {
        let p = payload[i];
        let k = key[i % 4];
        assert((p ^ k) ^ k == p) by (bit_vector);
    }
    assert(unmask(unmask(payload, key), key) =~= payload);
}

/// Where the length field ends and the payload length it declares.
pub open spec fn length_header(b: Seq<u8>) -> Option<(int, nat)> {
    let base = b[1] & 127;
    if base == 126 {
        if b.len() < 4 {
            None
        } else {
            Some((4, be_value(b.subrange(2, 4))))
        }
    } else if base == 127 {
        if b.len() < 10 {
            None
        } else {
            Some((10, be_value(b.subrange(2, 10))))
        }
    } else {
        Some((2, base as nat))
    }
}

/// Reads the length field: where it ends and the payload length it declares.
pub fn read_length_header(b: &[u8]) -> (r: Option<(usize, u64)>)
    requires
        b@.len() >= 2,
    ensures
        match length_header(b@) {
            Some((hdr, len)) => r == Some((hdr as usize, len as u64)) && len <= u64::MAX,
            None => r is None,
        },
{
    let base = b[1] & 127;
    if base == 126 {
        if b.len() < 4 {
            return None;
        }
        Some((4, read_be(b, 2, 2)))
    } else if base == 127 {
        if b.len() < 10 {
            return None;
        }
        Some((10, read_be(b, 2, 8)))
    } else {
        Some((2, base as u64))
    }
}

/// The frame that a buffer holds, exactly: a buffer with more or fewer payload
/// bytes than its header declares is refused.
pub open spec fn decode_frame(b: Seq<u8>) -> Result<FrameView, FrameError> {
    if b.len() < 2 {
        Err(FrameError::Truncated)
    } else {
        match length_header(b) {
            None => Err(FrameError::Truncated),
            Some((hdr, len)) => {
                let mask = b[1] & 128 != 0;
                if mask && b.len() < hdr + 4 {
                    Err(FrameError::Truncated)
                } else {
                    let key = if mask {
                        b.subrange(hdr, hdr + 4)
                    } else {
                        Seq::<u8>::empty()
                    };
                    let start = if mask {
                        hdr + 4
                    } else {
                        hdr
                    };
                    let payload = b.subrange(start, b.len() as int);
                    if payload.len() != len {
                        Err(FrameError::LengthMismatch)
                    } else {
                        Ok(
                            FrameView {
                                fin: b[0] & 128 != 0,
                                rsv1: b[0] & 64 != 0,
                                rsv2: b[0] & 32 != 0,
                                rsv3: b[0] & 16 != 0,
                                op_code: opcode_of(b[0] & 15),
                                mask,
                                payload_length: len as u64,
                                mask_key: key,
                                data: if mask {
                                    unmask(payload, key)
                                } else {
                                    payload
                                },
                            },
                        )
                    }
                }
            },
        }
    }
}

proof fn lemma_first_byte_bits(fin: bool, rsv1: bool, rsv2: bool, rsv3: bool, code: u8)
    requires
        code < 16,
    ensures
        (first_byte(fin, rsv1, rsv2, rsv3, code) & 128 != 0) == fin,
        (first_byte(fin, rsv1, rsv2, rsv3, code) & 64 != 0) == rsv1,
        (first_byte(fin, rsv1, rsv2, rsv3, code) & 32 != 0) == rsv2,
        (first_byte(fin, rsv1, rsv2, rsv3, code) & 16 != 0) == rsv3,
        first_byte(fin, rsv1, rsv2, rsv3, code) & 15 == code,
{
    let f = bit(fin, 128);
    let a = bit(rsv1, 64);
    let b = bit(rsv2, 32);
    let c = bit(rsv3, 16);
    let x = first_byte(fin, rsv1, rsv2, rsv3, code);
    assert(x == (f + a + b + c + code) as u8);
    assert(x & 128 == f && x & 64 == a && x & 32 == b && x & 16 == c && x & 15 == code)
        by (bit_vector)
        requires
            f == 0 || f == 128,
            a == 0 || a == 64,
            b == 0 || b == 32,
            c == 0 || c == 16,
            code < 16,
            x == (f + a + b + c + code) as u8,
    ;
}

proof fn lemma_pow256_eight()
    ensures
        pow256(2) == 0x1_0000,
        pow256(8) == 0x1_0000_0000_0000_0000,
{
    lemma_pow256_seven();
    assert(pow256(0) == 1);
    assert(pow256(1) == 0x100);
}

/// A frame that the server may send decodes back to itself: the same FIN,
/// reserved bits, opcode and payload, unmasked, with the payload length it
/// carries.
pub proof fn lemma_frame_round_trip(f: FrameView)
    requires
        !f.mask,
        f.op_code != WebSocketOpCode::Invalid,
        f.data.len() <= u64::MAX,
    ensures
        encode_frame(f) is Ok,
        decode_frame(encode_frame(f)->Ok_0) matches Ok(g) && g.fin == f.fin && g.rsv1 == f.rsv1
            && g.rsv2 == f.rsv2 && g.rsv3 == f.rsv3 && g.op_code == f.op_code && !g.mask
            && g.payload_length == f.data.len() && g.data == f.data,
{
    let code = opcode_code(f.op_code)->Some_0;
    let b0 = first_byte(f.fin, f.rsv1, f.rsv2, f.rsv3, code);
    lemma_first_byte_bits(f.fin, f.rsv1, f.rsv2, f.rsv3, code);
    let n = f.data.len();
    let lf = length_field(n);
    let b = seq![b0] + lf + f.data;
    assert(encode_frame(f) == Ok::<_, FrameError>(b));
    lemma_pow256_eight();
    let hdr: int = if n < 126 {
        2
    } else if n <= 65535 {
        4
    } else {
        10
    };
    if n < 126 {
        let m = n as u8;
        assert(m & 128 == 0 && m & 127 == m) by (bit_vector)
            requires
                m < 126,
        ;
        assert(b[1] == m);
    } else if n <= 65535 {
        lemma_be_round_trip(n, 2);
        assert(b.subrange(2, 4) =~= be_bytes(n, 2));
        assert(b[1] == 126u8);
        assert(126u8 & 128 == 0 && 126u8 & 127 == 126) by (bit_vector);
    } else {
        lemma_be_round_trip(n, 8);
        assert(b.subrange(2, 10) =~= be_bytes(n, 8));
        assert(b[1] == 127u8);
        assert(127u8 & 128 == 0 && 127u8 & 127 == 127) by (bit_vector);
    }
    assert(length_header(b) == Some((hdr, n)));
    assert(b.subrange(hdr, b.len() as int) =~= f.data);
    assert(b[0] == b0);
    assert(opcode_of(code) == f.op_code);
}

/// One WebSocket frame.
#[derive(Debug, PartialEq, Eq)]
pub struct WebSocketFrame {
    fin: bool,
    rsv1: bool,
    rsv2: bool,
    rsv3: bool,
    op_code: WebSocketOpCode,
    mask: bool,
    payload_length: u64,
    mask_key: Vec<u8>,
    data: Vec<u8>,
}

impl View for WebSocketFrame {
    type V = FrameView;

    closed spec fn view(&self) -> FrameView {
        FrameView {
            fin: self.fin,
            rsv1: self.rsv1,
            rsv2: self.rsv2,
            rsv3: self.rsv3,
            op_code: self.op_code,
            mask: self.mask,
            payload_length: self.payload_length,
            mask_key: self.mask_key@,
            data: self.data@,
        }
    }
}

impl Default for WebSocketFrame {
    /// An empty, unmasked, non-final text frame.
    fn default() -> (r: Self)
        ensures
            !r@.fin && !r@.rsv1 && !r@.rsv2 && !r@.rsv3,
            r@.op_code == WebSocketOpCode::Text,
            !r@.mask,
            r@.payload_length == 0,
            r@.mask_key == Seq::<u8>::empty(),
            r@.data == Seq::<u8>::empty(),
    {
        WebSocketFrame {
            fin: false,
            rsv1: false,
            rsv2: false,
            rsv3: false,
            op_code: WebSocketOpCode::Text,
            mask: false,
            payload_length: 0,
            mask_key: Vec::new(),
            data: Vec::new(),
        }
    }
}

impl WebSocketFrame {
    /// Makes the frame a final frame that carries `message`.
    pub fn set_message(&mut self, message: &[u8])
        ensures
            final(self)@.data == message@,
            final(self)@.payload_length == message@.len(),
            final(self)@.fin,
            final(self)@.op_code == old(self)@.op_code,
            final(self)@.mask == old(self)@.mask,
            final(self)@.mask_key == old(self)@.mask_key,
            final(self)@.rsv1 == old(self)@.rsv1,
            final(self)@.rsv2 == old(self)@.rsv2,
            final(self)@.rsv3 == old(self)@.rsv3,
    {
        self.data = vstd::slice::slice_to_vec(message);
        self.payload_length = message.len() as u64;
        self.fin = true;
    }

    pub fn fin(&self) -> (r: bool)
        ensures
            r == self@.fin,
    {
        self.fin
    }

    pub fn opcode(&self) -> (r: WebSocketOpCode)
        ensures
            r == self@.op_code,
    {
        self.op_code
    }

    /// Sets the opcode; nothing else changes.
    pub fn set_op_code(&mut self, op_code: WebSocketOpCode)
        ensures
            final(self)@ == (FrameView { op_code, ..old(self)@ }),
    {
        self.op_code = op_code;
    }

    pub fn data(&self) -> (r: &[u8])
        ensures
            r@ == self@.data,
    {
        self.data.as_slice()
    }

    pub fn into_payload(self) -> (r: Vec<u8>)
        ensures
            r@ == self@.data,
    {
        self.data
    }

    pub fn is_masked(&self) -> (r: bool)
        ensures
            r == self@.mask,
    {
        self.mask
    }

    pub fn payload_length(&self) -> (r: u64)
        ensures
            r == self@.payload_length,
    {
        self.payload_length
    }

    pub fn mask_key(&self) -> (r: &[u8])
        ensures
            r@ == self@.mask_key,
    {
        self.mask_key.as_slice()
    }

    pub fn reserved_bits(&self) -> (r: (bool, bool, bool))
        ensures
            r == (self@.rsv1, self@.rsv2, self@.rsv3),
    {
        (self.rsv1, self.rsv2, self.rsv3)
    }

    /// The bytes of the frame as the server sends it: unmasked, with the
    /// payload length in its shortest form.
    pub fn create_server_message_frame(&mut self) -> (r: Result<Vec<u8>, StdStupidError>)
        ensures
            final(self)@ == old(self)@,
            match r {
                Ok(b) => encode_frame(old(self)@) == Ok::<_, FrameError>(b@),
                Err(e) => exists|k: FrameError|
                    encode_frame(old(self)@) == Err::<Seq<u8>, _>(k) && e == StdStupidError::Frame(
                        k,
                    ),
            },
    {
        let code = match opcode_bits(self.op_code) {
            Some(c) => c,
            None => {
                return Err(StdStupidError::Frame(FrameError::InvalidOpCode));
            },
        };
        if self.mask {
            return Err(StdStupidError::Frame(FrameError::MaskedServerFrame));
        }
        let mut byte_working: u8 = code;
        if self.fin {
            byte_working = byte_working + 128;
        }
        if self.rsv1 {
            byte_working = byte_working + 64;
        }
        if self.rsv2 {
            byte_working = byte_working + 32;
        }
        if self.rsv3 {
            byte_working = byte_working + 16;
        }
        let mut frame: Vec<u8> = Vec::new();
        frame.push(byte_working);
        let data_length = self.data.len();
        if data_length < 126 {
            frame.push(data_length as u8);
        } else if data_length <= 65535 {
            frame.push(126);
            push_be(&mut frame, data_length as u64, 2);
        } else {
            frame.push(127);
            push_be(&mut frame, data_length as u64, 8);
        }
        frame.extend_from_slice(self.data.as_slice());
        assert(frame@ =~= seq![first_byte(self.fin, self.rsv1, self.rsv2, self.rsv3, code)]
            + length_field(self.data@.len()) + self.data@);
        Ok(frame)
    }

    /// Reads one frame that fills `frame` exactly; a masked payload is unmasked.
    pub fn parse_frame(frame: Vec<u8>) -> (r: Result<Self, StdStupidError>)
        ensures
            match r {
                Ok(f) => decode_frame(frame@) == Ok::<_, FrameError>(f@),
                Err(e) => exists|k: FrameError|
                    decode_frame(frame@) == Err::<FrameView, _>(k) && e == StdStupidError::Frame(
                        k,
                    ),
            },
    {
        let b = frame.as_slice();
        if b.len() < 2 {
            return Err(StdStupidError::Frame(FrameError::Truncated));
        }
        let byte1 = b[0];
        let byte2 = b[1];
        let base = byte2 & 127;
        let (hdr, payload_length): (usize, u64) = if base == 126 {
            if b.len() < 4 {
                return Err(StdStupidError::Frame(FrameError::Truncated));
            }
            (4, read_be(b, 2, 2))
        } else if base == 127 {
            if b.len() < 10 {
                return Err(StdStupidError::Frame(FrameError::Truncated));
            }
            (10, read_be(b, 2, 8))
        } else {
            (2, base as u64)
        };
        let mask = byte2 & 128 != 0;
        if mask && b.len() - hdr < 4 {
            return Err(StdStupidError::Frame(FrameError::Truncated));
        }
        let mask_key: Vec<u8> = if mask {
            vstd::slice::slice_to_vec(&b[hdr..hdr + 4])
        } else {
            Vec::new()
        };
        let start = if mask {
            hdr + 4
        } else {
            hdr
        };
        if (b.len() - start) as u64 != payload_length {
            return Err(StdStupidError::Frame(FrameError::LengthMismatch));
        }
        let mut data: Vec<u8> = Vec::new();
        let mut i: usize = start;
        while i < b.len()
            invariant
                start <= i <= b@.len(),
                mask ==> mask_key@.len() == 4,
                data@.len() == i - start,
                forall|j: int|
                    0 <= j < i - start ==> #[trigger] data@[j] == if mask {
                        b@[start + j] ^ mask_key@[j % 4]
                    } else {
                        b@[start + j]
                    },
            decreases b@.len() - i,
        {
            let x = b[i];
            if mask {
                data.push(x ^ mask_key[(i - start) % 4]);
            } else {
                data.push(x);
            }
            i = i + 1;
        }
        let ghost payload = b@.subrange(start as int, b@.len() as int);
        proof {
            if mask {
                assert(data@ =~= unmask(payload, mask_key@));
            } else {
                assert(data@ =~= payload);
            }
        }
        Ok(
            WebSocketFrame {
                fin: byte1 & 128 != 0,
                rsv1: byte1 & 64 != 0,
                rsv2: byte1 & 32 != 0,
                rsv3: byte1 & 16 != 0,
                op_code: opcode_from_bits(byte1 & 15),
                mask,
                payload_length,
                mask_key,
                data,
            },
        )
    }
}

} // verus!
