//! The byte-stuffed serial slider protocol: frame encoding with a mod-256
//! checksum, the receiving state machine that undoes the stuffing, and the
//! handshake state machine that drives a serial slider session.
//!
//! Every frame on the wire is `0xFF, command, len, payload[len], checksum`.
//! Inside `command..checksum`, `0xFD` is emitted as `0xFD 0xFC` and `0xFF` as
//! `0xFD 0xFE`; the receiver removes the escape byte and adds one to the byte
//! that follows it. The checksum makes
//! `(0xFF + command + len + payload bytes + checksum) mod 256` zero.

use vstd::prelude::*;
use vstd::arithmetic::div_mod::{
    lemma_add_mod_noop, lemma_add_mod_noop_right, lemma_mod_self_0, lemma_mod_twice,
    lemma_mod_division_less_than_divisor,
};
use crate::state::{SliderInput, SliderLights};

verus! {

/// The sum of the first `n` bytes of `s`, as an unbounded integer.
pub open spec fn sum_to(s: Seq<u8>, n: int) -> int
    decreases n,
{
    if n <= 0 {
        0
    } else {
        sum_to(s, n - 1) + s[n - 1]
    }
}

/// The sum of all bytes of `s`.
pub open spec fn sum_bytes(s: Seq<u8>) -> int {
    sum_to(s, s.len() as int)
}

/// The sum of `n` bytes is at most `255 * n`.
pub proof fn lemma_sum_to_bound(s: Seq<u8>, n: int)
    requires
        0 <= n <= s.len(),
    ensures
        0 <= sum_to(s, n) <= 255 * n,
    decreases n,
{
    if n > 0 {
        lemma_sum_to_bound(s, n - 1);
    }
}

/// Two sequences agreeing on their first `n` entries sum alike there.
pub proof fn lemma_sum_to_agree(s: Seq<u8>, t: Seq<u8>, n: int)
    requires
        0 <= n <= s.len(),
        n <= t.len(),
        forall|i: int| 0 <= i < n ==> s[i] == t[i],
    ensures
        sum_to(s, n) == sum_to(t, n),
    decreases n,
{
    if n > 0 {
        lemma_sum_to_agree(s, t, n - 1);
    }
}

/// Appending one byte adds it to the sum.
pub proof fn lemma_sum_push(s: Seq<u8>, b: u8)
    ensures
        sum_bytes(s.push(b)) == sum_bytes(s) + b,
{
    lemma_sum_to_agree(s.push(b), s, s.len() as int);
    assert(s.push(b)[s.len() as int] == b);
}

/// The checksum the encoder picks for a frame with this command and payload.
pub open spec fn checksum_spec(command: u8, data: Seq<u8>) -> u8 {
    (((0x100 - ((0xff + command + data.len() + sum_bytes(data)) % 0x100)) % 0x100) as u8)
}

/// The checksum byte chosen by the encoder makes the whole frame sum to zero
/// modulo 256: `(0xFF + command + len + payload bytes + checksum) mod 256`
/// is zero.
pub proof fn lemma_frame_checksum(command: u8, data: Seq<u8>)
    requires
        data.len() <= 255,
    ensures
        (0xff + command + data.len() + sum_bytes(data) + checksum_spec(command, data)) % 0x100
            == 0,
{
    let total = 0xff + command + data.len() + sum_bytes(data);
    lemma_sum_to_bound(data, data.len() as int);
    let m = total % 0x100;
    lemma_mod_division_less_than_divisor(total, 0x100);
    let cs = (0x100 - m) % 0x100;
    if m == 0 {
        lemma_mod_self_0(0x100);
        assert(cs == 0);
        lemma_add_mod_noop(total, 0, 0x100);
    } else {
        assert(cs == 0x100 - m);
        lemma_add_mod_noop_right(total, cs as int, 0x100);
        assert((total + cs) % 0x100 == (total + (0x100 - m)) % 0x100);
        lemma_add_mod_noop(total, 0x100 - m, 0x100);
        lemma_mod_twice(total, 0x100);
        lemma_mod_self_0(0x100);
        assert((m + (0x100 - m) % 0x100) % 0x100 == 0x100int % 0x100);
    }
}

/// The escaped form of one byte of the frame interior: `0xFD` and `0xFF` are
/// stuffed behind the escape byte with one subtracted, anything else passes
/// through.
pub open spec fn esc(b: u8) -> Seq<u8> {
    if b == 0xfd {
        seq![0xfdu8, 0xfcu8]
    } else if b == 0xff {
        seq![0xfdu8, 0xfeu8]
    } else {
        seq![b]
    }
}

/// The escaped form of a byte sequence, front to back.
pub open spec fn esc_all(s: Seq<u8>) -> Seq<u8>
    decreases s.len(),
{
    if s.len() == 0 {
        Seq::empty()
    } else {
        esc(s[0]) + esc_all(s.subrange(1, s.len() as int))
    }
}

/// Escaping distributes over appending one byte at the back.
pub proof fn lemma_esc_all_push(s: Seq<u8>, b: u8)
    ensures
        esc_all(s.push(b)) =~= esc_all(s) + esc(b),
    decreases s.len(),
{
    if s.len() == 0 {
        assert(s.push(b)[0] == b);
        assert(s.push(b).subrange(1, 1) =~= Seq::<u8>::empty());
        assert(esc_all(s.push(b)) == esc(b) + esc_all(Seq::<u8>::empty()));
        assert(esc_all(s) == Seq::<u8>::empty());
        assert(esc(b) + Seq::<u8>::empty() =~= Seq::<u8>::empty() + esc(b));
    } else {
        let tail = s.subrange(1, s.len() as int);
        assert(s.push(b).subrange(1, s.len() + 1 as int) =~= tail.push(b));
        lemma_esc_all_push(tail, b);
        assert(s.push(b)[0] == s[0]);
        assert(esc_all(s.push(b)) == esc(s.push(b)[0]) + esc_all(s.push(b).subrange(
            1,
            s.len() + 1 as int,
        )));
        assert(esc_all(s.push(b).subrange(1, s.len() + 1 as int)) == esc_all(tail.push(b)));
        assert(esc_all(s) == esc(s[0]) + esc_all(tail));
        assert(esc(s[0]) + (esc_all(tail) + esc(b)) =~= (esc(s[0]) + esc_all(tail)) + esc(b));
    }
}

/// The full wire form of a frame: the start byte, then the escaped command,
/// length, payload and checksum.
pub open spec fn encode_bytes(command: u8, data: Seq<u8>, checksum: u8) -> Seq<u8> {
    seq![0xffu8] + esc(command) + esc(data.len() as u8) + esc_all(data) + esc(checksum)
}

/// One frame of the serial slider protocol.
#[derive(Debug)]
pub struct DivaPacket {
    /// The command byte.
    pub command: u8,
    /// The payload length byte.
    pub len: u8,
    /// The payload.
    pub data: Vec<u8>,
    /// The checksum byte.
    pub checksum: u8,
}

impl DivaPacket {
    /// The length byte counts the payload.
    pub open spec fn wf(&self) -> bool {
        self.len == self.data@.len()
    }

    /// An empty frame.
    pub fn new() -> (r: Self)
        ensures
            r.wf(),
            r.command == 0u8,
            r.len == 0u8,
            r.data@ =~= Seq::<u8>::empty(),
            r.checksum == 0u8,
    {
        Self { command: 0, len: 0, data: Vec::new(), checksum: 0 }
    }

    /// Builds a frame for this command and payload, choosing the checksum
    /// that makes the frame sum to zero modulo 256.
    pub fn from_bytes(command: u8, data: &[u8]) -> (r: Self)
        requires
            data@.len() <= 255,
        ensures
            r.wf(),
            r.command == command,
            r.len == data@.len(),
            r.data@ == data@,
            r.checksum == checksum_spec(command, data@),
            (0xff + command + r.len + sum_bytes(data@) + r.checksum) % 0x100 == 0,
    {
        let len = data.len();
        let mut sum: u32 = 0;
        let mut i: usize = 0;
        while i < len
            invariant
                len == data@.len() <= 255,
                i <= len,
                sum == sum_to(data@, i as int),
                sum <= 255 * i,
            decreases len - i,
        {
            sum = sum + data[i] as u32;
            i = i + 1;
        }
        let total: u32 = 0xff + command as u32 + len as u32 + sum;
        let checksum = ((0x100 - (total % 0x100)) % 0x100) as u8;
        proof {
            lemma_frame_checksum(command, data@);
        }
        let mut payload: Vec<u8> = Vec::new();
        payload.extend_from_slice(data);
        Self { command, len: len as u8, data: payload, checksum }
    }

    /// Appends the escaped form of one interior byte to a wire buffer.
    pub fn push_raw_escaped(byte: u8, raw: &mut Vec<u8>)
        ensures
            final(raw)@ =~= old(raw)@ + esc(byte),
    {
        if byte == 0xfd {
            raw.push(0xfd);
            raw.push(0xfc);
        } else if byte == 0xff {
            raw.push(0xfd);
            raw.push(0xfe);
        } else {
            raw.push(byte);
        }
    }

    /// Serializes the frame into its stuffed wire form.
    pub fn serialize(&self) -> (r: Vec<u8>)
        requires
            self.wf(),
        ensures
            r@ =~= encode_bytes(self.command, self.data@, self.checksum),
    {
        let mut raw: Vec<u8> = Vec::new();
        raw.push(0xff);
        Self::push_raw_escaped(self.command, &mut raw);
        Self::push_raw_escaped(self.len, &mut raw);
        let ghost head = raw@;
        let mut i: usize = 0;
        while i < self.data.len()
            invariant
                self.wf(),
                i <= self.data@.len(),
                raw@ =~= head + esc_all(self.data@.subrange(0, i as int)),
            decreases self.data@.len() - i,
        {
            let ghost pre = self.data@.subrange(0, i as int);
            Self::push_raw_escaped(self.data[i], &mut raw);
            proof {
                lemma_esc_all_push(pre, self.data@[i as int]);
                assert(self.data@.subrange(0, i + 1) =~= pre.push(self.data@[i as int]));
            }
            i = i + 1;
        }
        proof {
            assert(self.data@.subrange(0, self.data@.len() as int) =~= self.data@);
        }
        Self::push_raw_escaped(self.checksum, &mut raw);
        raw
    }
}

/// The phases of the receiving state machine.
#[derive(PartialEq, Eq, Structural, Clone, Copy, Debug)]
pub enum DivaDeserializerState {
    /// The next interior byte is the command.
    ExpectCommand,
    /// The next interior byte is the payload length.
    ExpectLen,
    /// The next interior bytes are payload.
    ExpectData,
    /// The next interior byte is the checksum.
    ExpectChecksum,
    /// A frame has ended; only a new start byte makes progress.
    Done,
}

/// `(a + b) mod 256`, as a byte.
pub open spec fn add_mod(a: u8, b: int) -> u8 {
    (((a + b) % 0x100) as u8)
}

/// Adding twice modulo 256 is adding the sum once.
pub proof fn lemma_add_mod_assoc(a: u8, x: int, y: int)
    ensures
        add_mod(add_mod(a, x), y) == add_mod(a, x + y),
{
    lemma_add_mod_noop_right((a + x) % 0x100, y, 0x100);
    lemma_add_mod_noop(a + x, y, 0x100);
    lemma_add_mod_noop_right(a + x, y, 0x100);
}

/// The abstract state of the receiving machine: the phase, the running
/// mod-256 sum, whether an escape byte was just seen, how many payload bytes
/// are still expected, and the frame collected so far.
pub struct DeserModel {
    /// The phase.
    pub state: DivaDeserializerState,
    /// Running sum of the delivered interior bytes, mod 256.
    pub checksum: u8,
    /// Whether the previous byte was the escape byte.
    pub escape: bool,
    /// Payload bytes still expected.
    pub remaining: u8,
    /// The command byte collected.
    pub command: u8,
    /// The length byte collected.
    pub len: u8,
    /// The payload collected so far.
    pub data: Seq<u8>,
}

/// An abstract received frame.
pub struct FrameModel {
    /// The command byte.
    pub command: u8,
    /// The length byte.
    pub len: u8,
    /// The payload.
    pub data: Seq<u8>,
    /// The checksum byte.
    pub checksum: u8,
}

/// The state the machine resets to on a start byte: expecting the command,
/// with the running sum holding the start byte.
pub open spec fn reset_model() -> DeserModel {
    DeserModel {
        state: DivaDeserializerState::ExpectCommand,
        checksum: 0xffu8,
        escape: false,
        remaining: 0u8,
        command: 0u8,
        len: 0u8,
        data: Seq::empty(),
    }
}

/// Delivers one unescaped interior byte to the machine: the running sum takes
/// the byte, and the phase decides where it lands. A frame completes when the
/// checksum byte makes the running sum zero.
pub open spec fn deliver(m: DeserModel, c: u8) -> (DeserModel, Option<FrameModel>) {
    let cs = add_mod(m.checksum, c as int);
    match m.state {
        DivaDeserializerState::ExpectCommand => (
            DeserModel {
                state: DivaDeserializerState::ExpectLen,
                checksum: cs,
                escape: false,
                command: c,
                ..m
            },
            None,
        ),
        DivaDeserializerState::ExpectLen => (
            DeserModel {
                state: if c == 0 {
                    DivaDeserializerState::ExpectChecksum
                } else {
                    DivaDeserializerState::ExpectData
                },
                checksum: cs,
                escape: false,
                remaining: c,
                len: c,
                ..m
            },
            None,
        ),
        DivaDeserializerState::ExpectData => (
            DeserModel {
                state: if m.remaining == 1 {
                    DivaDeserializerState::ExpectChecksum
                } else {
                    DivaDeserializerState::ExpectData
                },
                checksum: cs,
                escape: false,
                remaining: if m.remaining == 0 {
                    0u8
                } else {
                    (m.remaining - 1) as u8
                },
                data: m.data.push(c),
                ..m
            },
            None,
        ),
        DivaDeserializerState::ExpectChecksum => if cs == 0 {
            (
                DeserModel {
                    state: DivaDeserializerState::Done,
                    checksum: cs,
                    escape: false,
                    command: 0u8,
                    len: 0u8,
                    data: Seq::empty(),
                    ..m
                },
                Some(FrameModel { command: m.command, len: m.len, data: m.data, checksum: c }),
            )
        } else {
            (
                DeserModel { state: DivaDeserializerState::Done, checksum: cs, escape: false, ..m },
                None,
            )
        },
        DivaDeserializerState::Done => (
            DeserModel { checksum: cs, escape: false, ..m },
            None,
        ),
    }
}

/// Feeds one wire byte to the machine: a start byte resets it, the escape
/// byte arms the escape, and anything else is delivered with one added if the
/// escape was armed.
pub open spec fn deser_step(m: DeserModel, c: u8) -> (DeserModel, Option<FrameModel>) {
    if c == 0xff {
        (reset_model(), None)
    } else if c == 0xfd {
        (DeserModel { escape: true, ..m }, None)
    } else {
        deliver(m, if m.escape {
            (c + 1) as u8
        } else {
            c
        })
    }
}

/// Runs the machine over a byte sequence and collects the completed frames in
/// order.
pub open spec fn deser_run(m: DeserModel, s: Seq<u8>) -> (DeserModel, Seq<FrameModel>)
    decreases s.len(),
{
    if s.len() == 0 {
        (m, Seq::empty())
    } else {
        let prior = deser_run(m, s.drop_last());
        let stepped = deser_step(prior.0, s.last());
        (
            stepped.0,
            match stepped.1 {
                Some(f) => prior.1.push(f),
                None => prior.1,
            },
        )
    }
}

/// Whether a frame's bytes sum to zero modulo 256, start byte included.
pub open spec fn frame_sum_ok(p: DivaPacket) -> bool {
    (0xff + p.command + p.len + sum_bytes(p.data@) + p.checksum) % 0x100 == 0
}

/// The abstract frame a concrete packet stands for.
pub open spec fn frame_of(p: DivaPacket) -> FrameModel {
    FrameModel { command: p.command, len: p.len, data: p.data@, checksum: p.checksum }
}

/// The receiving state machine that undoes the byte stuffing and collects
/// completed frames.
pub struct DivaDeserializer {
    /// The phase.
    pub state: DivaDeserializerState,
    /// Running sum of the delivered interior bytes, mod 256.
    pub checksum: u8,
    /// 1 when the previous byte was the escape byte, else 0.
    pub escape: u8,
    /// Payload bytes still expected.
    pub len: u8,
    /// The frame collected so far.
    pub packet: DivaPacket,
}

impl DivaDeserializer {
    /// The abstract state this machine is in.
    pub open spec fn model(&self) -> DeserModel {
        DeserModel {
            state: self.state,
            checksum: self.checksum,
            escape: self.escape != 0,
            remaining: self.len,
            command: self.packet.command,
            len: self.packet.len,
            data: self.packet.data@,
        }
    }

    /// The collected frame stays consistent with the phase: while payload is
    /// expected the collected and expected counts add up to the length byte,
    /// at the checksum the payload is complete, and in every mid-frame phase
    /// the running sum is the sum of the interior bytes delivered so far — so
    /// a frame can only ever complete when its bytes sum to zero modulo 256.
    pub open spec fn wf(&self) -> bool {
        &&& self.escape <= 1
        &&& (self.state == DivaDeserializerState::ExpectCommand || self.state
            == DivaDeserializerState::ExpectLen ==> self.packet.data@.len() == 0)
        &&& (self.state == DivaDeserializerState::ExpectCommand ==> self.checksum == 0xff)
        &&& (self.state == DivaDeserializerState::ExpectLen ==> self.checksum == add_mod(
            0xffu8,
            self.packet.command as int,
        ))
        &&& (self.state == DivaDeserializerState::ExpectData ==> self.len >= 1
            && self.packet.data@.len() + self.len == self.packet.len && self.checksum == add_mod(
            0xffu8,
            self.packet.command + self.packet.len + sum_bytes(self.packet.data@),
        ))
        &&& (self.state == DivaDeserializerState::ExpectChecksum ==> self.packet.data@.len()
            == self.packet.len && self.checksum == add_mod(
            0xffu8,
            self.packet.command + self.packet.len + sum_bytes(self.packet.data@),
        ))
    }

    /// A machine waiting for a start byte.
    pub fn new() -> (r: Self)
        ensures
            r.wf(),
            r.model() == (DeserModel {
                state: DivaDeserializerState::Done,
                checksum: 0u8,
                escape: false,
                remaining: 0u8,
                command: 0u8,
                len: 0u8,
                data: Seq::<u8>::empty(),
            }),
    {
        Self {
            state: DivaDeserializerState::Done,
            checksum: 0,
            escape: 0,
            len: 0,
            packet: DivaPacket::new(),
        }
    }

    /// Feeds one wire byte; a frame completed by it is appended to `out`.
    pub fn feed(&mut self, c: u8, out: &mut Vec<DivaPacket>)
        requires
            old(self).wf(),
        ensures
            final(self).wf(),
            final(self).model() == deser_step(old(self).model(), c).0,
            match deser_step(old(self).model(), c).1 {
                Some(f) => final(out)@.len() == old(out)@.len() + 1 && final(out)@.drop_last()
                    == old(out)@ && frame_of(final(out)@.last()) == f && final(out)@.last().wf()
                    && frame_sum_ok(final(out)@.last()),
                None => final(out)@ == old(out)@,
            },
    {
        if c == 0xff {
            self.packet = DivaPacket::new();
            self.checksum = 0xff;
            self.state = DivaDeserializerState::ExpectCommand;
            self.escape = 0;
            self.len = 0;
        } else if c == 0xfd {
            self.escape = 1;
        } else {
            let ghost checksum0 = self.checksum;
            let c2 = c + self.escape;
            self.escape = 0;
            self.checksum = ((self.checksum as u16 + c2 as u16) % 0x100) as u8;
            proof {
                assert(self.checksum == add_mod(checksum0, c2 as int));
            }
            match self.state {
                DivaDeserializerState::ExpectCommand => {
                    self.packet.command = c2;
                    self.state = DivaDeserializerState::ExpectLen;
                },
                DivaDeserializerState::ExpectLen => {
                    proof {
                        lemma_add_mod_assoc(0xffu8, self.packet.command as int, c2 as int);
                        assert(sum_bytes(self.packet.data@) == 0);
                    }
                    self.len = c2;
                    self.packet.len = c2;
                    self.state = if c2 == 0 {
                        DivaDeserializerState::ExpectChecksum
                    } else {
                        DivaDeserializerState::ExpectData
                    };
                },
                DivaDeserializerState::ExpectData => {
                    proof {
                        lemma_add_mod_assoc(
                            0xffu8,
                            self.packet.command + self.packet.len + sum_bytes(self.packet.data@),
                            c2 as int,
                        );
                        lemma_sum_push(self.packet.data@, c2);
                    }
                    self.packet.data.push(c2);
                    self.len = self.len - 1;
                    if self.len == 0 {
                        self.state = DivaDeserializerState::ExpectChecksum;
                    }
                },
                DivaDeserializerState::ExpectChecksum => {
                    self.packet.checksum = c2;
                    if self.checksum == 0 {
                        proof {
                            lemma_add_mod_assoc(
                                0xffu8,
                                self.packet.command + self.packet.len + sum_bytes(
                                    self.packet.data@,
                                ),
                                c2 as int,
                            );
                            assert(frame_sum_ok(self.packet));
                        }
                        let mut taken = DivaPacket::new();
                        core::mem::swap(&mut self.packet, &mut taken);
                        out.push(taken);
                        proof {
                            assert(out@.drop_last() =~= old(out)@);
                        }
                    }
                    self.state = DivaDeserializerState::Done;
                },
                DivaDeserializerState::Done => {},
            }
        }
    }

    /// Drains a buffer of wire bytes into the machine, appending every frame
    /// completed along the way to `out`.
    pub fn deserialize(&mut self, data: &[u8], out: &mut Vec<DivaPacket>)
        requires
            old(self).wf(),
        ensures
            final(self).wf(),
            final(self).model() == deser_run(old(self).model(), data@).0,
            ({
                let frames = deser_run(old(self).model(), data@).1;
                &&& final(out)@.len() == old(out)@.len() + frames.len()
                &&& final(out)@.subrange(0, old(out)@.len() as int) == old(out)@
                &&& forall|j: int|
                    0 <= j < frames.len() ==> frame_of(
                        #[trigger] final(out)@[old(out)@.len() + j],
                    ) == frames[j] && final(out)@[old(out)@.len() + j].wf() && frame_sum_ok(
                        final(out)@[old(out)@.len() + j],
                    )
            }),
    {
        let ghost m0 = old(self).model();
        let ghost out0 = old(out)@;
        let mut i: usize = 0;
        while i < data.len()
            invariant
                self.wf(),
                i <= data@.len(),
                self.model() == deser_run(m0, data@.subrange(0, i as int)).0,
                out0 == old(out)@,
                m0 == old(self).model(),
                ({
                    let frames = deser_run(m0, data@.subrange(0, i as int)).1;
                    &&& out@.len() == out0.len() + frames.len()
                    &&& out@.subrange(0, out0.len() as int) == out0
                    &&& forall|j: int|
                        0 <= j < frames.len() ==> frame_of(#[trigger] out@[out0.len() + j])
                            == frames[j] && out@[out0.len() + j].wf() && frame_sum_ok(
                            out@[out0.len() + j],
                        )
                }),
            decreases data@.len() - i,
        {
            let ghost pre = data@.subrange(0, i as int);
            let ghost prev_out = out@;
            self.feed(data[i], out);
            proof {
                assert(data@.subrange(0, i + 1 as int).drop_last() =~= pre);
                assert(data@.subrange(0, i + 1 as int).last() == data@[i as int]);
                let frames = deser_run(m0, pre).1;
                let stepped = deser_step(deser_run(m0, pre).0, data@[i as int]);
                match stepped.1 {
                    Some(f) => {
                        assert(out@.drop_last() == prev_out);
                        assert forall|k: int| 0 <= k < prev_out.len() implies out@[k]
                            == prev_out[k] by {
                            assert(out@.drop_last()[k] == out@[k]);
                        }
                        assert(out@.subrange(0, out0.len() as int) =~= out0);
                        let frames2 = frames.push(f);
                        assert forall|j: int| 0 <= j < frames2.len() implies frame_of(
                            #[trigger] out@[out0.len() + j],
                        ) == frames2[j] && out@[out0.len() + j].wf() && frame_sum_ok(
                            out@[out0.len() + j],
                        ) by {
                            if j < frames.len() {
                                assert(out@[out0.len() + j] == prev_out[out0.len() + j]);
                            } else {
                                assert(out@[out0.len() + j] == out@.last());
                            }
                        }
                    },
                    None => {
                        assert(out@ == prev_out);
                    },
                }
            }
            i = i + 1;
        }
        proof {
            assert(data@.subrange(0, data@.len() as int) =~= data@);
        }
    }
}

/// Running the machine over a concatenation runs it over the parts in turn,
/// and the collected frames concatenate.
pub proof fn lemma_run_append(m: DeserModel, a: Seq<u8>, b: Seq<u8>)
    ensures
        deser_run(m, a + b).0 == deser_run(deser_run(m, a).0, b).0,
        deser_run(m, a + b).1 =~= deser_run(m, a).1 + deser_run(deser_run(m, a).0, b).1,
    decreases b.len(),
{
    if b.len() == 0 {
        assert(a + b =~= a);
        assert(deser_run(deser_run(m, a).0, b).1 =~= Seq::<FrameModel>::empty());
    } else {
        lemma_run_append(m, a, b.drop_last());
        assert((a + b).drop_last() =~= a + b.drop_last());
        assert((a + b).last() == b.last());
    }
}

/// Running the machine over one byte is one step.
pub proof fn lemma_run_one(m: DeserModel, c: u8)
    ensures
        deser_run(m, seq![c]).0 == deser_step(m, c).0,
        deser_run(m, seq![c]).1 =~= match deser_step(m, c).1 {
            Some(f) => seq![f],
            None => Seq::<FrameModel>::empty(),
        },
{
    let s = seq![c];
    let empty = Seq::<u8>::empty();
    assert(deser_run(m, empty).0 == m);
    assert(deser_run(m, empty).1 =~= Seq::<FrameModel>::empty());
    assert(s.drop_last() =~= empty);
    assert(s.last() == c);
    assert(deser_run(m, s.drop_last()) == deser_run(m, empty));
    match deser_step(m, c).1 {
        Some(f) => {
            assert(Seq::<FrameModel>::empty().push(f) =~= seq![f]);
        },
        None => {},
    }
}

/// Feeding the escaped form of one interior byte to a machine that is not
/// mid-escape delivers exactly that byte.
pub proof fn lemma_esc_feed(m: DeserModel, b: u8)
    requires
        !m.escape,
    ensures
        deser_run(m, esc(b)).0 == deliver(m, b).0,
        deser_run(m, esc(b)).1 =~= match deliver(m, b).1 {
            Some(f) => seq![f],
            None => Seq::<FrameModel>::empty(),
        },
{
    if b == 0xfd || b == 0xff {
        let s = esc(b);
        let delivered = if b == 0xfd {
            0xfcu8
        } else {
            0xfeu8
        };
        assert(s =~= seq![0xfdu8] + seq![delivered]);
        lemma_run_append(m, seq![0xfdu8], seq![delivered]);
        lemma_run_one(m, 0xfdu8);
        let armed = deser_step(m, 0xfdu8).0;
        assert(armed == DeserModel { escape: true, ..m });
        lemma_run_one(armed, delivered);
        assert(deser_step(armed, delivered) == deliver(armed, b));
        assert(deliver(armed, b).0 == deliver(m, b).0);
        assert(deliver(armed, b).1 == deliver(m, b).1);
        match deliver(m, b).1 {
            Some(f) => {
                assert(deser_run(m, s).1 =~= Seq::<FrameModel>::empty() + seq![f]);
                assert(Seq::<FrameModel>::empty() + seq![f] =~= seq![f]);
            },
            None => {},
        }
    } else {
        assert(esc(b) == seq![b]);
        lemma_run_one(m, b);
        assert(deser_step(m, b) == deliver(m, b));
    }
}

/// The byte sum taken from the front: the first byte plus the sum of the
/// rest.
pub proof fn lemma_sum_front(s: Seq<u8>, n: int)
    requires
        1 <= n <= s.len(),
    ensures
        sum_to(s, n) == s[0] + sum_to(s.subrange(1, s.len() as int), n - 1),
    decreases n,
{
    let tail = s.subrange(1, s.len() as int);
    if n == 1 {
        assert(sum_to(s, 0) == 0);
        assert(sum_to(tail, 0) == 0);
    } else {
        lemma_sum_front(s, n - 1);
        assert(tail[n - 2] == s[n - 1]);
    }
}

/// Feeding the escaped payload to a machine that expects exactly that many
/// payload bytes collects the payload, adds its sum to the running checksum,
/// and leaves the machine expecting the checksum byte.
pub proof fn lemma_data_run(m: DeserModel, s: Seq<u8>)
    requires
        m.state == DivaDeserializerState::ExpectData,
        !m.escape,
        1 <= s.len() <= 255,
        m.remaining == s.len(),
    ensures
        deser_run(m, esc_all(s)).0 == (DeserModel {
            state: DivaDeserializerState::ExpectChecksum,
            checksum: add_mod(m.checksum, sum_bytes(s)),
            escape: false,
            remaining: 0u8,
            command: m.command,
            len: m.len,
            data: m.data + s,
        }),
        deser_run(m, esc_all(s)).1 =~= Seq::<FrameModel>::empty(),
    decreases s.len(),
{
    let tail = s.subrange(1, s.len() as int);
    assert(esc_all(s) == esc(s[0]) + esc_all(tail));
    lemma_run_append(m, esc(s[0]), esc_all(tail));
    lemma_esc_feed(m, s[0]);
    let m1 = deliver(m, s[0]).0;
    assert(deliver(m, s[0]).1 is None);
    lemma_sum_front(s, s.len() as int);
    if s.len() == 1 {
        assert(tail =~= Seq::<u8>::empty());
        assert(esc_all(tail) =~= Seq::<u8>::empty());
        assert(deser_run(m1, esc_all(tail)).0 == m1);
        assert(m.data.push(s[0]) =~= m.data + s);
        assert(sum_bytes(s) == s[0]);
    } else {
        lemma_data_run(m1, tail);
        lemma_add_mod_assoc(m.checksum, s[0] as int, sum_bytes(tail));
        assert(m.data.push(s[0]) + tail =~= m.data + s);
    }
}

/// Stuffing round-trip: feeding the encoder's wire form of any frame to the
/// receiving machine, in any state, yields exactly that frame back — the same
/// command and payload, with the checksum byte the encoder chose, which makes
/// the frame sum to zero modulo 256.
pub proof fn lemma_stuffing_round_trip(m: DeserModel, command: u8, data: Seq<u8>)
    requires
        data.len() <= 255,
    ensures
        ({
            let frames = deser_run(m, encode_bytes(command, data, checksum_spec(command, data))).1;
            &&& frames.len() == 1
            &&& frames[0].command == command
            &&& frames[0].len == data.len()
            &&& frames[0].data == data
            &&& frames[0].checksum == checksum_spec(command, data)
            &&& (0xff + frames[0].command + frames[0].len + sum_bytes(frames[0].data)
                + frames[0].checksum) % 0x100 == 0
        }),
{
    let lenb = data.len() as u8;
    let cs = checksum_spec(command, data);
    let start = seq![0xffu8];
    let enc = encode_bytes(command, data, cs);
    lemma_frame_checksum(command, data);

    // The start byte resets the machine.
    lemma_run_one(m, 0xffu8);
    assert(deser_run(m, start).0 == reset_model());
    assert(deser_run(m, start).1 =~= Seq::<FrameModel>::empty());

    // The command byte.
    lemma_run_append(m, start, esc(command));
    lemma_esc_feed(reset_model(), command);
    let m1 = deliver(reset_model(), command).0;
    assert(m1.state == DivaDeserializerState::ExpectLen);
    assert(m1.checksum == add_mod(0xffu8, command as int));

    // The length byte.
    lemma_run_append(m, start + esc(command), esc(lenb));
    lemma_esc_feed(m1, lenb);
    let m2 = deliver(m1, lenb).0;
    assert(m2.checksum == add_mod(m1.checksum, lenb as int));
    lemma_add_mod_assoc(0xffu8, command as int, lenb as int);
    assert(m2.checksum == add_mod(0xffu8, command + lenb));

    // The payload.
    lemma_run_append(m, start + esc(command) + esc(lenb), esc_all(data));
    let m3 = if data.len() == 0 {
        m2
    } else {
        lemma_data_run(m2, data);
        deser_run(m2, esc_all(data)).0
    };
    if data.len() == 0 {
        assert(esc_all(data) =~= Seq::<u8>::empty());
        assert(m3.state == DivaDeserializerState::ExpectChecksum);
        assert(m3.data =~= data);
    } else {
        lemma_add_mod_assoc(0xffu8, command + lenb, sum_bytes(data));
        assert(m3.data =~= data);
    }
    assert(m3.state == DivaDeserializerState::ExpectChecksum);
    assert(m3.checksum == add_mod(0xffu8, command + lenb + sum_bytes(data)));
    assert(m3.command == command);
    assert(m3.len == lenb);
    assert(deser_run(m, start + esc(command) + esc(lenb) + esc_all(data)).1
        =~= Seq::<FrameModel>::empty());

    // The checksum byte completes the frame.
    lemma_run_append(m, start + esc(command) + esc(lenb) + esc_all(data), esc(cs));
    assert(enc =~= start + esc(command) + esc(lenb) + esc_all(data) + esc(cs));
    lemma_esc_feed(m3, cs);
    let total = deliver(m3, cs);
    lemma_add_mod_assoc(0xffu8, command + lenb + sum_bytes(data), cs as int);
    assert(add_mod(0xffu8, command + lenb + sum_bytes(data) + cs) == 0u8) by {
        assert((0xff + command + data.len() + sum_bytes(data) + cs) % 0x100 == 0);
    }
    assert(total.1 == Some(FrameModel { command, len: lenb, data, checksum: cs }));
    assert(deser_run(m, enc).1 =~= seq![
        FrameModel { command, len: lenb, data, checksum: cs },
    ]);
}

/// Command byte of the reset frame.
pub const CMD_RESET: u8 = 0x10;

/// Command byte of the info request frame.
pub const CMD_INFO: u8 = 0xf0;

/// Command byte of the start frame.
pub const CMD_START: u8 = 0x03;

/// Command byte of the stop frame.
pub const CMD_STOP: u8 = 0x04;

/// Command byte of an inbound touch report.
pub const CMD_TOUCH: u8 = 0x01;

/// Command byte of an outbound lighting frame.
pub const CMD_LIGHTS: u8 = 0x02;

/// The handshake phases of a serial slider session.
#[derive(PartialEq, Eq, Structural, Clone, Copy, Debug)]
pub enum DivaSliderBootstrap {
    /// The reset frame has yet to be sent.
    Init,
    /// Waiting for the acknowledgement of the reset.
    AwaitReset,
    /// Waiting for any acknowledgement of the info request.
    AwaitInfo,
    /// Streaming touch reports in, lighting frames out.
    ReadLoop,
    /// The stop frame has been sent.
    Halt,
}

/// Whether a frame acknowledges the reset: the reset command, no payload and
/// the matching checksum.
pub open spec fn is_reset_ack(p: DivaPacket) -> bool {
    p.command == CMD_RESET && p.len == 0 && p.checksum == 0xf1
}

/// Whether a frame is a touch report: 32 payload bytes of pad pressure.
pub open spec fn is_touch_report(p: DivaPacket) -> bool {
    p.command == CMD_TOUCH && p.len == 32
}

/// Index of the first reset acknowledgement of `s` at or past `k`, or the
/// length of `s` when there is none.
pub open spec fn find_reset_ack(s: Seq<DivaPacket>, k: int) -> int
    decreases s.len() - k,
{
    if k < 0 || k >= s.len() {
        s.len() as int
    } else if is_reset_ack(s[k]) {
        k
    } else {
        find_reset_ack(s, k + 1)
    }
}

/// The ground bytes of the last touch report of `s`, or nothing when `s`
/// carries none.
pub open spec fn last_touch_report(s: Seq<DivaPacket>) -> Option<Seq<u8>>
    decreases s.len(),
{
    if s.len() == 0 {
        None
    } else if is_touch_report(s.last()) {
        Some(s.last().data@)
    } else {
        last_touch_report(s.drop_last())
    }
}

/// Pixel `j` of an outbound lighting payload `r` carries, in BRG order, the
/// channels of ground pixel `30 - j` of `g`.
pub open spec fn diva_pixel_brg(r: Seq<u8>, g: Seq<u8>, j: int) -> bool {
    &&& r[1 + 3 * j] == g[3 * (30 - j) + 2]
    &&& r[2 + 3 * j] == g[3 * (30 - j)]
    &&& r[3 + 3 * j] == g[3 * (30 - j) + 1]
}

/// Builds the payload of an outbound lighting frame: one brightness byte,
/// then the 31 ground pixels in reverse order, each with its channels
/// reordered from RGB to BRG.
pub fn diva_lights_payload(brightness: u8, ground: &Vec<u8>) -> (r: Vec<u8>)
    requires
        ground@.len() == 93,
    ensures
        r@.len() == 94,
        r@[0] == brightness,
        forall|j: int| 0 <= j < 31 ==> #[trigger] diva_pixel_brg(r@, ground@, j),
{
    let mut r: Vec<u8> = Vec::new();
    r.push(brightness);
    let mut j: usize = 0;
    while j < 31
        invariant
            ground@.len() == 93,
            j <= 31,
            r@.len() == 1 + 3 * j,
            r@[0] == brightness,
            forall|i: int| 0 <= i < j ==> #[trigger] diva_pixel_brg(r@, ground@, i),
        decreases 31 - j,
    {
        let ghost prev = r@;
        r.push(ground[3 * (30 - j) + 2]);
        r.push(ground[3 * (30 - j)]);
        r.push(ground[3 * (30 - j) + 1]);
        proof {
            assert forall|i: int| 0 <= i < j + 1 implies #[trigger] diva_pixel_brg(
                r@,
                ground@,
                i,
            ) by {
                if i < j {
                    assert(diva_pixel_brg(prev, ground@, i));
                    assert(r@[1 + 3 * i] == prev[1 + 3 * i]);
                    assert(r@[2 + 3 * i] == prev[2 + 3 * i]);
                    assert(r@[3 + 3 * i] == prev[3 + 3 * i]);
                } else {
                    assert(r@[1 + 3 * i] == ground@[3 * (30 - i) + 2]);
                    assert(r@[2 + 3 * i] == ground@[3 * (30 - i)]);
                    assert(r@[3 + 3 * i] == ground@[3 * (30 - i) + 1]);
                }
            }
        }
        j = j + 1;
    }
    r
}

/// The decision core of a serial slider session: the handshake phase and the
/// brightness byte of outbound lighting frames. The surrounding worker owns
/// the port; this core turns received frames into state changes and frames to
/// send.
pub struct DivaSliderCore {
    /// The handshake phase.
    pub bootstrap: DivaSliderBootstrap,
    /// Brightness byte sent with every lighting frame.
    pub brightness: u8,
}

impl DivaSliderCore {
    /// A session that has yet to send its reset frame.
    pub fn new(brightness: u8) -> (r: Self)
        ensures
            r.bootstrap == DivaSliderBootstrap::Init,
            r.brightness == brightness,
    {
        DivaSliderCore { bootstrap: DivaSliderBootstrap::Init, brightness }
    }

    /// One session step. Consumes received frames from the front of
    /// `in_packets`, moves the handshake along, writes fresh touch reports
    /// into `input`, and appends the frames to send to `out`:
    ///
    /// - `Init` enqueues the reset frame and awaits its acknowledgement;
    /// - `AwaitReset` drops frames up to the first reset acknowledgement and
    ///   then enqueues the info request;
    /// - `AwaitInfo` takes any one frame as the acknowledgement and enqueues
    ///   the start frame;
    /// - `ReadLoop` copies the last touch report into the input slot and,
    ///   when the lighting slot is dirty or the keep-alive is due, consumes
    ///   the lighting frame and enqueues it;
    /// - `Halt` does nothing.
    ///
    /// Returns whether any input was taken or any frame was enqueued.
    pub fn advance(
        &mut self,
        in_packets: &mut Vec<DivaPacket>,
        input: &mut SliderInput,
        lights: &mut SliderLights,
        keepalive_due: bool,
        out: &mut Vec<DivaPacket>,
    ) -> (work: bool)
        requires
            old(input).wf(),
            old(lights).wf(),
            forall|i: int| 0 <= i < old(in_packets)@.len() ==> (#[trigger] old(in_packets)@[i]).wf(),
        ensures
            final(self).brightness == old(self).brightness,
            final(input).wf(),
            final(lights).wf(),
            final(out)@.len() >= old(out)@.len(),
            final(out)@.subrange(0, old(out)@.len() as int) == old(out)@,
            match old(self).bootstrap {
                DivaSliderBootstrap::Init => {
                    &&& final(self).bootstrap == DivaSliderBootstrap::AwaitReset
                    &&& final(in_packets)@ == old(in_packets)@
                    &&& *final(input) == *old(input)
                    &&& *final(lights) == *old(lights)
                    &&& final(out)@.len() == old(out)@.len() + 1
                    &&& frame_of(final(out)@.last()) == (FrameModel {
                        command: CMD_RESET,
                        len: 0u8,
                        data: Seq::<u8>::empty(),
                        checksum: checksum_spec(CMD_RESET, Seq::<u8>::empty()),
                    })
                    &&& work
                },
                DivaSliderBootstrap::AwaitReset => {
                    let hit = find_reset_ack(old(in_packets)@, 0);
                    &&& *final(input) == *old(input)
                    &&& *final(lights) == *old(lights)
                    &&& if hit < old(in_packets)@.len() {
                        &&& final(self).bootstrap == DivaSliderBootstrap::AwaitInfo
                        &&& final(in_packets)@ == old(in_packets)@.subrange(
                            hit + 1,
                            old(in_packets)@.len() as int,
                        )
                        &&& final(out)@.len() == old(out)@.len() + 1
                        &&& frame_of(final(out)@.last()) == (FrameModel {
                            command: CMD_INFO,
                            len: 0u8,
                            data: Seq::<u8>::empty(),
                            checksum: checksum_spec(CMD_INFO, Seq::<u8>::empty()),
                        })
                        &&& work
                    } else {
                        &&& final(self).bootstrap == DivaSliderBootstrap::AwaitReset
                        &&& final(in_packets)@ =~= Seq::<DivaPacket>::empty()
                        &&& final(out)@ == old(out)@
                        &&& !work
                    }
                },
                DivaSliderBootstrap::AwaitInfo => {
                    &&& *final(input) == *old(input)
                    &&& *final(lights) == *old(lights)
                    &&& if old(in_packets)@.len() > 0 {
                        &&& final(self).bootstrap == DivaSliderBootstrap::ReadLoop
                        &&& final(in_packets)@ == old(in_packets)@.subrange(
                            1,
                            old(in_packets)@.len() as int,
                        )
                        &&& final(out)@.len() == old(out)@.len() + 1
                        &&& frame_of(final(out)@.last()) == (FrameModel {
                            command: CMD_START,
                            len: 0u8,
                            data: Seq::<u8>::empty(),
                            checksum: checksum_spec(CMD_START, Seq::<u8>::empty()),
                        })
                        &&& work
                    } else {
                        &&& final(self).bootstrap == DivaSliderBootstrap::AwaitInfo
                        &&& final(in_packets)@ == old(in_packets)@
                        &&& final(out)@ == old(out)@
                        &&& !work
                    }
                },
                DivaSliderBootstrap::ReadLoop => {
                    let touched = last_touch_report(old(in_packets)@);
                    let send_lights = old(lights).dirty || keepalive_due;
                    &&& final(self).bootstrap == DivaSliderBootstrap::ReadLoop
                    &&& final(in_packets)@ =~= Seq::<DivaPacket>::empty()
                    &&& final(input).ground@ == (match touched {
                        Some(g) => g,
                        None => old(input).ground@,
                    })
                    &&& final(input).air@ == old(input).air@
                    &&& final(input).extra@ == old(input).extra@
                    &&& final(lights).ground@ == old(lights).ground@
                    &&& final(lights).air_left@ == old(lights).air_left@
                    &&& final(lights).air_right@ == old(lights).air_right@
                    &&& final(lights).dirty == false
                    &&& if send_lights {
                        &&& final(out)@.len() == old(out)@.len() + 1
                        &&& ({
                            let f = frame_of(final(out)@.last());
                            &&& f.command == CMD_LIGHTS
                            &&& f.len == 94
                            &&& f.data.len() == 94
                            &&& f.data[0] == old(self).brightness
                            &&& forall|j: int|
                                0 <= j < 31 ==> #[trigger] diva_pixel_brg(
                                    f.data,
                                    old(lights).ground@,
                                    j,
                                )
                            &&& f.checksum == checksum_spec(CMD_LIGHTS, f.data)
                        })
                    } else {
                        final(out)@ == old(out)@
                    }
                    &&& work == (touched is Some || send_lights)
                },
                DivaSliderBootstrap::Halt => {
                    &&& final(self).bootstrap == DivaSliderBootstrap::Halt
                    &&& final(in_packets)@ == old(in_packets)@
                    &&& *final(input) == *old(input)
                    &&& *final(lights) == *old(lights)
                    &&& final(out)@ == old(out)@
                    &&& !work
                },
            },
    {
        match self.bootstrap {
            DivaSliderBootstrap::Init => {
                let reset_packet = DivaPacket::from_bytes(CMD_RESET, &[]);
                proof {
                    assert(reset_packet.data@ =~= Seq::<u8>::empty());
                }
                out.push(reset_packet);
                proof {
                    assert(out@.subrange(0, old(out)@.len() as int) =~= old(out)@);
                }
                self.bootstrap = DivaSliderBootstrap::AwaitReset;
                true
            },
            DivaSliderBootstrap::AwaitReset => {
                let n = in_packets.len();
                let mut i: usize = 0;
                let mut found = false;
                while i < n && !found
                    invariant
                        n == in_packets@.len(),
                        in_packets@ == old(in_packets)@,
                        i <= n,
                        forall|k: int| 0 <= k < i ==> !is_reset_ack(#[trigger] in_packets@[k]),
                        found ==> i < n && is_reset_ack(in_packets@[i as int]),
                    decreases n - i + (if found {
                        0int
                    } else {
                        1int
                    }),
                {
                    let hit = in_packets[i].command == CMD_RESET && in_packets[i].len == 0x00
                        && in_packets[i].checksum == 0xf1;
                    if hit {
                        found = true;
                    } else {
                        i = i + 1;
                    }
                }
                proof {
                    lemma_find_skip(old(in_packets)@, 0, i as int);
                }
                if found {
                    proof {
                        assert(find_reset_ack(old(in_packets)@, i as int) == i);
                    }
                    let mut rest = in_packets.split_off(i + 1);
                    in_packets.clear();
                    in_packets.append(&mut rest);
                    proof {
                        assert(in_packets@ =~= old(in_packets)@.subrange(
                            i + 1 as int,
                            old(in_packets)@.len() as int,
                        ));
                    }
                    let info_packet = DivaPacket::from_bytes(CMD_INFO, &[]);
                proof {
                    assert(info_packet.data@ =~= Seq::<u8>::empty());
                }
                    out.push(info_packet);
                    proof {
                        assert(out@.subrange(0, old(out)@.len() as int) =~= old(out)@);
                    }
                    self.bootstrap = DivaSliderBootstrap::AwaitInfo;
                    true
                } else {
                    proof {
                        assert(i == n);
                        assert(find_reset_ack(old(in_packets)@, i as int) == old(
                            in_packets,
                        )@.len());
                    }
                    in_packets.clear();
                    proof {
                        assert(out@.subrange(0, old(out)@.len() as int) =~= old(out)@);
                    }
                    false
                }
            },
            DivaSliderBootstrap::AwaitInfo => {
                if in_packets.len() > 0 {
                    let _ack_packet = in_packets.remove(0);
                    let start_packet = DivaPacket::from_bytes(CMD_START, &[]);
                proof {
                    assert(start_packet.data@ =~= Seq::<u8>::empty());
                }
                    out.push(start_packet);
                    proof {
                        assert(out@.subrange(0, old(out)@.len() as int) =~= old(out)@);
                    }
                    self.bootstrap = DivaSliderBootstrap::ReadLoop;
                    true
                } else {
                    proof {
                        assert(out@.subrange(0, old(out)@.len() as int) =~= old(out)@);
                    }
                    false
                }
            },
            DivaSliderBootstrap::ReadLoop => {
                let n = in_packets.len();
                let mut j: usize = 0;
                let mut has_hit = false;
                let mut last_hit: usize = 0;
                while j < n
                    invariant
                        n == in_packets@.len(),
                        in_packets@ == old(in_packets)@,
                        forall|k: int|
                            0 <= k < in_packets@.len() ==> (#[trigger] in_packets@[k]).wf(),
                        j <= n,
                        has_hit ==> last_hit < j && is_touch_report(in_packets@[last_hit as int])
                            && forall|k: int|
                            last_hit < k < j ==> !is_touch_report(#[trigger] in_packets@[k]),
                        !has_hit ==> forall|k: int|
                            0 <= k < j ==> !is_touch_report(#[trigger] in_packets@[k]),
                    decreases n - j,
                {
                    let hit = in_packets[j].command == CMD_TOUCH && in_packets[j].len == 32;
                    if hit {
                        has_hit = true;
                        last_hit = j;
                    }
                    j = j + 1;
                }
                let mut work = false;
                if has_hit {
                    input.ground.clear();
                    input.ground.extend_from_slice(in_packets[last_hit].data.as_slice());
                    work = true;
                    proof {
                        assert(Seq::<u8>::empty() + in_packets@[last_hit as int].data@
                            =~= in_packets@[last_hit as int].data@);
                        lemma_last_touch_some(old(in_packets)@, last_hit as int);
                    }
                } else {
                    proof {
                        lemma_no_touch(old(in_packets)@);
                    }
                }
                in_packets.clear();
                let send_lights = lights.dirty || keepalive_due;
                if send_lights {
                    let payload = diva_lights_payload(self.brightness, &lights.ground);
                    lights.dirty = false;
                    let lights_packet = DivaPacket::from_bytes(CMD_LIGHTS, payload.as_slice());
                    out.push(lights_packet);
                    proof {
                        assert(out@.subrange(0, old(out)@.len() as int) =~= old(out)@);
                    }
                    work = true;
                } else {
                    proof {
                        assert(out@.subrange(0, old(out)@.len() as int) =~= old(out)@);
                    }
                }
                work
            },
            DivaSliderBootstrap::Halt => {
                proof {
                    assert(out@.subrange(0, old(out)@.len() as int) =~= old(out)@);
                }
                false
            },
        }
    }

    /// Ends the session: enqueues the stop frame, as sent when the worker is
    /// dropped mid-stream.
    pub fn halt(&mut self, out: &mut Vec<DivaPacket>)
        ensures
            final(self).brightness == old(self).brightness,
            final(self).bootstrap == DivaSliderBootstrap::Halt,
            if old(self).bootstrap == DivaSliderBootstrap::ReadLoop {
                final(out)@.len() == old(out)@.len() + 1 && final(out)@.drop_last() == old(out)@
                    && frame_of(final(out)@.last()) == (FrameModel {
                    command: CMD_STOP,
                    len: 0u8,
                    data: Seq::<u8>::empty(),
                    checksum: checksum_spec(CMD_STOP, Seq::<u8>::empty()),
                })
            } else {
                final(out)@ == old(out)@
            },
    {
        match self.bootstrap {
            DivaSliderBootstrap::ReadLoop => {
                let stop_packet = DivaPacket::from_bytes(CMD_STOP, &[]);
                proof {
                    assert(stop_packet.data@ =~= Seq::<u8>::empty());
                }
                out.push(stop_packet);
                proof {
                    assert(out@.drop_last() =~= old(out)@);
                }
            },
            _ => {},
        }
        self.bootstrap = DivaSliderBootstrap::Halt;
    }
}

/// Skipping entries that are no reset acknowledgement does not move the first
/// hit.
pub proof fn lemma_find_skip(s: Seq<DivaPacket>, lo: int, i: int)
    requires
        0 <= lo <= i <= s.len(),
        forall|k: int| lo <= k < i ==> !is_reset_ack(#[trigger] s[k]),
    ensures
        find_reset_ack(s, lo) == find_reset_ack(s, i),
    decreases i - lo,
{
    if lo < i {
        lemma_find_skip(s, lo + 1, i);
    }
}

/// The last touch report of `s` is the one at `idx` when nothing past it is
/// one.
pub proof fn lemma_last_touch_some(s: Seq<DivaPacket>, idx: int)
    requires
        0 <= idx < s.len(),
        is_touch_report(s[idx]),
        forall|k: int| idx < k < s.len() ==> !is_touch_report(#[trigger] s[k]),
    ensures
        last_touch_report(s) == Some(s[idx].data@),
    decreases s.len(),
{
    if idx == s.len() - 1 {
    } else {
        assert(!is_touch_report(s.last()));
        assert forall|k: int| idx < k < s.drop_last().len() implies !is_touch_report(
            #[trigger] s.drop_last()[k],
        ) by {
            assert(s.drop_last()[k] == s[k]);
        }
        assert(s.drop_last()[idx] == s[idx]);
        lemma_last_touch_some(s.drop_last(), idx);
    }
}

/// Without a touch report there is no last one.
pub proof fn lemma_no_touch(s: Seq<DivaPacket>)
    requires
        forall|k: int| 0 <= k < s.len() ==> !is_touch_report(#[trigger] s[k]),
    ensures
        last_touch_report(s) is None,
    decreases s.len(),
{
    if s.len() > 0 {
        assert forall|k: int| 0 <= k < s.drop_last().len() implies !is_touch_report(
            #[trigger] s.drop_last()[k],
        ) by {
            assert(s.drop_last()[k] == s[k]);
        }
        lemma_no_touch(s.drop_last());
    }
}

} // verus!
