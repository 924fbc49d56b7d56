//! Framed USB transfer protocols of the supported slider models: fixed-size
//! read buffers, the per-model input decoders, and the per-model LED frame
//! encoders.

use vstd::prelude::*;
use crate::state::{SliderInput, SliderLights};

verus! {

/// Size of a staging buffer, larger than any frame of the supported models.
pub const BUFFER_SIZE: usize = 256;

/// A fixed-size transfer buffer holding `len` meaningful bytes.
pub struct Buffer {
    /// The backing bytes; only the first `len` carry data.
    pub data: Vec<u8>,
    /// How many bytes are meaningful.
    pub len: usize,
}

impl Buffer {
    /// The backing store has its fixed size and the fill level fits in it.
    pub open spec fn wf(&self) -> bool {
        &&& self.data@.len() == BUFFER_SIZE
        &&& self.len <= BUFFER_SIZE
    }

    /// The meaningful bytes.
    pub open spec fn view_bytes(&self) -> Seq<u8> {
        self.data@.subrange(0, self.len as int)
    }

    /// An empty buffer.
    pub fn new() -> (r: Self)
        ensures
            r.wf(),
            r.len == 0,
            r.data@ =~= Seq::new(BUFFER_SIZE as nat, |i: int| 0u8),
    {
        Buffer { data: vec![0u8; 256], len: 0 }
    }

    /// The meaningful bytes, as a slice.
    pub fn slice(&self) -> (r: &[u8])
        requires
            self.wf(),
        ensures
            r@ == self.view_bytes(),
    {
        vstd::slice::slice_subrange(self.data.as_slice(), 0, self.len)
    }
}

/// Whether two buffers hold the same meaningful bytes.
pub fn buffer_eq(a: &Buffer, b: &Buffer) -> (r: bool)
    requires
        a.wf(),
        b.wf(),
    ensures
        r == (a.view_bytes() == b.view_bytes()),
{
    if a.len != b.len {
        proof {
            assert(a.view_bytes().len() != b.view_bytes().len());
        }
        return false;
    }
    let mut i: usize = 0;
    while i < a.len
        invariant
            a.wf(),
            b.wf(),
            a.len == b.len,
            i <= a.len,
            forall|j: int| 0 <= j < i ==> a.view_bytes()[j] == b.view_bytes()[j],
        decreases a.len - i,
    {
        if a.data[i] != b.data[i] {
            proof {
                assert(a.view_bytes()[i as int] != b.view_bytes()[i as int]);
            }
            return false;
        }
        i = i + 1;
    }
    proof {
        assert(a.view_bytes() =~= b.view_bytes());
    }
    true
}

/// Whether a fresh read makes progress: it holds bytes and differs from the
/// last accepted read.
pub fn read_is_fresh(read_buf: &Buffer, last_read_buf: &Buffer) -> (r: bool)
    requires
        read_buf.wf(),
        last_read_buf.wf(),
    ensures
        r == (read_buf.len != 0 && read_buf.view_bytes() != last_read_buf.view_bytes()),
{
    read_buf.len != 0 && !buffer_eq(read_buf, last_read_buf)
}

/// How an LED frame is written to the device.
#[derive(PartialEq, Eq, Structural, Clone, Copy, Debug)]
pub enum WriteType {
    /// A bulk transfer.
    Bulk,
    /// An interrupt transfer.
    Interrupt,
}

/// One LED output channel of a model: its transfer type, its endpoint, and
/// the staging buffer the encoder fills.
pub struct LedSpec {
    /// The transfer type.
    pub led_write_type: WriteType,
    /// The endpoint address.
    pub led_endpoint: u8,
    /// The staged frame; empty when nothing is waiting to be sent.
    pub led_buf: Buffer,
}

impl LedSpec {
    /// The staging buffer is well formed.
    pub open spec fn wf(&self) -> bool {
        self.led_buf.wf()
    }

    /// An LED channel with an empty staging buffer.
    pub fn new(led_write_type: WriteType, led_endpoint: u8) -> (r: Self)
        ensures
            r.wf(),
            r.led_write_type == led_write_type,
            r.led_endpoint == led_endpoint,
            r.led_buf.len == 0,
    {
        LedSpec { led_write_type, led_endpoint, led_buf: Buffer::new() }
    }

    /// Marks the staged frame as sent when the device accepted all bytes plus
    /// the report byte, freeing the buffer.
    pub fn mark_sent(&mut self, bytes_sent: usize) -> (r: bool)
        requires
            old(self).wf(),
        ensures
            final(self).wf(),
            r == (bytes_sent == old(self).led_buf.len + 1),
            final(self).led_buf.len == (if r {
                0usize
            } else {
                old(self).led_buf.len
            }),
            final(self).led_buf.data@ == old(self).led_buf.data@,
            final(self).led_write_type == old(self).led_write_type,
            final(self).led_endpoint == old(self).led_endpoint,
    {
        if bytes_sent == self.led_buf.len + 1 {
            self.led_buf.len = 0;
            true
        } else {
            false
        }
    }
}

/// Zeroes the air state after a decode, for configurations that disable the
/// air strings.
pub fn disable_air(input: &mut SliderInput)
    requires
        old(input).wf(),
    ensures
        final(input).wf(),
        final(input).ground@ == old(input).ground@,
        final(input).air@ =~= Seq::new(6nat, |i: int| 0u8),
        final(input).extra@ == old(input).extra@,
{
    let mut i: usize = 0;
    while i < 6
        invariant
            input.wf(),
            input.ground@ == old(input).ground@,
            input.extra@ == old(input).extra@,
            i <= 6,
            forall|j: int| 0 <= j < i ==> input.air@[j] == 0,
            forall|j: int| i <= j < 6 ==> input.air@[j] == old(input).air@[j],
        decreases 6 - i,
    {
        input.air[i] = 0;
        i = i + 1;
    }
}

/// Bit `i` of a byte, as 0 or 1.
pub open spec fn bit_of(b: u8, i: int) -> u8 {
    (b >> (i as u8)) & 1
}

/// Reads bit `i` of a byte, as 0 or 1.
pub fn bit_at(b: u8, i: u8) -> (r: u8)
    requires
        i < 8,
    ensures
        r == bit_of(b, i as int),
        r <= 1,
{
    let r = (b >> i) & 1;
    proof {
        assert((b >> i) & 1 <= 1) by (bit_vector);
    }
    r
}

/// Bit `j` of a little-endian bit stream over `bytes`.
pub open spec fn stream_bit(bytes: Seq<u8>, j: int) -> u8 {
    bit_of(bytes[j / 8], j % 8)
}

/// Bit `k` of the masked Hori bit stream: bytes 1..8 of the frame, each XORed
/// with `0x80`.
pub open spec fn hori_bit(bytes: Seq<u8>, k: int) -> u8 {
    bit_of(bytes[1 + k / 8] ^ 0x80, k % 8)
}

/// A pressure of 0 or 255 from a single bit.
pub open spec fn amplify(bit: u8) -> u8 {
    if bit == 0 {
        0u8
    } else {
        255u8
    }
}

/// Decodes a Tasoller-one frame: 11 bytes read as 88 little-endian bits.
/// Bits 34..66 become full-or-no pressure per pad (vertically flipped), bits
/// 28..34 the air beams, bits 26..28 the first two extra buttons. A frame of
/// any other length is ignored.
pub fn tasoller_one_decode(buf: &Buffer, input: &mut SliderInput)
    requires
        buf.wf(),
        old(input).wf(),
    ensures
        final(input).wf(),
        buf.len != 11 ==> *final(input) == *old(input),
        buf.len == 11 ==> {
            let bytes = buf.view_bytes();
            &&& final(input).ground@ =~= SliderInput::flip_vert_spec(
                Seq::new(32nat, |i: int| amplify(stream_bit(bytes, 34 + i))),
            )
            &&& forall|i: int| 0 <= i < 6 ==> final(input).air@[i] == stream_bit(bytes, 28 + i)
            &&& final(input).extra@[0] == stream_bit(bytes, 26)
            &&& final(input).extra@[1] == stream_bit(bytes, 27)
            &&& final(input).extra@[2] == old(input).extra@[2]
        },
{
    if buf.len != 11 {
        return ;
    }
    let ghost bytes = buf.view_bytes();
    let mut i: usize = 0;
    while i < 32
        invariant
            buf.wf(),
            buf.len == 11,
            bytes == buf.view_bytes(),
            input.wf(),
            input.air@ == old(input).air@,
            input.extra@ == old(input).extra@,
            i <= 32,
            forall|j: int| 0 <= j < i ==> input.ground@[j] == amplify(stream_bit(bytes, 34 + j)),
        decreases 32 - i,
    {
        let j = 34 + i;
        let b = bit_at(buf.data[j / 8], (j % 8) as u8);
        proof {
            assert(buf.view_bytes()[j as int / 8] == buf.data@[j as int / 8]);
        }
        input.ground[i] = if b == 0 {
            0
        } else {
            255
        };
        i = i + 1;
    }
    input.flip_vert();
    proof {
        assert(input.ground@ =~= SliderInput::flip_vert_spec(
            Seq::new(32nat, |i: int| amplify(stream_bit(bytes, 34 + i))),
        ));
    }
    let mut i: usize = 0;
    while i < 6
        invariant
            buf.wf(),
            buf.len == 11,
            bytes == buf.view_bytes(),
            input.wf(),
            input.ground@ == SliderInput::flip_vert_spec(
                Seq::new(32nat, |i: int| amplify(stream_bit(bytes, 34 + i))),
            ),
            input.extra@ == old(input).extra@,
            i <= 6,
            forall|j: int| 0 <= j < i ==> input.air@[j] == stream_bit(bytes, 28 + j),
            forall|j: int| i <= j < 6 ==> input.air@[j] == old(input).air@[j],
        decreases 6 - i,
    {
        let j = 28 + i;
        let b = bit_at(buf.data[j / 8], (j % 8) as u8);
        proof {
            assert(buf.view_bytes()[j as int / 8] == buf.data@[j as int / 8]);
        }
        input.air[i] = b;
        i = i + 1;
    }
    let b26 = bit_at(buf.data[3], 2);
    let b27 = bit_at(buf.data[3], 3);
    proof {
        assert(buf.view_bytes()[3] == buf.data@[3]);
        assert(26int / 8 == 3 && 26int % 8 == 2);
        assert(27int / 8 == 3 && 27int % 8 == 3);
    }
    input.extra[0] = b26;
    input.extra[1] = b27;
}

/// Decodes a Tasoller-two frame: 36 bytes. Bytes 4..36 are pad pressures
/// (vertically flipped), the low six bits of byte 3 the air beams, its top
/// two bits the first two extra buttons. A frame of any other length is
/// ignored.
pub fn tasoller_two_decode(buf: &Buffer, input: &mut SliderInput)
    requires
        buf.wf(),
        old(input).wf(),
    ensures
        final(input).wf(),
        buf.len != 36 ==> *final(input) == *old(input),
        buf.len == 36 ==> {
            let bytes = buf.view_bytes();
            &&& final(input).ground@ =~= SliderInput::flip_vert_spec(bytes.subrange(4, 36))
            &&& forall|i: int| 0 <= i < 6 ==> final(input).air@[i] == bit_of(bytes[3], i)
            &&& final(input).extra@[0] == bit_of(bytes[3], 6)
            &&& final(input).extra@[1] == bit_of(bytes[3], 7)
            &&& final(input).extra@[2] == old(input).extra@[2]
        },
{
    if buf.len != 36 {
        return ;
    }
    let ghost bytes = buf.view_bytes();
    let mut i: usize = 0;
    while i < 32
        invariant
            buf.wf(),
            buf.len == 36,
            bytes == buf.view_bytes(),
            input.wf(),
            input.air@ == old(input).air@,
            input.extra@ == old(input).extra@,
            i <= 32,
            forall|j: int| 0 <= j < i ==> input.ground@[j] == bytes[4 + j],
        decreases 32 - i,
    {
        let v = buf.data[4 + i];
        proof {
            assert(bytes[4 + i as int] == buf.data@[4 + i as int]);
        }
        input.ground[i] = v;
        i = i + 1;
    }
    input.flip_vert();
    proof {
        assert(input.ground@ =~= SliderInput::flip_vert_spec(bytes.subrange(4, 36)));
    }
    let b3 = buf.data[3];
    proof {
        assert(bytes[3] == buf.data@[3]);
    }
    let mut i: usize = 0;
    while i < 6
        invariant
            input.wf(),
            input.ground@ == SliderInput::flip_vert_spec(bytes.subrange(4, 36)),
            input.extra@ == old(input).extra@,
            i <= 6,
            forall|j: int| 0 <= j < i ==> input.air@[j] == bit_of(b3, j),
            forall|j: int| i <= j < 6 ==> input.air@[j] == old(input).air@[j],
        decreases 6 - i,
    {
        input.air[i] = bit_at(b3, i as u8);
        i = i + 1;
    }
    input.extra[0] = bit_at(b3, 6);
    input.extra[1] = bit_at(b3, 7);
}

/// Decodes a Yuancon frame: 34 or 35 bytes. Bytes 2..34 are pad pressures,
/// the low six bits of byte 0 the air beams with the two beams of each pair
/// swapped, the low three bits of byte 1 the extra buttons in reverse order.
/// A frame of any other length is ignored.
pub fn yuancon_decode(buf: &Buffer, input: &mut SliderInput)
    requires
        buf.wf(),
        old(input).wf(),
    ensures
        final(input).wf(),
        buf.len != 34 && buf.len != 35 ==> *final(input) == *old(input),
        buf.len == 34 || buf.len == 35 ==> {
            let bytes = buf.view_bytes();
            &&& final(input).ground@ =~= bytes.subrange(2, 34)
            &&& forall|i: int|
                0 <= i < 6 ==> final(input).air@[i] == bit_of(
                    bytes[0],
                    SliderInput::flip_idx(i),
                )
            &&& forall|i: int| 0 <= i < 3 ==> final(input).extra@[i] == bit_of(bytes[1], 2 - i)
        },
{
    if buf.len != 34 && buf.len != 35 {
        return ;
    }
    let ghost bytes = buf.view_bytes();
    let mut i: usize = 0;
    while i < 32
        invariant
            buf.wf(),
            buf.len == 34 || buf.len == 35,
            bytes == buf.view_bytes(),
            input.wf(),
            input.air@ == old(input).air@,
            input.extra@ == old(input).extra@,
            i <= 32,
            forall|j: int| 0 <= j < i ==> input.ground@[j] == bytes[2 + j],
        decreases 32 - i,
    {
        let v = buf.data[2 + i];
        proof {
            assert(bytes[2 + i as int] == buf.data@[2 + i as int]);
        }
        input.ground[i] = v;
        i = i + 1;
    }
    let b0 = buf.data[0];
    let b1 = buf.data[1];
    proof {
        assert(bytes[0] == buf.data@[0]);
        assert(bytes[1] == buf.data@[1]);
    }
    let mut i: usize = 0;
    while i < 6
        invariant
            input.wf(),
            input.ground@ =~= bytes.subrange(2, 34),
            input.extra@ == old(input).extra@,
            i <= 6,
            forall|j: int| 0 <= j < i ==> input.air@[j] == bit_of(b0, SliderInput::flip_idx(j)),
            forall|j: int| i <= j < 6 ==> input.air@[j] == old(input).air@[j],
        decreases 6 - i,
    {
        let src = if i % 2 == 0 {
            i + 1
        } else {
            i - 1
        };
        input.air[i] = bit_at(b0, src as u8);
        i = i + 1;
    }
    input.extra[0] = bit_at(b1, 2);
    input.extra[1] = bit_at(b1, 1);
    input.extra[2] = bit_at(b1, 0);
}

/// Decodes a Yubideck frame: 45 or 46 bytes with the Yuancon layout, the pad
/// pressures vertically flipped. A frame of any other length is ignored.
pub fn yubideck_decode(buf: &Buffer, input: &mut SliderInput)
    requires
        buf.wf(),
        old(input).wf(),
    ensures
        final(input).wf(),
        buf.len != 45 && buf.len != 46 ==> *final(input) == *old(input),
        buf.len == 45 || buf.len == 46 ==> {
            let bytes = buf.view_bytes();
            &&& final(input).ground@ =~= SliderInput::flip_vert_spec(bytes.subrange(2, 34))
            &&& forall|i: int|
                0 <= i < 6 ==> final(input).air@[i] == bit_of(
                    bytes[0],
                    SliderInput::flip_idx(i),
                )
            &&& forall|i: int| 0 <= i < 3 ==> final(input).extra@[i] == bit_of(bytes[1], 2 - i)
        },
{
    if buf.len != 45 && buf.len != 46 {
        return ;
    }
    let ghost bytes = buf.view_bytes();
    let mut i: usize = 0;
    while i < 32
        invariant
            buf.wf(),
            buf.len == 45 || buf.len == 46,
            bytes == buf.view_bytes(),
            input.wf(),
            input.air@ == old(input).air@,
            input.extra@ == old(input).extra@,
            i <= 32,
            forall|j: int| 0 <= j < i ==> input.ground@[j] == bytes[2 + j],
        decreases 32 - i,
    {
        let v = buf.data[2 + i];
        proof {
            assert(bytes[2 + i as int] == buf.data@[2 + i as int]);
        }
        input.ground[i] = v;
        i = i + 1;
    }
    input.flip_vert();
    proof {
        assert(input.ground@ =~= SliderInput::flip_vert_spec(bytes.subrange(2, 34)));
    }
    let b0 = buf.data[0];
    let b1 = buf.data[1];
    proof {
        assert(bytes[0] == buf.data@[0]);
        assert(bytes[1] == buf.data@[1]);
    }
    let mut i: usize = 0;
    while i < 6
        invariant
            input.wf(),
            input.ground@ == SliderInput::flip_vert_spec(bytes.subrange(2, 34)),
            input.extra@ == old(input).extra@,
            i <= 6,
            forall|j: int| 0 <= j < i ==> input.air@[j] == bit_of(b0, SliderInput::flip_idx(j)),
            forall|j: int| i <= j < 6 ==> input.air@[j] == old(input).air@[j],
        decreases 6 - i,
    {
        let src = if i % 2 == 0 {
            i + 1
        } else {
            i - 1
        };
        input.air[i] = bit_at(b0, src as u8);
        i = i + 1;
    }
    input.extra[0] = bit_at(b1, 2);
    input.extra[1] = bit_at(b1, 1);
    input.extra[2] = bit_at(b1, 0);
}

/// Decodes a HoriPad frame: 9 bytes, of which bytes 1..8 carry 56 bits each
/// masked with `0x80`. The top 32 bits in reverse order become full-or-no
/// pressure per pad, the low six bits the air beams; the extra buttons are
/// forced to zero. A frame of any other length is ignored.
pub fn hori_decode(buf: &Buffer, input: &mut SliderInput)
    requires
        buf.wf(),
        old(input).wf(),
    ensures
        final(input).wf(),
        buf.len != 9 ==> *final(input) == *old(input),
        buf.len == 9 ==> {
            let bytes = buf.view_bytes();
            &&& forall|i: int|
                0 <= i < 32 ==> final(input).ground@[i] == amplify(hori_bit(bytes, 55 - i))
            &&& forall|i: int| 0 <= i < 6 ==> final(input).air@[i] == hori_bit(bytes, i)
            &&& forall|i: int| 0 <= i < 3 ==> final(input).extra@[i] == 0
        },
{
    if buf.len != 9 {
        return ;
    }
    let ghost bytes = buf.view_bytes();
    let mut i: usize = 0;
    while i < 32
        invariant
            buf.wf(),
            buf.len == 9,
            bytes == buf.view_bytes(),
            input.wf(),
            input.air@ == old(input).air@,
            input.extra@ == old(input).extra@,
            i <= 32,
            forall|j: int| 0 <= j < i ==> input.ground@[j] == amplify(hori_bit(bytes, 55 - j)),
        decreases 32 - i,
    {
        let k = 55 - i;
        let b = bit_at(buf.data[1 + k / 8] ^ 0x80, (k % 8) as u8);
        proof {
            assert(bytes[1 + k as int / 8] == buf.data@[1 + k as int / 8]);
        }
        input.ground[i] = if b == 0 {
            0
        } else {
            255
        };
        i = i + 1;
    }
    let mut i: usize = 0;
    while i < 6
        invariant
            buf.wf(),
            buf.len == 9,
            bytes == buf.view_bytes(),
            input.wf(),
            forall|j: int| 0 <= j < 32 ==> input.ground@[j] == amplify(hori_bit(bytes, 55 - j)),
            input.extra@ == old(input).extra@,
            i <= 6,
            forall|j: int| 0 <= j < i ==> input.air@[j] == hori_bit(bytes, j),
            forall|j: int| i <= j < 6 ==> input.air@[j] == old(input).air@[j],
        decreases 6 - i,
    {
        let b = bit_at(buf.data[1 + i / 8] ^ 0x80, (i % 8) as u8);
        proof {
            assert(bytes[1 + i as int / 8] == buf.data@[1 + i as int / 8]);
        }
        input.air[i] = b;
        i = i + 1;
    }
    input.extra[0] = 0;
    input.extra[1] = 0;
    input.extra[2] = 0;
}

/// Pad pixel `j` of a Tasoller LED frame carries, in GRB order, the channels
/// of ground pixel `30 - j`.
pub open spec fn tas_pixel_grb(d: Seq<u8>, g: Seq<u8>, j: int) -> bool {
    &&& d[3 + 3 * j] == g[3 * (30 - j) + 1]
    &&& d[3 + 3 * j + 1] == g[3 * (30 - j)]
    &&& d[3 + 3 * j + 2] == g[3 * (30 - j) + 2]
}

/// Writes the 31 pad pixels of a Tasoller LED frame after the three header
/// bytes: ground pixels in reverse order, channels reordered from RGB to GRB.
fn tasoller_pixels(lights: &SliderLights, buf: &mut Buffer)
    requires
        lights.wf(),
        old(buf).wf(),
    ensures
        final(buf).wf(),
        final(buf).len == old(buf).len,
        final(buf).data@.len() == BUFFER_SIZE,
        forall|i: int| 0 <= i < 3 ==> final(buf).data@[i] == old(buf).data@[i],
        forall|j: int| 0 <= j < 31 ==> #[trigger] tas_pixel_grb(final(buf).data@, lights.ground@, j),
        forall|i: int| 96 <= i < BUFFER_SIZE ==> final(buf).data@[i] == old(buf).data@[i],
{
    let mut j: usize = 0;
    while j < 31
        invariant
            lights.wf(),
            buf.wf(),
            buf.len == old(buf).len,
            j <= 31,
            forall|i: int| 0 <= i < 3 ==> buf.data@[i] == old(buf).data@[i],
            forall|i: int| 0 <= i < j ==> #[trigger] tas_pixel_grb(buf.data@, lights.ground@, i),
            forall|i: int| 3 + 3 * j <= i < BUFFER_SIZE ==> buf.data@[i] == old(buf).data@[i],
        decreases 31 - j,
    {
        let ghost prev = buf.data@;
        buf.data[3 + 3 * j] = lights.ground[3 * (30 - j) + 1];
        buf.data[3 + 3 * j + 1] = lights.ground[3 * (30 - j)];
        buf.data[3 + 3 * j + 2] = lights.ground[3 * (30 - j) + 2];
        proof {
            assert forall|i: int| 0 <= i < j + 1 implies #[trigger] tas_pixel_grb(
                buf.data@,
                lights.ground@,
                i,
            ) by {
                if i < j {
                    assert(tas_pixel_grb(prev, lights.ground@, i));
                }
            }
        }
        j = j + 1;
    }
}

/// Encodes a Tasoller-one LED frame: 240 bytes beginning `B`, `L`, `0`, the
/// 31 pad pixels in reverse GRB order, then 144 zero bytes.
pub fn tasoller_one_led(lights: &SliderLights, buf: &mut Buffer)
    requires
        lights.wf(),
        old(buf).wf(),
    ensures
        final(buf).wf(),
        final(buf).len == 240,
        final(buf).data@[0] == 0x42,
        final(buf).data@[1] == 0x4c,
        final(buf).data@[2] == 0,
        forall|j: int| 0 <= j < 31 ==> #[trigger] tas_pixel_grb(final(buf).data@, lights.ground@, j),
        forall|i: int| 96 <= i < 240 ==> final(buf).data@[i] == 0,
{
    buf.len = 240;
    buf.data[0] = 0x42;
    buf.data[1] = 0x4c;
    buf.data[2] = 0;
    tasoller_pixels(lights, buf);
    let mut i: usize = 96;
    while i < 240
        invariant
            lights.wf(),
            buf.wf(),
            buf.len == 240,
            96 <= i <= 240,
            buf.data@[0] == 0x42,
            buf.data@[1] == 0x4c,
            buf.data@[2] == 0,
            forall|j: int| 0 <= j < 31 ==> #[trigger] tas_pixel_grb(buf.data@, lights.ground@, j),
            forall|k: int| 96 <= k < i ==> buf.data@[k] == 0,
        decreases 240 - i,
    {
        let ghost prev = buf.data@;
        buf.data[i] = 0;
        proof {
            assert forall|j: int| 0 <= j < 31 implies #[trigger] tas_pixel_grb(
                buf.data@,
                lights.ground@,
                j,
            ) by {
                assert(tas_pixel_grb(prev, lights.ground@, j));
            }
        }
        i = i + 1;
    }
}

/// Channel `ch` of air block `c` of a Tasoller-two frame: the left strip in
/// reverse order, then the right strip.
pub open spec fn tas_air_chan(al: Seq<u8>, ar: Seq<u8>, c: int, ch: int) -> u8 {
    if c < 3 {
        al[3 * (2 - c) + ch]
    } else {
        ar[3 * (c - 3) + ch]
    }
}

/// Repetition `idx` of air block `c` of a Tasoller-two frame carries, in GRB
/// order, the channels of its air pixel.
pub open spec fn tas_air_block(d: Seq<u8>, al: Seq<u8>, ar: Seq<u8>, c: int, idx: int) -> bool {
    &&& d[96 + 24 * c + 3 * idx] == tas_air_chan(al, ar, c, 1)
    &&& d[96 + 24 * c + 3 * idx + 1] == tas_air_chan(al, ar, c, 0)
    &&& d[96 + 24 * c + 3 * idx + 2] == tas_air_chan(al, ar, c, 2)
}

/// Encodes a Tasoller-two LED frame: the Tasoller header and pad pixels, then
/// six 24-byte air blocks, each repeating one air pixel eight times in GRB
/// order — the left strip top-down, then the right strip bottom-up.
pub fn tasoller_two_led(lights: &SliderLights, buf: &mut Buffer)
    requires
        lights.wf(),
        old(buf).wf(),
    ensures
        final(buf).wf(),
        final(buf).len == 240,
        final(buf).data@[0] == 0x42,
        final(buf).data@[1] == 0x4c,
        final(buf).data@[2] == 0,
        forall|j: int| 0 <= j < 31 ==> #[trigger] tas_pixel_grb(final(buf).data@, lights.ground@, j),
        forall|c: int, idx: int|
            0 <= c < 6 && 0 <= idx < 8 ==> #[trigger] tas_air_block(
                final(buf).data@,
                lights.air_left@,
                lights.air_right@,
                c,
                idx,
            ),
{
    buf.len = 240;
    buf.data[0] = 0x42;
    buf.data[1] = 0x4c;
    buf.data[2] = 0;
    tasoller_pixels(lights, buf);
    let mut c: usize = 0;
    while c < 6
        invariant
            lights.wf(),
            buf.wf(),
            buf.len == 240,
            c <= 6,
            buf.data@[0] == 0x42,
            buf.data@[1] == 0x4c,
            buf.data@[2] == 0,
            forall|j: int| 0 <= j < 31 ==> #[trigger] tas_pixel_grb(buf.data@, lights.ground@, j),
            forall|b: int, idx: int|
                0 <= b < c && 0 <= idx < 8 ==> #[trigger] tas_air_block(
                    buf.data@,
                    lights.air_left@,
                    lights.air_right@,
                    b,
                    idx,
                ),
        decreases 6 - c,
    {
        let ch1 = if c < 3 {
            lights.air_left[3 * (2 - c) + 1]
        } else {
            lights.air_right[3 * (c - 3) + 1]
        };
        let ch0 = if c < 3 {
            lights.air_left[3 * (2 - c)]
        } else {
            lights.air_right[3 * (c - 3)]
        };
        let ch2 = if c < 3 {
            lights.air_left[3 * (2 - c) + 2]
        } else {
            lights.air_right[3 * (c - 3) + 2]
        };
        let mut idx: usize = 0;
        while idx < 8
            invariant
                lights.wf(),
                buf.wf(),
                buf.len == 240,
                c < 6,
                idx <= 8,
                ch1 == tas_air_chan(lights.air_left@, lights.air_right@, c as int, 1),
                ch0 == tas_air_chan(lights.air_left@, lights.air_right@, c as int, 0),
                ch2 == tas_air_chan(lights.air_left@, lights.air_right@, c as int, 2),
                buf.data@[0] == 0x42,
                buf.data@[1] == 0x4c,
                buf.data@[2] == 0,
                forall|j: int|
                    0 <= j < 31 ==> #[trigger] tas_pixel_grb(buf.data@, lights.ground@, j),
                forall|b: int, k: int|
                    0 <= b < c && 0 <= k < 8 ==> #[trigger] tas_air_block(
                        buf.data@,
                        lights.air_left@,
                        lights.air_right@,
                        b,
                        k,
                    ),
                forall|k: int|
                    0 <= k < idx ==> #[trigger] tas_air_block(
                        buf.data@,
                        lights.air_left@,
                        lights.air_right@,
                        c as int,
                        k,
                    ),
            decreases 8 - idx,
        {
            let ghost prev = buf.data@;
            buf.data[96 + 24 * c + 3 * idx] = ch1;
            buf.data[96 + 24 * c + 3 * idx + 1] = ch0;
            buf.data[96 + 24 * c + 3 * idx + 2] = ch2;
            proof {
                assert forall|j: int| 0 <= j < 31 implies #[trigger] tas_pixel_grb(
                    buf.data@,
                    lights.ground@,
                    j,
                ) by {
                    assert(tas_pixel_grb(prev, lights.ground@, j));
                }
                assert forall|b: int, k: int| 0 <= b < c && 0 <= k < 8 implies #[trigger] tas_air_block(
                    buf.data@,
                    lights.air_left@,
                    lights.air_right@,
                    b,
                    k,
                ) by {
                    assert(tas_air_block(prev, lights.air_left@, lights.air_right@, b, k));
                }
                assert forall|k: int| 0 <= k < idx + 1 implies #[trigger] tas_air_block(
                    buf.data@,
                    lights.air_left@,
                    lights.air_right@,
                    c as int,
                    k,
                ) by {
                    if k < idx {
                        assert(tas_air_block(prev, lights.air_left@, lights.air_right@, c as int, k));
                    }
                }
            }
            idx = idx + 1;
        }
        c = c + 1;
    }
}

/// Pad pixel `j` of a Yuancon LED frame: the channels of ground pixel
/// `30 - j` packed into two bytes of five-six-five bits.
pub open spec fn yuancon_pixel(d: Seq<u8>, g: Seq<u8>, j: int) -> bool {
    &&& d[2 * j] == ((g[3 * (30 - j)] << 3) & 0xe0) | (g[3 * (30 - j) + 2] >> 3)
    &&& d[2 * j + 1] == (g[3 * (30 - j) + 1] & 0xf8) | (g[3 * (30 - j)] >> 5)
}

/// Encodes a Yuancon LED frame: 62 bytes of the 31 ground pixels in reverse
/// order, each packed into a two-byte five-six-five color.
pub fn yuancon_led(lights: &SliderLights, buf: &mut Buffer)
    requires
        lights.wf(),
        old(buf).wf(),
    ensures
        final(buf).wf(),
        final(buf).len == 62,
        forall|j: int| 0 <= j < 31 ==> #[trigger] yuancon_pixel(final(buf).data@, lights.ground@, j),
{
    buf.len = 62;
    let mut j: usize = 0;
    while j < 31
        invariant
            lights.wf(),
            buf.wf(),
            buf.len == 62,
            j <= 31,
            forall|i: int| 0 <= i < j ==> #[trigger] yuancon_pixel(buf.data@, lights.ground@, i),
        decreases 31 - j,
    {
        let ghost prev = buf.data@;
        let g0 = lights.ground[3 * (30 - j)];
        let g1 = lights.ground[3 * (30 - j) + 1];
        let g2 = lights.ground[3 * (30 - j) + 2];
        buf.data[2 * j] = ((g0 << 3u8) & 0xe0) | (g2 >> 3u8);
        buf.data[2 * j + 1] = (g1 & 0xf8) | (g0 >> 5u8);
        proof {
            assert forall|i: int| 0 <= i < j + 1 implies #[trigger] yuancon_pixel(
                buf.data@,
                lights.ground@,
                i,
            ) by {
                if i < j {
                    assert(yuancon_pixel(prev, lights.ground@, i));
                }
            }
        }
        j = j + 1;
    }
}

/// The high nibble of a channel byte.
pub open spec fn high_nibble(b: u8) -> u8 {
    b >> 4
}

/// Byte chunk `k` of a Yubideck LED frame: six consecutive color nibbles
/// packed low-then-high. The nibble stream is the 31 ground pixels in reverse
/// order, then the top three channels of the left air strip.
pub open spec fn yubi_chunk(d: Seq<u8>, g: Seq<u8>, al: Seq<u8>, k: int) -> bool {
    if k < 15 {
        &&& d[3 * k] == high_nibble(g[3 * (30 - 2 * k)]) | (high_nibble(g[3 * (30 - 2 * k) + 1])
            << 4)
        &&& d[3 * k + 1] == high_nibble(g[3 * (30 - 2 * k) + 2]) | (high_nibble(
            g[3 * (30 - (2 * k + 1))],
        ) << 4)
        &&& d[3 * k + 2] == high_nibble(g[3 * (30 - (2 * k + 1)) + 1]) | (high_nibble(
            g[3 * (30 - (2 * k + 1)) + 2],
        ) << 4)
    } else {
        &&& d[45] == high_nibble(g[0]) | (high_nibble(g[1]) << 4)
        &&& d[46] == high_nibble(g[2]) | (high_nibble(al[3]) << 4)
        &&& d[47] == high_nibble(al[4]) | (high_nibble(al[5]) << 4)
    }
}

/// Encodes a Yubideck LED frame: 62 bytes, the first 48 of which pack the
/// high nibbles of the reversed ground pixels and of the top left-air pixel,
/// two nibbles per byte.
pub fn yubideck_led(lights: &SliderLights, buf: &mut Buffer)
    requires
        lights.wf(),
        old(buf).wf(),
    ensures
        final(buf).wf(),
        final(buf).len == 62,
        forall|k: int|
            0 <= k < 16 ==> #[trigger] yubi_chunk(
                final(buf).data@,
                lights.ground@,
                lights.air_left@,
                k,
            ),
        forall|i: int| 48 <= i < BUFFER_SIZE ==> final(buf).data@[i] == old(buf).data@[i],
{
    buf.len = 62;
    let mut k: usize = 0;
    while k < 15
        invariant
            lights.wf(),
            buf.wf(),
            buf.len == 62,
            k <= 15,
            forall|i: int|
                0 <= i < k ==> #[trigger] yubi_chunk(buf.data@, lights.ground@, lights.air_left@, i),
            forall|i: int| 45 <= i < BUFFER_SIZE ==> buf.data@[i] == old(buf).data@[i],
        decreases 15 - k,
    {
        let ghost prev = buf.data@;
        let p0 = 3 * (30 - 2 * k);
        let p1 = 3 * (30 - (2 * k + 1));
        buf.data[3 * k] = (lights.ground[p0] >> 4u8) | ((lights.ground[p0 + 1] >> 4u8) << 4u8);
        buf.data[3 * k + 1] = (lights.ground[p0 + 2] >> 4u8) | ((lights.ground[p1] >> 4u8)
            << 4u8);
        buf.data[3 * k + 2] = (lights.ground[p1 + 1] >> 4u8) | ((lights.ground[p1 + 2] >> 4u8)
            << 4u8);
        proof {
            assert forall|i: int| 0 <= i < k + 1 implies #[trigger] yubi_chunk(
                buf.data@,
                lights.ground@,
                lights.air_left@,
                i,
            ) by {
                if i < k {
                    assert(yubi_chunk(prev, lights.ground@, lights.air_left@, i));
                }
            }
        }
        k = k + 1;
    }
    let ghost prev = buf.data@;
    buf.data[45] = (lights.ground[0] >> 4u8) | ((lights.ground[1] >> 4u8) << 4u8);
    buf.data[46] = (lights.ground[2] >> 4u8) | ((lights.air_left[3] >> 4u8) << 4u8);
    buf.data[47] = (lights.air_left[4] >> 4u8) | ((lights.air_left[5] >> 4u8) << 4u8);
    proof {
        assert forall|i: int| 0 <= i < 16 implies #[trigger] yubi_chunk(
            buf.data@,
            lights.ground@,
            lights.air_left@,
            i,
        ) by {
            if i < 15 {
                assert(yubi_chunk(prev, lights.ground@, lights.air_left@, i));
            }
        }
    }
}

/// Pixel `c` of the first Yubideck-three LED frame carries ground pixel
/// `30 - c`, covering ground pixels 11..31 in reverse order.
pub open spec fn yubi3_a_pixel(d: Seq<u8>, g: Seq<u8>, c: int) -> bool {
    &&& d[1 + 3 * c] == g[3 * (30 - c)]
    &&& d[1 + 3 * c + 1] == g[3 * (30 - c) + 1]
    &&& d[1 + 3 * c + 2] == g[3 * (30 - c) + 2]
}

/// Pixel `c` of the second Yubideck-three LED frame carries ground pixel
/// `10 - c`, covering ground pixels 0..11 in reverse order.
pub open spec fn yubi3_b_pixel(d: Seq<u8>, g: Seq<u8>, c: int) -> bool {
    &&& d[1 + 3 * c] == g[3 * (10 - c)]
    &&& d[1 + 3 * c + 1] == g[3 * (10 - c) + 1]
    &&& d[1 + 3 * c + 2] == g[3 * (10 - c) + 2]
}

/// Encodes the two 61-byte Yubideck-three LED frames, selected by their
/// leading byte: the first carries ground pixels 11..31 reversed, the second
/// ground pixels 0..11 reversed and the top halves of both air strips.
pub fn yubideck_three_led(lights: &SliderLights, buf_a: &mut Buffer, buf_b: &mut Buffer)
    requires
        lights.wf(),
        old(buf_a).wf(),
        old(buf_b).wf(),
    ensures
        final(buf_a).wf(),
        final(buf_b).wf(),
        final(buf_a).len == 61,
        final(buf_b).len == 61,
        final(buf_a).data@[0] == 0,
        final(buf_b).data@[0] == 1,
        forall|c: int| 0 <= c < 20 ==> #[trigger] yubi3_a_pixel(final(buf_a).data@, lights.ground@, c),
        forall|c: int| 0 <= c < 11 ==> #[trigger] yubi3_b_pixel(final(buf_b).data@, lights.ground@, c),
        final(buf_b).data@[34] == lights.air_left@[3],
        final(buf_b).data@[35] == lights.air_left@[4],
        final(buf_b).data@[36] == lights.air_left@[5],
        final(buf_b).data@[37] == lights.air_right@[3],
        final(buf_b).data@[38] == lights.air_right@[4],
        final(buf_b).data@[39] == lights.air_right@[5],
{
    buf_a.len = 61;
    buf_a.data[0] = 0;
    let mut c: usize = 0;
    while c < 20
        invariant
            lights.wf(),
            buf_a.wf(),
            buf_a.len == 61,
            c <= 20,
            buf_a.data@[0] == 0,
            forall|i: int| 0 <= i < c ==> #[trigger] yubi3_a_pixel(buf_a.data@, lights.ground@, i),
        decreases 20 - c,
    {
        let ghost prev = buf_a.data@;
        buf_a.data[1 + 3 * c] = lights.ground[3 * (30 - c)];
        buf_a.data[1 + 3 * c + 1] = lights.ground[3 * (30 - c) + 1];
        buf_a.data[1 + 3 * c + 2] = lights.ground[3 * (30 - c) + 2];
        proof {
            assert forall|i: int| 0 <= i < c + 1 implies #[trigger] yubi3_a_pixel(
                buf_a.data@,
                lights.ground@,
                i,
            ) by {
                if i < c {
                    assert(yubi3_a_pixel(prev, lights.ground@, i));
                }
            }
        }
        c = c + 1;
    }
    buf_b.len = 61;
    buf_b.data[0] = 1;
    let mut c: usize = 0;
    while c < 11
        invariant
            lights.wf(),
            buf_b.wf(),
            buf_b.len == 61,
            c <= 11,
            buf_b.data@[0] == 1,
            forall|i: int| 0 <= i < c ==> #[trigger] yubi3_b_pixel(buf_b.data@, lights.ground@, i),
        decreases 11 - c,
    {
        let ghost prev = buf_b.data@;
        buf_b.data[1 + 3 * c] = lights.ground[3 * (10 - c)];
        buf_b.data[1 + 3 * c + 1] = lights.ground[3 * (10 - c) + 1];
        buf_b.data[1 + 3 * c + 2] = lights.ground[3 * (10 - c) + 2];
        proof {
            assert forall|i: int| 0 <= i < c + 1 implies #[trigger] yubi3_b_pixel(
                buf_b.data@,
                lights.ground@,
                i,
            ) by {
                if i < c {
                    assert(yubi3_b_pixel(prev, lights.ground@, i));
                }
            }
        }
        c = c + 1;
    }
    let ghost prev = buf_b.data@;
    buf_b.data[34] = lights.air_left[3];
    buf_b.data[35] = lights.air_left[4];
    buf_b.data[36] = lights.air_left[5];
    buf_b.data[37] = lights.air_right[3];
    buf_b.data[38] = lights.air_right[4];
    buf_b.data[39] = lights.air_right[5];
    proof {
        assert forall|k: int| 0 <= k < 11 implies #[trigger] yubi3_b_pixel(
            buf_b.data@,
            lights.ground@,
            k,
        ) by {
            assert(yubi3_b_pixel(prev, lights.ground@, k));
        }
    }
}

/// Channel source `i` of the HoriPad color stream: the ground strip, then the
/// left air strip, then the right air strip.
pub open spec fn hori_chan(g: Seq<u8>, al: Seq<u8>, ar: Seq<u8>, i: int) -> u8 {
    if i < 93 {
        g[i]
    } else if i < 102 {
        al[i - 93]
    } else {
        ar[i - 102]
    }
}

/// Pixel `p` of the HoriPad stream reordered from RGB to BRG.
pub open spec fn hori_brg_pixel(d: Seq<u8>, g: Seq<u8>, al: Seq<u8>, ar: Seq<u8>, p: int) -> bool {
    &&& d[3 * p] == hori_chan(g, al, ar, 3 * p + 2)
    &&& d[3 * p + 1] == hori_chan(g, al, ar, 3 * p)
    &&& d[3 * p + 2] == hori_chan(g, al, ar, 3 * p + 1)
}

/// Builds the 111-byte HoriPad color stream: the 37 pixels of the ground and
/// both air strips, each reordered from RGB to BRG.
pub fn hori_led_brg(lights: &SliderLights) -> (r: Vec<u8>)
    requires
        lights.wf(),
    ensures
        r@.len() == 111,
        forall|p: int|
            0 <= p < 37 ==> #[trigger] hori_brg_pixel(
                r@,
                lights.ground@,
                lights.air_left@,
                lights.air_right@,
                p,
            ),
{
    let mut r: Vec<u8> = Vec::new();
    let mut p: usize = 0;
    while p < 37
        invariant
            lights.wf(),
            p <= 37,
            r@.len() == 3 * p,
            forall|i: int|
                0 <= i < p ==> #[trigger] hori_brg_pixel(
                    r@,
                    lights.ground@,
                    lights.air_left@,
                    lights.air_right@,
                    i,
                ),
        decreases 37 - p,
    {
        let ghost prev = r@;
        let b = if 3 * p + 2 < 93 {
            lights.ground[3 * p + 2]
        } else if 3 * p + 2 < 102 {
            lights.air_left[3 * p + 2 - 93]
        } else {
            lights.air_right[3 * p + 2 - 102]
        };
        let rr = if 3 * p < 93 {
            lights.ground[3 * p]
        } else if 3 * p < 102 {
            lights.air_left[3 * p - 93]
        } else {
            lights.air_right[3 * p - 102]
        };
        let gg = if 3 * p + 1 < 93 {
            lights.ground[3 * p + 1]
        } else if 3 * p + 1 < 102 {
            lights.air_left[3 * p + 1 - 93]
        } else {
            lights.air_right[3 * p + 1 - 102]
        };
        r.push(b);
        r.push(rr);
        r.push(gg);
        proof {
            assert forall|i: int| 0 <= i < p + 1 implies #[trigger] hori_brg_pixel(
                r@,
                lights.ground@,
                lights.air_left@,
                lights.air_right@,
                i,
            ) by {
                if i < p {
                    assert(hori_brg_pixel(
                        prev,
                        lights.ground@,
                        lights.air_left@,
                        lights.air_right@,
                        i,
                    ));
                    assert(r@[3 * i] == prev[3 * i]);
                    assert(r@[3 * i + 1] == prev[3 * i + 1]);
                    assert(r@[3 * i + 2] == prev[3 * i + 2]);
                }
            }
        }
        p = p + 1;
    }
    r
}

/// Stages a HoriPad LED transfer: a compressed stream that fits in 63 bytes
/// goes whole into the compressed channel; otherwise the raw stream is
/// striped across the three plain channels in splits of 48, 45 and 18 bytes.
pub fn hori_led_stage(
    brg: &Vec<u8>,
    compressed: &Vec<u8>,
    buf_ga: &mut Buffer,
    buf_gb: &mut Buffer,
    buf_air: &mut Buffer,
    buf_comp: &mut Buffer,
)
    requires
        brg@.len() == 111,
        old(buf_ga).wf(),
        old(buf_gb).wf(),
        old(buf_air).wf(),
        old(buf_comp).wf(),
    ensures
        final(buf_ga).wf(),
        final(buf_gb).wf(),
        final(buf_air).wf(),
        final(buf_comp).wf(),
        compressed@.len() < 63 ==> {
            &&& final(buf_comp).len == compressed@.len()
            &&& final(buf_comp).view_bytes() == compressed@
            &&& *final(buf_ga) == *old(buf_ga)
            &&& *final(buf_gb) == *old(buf_gb)
            &&& *final(buf_air) == *old(buf_air)
        },
        compressed@.len() >= 63 ==> {
            &&& final(buf_ga).len == 48
            &&& final(buf_ga).view_bytes() == brg@.subrange(0, 48)
            &&& final(buf_gb).len == 45
            &&& final(buf_gb).view_bytes() == brg@.subrange(48, 93)
            &&& final(buf_air).len == 18
            &&& final(buf_air).view_bytes() == brg@.subrange(93, 111)
            &&& *final(buf_comp) == *old(buf_comp)
        },
{
    if compressed.len() < 63 {
        let mut i: usize = 0;
        while i < compressed.len()
            invariant
                compressed@.len() < 63,
                buf_comp.wf(),
                i <= compressed@.len(),
                forall|j: int| 0 <= j < i ==> buf_comp.data@[j] == compressed@[j],
            decreases compressed@.len() - i,
        {
            buf_comp.data[i] = compressed[i];
            i = i + 1;
        }
        buf_comp.len = compressed.len();
        proof {
            assert(buf_comp.view_bytes() =~= compressed@);
        }
    } else {
        let mut i: usize = 0;
        while i < 48
            invariant
                brg@.len() == 111,
                buf_ga.wf(),
                i <= 48,
                forall|j: int| 0 <= j < i ==> buf_ga.data@[j] == brg@[j],
            decreases 48 - i,
        {
            buf_ga.data[i] = brg[i];
            i = i + 1;
        }
        buf_ga.len = 48;
        let mut i: usize = 0;
        while i < 45
            invariant
                brg@.len() == 111,
                buf_gb.wf(),
                i <= 45,
                forall|j: int| 0 <= j < i ==> buf_gb.data@[j] == brg@[48 + j],
            decreases 45 - i,
        {
            buf_gb.data[i] = brg[48 + i];
            i = i + 1;
        }
        buf_gb.len = 45;
        let mut i: usize = 0;
        while i < 18
            invariant
                brg@.len() == 111,
                buf_air.wf(),
                i <= 18,
                forall|j: int| 0 <= j < i ==> buf_air.data@[j] == brg@[93 + j],
            decreases 18 - i,
        {
            buf_air.data[i] = brg[93 + i];
            i = i + 1;
        }
        buf_air.len = 18;
        proof {
            assert(buf_ga.view_bytes() =~= brg@.subrange(0, 48));
            assert(buf_gb.view_bytes() =~= brg@.subrange(48, 93));
            assert(buf_air.view_bytes() =~= brg@.subrange(93, 111));
        }
    }
}

} // verus!
