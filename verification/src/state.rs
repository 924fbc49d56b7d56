//! Input and lighting snapshots of a slider controller.
//!
//! The input snapshot holds 32 ground pads, 6 air beams and 3 extra buttons;
//! the lighting snapshot holds 31 ground pixels and two 3-pixel air strips,
//! together with the producer-sets/consumer-clears dirty flag.

use vstd::prelude::*;

verus! {

/// Number of ground touch pads.
pub const GROUND_PADS: usize = 32;

/// Number of air beams.
pub const AIR_BEAMS: usize = 6;

/// Number of extra buttons.
pub const EXTRA_BUTTONS: usize = 3;

/// Length of the flat boolean projection of an input snapshot.
pub const FLAT_LEN: usize = 41;

/// Stores the input state of a slider controller: ground touch pads,
/// air strings and extra buttons.
pub struct SliderInput {
    /// Touch pressure of the 32 pads of a 2-tall, 16-wide grid, each 0..=255.
    /// Index 0 is the bottom-left pad; index 2k is the bottom and 2k + 1 the
    /// top pad of column k, columns running left to right.
    pub ground: Vec<u8>,
    /// Air string state of the 6 beams, bottom to top. 0 means uninterrupted,
    /// anything else interrupted.
    pub air: Vec<u8>,
    /// Extra button state, usually coin/test/service.
    pub extra: Vec<u8>,
}

impl SliderInput {
    /// The three fields have their fixed lengths.
    pub open spec fn wf(&self) -> bool {
        &&& self.ground@.len() == GROUND_PADS
        &&& self.air@.len() == AIR_BEAMS
        &&& self.extra@.len() == EXTRA_BUTTONS
    }

    /// The flat boolean projection: ground pads thresholded at `sensitivity`,
    /// then air beams, then extra buttons, each compared against zero.
    pub open spec fn flat_spec(&self, sensitivity: u8) -> Seq<bool> {
        Seq::new(self.ground@.len(), |i: int| self.ground@[i] >= sensitivity)
            + Seq::new(self.air@.len(), |i: int| self.air@[i] != 0)
            + Seq::new(self.extra@.len(), |i: int| self.extra@[i] != 0)
    }

    /// Make a blank input state.
    pub fn new() -> (r: Self)
        ensures
            r.wf(),
            r.ground@ =~= Seq::new(GROUND_PADS as nat, |i: int| 0u8),
            r.air@ =~= Seq::new(AIR_BEAMS as nat, |i: int| 0u8),
            r.extra@ =~= Seq::new(EXTRA_BUTTONS as nat, |i: int| 0u8),
    {
        Self { ground: vec![0u8; 32], air: vec![0u8; 6], extra: vec![0u8; 3] }
    }

    /// Index of the pad that takes the place of pad `i` under the vertical
    /// flip: the two pads of each column trade places.
    pub open spec fn flip_idx(i: int) -> int {
        if i % 2 == 0 {
            i + 1
        } else {
            i - 1
        }
    }

    /// The ground pressures after a vertical flip: `s[2k]` and `s[2k + 1]`
    /// trade places for every column `k`.
    pub open spec fn flip_vert_spec(s: Seq<u8>) -> Seq<u8> {
        Seq::new(s.len(), |i: int| s[Self::flip_idx(i)])
    }

    /// Converts an input state to a `Vec<bool>`, used for output emulation and
    /// reactive lighting.
    pub fn to_flat(&self, sensitivity: &u8) -> (r: Vec<bool>)
        requires
            self.wf(),
        ensures
            r@.len() == FLAT_LEN,
            r@ =~= self.flat_spec(*sensitivity),
    {
        let mut r: Vec<bool> = Vec::new();
        let mut i: usize = 0;
        while i < 32
            invariant
                self.wf(),
                i <= 32,
                r@.len() == i,
                forall|j: int| 0 <= j < i ==> r@[j] == (self.ground@[j] >= *sensitivity),
            decreases 32 - i,
        {
            r.push(self.ground[i] >= *sensitivity);
            i = i + 1;
        }
        let mut i: usize = 0;
        while i < 6
            invariant
                self.wf(),
                i <= 6,
                r@.len() == 32 + i,
                forall|j: int| 0 <= j < 32 ==> r@[j] == (self.ground@[j] >= *sensitivity),
                forall|j: int| 0 <= j < i ==> r@[32 + j] == (self.air@[j] != 0),
            decreases 6 - i,
        {
            r.push(self.air[i] > 0);
            i = i + 1;
        }
        let mut i: usize = 0;
        while i < 3
            invariant
                self.wf(),
                i <= 3,
                r@.len() == 38 + i,
                forall|j: int| 0 <= j < 32 ==> r@[j] == (self.ground@[j] >= *sensitivity),
                forall|j: int| 0 <= j < 6 ==> r@[32 + j] == (self.air@[j] != 0),
                forall|j: int| 0 <= j < i ==> r@[38 + j] == (self.extra@[j] != 0),
            decreases 3 - i,
        {
            r.push(self.extra[i] > 0);
            i = i + 1;
        }
        r
    }

    /// Flips the ground slider state vertically. Used when taking input from
    /// controllers that report starting from the top of each column instead of
    /// the bottom that is used internally.
    pub fn flip_vert(&mut self)
        requires
            old(self).wf(),
        ensures
            final(self).wf(),
            final(self).ground@ =~= Self::flip_vert_spec(old(self).ground@),
            final(self).air@ == old(self).air@,
            final(self).extra@ == old(self).extra@,
    {
        let mut i: usize = 0;
        while i < 16
            invariant
                self.wf(),
                self.air@ == old(self).air@,
                self.extra@ == old(self).extra@,
                i <= 16,
                forall|j: int|
                    0 <= j < 2 * i ==> self.ground@[j] == old(self).ground@[Self::flip_idx(j)],
                forall|j: int| 2 * i <= j < 32 ==> self.ground@[j] == old(self).ground@[j],
            decreases 16 - i,
        {
            let a = self.ground[2 * i];
            let b = self.ground[2 * i + 1];
            self.ground[2 * i] = b;
            self.ground[2 * i + 1] = a;
            i = i + 1;
        }
    }
}

/// The vertical flip is an involution: applying it twice yields the original
/// ground state, for any ground vector of even length.
pub proof fn lemma_flip_vert_involution(s: Seq<u8>)
    requires
        s.len() % 2 == 0,
    ensures
        SliderInput::flip_vert_spec(SliderInput::flip_vert_spec(s)) =~= s,
{
}

/// Number of ground lighting pixels: 16 pad pixels alternating with 15
/// divider pixels, left to right.
pub const GROUND_PIXELS: usize = 31;

/// Bytes of the ground lighting strip (3 channels per pixel).
pub const GROUND_LIGHT_BYTES: usize = 93;

/// Bytes of one air lighting strip (3 pixels of 3 channels).
pub const AIR_LIGHT_BYTES: usize = 9;

/// Stores the lighting state of a slider controller.
pub struct SliderLights {
    /// RGB pixel values of the ground strip from left to right, alternating
    /// between 16 touch pad pixels and 15 divider pixels.
    pub ground: Vec<u8>,
    /// RGB pixel values of the left air strip, bottom to top.
    pub air_left: Vec<u8>,
    /// RGB pixel values of the right air strip, bottom to top.
    pub air_right: Vec<u8>,
    /// Set by a producer on every frame that changes lighting; cleared by the
    /// consumer after it takes the frame for transmission.
    pub dirty: bool,
}

/// The ground bytes of `s` with pixel `idx` repainted in the color
/// `(c[0], c[1], c[2])`.
pub open spec fn paint_spec(s: Seq<u8>, idx: int, c: Seq<u8>) -> Seq<u8> {
    s.update(3 * idx, c[0]).update(3 * idx + 1, c[1]).update(3 * idx + 2, c[2])
}

impl SliderLights {
    /// The three strips have their fixed lengths.
    pub open spec fn wf(&self) -> bool {
        &&& self.ground@.len() == GROUND_LIGHT_BYTES
        &&& self.air_left@.len() == AIR_LIGHT_BYTES
        &&& self.air_right@.len() == AIR_LIGHT_BYTES
    }

    /// The state of the lighting slot after a consumer takes a frame: a dirty
    /// slot hands out its ground bytes and is cleared; a clean slot hands out
    /// nothing and is unchanged.
    pub open spec fn take_frame_frame(self) -> Option<Seq<u8>> {
        if self.dirty {
            Some(self.ground@)
        } else {
            None
        }
    }

    /// The lighting slot as it remains after a consumer takes a frame.
    pub open spec fn take_frame_rest(self) -> SliderLights {
        SliderLights { dirty: false, ..self }
    }

    /// Make a blank lighting state.
    pub fn new() -> (r: Self)
        ensures
            r.wf(),
            r.ground@ =~= Seq::new(GROUND_LIGHT_BYTES as nat, |i: int| 0u8),
            r.air_left@ =~= Seq::new(AIR_LIGHT_BYTES as nat, |i: int| 0u8),
            r.air_right@ =~= Seq::new(AIR_LIGHT_BYTES as nat, |i: int| 0u8),
            !r.dirty,
    {
        Self {
            ground: vec![0u8; 93],
            air_left: vec![0u8; 9],
            air_right: vec![0u8; 9],
            dirty: false,
        }
    }

    /// Apply an RGB color to one pixel of the ground strip.
    pub fn paint(&mut self, idx: usize, color: &[u8; 3])
        requires
            old(self).wf(),
            idx < GROUND_PIXELS,
        ensures
            final(self).wf(),
            final(self).ground@ =~= paint_spec(old(self).ground@, idx as int, color@),
            final(self).air_left@ == old(self).air_left@,
            final(self).air_right@ == old(self).air_right@,
            final(self).dirty == old(self).dirty,
    {
        self.ground[3 * idx] = color[0];
        self.ground[3 * idx + 1] = color[1];
        self.ground[3 * idx + 2] = color[2];
    }

    /// Apply an RGB color to one pixel of the left air strip.
    pub fn paint_air_left(&mut self, idx: usize, color: &[u8; 3])
        requires
            old(self).wf(),
            idx < 3,
        ensures
            final(self).wf(),
            final(self).air_left@ =~= paint_spec(old(self).air_left@, idx as int, color@),
            final(self).ground@ == old(self).ground@,
            final(self).air_right@ == old(self).air_right@,
            final(self).dirty == old(self).dirty,
    {
        self.air_left[3 * idx] = color[0];
        self.air_left[3 * idx + 1] = color[1];
        self.air_left[3 * idx + 2] = color[2];
    }

    /// Apply an RGB color to one pixel of the right air strip.
    pub fn paint_air_right(&mut self, idx: usize, color: &[u8; 3])
        requires
            old(self).wf(),
            idx < 3,
        ensures
            final(self).wf(),
            final(self).air_right@ =~= paint_spec(old(self).air_right@, idx as int, color@),
            final(self).ground@ == old(self).ground@,
            final(self).air_left@ == old(self).air_left@,
            final(self).dirty == old(self).dirty,
    {
        self.air_right[3 * idx] = color[0];
        self.air_right[3 * idx + 1] = color[1];
        self.air_right[3 * idx + 2] = color[2];
    }

    /// Apply an RGB color to the same pixel of both air strips.
    pub fn paint_air(&mut self, idx: usize, color: &[u8; 3])
        requires
            old(self).wf(),
            idx < 3,
        ensures
            final(self).wf(),
            final(self).air_left@ =~= paint_spec(old(self).air_left@, idx as int, color@),
            final(self).air_right@ =~= paint_spec(old(self).air_right@, idx as int, color@),
            final(self).ground@ == old(self).ground@,
            final(self).dirty == old(self).dirty,
    {
        self.paint_air_left(idx, color);
        self.paint_air_right(idx, color);
    }

    /// Zero every pixel and clear the dirty flag, as when a lighting producer
    /// disconnects.
    pub fn reset(&mut self)
        requires
            old(self).wf(),
        ensures
            final(self).wf(),
            final(self).ground@ =~= Seq::new(GROUND_LIGHT_BYTES as nat, |i: int| 0u8),
            final(self).air_left@ =~= Seq::new(AIR_LIGHT_BYTES as nat, |i: int| 0u8),
            final(self).air_right@ =~= Seq::new(AIR_LIGHT_BYTES as nat, |i: int| 0u8),
            !final(self).dirty,
    {
        *self = Self::new();
    }

    /// The consumer side of the dirty discipline: if a producer has marked the
    /// slot dirty, hand out the current ground frame and clear the flag;
    /// otherwise hand out nothing and leave the slot unchanged.
    pub fn take_frame(&mut self) -> (r: Option<Vec<u8>>)
        requires
            old(self).wf(),
        ensures
            final(self).wf(),
            *final(self) == old(self).take_frame_rest(),
            match r {
                Some(frame) => old(self).take_frame_frame() == Some(frame@),
                None => old(self).take_frame_frame() is None,
            },
    {
        if self.dirty {
            self.dirty = false;
            Some(self.ground.clone())
        } else {
            None
        }
    }
}

/// The dirty discipline: after a producer writes the lighting slot and sets
/// `dirty`, the next consumer observes exactly the written frame and clears
/// the flag, and until the producer sets `dirty` again no further frame is
/// handed out.
pub proof fn lemma_dirty_discipline(l: SliderLights)
    requires
        l.dirty,
    ensures
        l.take_frame_frame() == Some(l.ground@),
        !l.take_frame_rest().dirty,
        l.take_frame_rest().take_frame_frame() is None,
        l.take_frame_rest().take_frame_rest() == l.take_frame_rest(),
{
}

/// Concatenates the input state and the ground lighting bytes into one
/// diagnostic snapshot: `ground ++ air ++ extra ++ lights.ground`.
pub fn snapshot_bytes(input: &SliderInput, lights: &SliderLights) -> (r: Vec<u8>)
    requires
        input.wf(),
        lights.wf(),
    ensures
        r@ =~= input.ground@ + input.air@ + input.extra@ + lights.ground@,
{
    let mut r: Vec<u8> = Vec::new();
    r.extend_from_slice(input.ground.as_slice());
    r.extend_from_slice(input.air.as_slice());
    r.extend_from_slice(input.extra.as_slice());
    r.extend_from_slice(lights.ground.as_slice());
    r
}

} // verus!
