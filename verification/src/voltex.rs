//! Projection of the flat input view onto the Voltex control scheme: four
//! laser zones, four buttons, two effect pedals and the extra buttons.

use vstd::prelude::*;
use crate::state::FLAT_LEN;

verus! {

/// Whether any pad of `flat[lo..hi]` is pressed.
pub open spec fn any_in(flat: Seq<bool>, lo: int, hi: int) -> bool {
    exists|i: int| lo <= i < hi && flat[i]
}

/// The Voltex view of the flat input.
pub struct VoltexState {
    /// The four laser zones: left outer, left inner, right inner, right outer.
    pub laser: Vec<bool>,
    /// The four main buttons.
    pub bt: Vec<bool>,
    /// The two effect pedals.
    pub fx: Vec<bool>,
    /// The three extra buttons.
    pub extra: Vec<bool>,
}

impl VoltexState {
    /// The four vectors have their fixed lengths.
    pub open spec fn wf(&self) -> bool {
        &&& self.laser@.len() == 4
        &&& self.bt@.len() == 4
        &&& self.fx@.len() == 2
        &&& self.extra@.len() == 3
    }

    /// Projects the flat input: lasers take the four-pad groups at either end,
    /// buttons and pedals take fixed pads of the middle, extras pass through.
    pub fn from_flat(flat_input: &Vec<bool>) -> (r: Self)
        requires
            flat_input@.len() == FLAT_LEN,
        ensures
            r.wf(),
            r.laser@[0] == any_in(flat_input@, 0, 4),
            r.laser@[1] == any_in(flat_input@, 4, 8),
            r.laser@[2] == any_in(flat_input@, 24, 28),
            r.laser@[3] == any_in(flat_input@, 28, 32),
            forall|i: int|
                0 <= i < 4 ==> r.bt@[i] == (flat_input@[9 + i * 4] || flat_input@[11 + i * 4]),
            forall|i: int|
                0 <= i < 2 ==> r.fx@[i] == (flat_input@[8 + i * 8] || flat_input@[10 + i * 8]
                    || flat_input@[12 + i * 8] || flat_input@[14 + i * 8]),
            forall|i: int| 0 <= i < 3 ==> r.extra@[i] == flat_input@[38 + i],
    {
        let mut laser: Vec<bool> = Vec::new();
        laser.push(range_any(flat_input, 0, 4));
        laser.push(range_any(flat_input, 4, 8));
        laser.push(range_any(flat_input, 24, 28));
        laser.push(range_any(flat_input, 28, 32));

        let mut bt: Vec<bool> = Vec::new();
        let mut i: usize = 0;
        while i < 4
            invariant
                flat_input@.len() == FLAT_LEN,
                i <= 4,
                bt@.len() == i,
                forall|j: int|
                    0 <= j < i ==> bt@[j] == (flat_input@[9 + j * 4] || flat_input@[11 + j * 4]),
            decreases 4 - i,
        {
            bt.push(flat_input[9 + i * 4] || flat_input[11 + i * 4]);
            i = i + 1;
        }

        let mut fx: Vec<bool> = Vec::new();
        let mut i: usize = 0;
        while i < 2
            invariant
                flat_input@.len() == FLAT_LEN,
                i <= 2,
                fx@.len() == i,
                forall|j: int|
                    0 <= j < i ==> fx@[j] == (flat_input@[8 + j * 8] || flat_input@[10 + j * 8]
                        || flat_input@[12 + j * 8] || flat_input@[14 + j * 8]),
            decreases 2 - i,
        {
            fx.push(
                flat_input[8 + i * 8] || flat_input[10 + i * 8] || flat_input[12 + i * 8]
                    || flat_input[14 + i * 8],
            );
            i = i + 1;
        }

        let mut extra: Vec<bool> = Vec::new();
        let mut i: usize = 0;
        while i < 3
            invariant
                flat_input@.len() == FLAT_LEN,
                i <= 3,
                extra@.len() == i,
                forall|j: int| 0 <= j < i ==> extra@[j] == flat_input@[38 + j],
            decreases 3 - i,
        {
            extra.push(flat_input[38 + i]);
            i = i + 1;
        }

        VoltexState { laser, bt, fx, extra }
    }
}

/// Whether any entry of `flat[lo..hi]` is pressed.
pub fn range_any(flat: &Vec<bool>, lo: usize, hi: usize) -> (r: bool)
    requires
        lo <= hi <= flat@.len(),
    ensures
        r == any_in(flat@, lo as int, hi as int),
{
    let mut i: usize = lo;
    while i < hi
        invariant
            lo <= i <= hi <= flat@.len(),
            !any_in(flat@, lo as int, i as int),
        decreases hi - i,
    {
        if flat[i] {
            assert(any_in(flat@, lo as int, hi as int));
            return true;
        }
        i = i + 1;
    }
    false
}

} // verus!
