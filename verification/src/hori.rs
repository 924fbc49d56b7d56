//! Projection of the flat input view onto the Hori gamepad layout: a 16-pair
//! slider word, four buttons, and the DualShock report derived from them.

use vstd::prelude::*;
use crate::state::FLAT_LEN;

verus! {

/// The Hori view of the flat input.
pub struct HoriState {
    /// One entry per pad column, left to right.
    pub slider: Vec<bool>,
    /// The four main buttons.
    pub bt: Vec<bool>,
    /// The one extra button used by this layout.
    pub extra: Vec<bool>,
}

/// The 32-bit slider axis word: each pressed column `i` contributes the two
/// bits `0b11 << 2 * (15 - i)`, over the first `n` columns.
pub open spec fn axis_word(slider: Seq<bool>, n: int) -> u32
    decreases n,
{
    if n <= 0 {
        0u32
    } else if slider[n - 1] {
        axis_word(slider, n - 1) | (0b11u32 << (2 * (15 - (n - 1))) as u32)
    } else {
        axis_word(slider, n - 1)
    }
}

/// The DualShock button word for the four Hori buttons: triangle, square,
/// cross, circle over a hat-switch base of `0x8`.
pub open spec fn hori_buttons(bt: Seq<bool>) -> u16 {
    let b0 = if bt[0] {
        0x8u16 | 0x80u16
    } else {
        0x8u16
    };
    let b1 = if bt[1] {
        b0 | 0x10u16
    } else {
        b0
    };
    let b2 = if bt[2] {
        b1 | 0x20u16
    } else {
        b1
    };
    if bt[3] {
        b2 | 0x40u16
    } else {
        b2
    }
}

impl HoriState {
    /// The three vectors have their fixed lengths.
    pub open spec fn wf(&self) -> bool {
        &&& self.slider@.len() == 16
        &&& self.bt@.len() == 4
        &&& self.extra@.len() == 1
    }

    /// Projects the flat input: bottom pads feed the four button groups, top
    /// pads feed the slider columns, and `flat[38]` feeds the extra button.
    pub fn from_flat(flat_input: &Vec<bool>) -> (r: Self)
        requires
            flat_input@.len() == FLAT_LEN,
        ensures
            r.wf(),
            forall|k: int|
                0 <= k < 4 ==> r.bt@[k] == (flat_input@[8 * k] || flat_input@[8 * k + 2]
                    || flat_input@[8 * k + 4] || flat_input@[8 * k + 6]),
            forall|j: int| 0 <= j < 16 ==> r.slider@[j] == flat_input@[2 * j + 1],
            r.extra@[0] == flat_input@[38],
    {
        let mut bt: Vec<bool> = Vec::new();
        let mut k: usize = 0;
        while k < 4
            invariant
                flat_input@.len() == FLAT_LEN,
                k <= 4,
                bt@.len() == k,
                forall|j: int|
                    0 <= j < k ==> bt@[j] == (flat_input@[8 * j] || flat_input@[8 * j + 2]
                        || flat_input@[8 * j + 4] || flat_input@[8 * j + 6]),
            decreases 4 - k,
        {
            bt.push(
                flat_input[8 * k] || flat_input[8 * k + 2] || flat_input[8 * k + 4]
                    || flat_input[8 * k + 6],
            );
            k = k + 1;
        }
        let mut slider: Vec<bool> = Vec::new();
        let mut j: usize = 0;
        while j < 16
            invariant
                flat_input@.len() == FLAT_LEN,
                j <= 16,
                slider@.len() == j,
                forall|i: int| 0 <= i < j ==> slider@[i] == flat_input@[2 * i + 1],
            decreases 16 - j,
        {
            slider.push(flat_input[2 * j + 1]);
            j = j + 1;
        }
        let mut extra: Vec<bool> = Vec::new();
        extra.push(flat_input[38]);
        HoriState { slider, bt, extra }
    }

    /// The wide variant: every pad of a column feeds its slider entry and the
    /// buttons stay released.
    pub fn from_flat_to_wide(flat_input: &Vec<bool>) -> (r: Self)
        requires
            flat_input@.len() == FLAT_LEN,
        ensures
            r.wf(),
            forall|k: int| 0 <= k < 4 ==> r.bt@[k] == false,
            forall|j: int|
                0 <= j < 16 ==> r.slider@[j] == (flat_input@[2 * j] || flat_input@[2 * j + 1]),
            r.extra@[0] == flat_input@[38],
    {
        let mut bt: Vec<bool> = Vec::new();
        let mut k: usize = 0;
        while k < 4
            invariant
                k <= 4,
                bt@.len() == k,
                forall|j: int| 0 <= j < k ==> bt@[j] == false,
            decreases 4 - k,
        {
            bt.push(false);
            k = k + 1;
        }
        let mut slider: Vec<bool> = Vec::new();
        let mut j: usize = 0;
        while j < 16
            invariant
                flat_input@.len() == FLAT_LEN,
                j <= 16,
                slider@.len() == j,
                forall|i: int| 0 <= i < j ==> slider@[i] == (flat_input@[2 * i] || flat_input@[2 * i + 1]),
            decreases 16 - j,
        {
            slider.push(flat_input[2 * j] || flat_input[2 * j + 1]);
            j = j + 1;
        }
        let mut extra: Vec<bool> = Vec::new();
        extra.push(flat_input[38]);
        HoriState { slider, bt, extra }
    }
}

/// A DualShock report computed from a Hori view: the button word and the four
/// stick axis bytes unpacked from the masked slider word.
#[derive(PartialEq, Eq, Structural, Clone, Copy, Debug)]
pub struct HoriReport {
    /// DualShock button word.
    pub buttons: u16,
    /// Left stick X, the highest byte of the masked slider word.
    pub thumb_lx: u8,
    /// Left stick Y.
    pub thumb_ly: u8,
    /// Right stick X.
    pub thumb_rx: u8,
    /// Right stick Y, the lowest byte of the masked slider word.
    pub thumb_ry: u8,
}

/// The slider axis word of a full Hori view, masked with `0x80808080`.
pub open spec fn masked_axis(slider: Seq<bool>) -> u32 {
    axis_word(slider, 16) ^ 0x80808080u32
}

/// Computes the DualShock report of a Hori view: buttons from `bt`, and the
/// four axis bytes unpacked big-endian from the masked slider word.
pub fn hori_report(state: &HoriState) -> (r: HoriReport)
    requires
        state.wf(),
    ensures
        r.buttons == hori_buttons(state.bt@),
        r.thumb_lx == masked_axis(state.slider@) >> 24u32 & 0xffu32,
        r.thumb_ly == masked_axis(state.slider@) >> 16u32 & 0xffu32,
        r.thumb_rx == masked_axis(state.slider@) >> 8u32 & 0xffu32,
        r.thumb_ry == masked_axis(state.slider@) & 0xffu32,
{
    let mut buttons: u16 = 0x8;
    if state.bt[0] {
        buttons = buttons | 0x80;
    }
    if state.bt[1] {
        buttons = buttons | 0x10;
    }
    if state.bt[2] {
        buttons = buttons | 0x20;
    }
    if state.bt[3] {
        buttons = buttons | 0x40;
    }

    let mut axis: u32 = 0;
    let mut i: usize = 0;
    while i < 16
        invariant
            state.wf(),
            i <= 16,
            axis == axis_word(state.slider@, i as int),
        decreases 16 - i,
    {
        if state.slider[i] {
            axis = axis | (0b11u32 << (2 * (15 - i)) as u32);
        }
        i = i + 1;
    }
    let axis = axis ^ 0x80808080;
    assert((axis >> 24u32) & 0xffu32 < 256 && (axis >> 16u32) & 0xffu32 < 256 && (axis >> 8u32)
        & 0xffu32 < 256 && axis & 0xffu32 < 256) by (bit_vector);

    HoriReport {
        buttons,
        thumb_lx: ((axis >> 24) & 0xff) as u8,
        thumb_ly: ((axis >> 16) & 0xff) as u8,
        thumb_rx: ((axis >> 8) & 0xff) as u8,
        thumb_ry: (axis & 0xff) as u8,
    }
}

} // verus!
