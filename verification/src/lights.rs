//! The lighting engine: configuration of the lighting modes, the reactive
//! layouts that paint the ground and air strips from the flat input, and the
//! ingestion of external serial lighting frames.

use vstd::prelude::*;
use crate::hid::Buffer;
use crate::state::{SliderLights, FLAT_LEN};
use crate::voltex::{any_in, range_any};

verus! {

/// The palette of the reactive layouts.
#[derive(Clone, Copy, Debug)]
pub struct ColorScheme {
    /// Ground color of a pressed zone.
    pub active: [u8; 3],
    /// Ground color of a released zone.
    pub inactive: [u8; 3],
    /// Air strip color of an interrupted pair.
    pub air_active: [u8; 3],
    /// Air strip color of an uninterrupted pair.
    pub air_inactive: [u8; 3],
}

impl ColorScheme {
    /// The default palette: magenta on yellow, with blue air strips.
    pub fn default() -> (r: Self)
        ensures
            r.active@ =~= seq![255u8, 0u8, 255u8],
            r.inactive@ =~= seq![255u8, 255u8, 0u8],
            r.air_active@ =~= seq![0u8, 134u8, 237u8],
            r.air_inactive@ =~= seq![0u8, 0u8, 0u8],
    {
        ColorScheme {
            active: [255, 0, 255],
            inactive: [255, 255, 0],
            air_active: [0, 134, 237],
            air_inactive: [0, 0, 0],
        }
    }
}

/// The reactive ground layouts.
#[derive(Clone, Copy, Debug)]
pub enum ReactiveLayout {
    /// Equal buckets of `32 / splits` pads.
    Even {
        /// How many buckets; 4, 8 or 16.
        splits: usize,
    },
    /// Six buckets of widths 6, 4, 6, 6, 4, 6.
    Six,
    /// The Voltex decoration.
    Voltex,
    /// The Hori button bands.
    Hori,
    /// A scrolling rainbow, desaturated over touched pairs.
    Rainbow,
}

/// The lighting modes.
#[derive(Clone, Debug)]
pub enum LightsMode {
    /// No lighting worker.
    Off,
    /// A reactive layout over the flat input.
    Reactive {
        /// Tick at 30 Hz instead of 15 Hz.
        faster: bool,
        /// The layout.
        layout: ReactiveLayout,
        /// Ground pressure threshold of the flat projection.
        sensitivity: u8,
        /// The palette.
        color: ColorScheme,
    },
    /// The attract rainbow.
    Attract {
        /// Tick at 30 Hz instead of 15 Hz.
        faster: bool,
    },
    /// Outbound lighting frames to an external WebSocket.
    Websocket {
        /// Tick at 30 Hz instead of 15 Hz.
        faster: bool,
        /// The destination URL.
        url: String,
    },
    /// Inbound lighting frames over the UMGR WebSocket sub-protocol.
    UmgrWebsocket {
        /// Throttle dirty marks to the tick interval of this rate.
        faster: bool,
        /// The TCP port to listen on.
        port: u16,
    },
    /// Inbound lighting frames over a serial port.
    Serial {
        /// Tick at 30 Hz instead of 15 Hz.
        faster: bool,
        /// The serial port name.
        port: String,
    },
}

/// The lighting tick interval in microseconds: 30 Hz when faster, else 15 Hz.
pub fn tick_micros(faster: bool) -> (r: u64)
    ensures
        r == (if faster {
            33333u64
        } else {
            66666u64
        }),
{
    if faster {
        33333
    } else {
        66666
    }
}

/// Ground pixel `idx` of `g` carries the color `c`.
pub open spec fn pixel_is(g: Seq<u8>, idx: int, c: Seq<u8>) -> bool {
    &&& g[3 * idx] == c[0]
    &&& g[3 * idx + 1] == c[1]
    &&& g[3 * idx + 2] == c[2]
}

/// Whether air pair `a` of the flat input is interrupted.
pub open spec fn air_pair(flat: Seq<bool>, a: int) -> bool {
    flat[32 + 2 * a] || flat[33 + 2 * a]
}

/// The color an air pair paints on its strip pixel.
pub open spec fn air_pair_color(flat: Seq<bool>, color: ColorScheme, a: int) -> Seq<u8> {
    if air_pair(flat, a) {
        color.air_active@
    } else {
        color.air_inactive@
    }
}

/// The color an even layout paints on ground pixel `idx`: the pixel before a
/// bucket boundary is always active, other odd pixels are inactive, and pad
/// pixels take their bucket's state.
pub open spec fn even_pixel_color(
    flat: Seq<bool>,
    splits: int,
    color: ColorScheme,
    idx: int,
) -> Seq<u8> {
    let bps = 32int / splits;
    if (idx + 1) % bps == 0 {
        color.active@
    } else if (idx + 1) % 2 == 0 {
        color.inactive@
    } else if any_in(flat, bps * (idx / bps), bps * (idx / bps) + bps) {
        color.active@
    } else {
        color.inactive@
    }
}

/// Paints the air strips of a reactive layout: air pair `a` colors pixel `a`
/// of both strips.
fn paint_air_pairs(flat: &Vec<bool>, color: &ColorScheme, lights: &mut SliderLights)
    requires
        flat@.len() == FLAT_LEN,
        old(lights).wf(),
    ensures
        final(lights).wf(),
        final(lights).ground@ == old(lights).ground@,
        final(lights).dirty == old(lights).dirty,
        forall|a: int|
            0 <= a < 3 ==> #[trigger] pixel_is(
                final(lights).air_left@,
                a,
                air_pair_color(flat@, *color, a),
            ) && pixel_is(final(lights).air_right@, a, air_pair_color(flat@, *color, a)),
{
    let mut a: usize = 0;
    while a < 3
        invariant
            flat@.len() == FLAT_LEN,
            lights.wf(),
            lights.ground@ == old(lights).ground@,
            lights.dirty == old(lights).dirty,
            a <= 3,
            forall|b: int|
                0 <= b < a ==> #[trigger] pixel_is(
                    lights.air_left@,
                    b,
                    air_pair_color(flat@, *color, b),
                ) && pixel_is(lights.air_right@, b, air_pair_color(flat@, *color, b)),
        decreases 3 - a,
    {
        let ghost pl = lights.air_left@;
        let ghost pr = lights.air_right@;
        let c = if flat[32 + 2 * a] || flat[33 + 2 * a] {
            color.air_active
        } else {
            color.air_inactive
        };
        lights.paint_air(a, &c);
        proof {
            assert forall|b: int| 0 <= b < a + 1 implies #[trigger] pixel_is(
                lights.air_left@,
                b,
                air_pair_color(flat@, *color, b),
            ) && pixel_is(lights.air_right@, b, air_pair_color(flat@, *color, b)) by {
                if b < a {
                    assert(pixel_is(pl, b, air_pair_color(flat@, *color, b)));
                    assert(pixel_is(pr, b, air_pair_color(flat@, *color, b)));
                }
            }
        }
        a = a + 1;
    }
}

/// Paints the even reactive layout: `splits` equal buckets over the pads,
/// bucket-boundary pixels always active, other odd pixels inactive, pad
/// pixels by their bucket's state, the air strips by their pairs; marks the
/// slot dirty.
pub fn calc_even(flat: &Vec<bool>, splits: usize, color: &ColorScheme, lights: &mut SliderLights)
    requires
        flat@.len() == FLAT_LEN,
        old(lights).wf(),
        splits == 4 || splits == 8 || splits == 16,
    ensures
        final(lights).wf(),
        forall|idx: int|
            0 <= idx < 31 ==> #[trigger] pixel_is(
                final(lights).ground@,
                idx,
                even_pixel_color(flat@, splits as int, *color, idx),
            ),
        forall|a: int|
            0 <= a < 3 ==> #[trigger] pixel_is(
                final(lights).air_left@,
                a,
                air_pair_color(flat@, *color, a),
            ) && pixel_is(final(lights).air_right@, a, air_pair_color(flat@, *color, a)),
        final(lights).dirty,
{
    let bps = 32 / splits;
    let mut idx: usize = 0;
    while idx < 31
        invariant
            flat@.len() == FLAT_LEN,
            lights.wf(),
            splits == 4 || splits == 8 || splits == 16,
            bps == 32int / splits as int,
            idx <= 31,
            forall|i: int|
                0 <= i < idx ==> #[trigger] pixel_is(
                    lights.ground@,
                    i,
                    even_pixel_color(flat@, splits as int, *color, i),
                ),
        decreases 31 - idx,
    {
        let ghost prev = lights.ground@;
        proof {
            vstd::arithmetic::div_mod::lemma_fundamental_div_mod(idx as int, bps as int);
            vstd::arithmetic::div_mod::lemma_mod_bound(idx as int, bps as int);
            assert(bps * (idx as int / bps as int) <= idx as int);
        }
        let c = if (idx + 1) % bps == 0 {
            color.active
        } else if (idx + 1) % 2 == 0 {
            color.inactive
        } else if range_any(flat, bps * (idx / bps), bps * (idx / bps) + bps) {
            color.active
        } else {
            color.inactive
        };
        proof {
            assert(c@ == even_pixel_color(flat@, splits as int, *color, idx as int));
        }
        lights.paint(idx, &c);
        proof {
            assert forall|i: int| 0 <= i < idx + 1 implies #[trigger] pixel_is(
                lights.ground@,
                i,
                even_pixel_color(flat@, splits as int, *color, i),
            ) by {
                if i < idx {
                    assert(pixel_is(prev, i, even_pixel_color(flat@, splits as int, *color, i)));
                }
            }
        }
        idx = idx + 1;
    }
    paint_air_pairs(flat, color, lights);
    lights.dirty = true;
}

/// The lower flat bound of the six-layout bucket that pad `i` belongs to.
pub open spec fn six_bucket_lo(i: int) -> int {
    if i < 6 {
        0
    } else if i < 10 {
        6
    } else if i < 16 {
        10
    } else if i < 22 {
        16
    } else if i < 26 {
        22
    } else {
        26
    }
}

/// The upper flat bound of the six-layout bucket that pad `i` belongs to.
pub open spec fn six_bucket_hi(i: int) -> int {
    if i < 6 {
        6
    } else if i < 10 {
        10
    } else if i < 16 {
        16
    } else if i < 22 {
        22
    } else if i < 26 {
        26
    } else {
        32
    }
}

/// The color the six layout paints on ground pixel `idx`: the five bucket
/// boundaries are always active, other odd pixels inactive, pad pixels by
/// their bucket's state.
pub open spec fn six_pixel_color(flat: Seq<bool>, color: ColorScheme, idx: int) -> Seq<u8> {
    if idx % 2 == 1 {
        if idx == 5 || idx == 9 || idx == 15 || idx == 21 || idx == 25 {
            color.active@
        } else {
            color.inactive@
        }
    } else if any_in(flat, six_bucket_lo(idx), six_bucket_hi(idx)) {
        color.active@
    } else {
        color.inactive@
    }
}

/// Paints the six-bucket reactive layout: bucket widths 6, 4, 6, 6, 4, 6 with
/// boundary pixels 5, 9, 15, 21 and 25 always active, the air strips by their
/// pairs; marks the slot dirty.
pub fn calc_six(flat: &Vec<bool>, color: &ColorScheme, lights: &mut SliderLights)
    requires
        flat@.len() == FLAT_LEN,
        old(lights).wf(),
    ensures
        final(lights).wf(),
        forall|idx: int|
            0 <= idx < 31 ==> #[trigger] pixel_is(
                final(lights).ground@,
                idx,
                six_pixel_color(flat@, *color, idx),
            ),
        forall|a: int|
            0 <= a < 3 ==> #[trigger] pixel_is(
                final(lights).air_left@,
                a,
                air_pair_color(flat@, *color, a),
            ) && pixel_is(final(lights).air_right@, a, air_pair_color(flat@, *color, a)),
        final(lights).dirty,
{
    let mut idx: usize = 0;
    while idx < 31
        invariant
            flat@.len() == FLAT_LEN,
            lights.wf(),
            idx <= 31,
            forall|i: int|
                0 <= i < idx ==> #[trigger] pixel_is(
                    lights.ground@,
                    i,
                    six_pixel_color(flat@, *color, i),
                ),
        decreases 31 - idx,
    {
        let ghost prev = lights.ground@;
        let c = if idx % 2 == 1 {
            if idx == 5 || idx == 9 || idx == 15 || idx == 21 || idx == 25 {
                color.active
            } else {
                color.inactive
            }
        } else {
            let lo = if idx < 6 {
                0
            } else if idx < 10 {
                6
            } else if idx < 16 {
                10
            } else if idx < 22 {
                16
            } else if idx < 26 {
                22
            } else {
                26
            };
            let hi = if idx < 6 {
                6
            } else if idx < 10 {
                10
            } else if idx < 16 {
                16
            } else if idx < 22 {
                22
            } else if idx < 26 {
                26
            } else {
                32
            };
            if range_any(flat, lo, hi) {
                color.active
            } else {
                color.inactive
            }
        };
        proof {
            assert(c@ == six_pixel_color(flat@, *color, idx as int));
        }
        lights.paint(idx, &c);
        proof {
            assert forall|i: int| 0 <= i < idx + 1 implies #[trigger] pixel_is(
                lights.ground@,
                i,
                six_pixel_color(flat@, *color, i),
            ) by {
                if i < idx {
                    assert(pixel_is(prev, i, six_pixel_color(flat@, *color, i)));
                }
            }
        }
        idx = idx + 1;
    }
    paint_air_pairs(flat, color, lights);
    lights.dirty = true;
}

/// The color the Voltex layout paints on ground pixel `idx`: cyan and magenta
/// laser zones at either end, white buttons and orange pedals in the middle,
/// fixed decorations between, black elsewhere.
pub open spec fn voltex_pixel_color(flat: Seq<bool>, idx: int) -> Seq<u8> {
    let laser0 = any_in(flat, 0, 4);
    let laser1 = any_in(flat, 4, 8);
    let laser2 = any_in(flat, 24, 28);
    let laser3 = any_in(flat, 28, 32);
    let black = seq![0u8, 0u8, 0u8];
    let gray = seq![64u8, 64u8, 64u8];
    let cyan = seq![70u8, 230u8, 250u8];
    let white = seq![255u8, 255u8, 255u8];
    let orange = seq![250u8, 100u8, 30u8];
    if idx == 0 || idx == 1 || idx == 2 {
        if laser0 {
            cyan
        } else {
            black
        }
    } else if idx == 3 {
        seq![10u8, 100u8, 180u8]
    } else if idx == 4 || idx == 5 || idx == 6 {
        if laser1 {
            cyan
        } else {
            black
        }
    } else if idx == 8 || idx == 10 {
        if flat[9] || flat[11] {
            white
        } else {
            black
        }
    } else if idx == 12 || idx == 14 {
        if flat[13] || flat[15] {
            white
        } else {
            black
        }
    } else if idx == 16 || idx == 18 {
        if flat[17] || flat[19] {
            white
        } else {
            black
        }
    } else if idx == 20 || idx == 22 {
        if flat[21] || flat[23] {
            white
        } else {
            black
        }
    } else if idx == 9 || idx == 13 {
        if flat[8] || flat[10] || flat[12] || flat[14] {
            orange
        } else {
            black
        }
    } else if idx == 11 {
        if flat[8] || flat[10] || flat[12] || flat[14] {
            orange
        } else {
            gray
        }
    } else if idx == 17 || idx == 21 {
        if flat[16] || flat[18] || flat[20] || flat[22] {
            orange
        } else {
            black
        }
    } else if idx == 19 {
        if flat[16] || flat[18] || flat[20] || flat[22] {
            orange
        } else {
            gray
        }
    } else if idx == 7 || idx == 15 || idx == 23 {
        gray
    } else if idx == 24 {
        if laser2 {
            seq![250u8, 60u8, 200u8]
        } else {
            black
        }
    } else if idx == 25 || idx == 26 {
        if laser2 {
            seq![255u8, 60u8, 200u8]
        } else {
            black
        }
    } else if idx == 27 {
        seq![180u8, 10u8, 110u8]
    } else if idx == 28 {
        if laser3 {
            seq![250u8, 60u8, 200u8]
        } else {
            black
        }
    } else {
        if laser3 {
            seq![255u8, 60u8, 200u8]
        } else {
            black
        }
    }
}

/// Paints the Voltex reactive layout over a zeroed ground strip; the air
/// strips are left alone; marks the slot dirty.
pub fn calc_voltex_lights(flat: &Vec<bool>, lights: &mut SliderLights)
    requires
        flat@.len() == FLAT_LEN,
        old(lights).wf(),
    ensures
        final(lights).wf(),
        forall|idx: int|
            0 <= idx < 31 ==> #[trigger] pixel_is(
                final(lights).ground@,
                idx,
                voltex_pixel_color(flat@, idx),
            ),
        final(lights).air_left@ == old(lights).air_left@,
        final(lights).air_right@ == old(lights).air_right@,
        final(lights).dirty,
{
    let laser0 = range_any(flat, 0, 4);
    let laser1 = range_any(flat, 4, 8);
    let laser2 = range_any(flat, 24, 28);
    let laser3 = range_any(flat, 28, 32);
    let mut idx: usize = 0;
    while idx < 31
        invariant
            flat@.len() == FLAT_LEN,
            lights.wf(),
            lights.air_left@ == old(lights).air_left@,
            lights.air_right@ == old(lights).air_right@,
            laser0 == any_in(flat@, 0, 4),
            laser1 == any_in(flat@, 4, 8),
            laser2 == any_in(flat@, 24, 28),
            laser3 == any_in(flat@, 28, 32),
            idx <= 31,
            forall|i: int|
                0 <= i < idx ==> #[trigger] pixel_is(
                    lights.ground@,
                    i,
                    voltex_pixel_color(flat@, i),
                ),
        decreases 31 - idx,
    {
        let ghost prev = lights.ground@;
        let c: [u8; 3] = if idx <= 2 {
            if laser0 {
                [70, 230, 250]
            } else {
                [0, 0, 0]
            }
        } else if idx == 3 {
            [10, 100, 180]
        } else if idx <= 6 {
            if laser1 {
                [70, 230, 250]
            } else {
                [0, 0, 0]
            }
        } else if idx == 8 || idx == 10 {
            if flat[9] || flat[11] {
                [255, 255, 255]
            } else {
                [0, 0, 0]
            }
        } else if idx == 12 || idx == 14 {
            if flat[13] || flat[15] {
                [255, 255, 255]
            } else {
                [0, 0, 0]
            }
        } else if idx == 16 || idx == 18 {
            if flat[17] || flat[19] {
                [255, 255, 255]
            } else {
                [0, 0, 0]
            }
        } else if idx == 20 || idx == 22 {
            if flat[21] || flat[23] {
                [255, 255, 255]
            } else {
                [0, 0, 0]
            }
        } else if idx == 9 || idx == 13 {
            if flat[8] || flat[10] || flat[12] || flat[14] {
                [250, 100, 30]
            } else {
                [0, 0, 0]
            }
        } else if idx == 11 {
            if flat[8] || flat[10] || flat[12] || flat[14] {
                [250, 100, 30]
            } else {
                [64, 64, 64]
            }
        } else if idx == 17 || idx == 21 {
            if flat[16] || flat[18] || flat[20] || flat[22] {
                [250, 100, 30]
            } else {
                [0, 0, 0]
            }
        } else if idx == 19 {
            if flat[16] || flat[18] || flat[20] || flat[22] {
                [250, 100, 30]
            } else {
                [64, 64, 64]
            }
        } else if idx == 7 || idx == 15 || idx == 23 {
            [64, 64, 64]
        } else if idx == 24 {
            if laser2 {
                [250, 60, 200]
            } else {
                [0, 0, 0]
            }
        } else if idx == 25 || idx == 26 {
            if laser2 {
                [255, 60, 200]
            } else {
                [0, 0, 0]
            }
        } else if idx == 27 {
            [180, 10, 110]
        } else if idx == 28 {
            if laser3 {
                [250, 60, 200]
            } else {
                [0, 0, 0]
            }
        } else {
            if laser3 {
                [255, 60, 200]
            } else {
                [0, 0, 0]
            }
        };
        proof {
            assert(c@ == voltex_pixel_color(flat@, idx as int));
        }
        lights.paint(idx, &c);
        proof {
            assert forall|i: int| 0 <= i < idx + 1 implies #[trigger] pixel_is(
                lights.ground@,
                i,
                voltex_pixel_color(flat@, i),
            ) by {
                if i < idx {
                    assert(pixel_is(prev, i, voltex_pixel_color(flat@, i)));
                }
            }
        }
        idx = idx + 1;
    }
    lights.dirty = true;
}

/// Whether slider column `j` of the Hori view is touched: its top pad.
pub open spec fn hori_col(flat: Seq<bool>, j: int) -> bool {
    flat[2 * j + 1]
}

/// The color the Hori layout paints on ground pixel `idx`: four button bands
/// on the pad pixels, dimmed fourfold when released; white slider marks on
/// the divider pixels between touched columns; gray dividers at the three
/// band boundaries; black elsewhere.
pub open spec fn hori_pixel_color(flat: Seq<bool>, idx: int) -> Seq<u8> {
    if idx % 2 == 1 {
        let j = (idx - 1) / 2;
        if hori_col(flat, j) || hori_col(flat, j + 1) {
            seq![200u8, 200u8, 200u8]
        } else if idx == 7 || idx == 15 || idx == 23 {
            seq![64u8, 64u8, 64u8]
        } else {
            seq![0u8, 0u8, 0u8]
        }
    } else {
        let band = idx / 8;
        let bt = flat[8 * band] || flat[8 * band + 2] || flat[8 * band + 4] || flat[8 * band + 6];
        let base: Seq<u8> = if band == 0 {
            seq![64u8, 226u8, 160u8]
        } else if band == 1 {
            seq![255u8, 105u8, 248u8]
        } else if band == 2 {
            seq![124u8, 178u8, 232u8]
        } else {
            seq![255u8, 102u8, 102u8]
        };
        if bt {
            base
        } else {
            seq![base[0] / 4, base[1] / 4, base[2] / 4]
        }
    }
}

/// Paints the Hori reactive layout over a zeroed ground strip; the air strips
/// are left alone; marks the slot dirty.
pub fn calc_hori_lights(flat: &Vec<bool>, lights: &mut SliderLights)
    requires
        flat@.len() == FLAT_LEN,
        old(lights).wf(),
    ensures
        final(lights).wf(),
        forall|idx: int|
            0 <= idx < 31 ==> #[trigger] pixel_is(
                final(lights).ground@,
                idx,
                hori_pixel_color(flat@, idx),
            ),
        final(lights).air_left@ == old(lights).air_left@,
        final(lights).air_right@ == old(lights).air_right@,
        final(lights).dirty,
{
    let mut idx: usize = 0;
    while idx < 31
        invariant
            flat@.len() == FLAT_LEN,
            lights.wf(),
            lights.air_left@ == old(lights).air_left@,
            lights.air_right@ == old(lights).air_right@,
            idx <= 31,
            forall|i: int|
                0 <= i < idx ==> #[trigger] pixel_is(lights.ground@, i, hori_pixel_color(flat@, i)),
        decreases 31 - idx,
    {
        let ghost prev = lights.ground@;
        let c: [u8; 3] = if idx % 2 == 1 {
            let j = (idx - 1) / 2;
            if flat[2 * j + 1] || flat[2 * (j + 1) + 1] {
                [200, 200, 200]
            } else if idx == 7 || idx == 15 || idx == 23 {
                [64, 64, 64]
            } else {
                [0, 0, 0]
            }
        } else {
            let band = idx / 8;
            let bt = flat[8 * band] || flat[8 * band + 2] || flat[8 * band + 4] || flat[8 * band
                + 6];
            let base: [u8; 3] = if band == 0 {
                [64, 226, 160]
            } else if band == 1 {
                [255, 105, 248]
            } else if band == 2 {
                [124, 178, 232]
            } else {
                [255, 102, 102]
            };
            if bt {
                base
            } else {
                [base[0] / 4, base[1] / 4, base[2] / 4]
            }
        };
        proof {
            assert(c@ == hori_pixel_color(flat@, idx as int));
        }
        lights.paint(idx, &c);
        proof {
            assert forall|i: int| 0 <= i < idx + 1 implies #[trigger] pixel_is(
                lights.ground@,
                i,
                hori_pixel_color(flat@, i),
            ) by {
                if i < idx {
                    assert(pixel_is(prev, i, hori_pixel_color(flat@, i)));
                }
            }
        }
        idx = idx + 1;
    }
    lights.dirty = true;
}

/// The pixels the rainbow layout desaturates: each pad pixel whose touch pair
/// is pressed.
pub fn rainbow_desaturate(flat: &Vec<bool>) -> (r: Vec<bool>)
    requires
        flat@.len() == FLAT_LEN,
    ensures
        r@.len() == 31,
        forall|idx: int|
            0 <= idx < 31 ==> r@[idx] == (idx % 2 == 0 && (flat@[idx] || flat@[idx + 1])),
{
    let mut r: Vec<bool> = Vec::new();
    let mut idx: usize = 0;
    while idx < 31
        invariant
            flat@.len() == FLAT_LEN,
            idx <= 31,
            r@.len() == idx,
            forall|i: int| 0 <= i < idx ==> r@[i] == (i % 2 == 0 && (flat@[i] || flat@[i + 1])),
        decreases 31 - idx,
    {
        r.push(idx % 2 == 0 && (flat[idx] || flat[idx + 1]));
        idx = idx + 1;
    }
    r
}

/// The color an external serial frame paints on ground pixel `idx`: source
/// pixel `30 - idx` is stored in green, blue, red order, so red is its last
/// byte and green its first.
pub open spec fn serial_pixel_color(bytes: Seq<u8>, idx: int) -> Seq<u8> {
    seq![bytes[2 + 3 * (30 - idx) + 2], bytes[2 + 3 * (30 - idx)], bytes[2 + 3 * (30 - idx) + 1]]
}

/// Ingests one 100-byte external serial lighting frame: when it starts with
/// the two `0xAA` marker bytes, bytes 2..95 carry the 31 ground pixels in
/// reverse order with channels in GBR order; marks the slot dirty either way.
pub fn calc_serial(buffer: &Buffer, lights: &mut SliderLights)
    requires
        buffer.wf(),
        old(lights).wf(),
    ensures
        final(lights).wf(),
        final(lights).dirty,
        final(lights).air_left@ == old(lights).air_left@,
        final(lights).air_right@ == old(lights).air_right@,
        !(buffer.data@[0] == 0xaa && buffer.data@[1] == 0xaa) ==> final(lights).ground@ == old(
            lights,
        ).ground@,
        buffer.data@[0] == 0xaa && buffer.data@[1] == 0xaa ==> forall|idx: int|
            0 <= idx < 31 ==> #[trigger] pixel_is(
                final(lights).ground@,
                idx,
                serial_pixel_color(buffer.data@, idx),
            ),
{
    if buffer.data[0] == 0xaa && buffer.data[1] == 0xaa {
        let mut idx: usize = 0;
        while idx < 31
            invariant
                buffer.wf(),
                buffer.data@[0] == 0xaa,
                buffer.data@[1] == 0xaa,
                lights.wf(),
                lights.air_left@ == old(lights).air_left@,
                lights.air_right@ == old(lights).air_right@,
                idx <= 31,
                forall|i: int|
                    0 <= i < idx ==> #[trigger] pixel_is(
                        lights.ground@,
                        i,
                        serial_pixel_color(buffer.data@, i),
                    ),
            decreases 31 - idx,
        {
            let ghost prev = lights.ground@;
            let base = 2 + 3 * (30 - idx);
            let c: [u8; 3] = [buffer.data[base + 2], buffer.data[base], buffer.data[base + 1]];
            proof {
                assert(c@ == serial_pixel_color(buffer.data@, idx as int));
            }
            lights.paint(idx, &c);
            proof {
                assert forall|i: int| 0 <= i < idx + 1 implies #[trigger] pixel_is(
                    lights.ground@,
                    i,
                    serial_pixel_color(buffer.data@, i),
                ) by {
                    if i < idx {
                        assert(pixel_is(prev, i, serial_pixel_color(buffer.data@, i)));
                    }
                }
            }
            idx = idx + 1;
        }
    }
    lights.dirty = true;
}

} // verus!
