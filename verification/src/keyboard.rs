//! Keyboard event synthesis: a keycode mapping of length 41 is de-duplicated
//! into a set of unique keys, each tick folds the flat input onto that set,
//! and the diff against the previous tick yields the down/up events to
//! inject.

use vstd::prelude::*;
use crate::output::KeyboardLayout;
use crate::state::FLAT_LEN;

verus! {

/// A keycode of zero marks a flat index as disabled.
pub const KEY_DISABLED: u8 = 0;

/// Sentinel of the keycode table marking a keycode not yet assigned a key
/// index.
pub const KEY_UNMAPPED: usize = 0xffff;

/// The keycode table of each layout, as written in the mapping below.
pub open spec fn kb_map_spec(layout: KeyboardLayout) -> Seq<u8> {
    match layout {
        KeyboardLayout::Tasoller => seq![0x41u8, 0x31u8, 0x5au8, 0x51u8, 0x53u8, 0x32u8, 0x58u8, 0x57u8, 0x44u8, 0x33u8, 0x43u8, 0x45u8, 0x46u8, 0x34u8, 0x56u8, 0x52u8, 0x47u8, 0x35u8, 0x42u8, 0x54u8, 0x48u8, 0x36u8, 0x4eu8, 0x59u8, 0x4au8, 0x37u8, 0x4du8, 0x55u8, 0x4bu8, 0x38u8, 0xbcu8, 0x49u8, 0xbfu8, 0xdeu8, 0xbeu8, 0xbau8, 0xddu8, 0xdbu8, 0x0du8, 0x20u8, 0x1bu8],
        KeyboardLayout::Yuancon => seq![0x36u8, 0x35u8, 0x34u8, 0x33u8, 0x32u8, 0x31u8, 0x5au8, 0x59u8, 0x58u8, 0x57u8, 0x56u8, 0x55u8, 0x54u8, 0x53u8, 0x52u8, 0x51u8, 0x50u8, 0x4fu8, 0x4eu8, 0x4du8, 0x4cu8, 0x4bu8, 0x4au8, 0x49u8, 0x48u8, 0x47u8, 0x46u8, 0x45u8, 0x44u8, 0x43u8, 0x42u8, 0x41u8, 0xbdu8, 0xbbu8, 0xdbu8, 0xddu8, 0xdcu8, 0xbau8, 0x0du8, 0x20u8, 0x1bu8],
        KeyboardLayout::Umiguri => seq![0x41u8, 0x31u8, 0x5au8, 0x51u8, 0x53u8, 0x32u8, 0x58u8, 0x57u8, 0x44u8, 0x33u8, 0x43u8, 0x45u8, 0x46u8, 0x34u8, 0x56u8, 0x52u8, 0x47u8, 0x35u8, 0x42u8, 0x54u8, 0x48u8, 0x36u8, 0x4eu8, 0x59u8, 0x4au8, 0x37u8, 0x4du8, 0x55u8, 0x4bu8, 0x38u8, 0x39u8, 0x49u8, 0x30u8, 0x4fu8, 0x4cu8, 0x50u8, 0xbcu8, 0xbeu8, 0x0du8, 0x20u8, 0x1bu8],
        KeyboardLayout::PDFTA => seq![0x5au8, 0x50u8, 0x5au8, 0x50u8, 0x5au8, 0x4fu8, 0x5au8, 0x4fu8, 0x58u8, 0x49u8, 0x58u8, 0x49u8, 0x58u8, 0x55u8, 0x58u8, 0x55u8, 0x43u8, 0x52u8, 0x43u8, 0x52u8, 0x43u8, 0x45u8, 0x43u8, 0x45u8, 0x56u8, 0x57u8, 0x56u8, 0x57u8, 0x56u8, 0x51u8, 0x56u8, 0x51u8, 0x1bu8, 0x1bu8, 0x1bu8, 0x1bu8, 0x1bu8, 0x1bu8, 0x1bu8, 0x1bu8, 0x1bu8],
        KeyboardLayout::TasollerHalf => seq![0x41u8, 0x41u8, 0x5au8, 0x5au8, 0x53u8, 0x53u8, 0x58u8, 0x58u8, 0x44u8, 0x44u8, 0x43u8, 0x43u8, 0x46u8, 0x46u8, 0x56u8, 0x56u8, 0x47u8, 0x47u8, 0x42u8, 0x42u8, 0x48u8, 0x48u8, 0x4eu8, 0x4eu8, 0x4au8, 0x4au8, 0x4du8, 0x4du8, 0x4bu8, 0x4bu8, 0xbcu8, 0xbcu8, 0xbfu8, 0xdeu8, 0xbeu8, 0xbau8, 0xddu8, 0xdbu8, 0x0du8, 0x20u8, 0x1bu8],
        KeyboardLayout::EightK => seq![0x41u8, 0x41u8, 0x41u8, 0x41u8, 0x53u8, 0x53u8, 0x53u8, 0x53u8, 0x44u8, 0x44u8, 0x44u8, 0x44u8, 0x46u8, 0x46u8, 0x46u8, 0x46u8, 0x4au8, 0x4au8, 0x4au8, 0x4au8, 0x4bu8, 0x4bu8, 0x4bu8, 0x4bu8, 0x4cu8, 0x4cu8, 0x4cu8, 0x4cu8, 0xbau8, 0xbau8, 0xbau8, 0xbau8, 0x20u8, 0x20u8, 0x20u8, 0x20u8, 0x20u8, 0x20u8, 0x00u8, 0x00u8, 0x00u8],
        KeyboardLayout::SixK => seq![0x53u8, 0x53u8, 0x53u8, 0x53u8, 0x53u8, 0x53u8, 0x44u8, 0x44u8, 0x44u8, 0x44u8, 0x46u8, 0x46u8, 0x46u8, 0x46u8, 0x46u8, 0x46u8, 0x4au8, 0x4au8, 0x4au8, 0x4au8, 0x4au8, 0x4au8, 0x4bu8, 0x4bu8, 0x4bu8, 0x4bu8, 0x4cu8, 0x4cu8, 0x4cu8, 0x4cu8, 0x4cu8, 0x4cu8, 0x20u8, 0x20u8, 0x20u8, 0x20u8, 0x20u8, 0x20u8, 0x00u8, 0x00u8, 0x00u8],
        KeyboardLayout::FourK => seq![0x44u8, 0x44u8, 0x44u8, 0x44u8, 0x44u8, 0x44u8, 0x44u8, 0x44u8, 0x46u8, 0x46u8, 0x46u8, 0x46u8, 0x46u8, 0x46u8, 0x46u8, 0x46u8, 0x4au8, 0x4au8, 0x4au8, 0x4au8, 0x4au8, 0x4au8, 0x4au8, 0x4au8, 0x4bu8, 0x4bu8, 0x4bu8, 0x4bu8, 0x4bu8, 0x4bu8, 0x4bu8, 0x4bu8, 0x20u8, 0x20u8, 0x20u8, 0x20u8, 0x20u8, 0x20u8, 0x00u8, 0x00u8, 0x00u8],
        KeyboardLayout::Voltex => seq![0x57u8, 0x57u8, 0x57u8, 0x57u8, 0x45u8, 0x45u8, 0x45u8, 0x45u8, 0x43u8, 0x44u8, 0x43u8, 0x44u8, 0x43u8, 0x46u8, 0x43u8, 0x46u8, 0x4du8, 0x4au8, 0x4du8, 0x4au8, 0x4du8, 0x4bu8, 0x4du8, 0x4bu8, 0x4fu8, 0x4fu8, 0x4fu8, 0x4fu8, 0x50u8, 0x50u8, 0x50u8, 0x50u8, 0x00u8, 0x00u8, 0x00u8, 0x00u8, 0x00u8, 0x00u8, 0x31u8, 0x0du8, 0x1bu8],
        KeyboardLayout::Neardayo => seq![0x57u8, 0x57u8, 0x57u8, 0x57u8, 0x45u8, 0x45u8, 0x45u8, 0x45u8, 0x43u8, 0x44u8, 0x43u8, 0x44u8, 0x43u8, 0x46u8, 0x43u8, 0x46u8, 0x4du8, 0x4au8, 0x4du8, 0x4au8, 0x4du8, 0x4bu8, 0x4du8, 0x4bu8, 0x4fu8, 0x4fu8, 0x4fu8, 0x4fu8, 0x50u8, 0x50u8, 0x50u8, 0x50u8, 0x57u8, 0x45u8, 0x45u8, 0x4fu8, 0x4fu8, 0x50u8, 0x31u8, 0x0du8, 0x1bu8],
    }
}

/// The keycode mapping of a layout: one virtual-key code per flat index,
/// zero meaning disabled.
pub fn kb_map(layout: KeyboardLayout) -> (r: Vec<u8>)
    ensures
        r@.len() == FLAT_LEN,
        r@ =~= kb_map_spec(layout),
{
    let r: Vec<u8> = match layout {
        KeyboardLayout::Tasoller => vec![
            0x41, 0x31, 0x5a, 0x51, 0x53, 0x32, 0x58, 0x57,
            0x44, 0x33, 0x43, 0x45, 0x46, 0x34, 0x56, 0x52,
            0x47, 0x35, 0x42, 0x54, 0x48, 0x36, 0x4e, 0x59,
            0x4a, 0x37, 0x4d, 0x55, 0x4b, 0x38, 0xbc, 0x49,
            0xbf, 0xde, 0xbe, 0xba, 0xdd, 0xdb, 0x0d, 0x20, 0x1b,
        ],
        KeyboardLayout::Yuancon => vec![
            0x36, 0x35, 0x34, 0x33, 0x32, 0x31, 0x5a, 0x59,
            0x58, 0x57, 0x56, 0x55, 0x54, 0x53, 0x52, 0x51,
            0x50, 0x4f, 0x4e, 0x4d, 0x4c, 0x4b, 0x4a, 0x49,
            0x48, 0x47, 0x46, 0x45, 0x44, 0x43, 0x42, 0x41,
            0xbd, 0xbb, 0xdb, 0xdd, 0xdc, 0xba, 0x0d, 0x20, 0x1b,
        ],
        KeyboardLayout::Umiguri => vec![
            0x41, 0x31, 0x5a, 0x51, 0x53, 0x32, 0x58, 0x57,
            0x44, 0x33, 0x43, 0x45, 0x46, 0x34, 0x56, 0x52,
            0x47, 0x35, 0x42, 0x54, 0x48, 0x36, 0x4e, 0x59,
            0x4a, 0x37, 0x4d, 0x55, 0x4b, 0x38, 0x39, 0x49,
            0x30, 0x4f, 0x4c, 0x50, 0xbc, 0xbe, 0x0d, 0x20, 0x1b,
        ],
        KeyboardLayout::PDFTA => vec![
            0x5a, 0x50, 0x5a, 0x50, 0x5a, 0x4f, 0x5a, 0x4f,
            0x58, 0x49, 0x58, 0x49, 0x58, 0x55, 0x58, 0x55,
            0x43, 0x52, 0x43, 0x52, 0x43, 0x45, 0x43, 0x45,
            0x56, 0x57, 0x56, 0x57, 0x56, 0x51, 0x56, 0x51,
            0x1b, 0x1b, 0x1b, 0x1b, 0x1b, 0x1b, 0x1b, 0x1b, 0x1b,
        ],
        KeyboardLayout::TasollerHalf => vec![
            0x41, 0x41, 0x5a, 0x5a, 0x53, 0x53, 0x58, 0x58,
            0x44, 0x44, 0x43, 0x43, 0x46, 0x46, 0x56, 0x56,
            0x47, 0x47, 0x42, 0x42, 0x48, 0x48, 0x4e, 0x4e,
            0x4a, 0x4a, 0x4d, 0x4d, 0x4b, 0x4b, 0xbc, 0xbc,
            0xbf, 0xde, 0xbe, 0xba, 0xdd, 0xdb, 0x0d, 0x20, 0x1b,
        ],
        KeyboardLayout::EightK => vec![
            0x41, 0x41, 0x41, 0x41, 0x53, 0x53, 0x53, 0x53,
            0x44, 0x44, 0x44, 0x44, 0x46, 0x46, 0x46, 0x46,
            0x4a, 0x4a, 0x4a, 0x4a, 0x4b, 0x4b, 0x4b, 0x4b,
            0x4c, 0x4c, 0x4c, 0x4c, 0xba, 0xba, 0xba, 0xba,
            0x20, 0x20, 0x20, 0x20, 0x20, 0x20, 0x00, 0x00, 0x00,
        ],
        KeyboardLayout::SixK => vec![
            0x53, 0x53, 0x53, 0x53, 0x53, 0x53, 0x44, 0x44,
            0x44, 0x44, 0x46, 0x46, 0x46, 0x46, 0x46, 0x46,
            0x4a, 0x4a, 0x4a, 0x4a, 0x4a, 0x4a, 0x4b, 0x4b,
            0x4b, 0x4b, 0x4c, 0x4c, 0x4c, 0x4c, 0x4c, 0x4c,
            0x20, 0x20, 0x20, 0x20, 0x20, 0x20, 0x00, 0x00, 0x00,
        ],
        KeyboardLayout::FourK => vec![
            0x44, 0x44, 0x44, 0x44, 0x44, 0x44, 0x44, 0x44,
            0x46, 0x46, 0x46, 0x46, 0x46, 0x46, 0x46, 0x46,
            0x4a, 0x4a, 0x4a, 0x4a, 0x4a, 0x4a, 0x4a, 0x4a,
            0x4b, 0x4b, 0x4b, 0x4b, 0x4b, 0x4b, 0x4b, 0x4b,
            0x20, 0x20, 0x20, 0x20, 0x20, 0x20, 0x00, 0x00, 0x00,
        ],
        KeyboardLayout::Voltex => vec![
            0x57, 0x57, 0x57, 0x57, 0x45, 0x45, 0x45, 0x45,
            0x43, 0x44, 0x43, 0x44, 0x43, 0x46, 0x43, 0x46,
            0x4d, 0x4a, 0x4d, 0x4a, 0x4d, 0x4b, 0x4d, 0x4b,
            0x4f, 0x4f, 0x4f, 0x4f, 0x50, 0x50, 0x50, 0x50,
            0x00, 0x00, 0x00, 0x00, 0x00, 0x00, 0x31, 0x0d, 0x1b,
        ],
        KeyboardLayout::Neardayo => vec![
            0x57, 0x57, 0x57, 0x57, 0x45, 0x45, 0x45, 0x45,
            0x43, 0x44, 0x43, 0x44, 0x43, 0x46, 0x43, 0x46,
            0x4d, 0x4a, 0x4d, 0x4a, 0x4d, 0x4b, 0x4d, 0x4b,
            0x4f, 0x4f, 0x4f, 0x4f, 0x50, 0x50, 0x50, 0x50,
            0x57, 0x45, 0x45, 0x4f, 0x4f, 0x50, 0x31, 0x0d, 0x1b,
        ],
    };
    r
}

/// One keyboard event to inject: a virtual-key code pressed or released.
#[derive(PartialEq, Eq, Structural, Clone, Copy, Debug)]
pub struct KeyEvent {
    /// The virtual-key code.
    pub code: u8,
    /// True for a key-down event, false for key-up.
    pub down: bool,
}

/// Whether some flat index before `upto` is pressed and maps to key index
/// `k`.
pub open spec fn key_pressed(flat: Seq<bool>, map: Seq<usize>, k: int, upto: int) -> bool {
    exists|g: int| 0 <= g < upto && flat[g] && map[g] == k
}

/// The events emitted for the first `n` keys when the pressed set moves from
/// `last` to `next`: one event per enabled key whose state changed, in key
/// order, down exactly when the key is now pressed.
pub open spec fn diff_events(
    next: Seq<bool>,
    last: Seq<bool>,
    codes: Seq<u8>,
    enabled: Seq<bool>,
    n: int,
) -> Seq<KeyEvent>
    decreases n,
{
    if n <= 0 {
        Seq::empty()
    } else if enabled[n - 1] && next[n - 1] != last[n - 1] {
        diff_events(next, last, codes, enabled, n - 1) + seq![
            KeyEvent { code: codes[n - 1], down: next[n - 1] },
        ]
    } else {
        diff_events(next, last, codes, enabled, n - 1)
    }
}

/// The number of first-`n` indices where an enabled key changed state.
pub open spec fn count_changed(
    next: Seq<bool>,
    last: Seq<bool>,
    enabled: Seq<bool>,
    n: int,
) -> int
    decreases n,
{
    if n <= 0 {
        0
    } else {
        count_changed(next, last, enabled, n - 1) + if enabled[n - 1] && next[n - 1] != last[n
            - 1] {
            1int
        } else {
            0int
        }
    }
}

/// Key diffing emits exactly one event per enabled key whose pressed state
/// changed between two ticks: the number of injected down and up events
/// equals the number of key indices where `next` differs from `last`.
pub proof fn lemma_key_diff_count(
    next: Seq<bool>,
    last: Seq<bool>,
    codes: Seq<u8>,
    enabled: Seq<bool>,
    n: int,
)
    ensures
        diff_events(next, last, codes, enabled, n).len() == count_changed(next, last, enabled, n),
    decreases n,
{
    if n > 0 {
        lemma_key_diff_count(next, last, codes, enabled, n - 1);
    }
}

/// The verified core of the keyboard output: the de-duplicated key set, the
/// mapping from flat indices onto it, and the pressed set of the previous
/// tick.
pub struct KeyboardCore {
    /// Key index of each flat index.
    pub input_to_idx: Vec<usize>,
    /// Virtual-key code of each key index; unique over the key set.
    pub key_idx_to_keycode: Vec<u8>,
    /// Whether events are emitted for this key index. Initially true exactly
    /// for nonzero keycodes; the injection backend may disable keys it cannot
    /// translate.
    pub enabled: Vec<bool>,
    /// The pressed set as of the previous tick.
    pub last_keys: Vec<bool>,
}

/// Whether no entry of `map` before `n` carries the keycode `c`.
pub open spec fn unseen(map: Seq<u8>, c: int, n: int) -> bool {
    forall|h: int| 0 <= h < n ==> map[h] != c
}

/// Whether flat index `g` carries the first appearance of its keycode.
pub open spec fn is_first_occurrence(map: Seq<u8>, g: int) -> bool {
    unseen(map, map[g] as int, g)
}

/// How many distinct keycodes appear among the first `n` entries of `map`:
/// one per first appearance.
pub open spec fn distinct_to(map: Seq<u8>, n: int) -> int
    decreases n,
{
    if n <= 0 {
        0
    } else {
        distinct_to(map, n - 1) + if is_first_occurrence(map, n - 1) {
            1int
        } else {
            0int
        }
    }
}

impl KeyboardCore {
    /// The number of unique keys.
    pub open spec fn n_keys(&self) -> int {
        self.key_idx_to_keycode@.len() as int
    }

    /// The tables are consistent: every flat index maps to a key, the key
    /// set is no larger than the mapping, and keycodes are unique.
    pub open spec fn wf(&self) -> bool {
        &&& self.input_to_idx@.len() == FLAT_LEN
        &&& self.enabled@.len() == self.n_keys()
        &&& self.last_keys@.len() == self.n_keys()
        &&& self.n_keys() <= FLAT_LEN
        &&& forall|g: int| 0 <= g < FLAT_LEN ==> self.input_to_idx@[g] < self.n_keys()
        &&& forall|i: int, j: int|
            0 <= i < j < self.n_keys() ==> self.key_idx_to_keycode@[i]
                != self.key_idx_to_keycode@[j]
    }

    /// Derives the key set of a keycode mapping: flat indices sharing a
    /// keycode share a key index, each keycode appears once in the key set,
    /// key indices are handed out in order of first appearance, and a key
    /// starts enabled exactly when its keycode is nonzero.
    pub fn new(map: &Vec<u8>) -> (r: Self)
        requires
            map@.len() == FLAT_LEN,
        ensures
            r.wf(),
            forall|g: int|
                0 <= g < FLAT_LEN ==> r.key_idx_to_keycode@[r.input_to_idx@[g] as int] == map@[g],
            r.n_keys() == distinct_to(map@, FLAT_LEN as int),
            forall|g: int|
                0 <= g < FLAT_LEN && #[trigger] is_first_occurrence(map@, g)
                    ==> r.input_to_idx@[g] == distinct_to(map@, g),
            forall|i: int|
                0 <= i < r.n_keys() ==> r.enabled@[i] == (r.key_idx_to_keycode@[i]
                    != KEY_DISABLED),
            forall|i: int| 0 <= i < r.n_keys() ==> !r.last_keys@[i],
    {
        let mut keycode_to_idx: Vec<usize> = vec![KEY_UNMAPPED; 256];
        let mut input_to_idx: Vec<usize> = Vec::new();
        let mut key_idx_to_keycode: Vec<u8> = Vec::new();

        let mut g: usize = 0;
        while g < 41
            invariant
                map@.len() == FLAT_LEN,
                g <= 41,
                keycode_to_idx@.len() == 256,
                input_to_idx@.len() == g,
                key_idx_to_keycode@.len() == distinct_to(map@, g as int),
                key_idx_to_keycode@.len() <= g,
                forall|c: int|
                    0 <= c < 256 ==> (keycode_to_idx@[c] == KEY_UNMAPPED || (keycode_to_idx@[c]
                        < key_idx_to_keycode@.len()
                        && key_idx_to_keycode@[keycode_to_idx@[c] as int] == c)),
                forall|c: int|
                    0 <= c < 256 ==> ((#[trigger] keycode_to_idx@[c] == KEY_UNMAPPED) <==> unseen(
                        map@,
                        c,
                        g as int,
                    )),
                forall|i: int|
                    0 <= i < key_idx_to_keycode@.len() ==> keycode_to_idx@[key_idx_to_keycode@[i] as int]
                        == i,
                forall|h: int| #![trigger input_to_idx@[h]]
                    0 <= h < g ==> (input_to_idx@[h] < key_idx_to_keycode@.len()
                        && key_idx_to_keycode@[input_to_idx@[h] as int] == map@[h]),
                forall|h: int|
                    0 <= h < g && #[trigger] is_first_occurrence(map@, h) ==> input_to_idx@[h]
                        == distinct_to(map@, h),
            decreases 41 - g,
        {
            let ghost table0 = keycode_to_idx@;
            let kc = map[g] as usize;
            if keycode_to_idx[kc] == KEY_UNMAPPED {
                proof {
                    assert(unseen(map@, kc as int, g as int));
                    assert(is_first_occurrence(map@, g as int));
                }
                keycode_to_idx[kc] = key_idx_to_keycode.len();
                key_idx_to_keycode.push(map[g]);
            } else {
                proof {
                    assert(!unseen(map@, kc as int, g as int));
                    assert(!is_first_occurrence(map@, g as int));
                }
            }
            let idx = keycode_to_idx[kc];
            assert(idx < key_idx_to_keycode@.len());
            assert(key_idx_to_keycode@[idx as int] == kc);
            input_to_idx.push(idx);
            proof {
                assert(distinct_to(map@, g + 1) == distinct_to(map@, g as int)
                    + if is_first_occurrence(map@, g as int) {
                    1int
                } else {
                    0int
                });
                assert forall|c: int| 0 <= c < 256 implies ((#[trigger] keycode_to_idx@[c]
                    == KEY_UNMAPPED) <==> unseen(map@, c, g + 1)) by {
                    if c == kc {
                        assert(!unseen(map@, c, g + 1));
                    } else {
                        assert(keycode_to_idx@[c] == table0[c]);
                        assert(unseen(map@, c, g + 1) <==> unseen(map@, c, g as int)) by {
                            if unseen(map@, c, g as int) && map@[g as int] != c {
                                assert(unseen(map@, c, g + 1));
                            }
                        }
                    }
                }
            }
            g = g + 1;
        }

        let n = key_idx_to_keycode.len();
        let mut enabled: Vec<bool> = Vec::new();
        let mut i: usize = 0;
        while i < n
            invariant
                n == key_idx_to_keycode@.len(),
                i <= n,
                enabled@.len() == i,
                forall|j: int|
                    0 <= j < i ==> enabled@[j] == (key_idx_to_keycode@[j] != KEY_DISABLED),
            decreases n - i,
        {
            enabled.push(key_idx_to_keycode[i] != KEY_DISABLED);
            i = i + 1;
        }

        let mut last_keys: Vec<bool> = Vec::new();
        let mut i: usize = 0;
        while i < n
            invariant
                n == key_idx_to_keycode@.len(),
                i <= n,
                last_keys@.len() == i,
                forall|j: int| 0 <= j < i ==> !last_keys@[j],
            decreases n - i,
        {
            last_keys.push(false);
            i = i + 1;
        }

        let r = KeyboardCore { input_to_idx, key_idx_to_keycode, enabled, last_keys };
        proof {
            assert forall|i: int, j: int|
                0 <= i < j < r.n_keys() implies r.key_idx_to_keycode@[i]
                != r.key_idx_to_keycode@[j] by {
                assert(keycode_to_idx@[r.key_idx_to_keycode@[i] as int] == i);
                assert(keycode_to_idx@[r.key_idx_to_keycode@[j] as int] == j);
            }
        }
        r
    }

    /// The pressed set of one tick: a key is down exactly when some pressed
    /// flat index maps to it.
    pub fn next_keys(&self, flat_input: &Vec<bool>) -> (r: Vec<bool>)
        requires
            self.wf(),
            flat_input@.len() == FLAT_LEN,
        ensures
            r@.len() == self.n_keys(),
            forall|k: int|
                0 <= k < self.n_keys() ==> r@[k] == key_pressed(
                    flat_input@,
                    self.input_to_idx@,
                    k,
                    FLAT_LEN as int,
                ),
    {
        let n = self.key_idx_to_keycode.len();
        let mut next: Vec<bool> = Vec::new();
        let mut i: usize = 0;
        while i < n
            invariant
                i <= n,
                next@.len() == i,
                forall|j: int| 0 <= j < i ==> !next@[j],
            decreases n - i,
        {
            next.push(false);
            i = i + 1;
        }
        let mut g: usize = 0;
        while g < 41
            invariant
                self.wf(),
                flat_input@.len() == FLAT_LEN,
                n == self.n_keys(),
                g <= 41,
                next@.len() == n,
                forall|k: int|
                    0 <= k < n ==> next@[k] == key_pressed(
                        flat_input@,
                        self.input_to_idx@,
                        k,
                        g as int,
                    ),
            decreases 41 - g,
        {
            let ghost prev = next@;
            if flat_input[g] {
                let k = self.input_to_idx[g];
                next[k] = true;
            }
            proof {
                assert forall|k: int| 0 <= k < n implies next@[k] == key_pressed(
                    flat_input@,
                    self.input_to_idx@,
                    k,
                    g + 1,
                ) by {
                    if flat_input@[g as int] && self.input_to_idx@[g as int] == k {
                        assert(key_pressed(flat_input@, self.input_to_idx@, k, g + 1));
                    } else {
                        assert(key_pressed(flat_input@, self.input_to_idx@, k, g + 1)
                            == key_pressed(flat_input@, self.input_to_idx@, k, g as int)) by {
                            if key_pressed(flat_input@, self.input_to_idx@, k, g + 1) {
                                let w = choose|w: int|
                                    0 <= w < g + 1 && flat_input@[w] && self.input_to_idx@[w] == k;
                                assert(w < g);
                                assert(key_pressed(flat_input@, self.input_to_idx@, k, g as int));
                            }
                            if key_pressed(flat_input@, self.input_to_idx@, k, g as int) {
                                let w = choose|w: int|
                                    0 <= w < g && flat_input@[w] && self.input_to_idx@[w] == k;
                                assert(0 <= w < g + 1 && flat_input@[w] && self.input_to_idx@[w]
                                    == k);
                            }
                        }
                    }
                }
            }
            g = g + 1;
        }
        next
    }

    /// One output tick: folds the flat input onto the key set, emits one
    /// event per enabled key whose state changed since the previous tick, and
    /// remembers the new state of every enabled key.
    pub fn tick(&mut self, flat_input: &Vec<bool>) -> (events: Vec<KeyEvent>)
        requires
            old(self).wf(),
            flat_input@.len() == FLAT_LEN,
        ensures
            final(self).wf(),
            final(self).input_to_idx@ == old(self).input_to_idx@,
            final(self).key_idx_to_keycode@ == old(self).key_idx_to_keycode@,
            final(self).enabled@ == old(self).enabled@,
            ({
                let next = Seq::new(
                    old(self).n_keys() as nat,
                    |k: int| key_pressed(flat_input@, old(self).input_to_idx@, k, FLAT_LEN as int),
                );
                &&& events@ == diff_events(
                    next,
                    old(self).last_keys@,
                    old(self).key_idx_to_keycode@,
                    old(self).enabled@,
                    old(self).n_keys(),
                )
                &&& forall|k: int|
                    0 <= k < old(self).n_keys() ==> final(self).last_keys@[k] == (if old(
                        self,
                    ).enabled@[k] {
                        next[k]
                    } else {
                        old(self).last_keys@[k]
                    })
            }),
    {
        let next = self.next_keys(flat_input);
        proof {
            assert(next@ =~= Seq::new(
                old(self).n_keys() as nat,
                |k: int| key_pressed(flat_input@, old(self).input_to_idx@, k, FLAT_LEN as int),
            ));
        }
        self.send(&next)
    }

    /// Emits the events that move the injected state to `next`: one event per
    /// enabled key whose state changed, and remembers `next` for every
    /// enabled key.
    pub fn send(&mut self, next: &Vec<bool>) -> (events: Vec<KeyEvent>)
        requires
            old(self).wf(),
            next@.len() == old(self).n_keys(),
        ensures
            final(self).wf(),
            final(self).input_to_idx@ == old(self).input_to_idx@,
            final(self).key_idx_to_keycode@ == old(self).key_idx_to_keycode@,
            final(self).enabled@ == old(self).enabled@,
            events@ == diff_events(
                next@,
                old(self).last_keys@,
                old(self).key_idx_to_keycode@,
                old(self).enabled@,
                old(self).n_keys(),
            ),
            forall|k: int|
                0 <= k < old(self).n_keys() ==> final(self).last_keys@[k] == (if old(
                    self,
                ).enabled@[k] {
                    next@[k]
                } else {
                    old(self).last_keys@[k]
                }),
    {
        let ghost last0 = self.last_keys@;
        let n = self.key_idx_to_keycode.len();
        let mut events: Vec<KeyEvent> = Vec::new();
        let mut i: usize = 0;
        while i < n
            invariant
                self.wf(),
                next@.len() == n,
                n == self.n_keys(),
                i <= n,
                self.input_to_idx@ == old(self).input_to_idx@,
                self.key_idx_to_keycode@ == old(self).key_idx_to_keycode@,
                self.enabled@ == old(self).enabled@,
                self.last_keys@.len() == n,
                last0.len() == n,
                last0 == old(self).last_keys@,
                forall|k: int| i <= k < n ==> self.last_keys@[k] == last0[k],
                forall|k: int|
                    0 <= k < i ==> self.last_keys@[k] == (if self.enabled@[k] {
                        next@[k]
                    } else {
                        last0[k]
                    }),
                events@ == diff_events(
                    next@,
                    last0,
                    self.key_idx_to_keycode@,
                    self.enabled@,
                    i as int,
                ),
            decreases n - i,
        {
            if self.enabled[i] {
                if next[i] != self.last_keys[i] {
                    events.push(KeyEvent { code: self.key_idx_to_keycode[i], down: next[i] });
                }
                let v = next[i];
                self.last_keys[i] = v;
            }
            i = i + 1;
        }
        events
    }

    /// Releases everything: emits an up event for each enabled key still
    /// pressed, as on shutdown.
    pub fn reset(&mut self) -> (events: Vec<KeyEvent>)
        requires
            old(self).wf(),
        ensures
            final(self).wf(),
            final(self).input_to_idx@ == old(self).input_to_idx@,
            final(self).key_idx_to_keycode@ == old(self).key_idx_to_keycode@,
            final(self).enabled@ == old(self).enabled@,
            events@ == diff_events(
                Seq::new(old(self).n_keys() as nat, |k: int| false),
                old(self).last_keys@,
                old(self).key_idx_to_keycode@,
                old(self).enabled@,
                old(self).n_keys(),
            ),
    {
        let n = self.key_idx_to_keycode.len();
        let mut next: Vec<bool> = Vec::new();
        let mut i: usize = 0;
        while i < n
            invariant
                i <= n,
                next@.len() == i,
                forall|j: int| 0 <= j < i ==> !next@[j],
            decreases n - i,
        {
            next.push(false);
            i = i + 1;
        }
        proof {
            assert(next@ =~= Seq::new(old(self).n_keys() as nat, |k: int| false));
        }
        self.send(&next)
    }

    /// Marks one key as disabled, as when the injection backend cannot
    /// translate its keycode.
    pub fn disable_key(&mut self, i: usize)
        requires
            old(self).wf(),
            i < old(self).n_keys(),
        ensures
            final(self).wf(),
            final(self).input_to_idx@ == old(self).input_to_idx@,
            final(self).key_idx_to_keycode@ == old(self).key_idx_to_keycode@,
            final(self).last_keys@ == old(self).last_keys@,
            final(self).enabled@ =~= old(self).enabled@.update(i as int, false),
    {
        self.enabled[i] = false;
    }
}

} // verus!
