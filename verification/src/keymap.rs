//! From a set of host keys to the one keypad key that it stands for.
//!
//! A host key is known by its key code, the X11 keysym that windowing
//! libraries report for it: for a letter or digit key, the ASCII code of its
//! legend. The keypad has sixteen keys, `0x0` to `0xF`. The left-hand block of
//! a keyboard mirrors the keypad's 4×4 grid:
//!
//! ```text
//!   host keys        keypad
//!   1 2 3 4          1 2 3 C
//!   Q W E R          4 5 6 D
//!   A S D F          7 8 9 E
//!   Z X C V          A 0 B F
//! ```
//!
//! A set of host keys stands for at most one keypad key. When it holds
//! several mapped host keys, the one that comes first in [`KEYMAP`] wins; host
//! keys that are not in the table count for nothing.

use std::collections::HashSet;
use vstd::prelude::*;

verus! {

/// Key code of the host key `1`.
pub const KEY_1: u16 = 0x31;

/// Key code of the host key `2`.
pub const KEY_2: u16 = 0x32;

/// Key code of the host key `3`.
pub const KEY_3: u16 = 0x33;

/// Key code of the host key `4`.
pub const KEY_4: u16 = 0x34;

/// Key code of the host key `Q`.
pub const KEY_Q: u16 = 0x51;

/// Key code of the host key `W`.
pub const KEY_W: u16 = 0x57;

/// Key code of the host key `E`.
pub const KEY_E: u16 = 0x45;

/// Key code of the host key `R`.
pub const KEY_R: u16 = 0x52;

/// Key code of the host key `A`.
pub const KEY_A: u16 = 0x41;

/// Key code of the host key `S`.
pub const KEY_S: u16 = 0x53;

/// Key code of the host key `D`.
pub const KEY_D: u16 = 0x44;

/// Key code of the host key `F`.
pub const KEY_F: u16 = 0x46;

/// Key code of the host key `Z`.
pub const KEY_Z: u16 = 0x5A;

/// Key code of the host key `X`.
pub const KEY_X: u16 = 0x58;

/// Key code of the host key `C`.
pub const KEY_C: u16 = 0x43;

/// Key code of the host key `V`.
pub const KEY_V: u16 = 0x56;

/// Number of keys on the keypad, and of entries in [`KEYMAP`].
pub const KEY_COUNT: usize = 16;

/// The mapped host keys, each with its keypad key, in priority order: an
/// earlier entry wins over a later one.
pub const KEYMAP: [(u16, usize); 16] = [
    (KEY_1, 0x1),
    (KEY_2, 0x2),
    (KEY_3, 0x3),
    (KEY_4, 0xC),
    (KEY_Q, 0x4),
    (KEY_W, 0x5),
    (KEY_E, 0x6),
    (KEY_R, 0xD),
    (KEY_A, 0x7),
    (KEY_S, 0x8),
    (KEY_D, 0x9),
    (KEY_F, 0xE),
    (KEY_Z, 0xA),
    (KEY_X, 0x0),
    (KEY_C, 0xB),
    (KEY_V, 0xF),
];

/// Host key of entry `i` of the table.
pub open spec fn host_key(i: int) -> u16 {
    KEYMAP@[i].0
}

/// Keypad key of entry `i` of the table.
pub open spec fn keypad_key(i: int) -> usize {
    KEYMAP@[i].1
}

/// Entry `i` of the table is the earliest one whose host key is in `keys`.
pub open spec fn wins(keys: Set<u16>, i: int) -> bool {
    &&& 0 <= i < KEY_COUNT
    &&& keys.contains(host_key(i))
    &&& forall|j: int| 0 <= j < i ==> !keys.contains(#[trigger] host_key(j))
}

/// No host key of the table is in `keys`.
pub open spec fn none_mapped(keys: Set<u16>) -> bool {
    forall|j: int| 0 <= j < KEY_COUNT ==> !keys.contains(#[trigger] host_key(j))
}

/// The keypad key that the host keys `keys` stand for: that of the earliest
/// table entry whose host key is among them, if there is one.
pub open spec fn button_for(keys: Set<u16>) -> Option<usize> {
    if exists|i: int| wins(keys, i) {
        Some(keypad_key(choose|i: int| wins(keys, i)))
    } else {
        None
    }
}

/// At most one entry wins.
pub proof fn lemma_winner_is_unique(keys: Set<u16>, i: int, j: int)
    requires
        wins(keys, i),
        wins(keys, j),
    ensures
        i == j,
{
}

/// Of several mapped host keys, the one earliest in the table decides the
/// keypad key, whatever else the set holds.
pub proof fn lemma_earliest_wins(keys: Set<u16>, i: int)
    requires
        wins(keys, i),
    ensures
        button_for(keys) == Some(keypad_key(i)),
{
    let w = choose|w: int| wins(keys, w);
    lemma_winner_is_unique(keys, i, w);
}

/// A set that holds exactly one mapped host key, beside any number of
/// unmapped ones, stands for that key's keypad key.
pub proof fn lemma_single_mapped_key(keys: Set<u16>, i: int)
    requires
        0 <= i < KEY_COUNT,
        keys.contains(host_key(i)),
        forall|j: int| 0 <= j < KEY_COUNT && j != i ==> !keys.contains(#[trigger] host_key(j)),
    ensures
        button_for(keys) == Some(keypad_key(i)),
{
    lemma_earliest_wins(keys, i);
}

/// A set stands for no keypad key exactly when it holds no mapped host key.
pub proof fn lemma_none_iff_none_mapped(keys: Set<u16>)
    ensures
        button_for(keys) is None <==> none_mapped(keys),
{
    if !none_mapped(keys) {
        let j = choose|j: int| 0 <= j < KEY_COUNT && keys.contains(#[trigger] host_key(j));
        lemma_some_entry_wins(keys, j);
    }
}

/// If the host key of entry `upto` is in `keys`, some entry at or before it
/// wins.
proof fn lemma_some_entry_wins(keys: Set<u16>, upto: int)
    requires
        0 <= upto < KEY_COUNT,
        keys.contains(host_key(upto)),
    ensures
        exists|i: int| 0 <= i <= upto && wins(keys, i),
    decreases upto,
{
    if exists|j: int| 0 <= j < upto && keys.contains(#[trigger] host_key(j)) {
        let j = choose|j: int| 0 <= j < upto && keys.contains(#[trigger] host_key(j));
        lemma_some_entry_wins(keys, j);
    } else {
        assert(wins(keys, upto));
    }
}

/// Host keys outside the table count for nothing: two sets that hold the
/// same mapped host keys stand for the same keypad key.
pub proof fn lemma_unmapped_keys_are_ignored(keys: Set<u16>, others: Set<u16>)
    requires
        forall|i: int|
            0 <= i < KEY_COUNT ==> (keys.contains(#[trigger] host_key(i)) <==> others.contains(
                host_key(i),
            )),
    ensures
        button_for(keys) == button_for(others),
{
    if exists|i: int| wins(keys, i) {
        let i = choose|i: int| wins(keys, i);
        lemma_earliest_wins(others, i);
    } else {
        assert forall|i: int| !wins(others, i) by {
            if wins(others, i) {
                assert(wins(keys, i));
            }
        }
    }
}

/// Every keypad key has exactly one entry in the table, and no host key has
/// two.
pub proof fn lemma_table_is_one_to_one()
    ensures
        forall|i: int| 0 <= i < KEY_COUNT ==> #[trigger] keypad_key(i) < KEY_COUNT,
        forall|i: int, j: int|
            0 <= i < j < KEY_COUNT ==> #[trigger] keypad_key(i) != #[trigger] keypad_key(j),
        forall|i: int, j: int|
            0 <= i < j < KEY_COUNT ==> #[trigger] host_key(i) != #[trigger] host_key(j),
{
}

/// The keypad key that the host keys `keys` stand for.
///
/// Host keys outside the table are ignored. Of several mapped keys the one
/// earliest in [`KEYMAP`] is reported; with none the result is `None`. The
/// result depends on nothing but the set.
pub fn key_to_btn(keys: &HashSet<u16>) -> (btn: Option<usize>)
    ensures
        btn == button_for(keys@),
        match btn {
            Some(k) => k < KEY_COUNT && exists|i: int| wins(keys@, i) && keypad_key(i) == k,
            None => none_mapped(keys@),
        },
{
    broadcast use vstd::std_specs::hash::group_hash_axioms;

    let mut i: usize = 0;
    while i < KEY_COUNT
        invariant
            0 <= i <= KEY_COUNT,
            forall|j: int| 0 <= j < i ==> !keys@.contains(#[trigger] host_key(j)),
        decreases KEY_COUNT - i,
    {
        let (host, btn): (u16, usize) = KEYMAP[i];
        if keys.contains(&host) {
            proof {
                lemma_earliest_wins(keys@, i as int);
                lemma_table_is_one_to_one();
            }
            return Some(btn);
        }
        i += 1;
    }
    proof {
        lemma_none_iff_none_mapped(keys@);
    }
    None
}

} // verus!
