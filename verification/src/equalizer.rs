//! The ten-band equalizer's named presets.
//!
//! Every preset gain is a whole number of dB, so the table lives here as
//! integers; the shell turns a row into the engine's float gains.

use vstd::prelude::*;

use crate::text::{chars_of, same_chars};

verus! {

/// Number of bands on the engine's equalizer.
pub const EQ_BAND_COUNT: usize = 10;

/// Deepest cut the settings sliders allow, in dB.
pub const EQ_GAIN_MIN_DB: i32 = -24;

/// Highest boost the settings sliders allow, in dB.
pub const EQ_GAIN_MAX_DB: i32 = 12;

/// The presets offered in the settings, in the order they are tried when
/// live bands are matched back to a name (`custom` is not among them).
pub open spec fn eq_preset_ids() -> Seq<Seq<char>> {
    seq![
        "flat"@,
        "hip-hop"@,
        "rock"@,
        "jazz"@,
        "classic"@,
        "vocals"@,
        "electronic"@,
        "pop"@,
    ]
}

/// Gains in dB, lowest band first, of the preset at position `i` of
/// [`eq_preset_ids`].
pub open spec fn preset_row(i: int) -> Seq<i32> {
    if i == 0 {
        seq![0i32, 0, 0, 0, 0, 0, 0, 0, 0, 0]
    } else if i == 1 {
        seq![6i32, 5, 1, 0, -1i32, -1i32, 0, 1, 2, 3]
    } else if i == 2 {
        seq![4i32, 3, 1, 0, -1i32, 0, 1, 2, 3, 3]
    } else if i == 3 {
        seq![3i32, 2, 0, 1, 2, 2, 1, 0, 1, 2]
    } else if i == 4 {
        seq![4i32, 3, 0, 0, 0, 0, -1i32, 2, 3, 4]
    } else if i == 5 {
        seq![-2i32, -1i32, 0, 2, 4, 4, 3, 1, 0, -1i32]
    } else if i == 6 {
        seq![5i32, 4, 1, 0, -2i32, 1, 0, 2, 4, 5]
    } else {
        seq![2i32, 1, 0, 1, 2, 1, 0, 1, 2, 2]
    }
}

/// Gains of the preset called `name`, or `None` for a name that is no preset.
pub open spec fn preset_gains_spec(name: Seq<char>) -> Option<Seq<i32>> {
    if exists|i: int| 0 <= i < eq_preset_ids().len() && eq_preset_ids()[i] == name {
        let i = choose|i: int| 0 <= i < eq_preset_ids().len() && eq_preset_ids()[i] == name;
        Some(preset_row(i))
    } else {
        None
    }
}

/// Ten gains from a table row.
fn gains(row: [i32; 10]) -> (out: Vec<i32>)
    ensures
        out@ == row@,
{
    let mut out: Vec<i32> = Vec::new();
    let mut i: usize = 0;
    while i < 10
        invariant
            i <= 10,
            out@ == row@.subrange(0, i as int),
        decreases 10 - i,
    {
        out.push(row[i]);
        i = i + 1;
        assert(out@ =~= row@.subrange(0, i as int));
    }
    assert(out@ =~= row@);
    out
}

/// The ids are pairwise different, so a name finds exactly its own row.
proof fn lemma_ids_distinct()
    ensures
        forall|i: int, j: int|
            0 <= i < eq_preset_ids().len() && 0 <= j < eq_preset_ids().len() && i != j
                ==> eq_preset_ids()[i] != eq_preset_ids()[j],
{
    reveal_strlit("flat");
    reveal_strlit("hip-hop");
    reveal_strlit("rock");
    reveal_strlit("jazz");
    reveal_strlit("classic");
    reveal_strlit("vocals");
    reveal_strlit("electronic");
    reveal_strlit("pop");
    assert forall|i: int, j: int|
        0 <= i < eq_preset_ids().len() && 0 <= j < eq_preset_ids().len() && i != j
            implies eq_preset_ids()[i] != eq_preset_ids()[j] by {
        let a = eq_preset_ids()[i];
        let b = eq_preset_ids()[j];
        if a.len() == b.len() {
            assert(a[0] != b[0]);
        }
    }
}

/// The preset at position `i` of [`eq_preset_ids`] is found by its name.
pub proof fn lemma_preset_named(i: int)
    requires
        0 <= i < eq_preset_ids().len(),
    ensures
        preset_gains_spec(eq_preset_ids()[i]) == Some(preset_row(i)),
{
    lemma_ids_distinct();
    let name = eq_preset_ids()[i];
    let j = choose|j: int| 0 <= j < eq_preset_ids().len() && eq_preset_ids()[j] == name;
    assert(j == i);
}

/// Two different presets differ in some band by at least a whole dB, so a
/// preset's own gains, matched back within a fraction of a dB, find its name
/// and no other.
pub proof fn lemma_presets_differ(i: int, j: int)
    requires
        0 <= i < eq_preset_ids().len(),
        0 <= j < eq_preset_ids().len(),
        i != j,
    ensures
        eq_preset_ids()[i] != eq_preset_ids()[j],
        exists|k: int| 0 <= k < EQ_BAND_COUNT as int
            && #[trigger] preset_row(i)[k] != preset_row(j)[k],
{
    lemma_ids_distinct();
    if preset_row(i)[0] == preset_row(j)[0] {
        assert(preset_row(i)[2] != preset_row(j)[2]);
    } else {
        assert(preset_row(i)[0] != preset_row(j)[0]);
    }
}

/// Gains of the preset called `name`; `None` for an unknown name.
pub fn preset_gains(name: &str) -> (out: Option<Vec<i32>>)
    ensures
        match out {
            Some(g) => {
                &&& preset_gains_spec(name@) == Some(g@)
                &&& g@.len() == EQ_BAND_COUNT
                &&& forall|k: int|
                    0 <= k < g@.len() ==> EQ_GAIN_MIN_DB <= #[trigger] g@[k] <= EQ_GAIN_MAX_DB
            },
            None => preset_gains_spec(name@) is None,
        },
{
    let n = chars_of(name);
    let ids: [&str; 8] = ["flat", "hip-hop", "rock", "jazz", "classic", "vocals", "electronic", "pop"];
    let mut i: usize = 0;
    while i < 8
        invariant
            i <= 8,
            n@ == name@,
            forall|k: int| 0 <= k < 8 ==> #[trigger] ids@[k]@ == eq_preset_ids()[k],
            forall|k: int| 0 <= k < i ==> eq_preset_ids()[k] != name@,
        decreases 8 - i,
    {
        if same_chars(chars_of(ids[i]).as_slice(), n.as_slice()) {
            let row: [i32; 10] = if i == 0 {
                [0, 0, 0, 0, 0, 0, 0, 0, 0, 0]
            } else if i == 1 {
                [6, 5, 1, 0, -1, -1, 0, 1, 2, 3]
            } else if i == 2 {
                [4, 3, 1, 0, -1, 0, 1, 2, 3, 3]
            } else if i == 3 {
                [3, 2, 0, 1, 2, 2, 1, 0, 1, 2]
            } else if i == 4 {
                [4, 3, 0, 0, 0, 0, -1, 2, 3, 4]
            } else if i == 5 {
                [-2, -1, 0, 2, 4, 4, 3, 1, 0, -1]
            } else if i == 6 {
                [5, 4, 1, 0, -2, 1, 0, 2, 4, 5]
            } else {
                [2, 1, 0, 1, 2, 1, 0, 1, 2, 2]
            };
            let out = gains(row);
            assert(row@ =~= preset_row(i as int));
            proof {
                lemma_ids_distinct();
                assert(eq_preset_ids()[i as int] == name@);
                let j = choose|j: int| 0 <= j < eq_preset_ids().len() && eq_preset_ids()[j] == name@;
                assert(j == i as int);
            }
            return Some(out);
        }
        i = i + 1;
    }
    None
}

} // verus!
