//! Fresh names: the first of `base`, `base<sep>2`, `base<sep>3`, … that is
//! not taken yet. Profile ids and auto-named playlists both draw from here.

use vstd::prelude::*;
use crate::config::views;
use crate::text::{
    chars_of, decimal, lemma_decimal_injective, lemma_decimal_value, push_decimal, same_chars,
    string_of,
};

verus! {

/// The `k`-th candidate: `base` itself for the first, then `base`, `sep` and
/// the decimal `k` (so the second candidate carries `2`).
pub open spec fn numbered_name(base: Seq<char>, sep: char, k: nat) -> Seq<char> {
    if k <= 1 {
        base
    } else {
        base.push(sep) + decimal(k)
    }
}

/// `name` is the first candidate that `taken` does not hold.
pub open spec fn is_first_free(
    base: Seq<char>,
    sep: char,
    taken: Seq<Seq<char>>,
    name: Seq<char>,
) -> bool {
    exists|k: nat|
        #![trigger numbered_name(base, sep, k)]
        k >= 1 && name == numbered_name(base, sep, k) && !taken.contains(name) && forall|j: nat|
            1 <= j < k ==> taken.contains(#[trigger] numbered_name(base, sep, j))
}

/// Different positions give different candidates.
pub proof fn lemma_numbered_injective(base: Seq<char>, sep: char, j: nat, k: nat)
    requires
        1 <= j,
        1 <= k,
        numbered_name(base, sep, j) == numbered_name(base, sep, k),
    ensures
        j == k,
{
    lemma_decimal_value(j);
    lemma_decimal_value(k);
    let head = base.push(sep);
    if j <= 1 && k <= 1 {
    } else if j <= 1 {
        assert(numbered_name(base, sep, k).len() > base.len());
    } else if k <= 1 {
        assert(numbered_name(base, sep, j).len() > base.len());
    } else {
        let nj = numbered_name(base, sep, j);
        let nk = numbered_name(base, sep, k);
        assert(decimal(j) =~= nj.subrange(head.len() as int, nj.len() as int));
        assert(decimal(k) =~= nk.subrange(head.len() as int, nk.len() as int));
        lemma_decimal_injective(j, k);
    }
}

/// `name` is the candidate at position `k` or later.
spec fn is_later(name: Seq<char>, base: Seq<char>, sep: char, k: nat) -> bool {
    exists|j: nat| j >= k && name == #[trigger] numbered_name(base, sep, j)
}

/// How many entries of `taken` are candidates at position `k` or later.
spec fn later_count(taken: Seq<Seq<char>>, base: Seq<char>, sep: char, k: nat) -> nat
    decreases taken.len(),
{
    if taken.len() == 0 {
        0
    } else {
        later_count(taken.drop_last(), base, sep, k) + if is_later(taken.last(), base, sep, k) {
            1nat
        } else {
            0nat
        }
    }
}

proof fn lemma_later_count_mono(taken: Seq<Seq<char>>, base: Seq<char>, sep: char, k: nat)
    ensures
        later_count(taken, base, sep, k + 1) <= later_count(taken, base, sep, k),
    decreases taken.len(),
{
    if taken.len() > 0 {
        lemma_later_count_mono(taken.drop_last(), base, sep, k);
        let x = taken.last();
        if is_later(x, base, sep, k + 1) {
            let j = choose|j: nat| j >= k + 1 && x == #[trigger] numbered_name(base, sep, j);
            assert(is_later(x, base, sep, k));
        }
    }
}

/// A taken candidate at position `k` leaves the count once the search moves
/// past it.
proof fn lemma_later_count_step(taken: Seq<Seq<char>>, base: Seq<char>, sep: char, k: nat)
    requires
        k >= 1,
        taken.contains(numbered_name(base, sep, k)),
    ensures
        later_count(taken, base, sep, k + 1) < later_count(taken, base, sep, k),
    decreases taken.len(),
{
    let x = taken.last();
    let rest = taken.drop_last();
    lemma_later_count_mono(rest, base, sep, k);
    if is_later(x, base, sep, k + 1) {
        let j = choose|j: nat| j >= k + 1 && x == #[trigger] numbered_name(base, sep, j);
        assert(is_later(x, base, sep, k));
    }
    if x == numbered_name(base, sep, k) {
        assert(is_later(x, base, sep, k));
        if is_later(x, base, sep, k + 1) {
            let j = choose|j: nat| j >= k + 1 && x == #[trigger] numbered_name(base, sep, j);
            lemma_numbered_injective(base, sep, j, k);
        }
    } else {
        let i = choose|i: int| 0 <= i < taken.len() && taken[i] == numbered_name(base, sep, k);
        assert(i < rest.len());
        assert(rest[i] == taken[i]);
        lemma_later_count_step(rest, base, sep, k);
    }
}

proof fn lemma_later_count_bound(taken: Seq<Seq<char>>, base: Seq<char>, sep: char, k: nat)
    ensures
        later_count(taken, base, sep, k) <= taken.len(),
    decreases taken.len(),
{
    if taken.len() > 0 {
        lemma_later_count_bound(taken.drop_last(), base, sep, k);
    }
}

/// Whether some entry of `taken` reads exactly `name`.
fn holds_name(taken: &Vec<String>, name: &Vec<char>) -> (b: bool)
    ensures
        b == views(taken@).contains(name@),
{
    let mut i: usize = 0;
    while i < taken.len()
        invariant
            i <= taken@.len(),
            forall|j: int| 0 <= j < i ==> views(taken@)[j] != name@,
        decreases taken@.len() - i,
    {
        let c = chars_of(taken[i].as_str());
        if same_chars(c.as_slice(), name.as_slice()) {
            assert(views(taken@)[i as int] == name@);
            return true;
        }
        i = i + 1;
    }
    false
}

/// The first of `base`, `base<sep>2`, `base<sep>3`, … that no entry of
/// `taken` reads. There are fewer taken names than candidates, so one is
/// always free within `taken.len() + 1` steps.
pub fn first_free_name(base: &str, sep: char, taken: &Vec<String>) -> (name: String)
    requires
        taken@.len() < i32::MAX,
    ensures
        is_first_free(base@, sep, views(taken@), name@),
{
    let ghost names = views(taken@);
    let mut name = chars_of(base);
    let mut counter: u64 = 2;
    let mut busy = holds_name(taken, &name);
    proof {
        lemma_later_count_bound(names, base@, sep, 1);
    }
    while busy
        invariant
            2 <= counter,
            names == views(taken@),
            taken@.len() < i32::MAX,
            name@ == numbered_name(base@, sep, (counter - 1) as nat),
            busy == names.contains(name@),
            forall|j: nat|
                1 <= j < counter - 1 ==> names.contains(#[trigger] numbered_name(base@, sep, j)),
            later_count(names, base@, sep, (counter - 1) as nat) + counter - 1 <= names.len() + 1,
        decreases later_count(names, base@, sep, (counter - 1) as nat),
    {
        let ghost k = (counter - 1) as nat;
        proof {
            lemma_later_count_step(names, base@, sep, k);
        }
        let mut next = chars_of(base);
        next.push(sep);
        push_decimal(&mut next, counter);
        assert(next@ =~= numbered_name(base@, sep, counter as nat));
        name = next;
        counter = counter + 1;
        busy = holds_name(taken, &name);
    }
    let ghost k = (counter - 1) as nat;
    assert(name@ == numbered_name(base@, sep, k));
    string_of(name.as_slice())
}

/// The chosen name is free: `taken` does not hold it.
pub proof fn lemma_first_free_is_free(base: Seq<char>, sep: char, taken: Seq<Seq<char>>, name: Seq<char>)
    requires
        is_first_free(base, sep, taken, name),
    ensures
        !taken.contains(name),
{
}

} // verus!
