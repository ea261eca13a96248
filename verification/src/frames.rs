//! The frame files of a media item: which files are frames, and their order.

use crate::number::{chars_of, is_digit};
use std::cmp::Ordering;
use vstd::prelude::*;
use vstd::seq_lib::to_multiset_insert;

verus! {

/// How `human_sort::compare` orders `a` against `b`: negative where `a` comes
/// first, zero where neither does, positive where `b` comes first.
pub uninterp spec fn human_order(a: Seq<char>, b: Seq<char>) -> i8;

/// The number of digits that `s` ends in.
pub open spec fn trailing_digits(s: Seq<char>) -> nat
    decreases s.len(),
{
    if s.len() == 0 || !is_digit(s.last()) {
        0
    } else {
        1 + trailing_digits(s.drop_last())
    }
}

/// Whether no run of digits in `s` is longer than nine: every number in the
/// name then fits 32 bits.
pub open spec fn short_digit_runs(s: Seq<char>) -> bool {
    forall|i: int| 0 <= i <= s.len() ==> trailing_digits(#[trigger] s.subrange(0, i)) <= 9
}

/// Whether `a` may stand directly before `b`: `a` orders before `b`, or `b`
/// does not order before `a`.
pub open spec fn in_order(a: Seq<char>, b: Seq<char>) -> bool {
    human_order(a, b) < 0 || human_order(b, a) >= 0
}

/// Whether every name may stand directly before the next one.
pub open spec fn ordered(names: Seq<Seq<char>>) -> bool {
    forall|i: int| 0 <= i && i + 1 < names.len() ==> in_order(#[trigger] names[i], names[i + 1])
}

/// Where `name` goes in `sorted`: directly after the last name that it does
/// not order before, or at the front where there is none.
pub open spec fn place_of(sorted: Seq<Seq<char>>, name: Seq<char>) -> int
    decreases sorted.len(),
{
    if sorted.len() == 0 || human_order(name, sorted.last()) >= 0 {
        sorted.len() as int
    } else {
        place_of(sorted.drop_last(), name)
    }
}

/// The names in human order: each in turn put into the names before it at
/// its place, so that names that order alike stay in the order given.
pub open spec fn human_sorted(names: Seq<Seq<char>>) -> Seq<Seq<char>>
    decreases names.len(),
{
    if names.len() == 0 {
        names
    } else {
        let before = human_sorted(names.drop_last());
        before.insert(place_of(before, names.last()), names.last())
    }
}

/// The characters of each name.
pub open spec fn texts(names: Seq<String>) -> Seq<Seq<char>> {
    names.map_values(|name: String| name@)
}

/// Whether a file of this name holds a frame: the name ends in `.exr`, after
/// at least one character that is no path separator.
pub open spec fn is_frame_name(name: Seq<char>) -> bool {
    let n = name.len() as int;
    &&& n >= 5
    &&& name[n - 5] != '/'
    &&& name[n - 4] == '.'
    &&& name[n - 3] == 'e'
    &&& name[n - 2] == 'x'
    &&& name[n - 1] == 'r'
}

/// The names among `names` that are frame names, in the order in which they stand.
pub open spec fn frame_names(names: Seq<Seq<char>>) -> Seq<Seq<char>> {
    names.filter(|name: Seq<char>| is_frame_name(name))
}

/// Calls `human_sort::compare` and gives its three outcomes as -1, 0 and 1;
/// the outcome is named by `human_order`. Names with a run of ten digits or
/// more are left out: the crate adds such a run up in 32 bits.
#[verifier::external_body]
fn human_compare(a: &str, b: &str) -> (order: i8)
    requires
        short_digit_runs(a@),
        short_digit_runs(b@),
    ensures
        order == human_order(a@, b@),
        -1 <= order <= 1,
{
    match human_sort::compare(a, b) {
        Ordering::Less => -1,
        Ordering::Equal => 0,
        Ordering::Greater => 1,
    }
}

/// Whether no run of digits in `name` is longer than nine.
pub fn has_short_digit_runs(name: &str) -> (short: bool)
    ensures
        short == short_digit_runs(name@),
{
    let chars = chars_of(name);
    let mut run: usize = 0;
    let mut i: usize = 0;
    assert(chars@.subrange(0, 0) =~= Seq::<char>::empty());
    while i < chars.len()
        invariant
            i <= chars.len(),
            chars@ == name@,
            run == trailing_digits(chars@.subrange(0, i as int)),
            run <= 9,
            forall|j: int| 0 <= j <= i ==> trailing_digits(#[trigger] chars@.subrange(0, j)) <= 9,
        decreases chars.len() - i,
    {
        let c = chars[i];
        let ghost longer = chars@.subrange(0, i + 1);
        assert(longer.drop_last() =~= chars@.subrange(0, i as int));
        assert(longer.last() == c);
        if c >= '0' && c <= '9' {
            run = run + 1;
        } else {
            run = 0;
        }
        if run > 9 {
            return false;
        }
        i = i + 1;
    }
    true
}

/// Whether a file of this name holds a frame.
pub fn is_frame_file(name: &str) -> (frame: bool)
    ensures
        frame == is_frame_name(name@),
{
    let chars = chars_of(name);
    let n = chars.len();
    n >= 5 && chars[n - 5] != '/' && chars[n - 4] == '.' && chars[n - 3] == 'e' && chars[n - 2] == 'x' && chars[n
        - 1] == 'r'
}

/// The frame names among `names`, in the order in which they stand.
pub fn select_frames(names: &Vec<String>) -> (frames: Vec<String>)
    ensures
        texts(frames@) == frame_names(texts(names@)),
{
    let mut frames: Vec<String> = Vec::new();
    let mut i: usize = 0;
    let ghost keep = |name: Seq<char>| is_frame_name(name);
    assert(texts(names@.subrange(0, 0)) =~= Seq::<Seq<char>>::empty());
    assert(texts(frames@) =~= Seq::<Seq<char>>::empty());
    proof {
        Seq::<Seq<char>>::empty().lemma_filter_len(keep);
    }
    while i < names.len()
        invariant
            i <= names.len(),
            keep == (|name: Seq<char>| is_frame_name(name)),
            texts(frames@) == texts(names@.subrange(0, i as int)).filter(keep),
        decreases names.len() - i,
    {
        let ghost before = texts(names@.subrange(0, i as int));
        let ghost kept = texts(frames@);
        proof {
            before.lemma_filter_push(names[i as int]@, keep);
            assert(texts(names@.subrange(0, i + 1)) =~= before.push(names[i as int]@));
        }
        if is_frame_file(names[i].as_str()) {
            frames.push(names[i].clone());
            assert(texts(frames@) =~= kept.push(names[i as int]@));
        }
        i = i + 1;
    }
    assert(names@.subrange(0, names.len() as int) =~= names@);
    frames
}

/// A name put at its place keeps the names in order.
pub proof fn placing_keeps_order(before: Seq<Seq<char>>, name: Seq<char>, at: int)
    requires
        ordered(before),
        0 <= at <= before.len(),
        at < before.len() ==> human_order(name, before[at]) < 0,
        at > 0 ==> human_order(name, before[at - 1]) >= 0,
    ensures
        ordered(before.insert(at, name)),
{
    let after = before.insert(at, name);
    assert forall|j: int| 0 <= j && j + 1 < after.len() implies in_order(#[trigger] after[j], after[j + 1]) by {
        if j + 1 < at {
            assert(in_order(before[j], before[j + 1]));
        } else if j + 1 == at {
            assert(after[j] == before[at - 1]);
        } else if j == at {
            assert(after[j + 1] == before[at]);
        } else {
            assert(in_order(before[j - 1], before[j]));
        }
    }
}

/// Where the order is transitive on the names at hand, names in order stand
/// in order throughout: each may stand before every later one.
pub proof fn ordered_throughout(names: Seq<Seq<char>>, i: int, j: int)
    requires
        ordered(names),
        0 <= i < j < names.len(),
        forall|a: int, b: int, c: int|
            0 <= a < b < c < names.len() && #[trigger] in_order(names[a], names[b]) && #[trigger] in_order(
                names[b],
                names[c],
            ) ==> in_order(names[a], names[c]),
    ensures
        in_order(names[i], names[j]),
    decreases j - i,
{
    if i + 1 < j {
        ordered_throughout(names, i, j - 1);
        assert(in_order(names[j - 1], names[j]));
    }
}

/// Finds the place of `name` among `sorted`.
fn find_place(sorted: &Vec<String>, name: &str) -> (at: usize)
    requires
        short_digit_runs(name@),
        forall|j: int| 0 <= j < sorted.len() ==> short_digit_runs(#[trigger] sorted[j]@),
    ensures
        at == place_of(texts(sorted@), name@),
        at <= sorted.len(),
        at < sorted.len() ==> human_order(name@, sorted[at as int]@) < 0,
        at > 0 ==> human_order(name@, sorted[at - 1]@) >= 0,
{
    let mut at: usize = sorted.len();
    assert(texts(sorted@).subrange(0, at as int) =~= texts(sorted@));
    while at > 0 && human_compare(name, sorted[at - 1].as_str()) < 0
        invariant
            at <= sorted.len(),
            short_digit_runs(name@),
            forall|j: int| 0 <= j < sorted.len() ==> short_digit_runs(#[trigger] sorted[j]@),
            at < sorted.len() ==> human_order(name@, sorted[at as int]@) < 0,
            place_of(texts(sorted@), name@) == place_of(texts(sorted@).subrange(0, at as int), name@),
        decreases at,
    {
        proof {
            let head = texts(sorted@).subrange(0, at as int);
            assert(head.last() == sorted[at - 1]@);
            assert(head.drop_last() =~= texts(sorted@).subrange(0, at - 1));
        }
        at = at - 1;
    }
    proof {
        let head = texts(sorted@).subrange(0, at as int);
        if at > 0 {
            assert(head.last() == sorted[at - 1]@);
        }
    }
    at
}

/// Sorts names into the order of `human_sort::compare`, so that a number in
/// a name counts by its value. Names that order alike keep their places.
pub fn sort_names(names: &Vec<String>) -> (sorted: Vec<String>)
    requires
        forall|i: int| 0 <= i < names.len() ==> short_digit_runs(#[trigger] names[i]@),
    ensures
        texts(sorted@) == human_sorted(texts(names@)),
        texts(sorted@).to_multiset() == texts(names@).to_multiset(),
        ordered(texts(sorted@)),
{
    let mut sorted: Vec<String> = Vec::new();
    let mut i: usize = 0;
    assert(texts(names@.subrange(0, 0)) =~= texts(sorted@));
    while i < names.len()
        invariant
            i <= names.len(),
            forall|j: int| 0 <= j < names.len() ==> short_digit_runs(#[trigger] names[j]@),
            forall|j: int| 0 <= j < sorted.len() ==> short_digit_runs(#[trigger] sorted[j]@),
            texts(sorted@) == human_sorted(texts(names@.subrange(0, i as int))),
            texts(sorted@).to_multiset() == texts(names@.subrange(0, i as int)).to_multiset(),
            ordered(texts(sorted@)),
        decreases names.len() - i,
    {
        let name = names[i].clone();
        let at = find_place(&sorted, name.as_str());
        let ghost before = sorted@;
        let ghost seen = texts(names@.subrange(0, i as int));
        sorted.insert(at, name);
        proof {
            assert(texts(sorted@) =~= texts(before).insert(at as int, name@));
            to_multiset_insert(texts(before), at as int, name@);
            assert(texts(names@.subrange(0, i + 1)) =~= seen.push(name@));
            assert(seen.push(name@).drop_last() =~= seen);
            seen.to_multiset_ensures();
            assert(at < before.len() ==> texts(before)[at as int] == before[at as int]@);
            assert(at > 0 ==> texts(before)[at - 1] == before[at - 1]@);
            placing_keeps_order(texts(before), name@, at as int);
            assert forall|j: int| 0 <= j < sorted.len() implies short_digit_runs(#[trigger] sorted[j]@) by {
                if j < at {
                    assert(sorted[j] == before[j]);
                } else if j > at {
                    assert(sorted[j] == before[j - 1]);
                }
            }
        }
        i = i + 1;
    }
    assert(names@.subrange(0, names.len() as int) =~= names@);
    sorted
}

/// The frame files among `names`, in presentation order.
pub fn frame_files(names: &Vec<String>) -> (frames: Vec<String>)
    requires
        forall|i: int| 0 <= i < names.len() ==> short_digit_runs(#[trigger] names[i]@),
    ensures
        texts(frames@) == human_sorted(frame_names(texts(names@))),
        texts(frames@).to_multiset() == frame_names(texts(names@)).to_multiset(),
        ordered(texts(frames@)),
{
    let selected = select_frames(names);
    proof {
        let kept = texts(selected@);
        assert forall|i: int| 0 <= i < selected.len() implies short_digit_runs(#[trigger] selected[i]@) by {
            assert(kept[i] == selected[i]@);
            texts(names@).lemma_filter_contains_rev(|name: Seq<char>| is_frame_name(name), kept[i]);
            assert(kept.contains(kept[i]));
            let j = choose|j: int| 0 <= j < texts(names@).len() && texts(names@)[j] == kept[i];
            assert(names[j]@ == kept[i]);
        }
    }
    sort_names(&selected)
}

} // verus!
