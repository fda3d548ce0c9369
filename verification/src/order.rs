use crate::demo::{Demo, SortKey};
use crate::floats::{char_code, is_nan, is_nan_bits, rank, rank_of_bits};
use std::cmp::Ordering;
use std::sync::Arc;
use vstd::prelude::*;

verus! {

/// The order of two numbers.
pub open spec fn number_order(a: int, b: int) -> Ordering {
    if a < b {
        Ordering::Less
    } else if a > b {
        Ordering::Greater
    } else {
        Ordering::Equal
    }
}

/// The order of two sizes.
pub open spec fn size_order(a: u64, b: u64) -> Ordering {
    if a < b {
        Ordering::Less
    } else if a > b {
        Ordering::Greater
    } else {
        Ordering::Equal
    }
}

/// The order of two counts.
pub open spec fn count_order(a: usize, b: usize) -> Ordering {
    if a < b {
        Ordering::Less
    } else if a > b {
        Ordering::Greater
    } else {
        Ordering::Equal
    }
}

/// The order of two texts: that of the first characters in which they
/// differ; a text comes before every text that it begins.
pub open spec fn text_order(a: Seq<char>, b: Seq<char>) -> Ordering
    decreases a.len(),
{
    if a.len() == 0 {
        if b.len() == 0 {
            Ordering::Equal
        } else {
            Ordering::Less
        }
    } else if b.len() == 0 {
        Ordering::Greater
    } else if char_code(a[0]) < char_code(b[0]) {
        Ordering::Less
    } else if char_code(a[0]) > char_code(b[0]) {
        Ordering::Greater
    } else {
        text_order(a.drop_first(), b.drop_first())
    }
}

/// The order of two 32-bit IEEE 754 numbers given by their bit patterns. A
/// NaN counts as equal to everything.
pub open spec fn float_order(a: u32, b: u32) -> Ordering {
    if is_nan_bits(a) || is_nan_bits(b) {
        Ordering::Equal
    } else {
        number_order(rank_of_bits(a), rank_of_bits(b))
    }
}

/// The order turned round.
pub open spec fn turned(order: Ordering) -> Ordering {
    match order {
        Ordering::Less => Ordering::Greater,
        Ordering::Equal => Ordering::Equal,
        Ordering::Greater => Ordering::Less,
    }
}

/// The order of two recordings by `key`, turned round if `reverse` is set.
pub open spec fn demo_order(key: SortKey, reverse: bool, d1: Demo, d2: Demo) -> Ordering {
    let order = match key {
        SortKey::Name => text_order(d1.name@, d2.name@),
        SortKey::FileSize => size_order(d1.filesize, d2.filesize),
        SortKey::Birthtime => size_order(d1.birthtime, d2.birthtime),
        SortKey::MapName => text_order(d1.map_name@, d2.map_name@),
        SortKey::EventCount => count_order(d1.events.len(), d2.events.len()),
        SortKey::PlaybackTime => float_order(d1.playback_time, d2.playback_time),
    };
    if reverse {
        turned(order)
    } else {
        order
    }
}

/// The recordings can be put in order by `key`: the order by the length of
/// the recording needs every length to be a number.
pub open spec fn sortable(demos: Seq<Arc<Demo>>, key: SortKey) -> bool {
    key == SortKey::PlaybackTime ==> forall|i: int|
        0 <= i < demos.len() ==> !is_nan_bits((#[trigger] demos[i]).playback_time)
}

/// No recording comes before one that stands earlier in the list.
pub open spec fn in_order(demos: Seq<Arc<Demo>>, key: SortKey, reverse: bool) -> bool {
    forall|i: int, j: int|
        0 <= i <= j < demos.len() ==> demo_order(key, reverse, *demos[i], *demos[j])
            != Ordering::Greater
}

/// `cmp` of the standard library on string slices: the order of strings,
/// which goes by the code points of their characters.
#[verifier::external_body]
fn str_order(a: &str, b: &str) -> (order: Ordering)
    ensures
        order == text_order(a@, b@),
{
    a.cmp(b)
}

fn u64_order(a: u64, b: u64) -> (order: Ordering)
    ensures
        order == size_order(a, b),
{
    if a < b {
        Ordering::Less
    } else if a > b {
        Ordering::Greater
    } else {
        Ordering::Equal
    }
}

fn usize_order(a: usize, b: usize) -> (order: Ordering)
    ensures
        order == count_order(a, b),
{
    if a < b {
        Ordering::Less
    } else if a > b {
        Ordering::Greater
    } else {
        Ordering::Equal
    }
}

/// The order of two 32-bit IEEE 754 numbers given by their bit patterns.
pub fn compare_floats(a: u32, b: u32) -> (order: Ordering)
    ensures
        order == float_order(a, b),
{
    if is_nan(a) || is_nan(b) {
        Ordering::Equal
    } else {
        let first: i64 = rank(a);
        let second: i64 = rank(b);
        if first < second {
            Ordering::Less
        } else if first > second {
            Ordering::Greater
        } else {
            Ordering::Equal
        }
    }
}

/// The order of two recordings by `key`, turned round if `reverse` is set.
pub fn compare_demos_by(key: SortKey, reverse: bool, d1: &Demo, d2: &Demo) -> (order: Ordering)
    ensures
        order == demo_order(key, reverse, *d1, *d2),
{
    let ordering = match key {
        SortKey::Name => str_order(d1.name.as_str(), d2.name.as_str()),
        SortKey::FileSize => u64_order(d1.filesize, d2.filesize),
        SortKey::Birthtime => u64_order(d1.birthtime, d2.birthtime),
        SortKey::MapName => str_order(d1.map_name.as_str(), d2.map_name.as_str()),
        SortKey::EventCount => usize_order(d1.events.len(), d2.events.len()),
        SortKey::PlaybackTime => compare_floats(d1.playback_time, d2.playback_time),
    };
    if reverse {
        match ordering {
            Ordering::Less => Ordering::Greater,
            Ordering::Equal => Ordering::Equal,
            Ordering::Greater => Ordering::Less,
        }
    } else {
        ordering
    }
}

/// Puts a list of recordings in order by `key`, with `sort_unstable_by` of
/// the standard library and [`compare_demos_by`] as the comparison: the list
/// holds the same recordings afterwards, in rising order. Which of two equal
/// recordings comes first is left open.
#[verifier::external_body]
pub fn sort_demos(demos: &mut [Arc<Demo>], sort_key: SortKey, reverse: bool)
    requires
        sortable(old(demos)@, sort_key),
    ensures
        final(demos)@.to_multiset() == old(demos)@.to_multiset(),
        in_order(final(demos)@, sort_key, reverse),
{
    demos.sort_unstable_by(|d1, d2| compare_demos_by(sort_key, reverse, d1, d2));
}

} // verus!
