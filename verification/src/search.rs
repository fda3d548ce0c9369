use vstd::prelude::*;

verus! {

/// The first position from `from` on whose item meets `pred`, if there is one.
pub open spec fn first_index_from<T>(items: Seq<T>, pred: spec_fn(T) -> bool, from: int) -> Option<
    int,
>
    decreases items.len() - from,
{
    if from < 0 || from >= items.len() {
        None
    } else if pred(items[from]) {
        Some(from)
    } else {
        first_index_from(items, pred, from + 1)
    }
}

/// The first position whose item meets `pred`, if there is one.
pub open spec fn first_index<T>(items: Seq<T>, pred: spec_fn(T) -> bool) -> Option<int> {
    first_index_from(items, pred, 0)
}

pub proof fn lemma_first_index_from<T>(items: Seq<T>, pred: spec_fn(T) -> bool, from: int)
    requires
        0 <= from <= items.len(),
    ensures
        match first_index_from(items, pred, from) {
            Some(i) => from <= i < items.len() && pred(items[i]) && forall|j: int|
                from <= j < i ==> !pred(items[j]),
            None => forall|j: int| from <= j < items.len() ==> !pred(items[j]),
        },
    decreases items.len() - from,
{
    if from < items.len() && !pred(items[from]) {
        lemma_first_index_from(items, pred, from + 1);
    }
}

/// `first_index` gives a position whose item meets `pred` and before which
/// none does, or `None` where no item meets it.
pub proof fn lemma_first_index<T>(items: Seq<T>, pred: spec_fn(T) -> bool)
    ensures
        match first_index(items, pred) {
            Some(i) => 0 <= i < items.len() && pred(items[i]) && forall|j: int|
                0 <= j < i ==> !pred(items[j]),
            None => forall|j: int| 0 <= j < items.len() ==> !pred(items[j]),
        },
{
    lemma_first_index_from(items, pred, 0);
}

/// A position whose item meets `pred`, and before which none does, is the first.
pub proof fn lemma_first_index_is<T>(items: Seq<T>, pred: spec_fn(T) -> bool, at: int)
    requires
        0 <= at < items.len(),
        pred(items[at]),
        forall|j: int| 0 <= j < at ==> !pred(items[j]),
    ensures
        first_index(items, pred) == Some(at),
{
    lemma_first_index(items, pred);
}

/// Where no item meets `pred`, there is no first position.
pub proof fn lemma_first_index_none<T>(items: Seq<T>, pred: spec_fn(T) -> bool)
    requires
        forall|j: int| 0 <= j < items.len() ==> !pred(items[j]),
    ensures
        first_index(items, pred) is None,
{
    lemma_first_index(items, pred);
}

/// The last position before `upto` whose item meets `pred`, if there is one.
pub open spec fn last_index_before<T>(items: Seq<T>, pred: spec_fn(T) -> bool, upto: int) -> Option<
    int,
>
    decreases upto,
{
    if upto <= 0 || upto > items.len() {
        None
    } else if pred(items[upto - 1]) {
        Some(upto - 1)
    } else {
        last_index_before(items, pred, upto - 1)
    }
}

/// The last position whose item meets `pred`, if there is one.
pub open spec fn last_index<T>(items: Seq<T>, pred: spec_fn(T) -> bool) -> Option<int> {
    last_index_before(items, pred, items.len() as int)
}

pub proof fn lemma_last_index_before<T>(items: Seq<T>, pred: spec_fn(T) -> bool, upto: int)
    requires
        0 <= upto <= items.len(),
    ensures
        match last_index_before(items, pred, upto) {
            Some(i) => 0 <= i < upto && pred(items[i]) && forall|j: int|
                i < j < upto ==> !pred(items[j]),
            None => forall|j: int| 0 <= j < upto ==> !pred(items[j]),
        },
    decreases upto,
{
    if upto > 0 && !pred(items[upto - 1]) {
        lemma_last_index_before(items, pred, upto - 1);
    }
}

/// `last_index` gives a position whose item meets `pred` and after which
/// none does, or `None` where no item meets it.
pub proof fn lemma_last_index<T>(items: Seq<T>, pred: spec_fn(T) -> bool)
    ensures
        match last_index(items, pred) {
            Some(i) => 0 <= i < items.len() && pred(items[i]) && forall|j: int|
                i < j < items.len() ==> !pred(items[j]),
            None => forall|j: int| 0 <= j < items.len() ==> !pred(items[j]),
        },
{
    lemma_last_index_before(items, pred, items.len() as int);
}

/// A position whose item meets `pred`, and after which none does, is the last.
pub proof fn lemma_last_index_is<T>(items: Seq<T>, pred: spec_fn(T) -> bool, at: int)
    requires
        0 <= at < items.len(),
        pred(items[at]),
        forall|j: int| at < j < items.len() ==> !pred(items[j]),
    ensures
        last_index(items, pred) == Some(at),
{
    lemma_last_index(items, pred);
}

/// Where no item meets `pred`, there is no last position.
pub proof fn lemma_last_index_none<T>(items: Seq<T>, pred: spec_fn(T) -> bool)
    requires
        forall|j: int| 0 <= j < items.len() ==> !pred(items[j]),
    ensures
        last_index(items, pred) is None,
{
    lemma_last_index(items, pred);
}

/// Folding one item more is one step from the fold so far.
pub proof fn lemma_fold_left_step<A, B>(items: Seq<A>, init: B, step: spec_fn(B, A) -> B, done: int)
    requires
        0 <= done < items.len(),
    ensures
        items.take(done + 1).fold_left(init, step) == step(
            items.take(done).fold_left(init, step),
            items[done],
        ),
{
    assert(items.take(done + 1).drop_last() =~= items.take(done));
}

/// Folding no item gives the start, and folding all of them the whole fold.
pub proof fn lemma_fold_left_ends<A, B>(items: Seq<A>, init: B, step: spec_fn(B, A) -> B)
    ensures
        items.take(0).fold_left(init, step) == init,
        items.take(items.len() as int).fold_left(init, step) == items.fold_left(init, step),
{
    assert(items.take(items.len() as int) =~= items);
}

} // verus!
