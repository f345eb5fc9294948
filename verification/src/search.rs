//! The first item of a list that passes a test.

use vstd::prelude::*;

verus! {

/// The position of the first item that passes the test.
pub open spec fn first_where<T>(list: Seq<T>, test: spec_fn(T) -> bool) -> Option<int>
    decreases list.len(),
{
    if list.len() == 0 {
        None
    } else if test(list[0]) {
        Some(0)
    } else {
        match first_where(list.drop_first(), test) {
            Some(at) => Some(at + 1),
            None => None,
        }
    }
}

/// The first item that passes the test is the one that passes while none before it does.
pub proof fn lemma_first_where<T>(list: Seq<T>, test: spec_fn(T) -> bool, at: int)
    requires
        0 <= at < list.len(),
        test(list[at]),
        forall|i: int| 0 <= i < at ==> !test(#[trigger] list[i]),
    ensures
        first_where(list, test) == Some(at),
    decreases list.len(),
{
    if at > 0 {
        let rest = list.drop_first();
        assert forall|i: int| 0 <= i < at - 1 implies !test(#[trigger] rest[i]) by {
            assert(rest[i] == list[i + 1]);
        }
        assert(!test(list[0]));
        lemma_first_where(rest, test, at - 1);
    }
}

/// Where no item passes the test there is no first one.
pub proof fn lemma_nowhere<T>(list: Seq<T>, test: spec_fn(T) -> bool)
    requires
        forall|i: int| 0 <= i < list.len() ==> !test(#[trigger] list[i]),
    ensures
        first_where(list, test) is None,
    decreases list.len(),
{
    if list.len() > 0 {
        let rest = list.drop_first();
        assert forall|i: int| 0 <= i < rest.len() implies !test(#[trigger] rest[i]) by {
            assert(rest[i] == list[i + 1]);
        }
        assert(!test(list[0]));
        lemma_nowhere(rest, test);
    }
}

/// The first item that passes the test does pass it.
pub proof fn lemma_found<T>(list: Seq<T>, test: spec_fn(T) -> bool)
    ensures
        first_where(list, test) matches Some(at) ==> 0 <= at < list.len() && test(list[at]),
    decreases list.len(),
{
    if list.len() > 0 {
        lemma_found(list.drop_first(), test);
    }
}

} // verus!
