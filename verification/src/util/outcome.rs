//! Mathematical values of results and of lists.

use vstd::prelude::*;

verus! {

/// The view of a result: the view of what it holds, on either side.
pub open spec fn result_view<T: DeepView>(r: Result<T, String>) -> Result<T::V, Seq<char>> {
    match r {
        Ok(v) => Ok(v.deep_view()),
        Err(message) => Err(message@),
    }
}

/// The views of the items of a list, in order.
pub open spec fn deep<T: DeepView>(items: Seq<T>) -> Seq<T::V> {
    Seq::new(items.len(), |i: int| items[i].deep_view())
}

/// Appending an item appends its view.
pub proof fn lemma_deep_push<T: DeepView>(items: Seq<T>, item: T)
    ensures
        deep(items.push(item)) == deep(items).push(item.deep_view()),
{
    assert(deep(items.push(item)) =~= deep(items).push(item.deep_view()));
}

/// The error of the first result that is one.
pub open spec fn first_error<T, E>(results: Seq<Result<T, E>>) -> Option<E>
    decreases results.len(),
{
    if results.len() == 0 {
        None
    } else {
        match results[0] {
            Err(error) => Some(error),
            Ok(_) => first_error(results.drop_first()),
        }
    }
}

/// All results together: what they hold, in order, where every one is a
/// success, else the first error.
pub open spec fn collected<T, E>(results: Seq<Result<T, E>>) -> Result<Seq<T>, E> {
    match first_error(results) {
        Some(error) => Err(error),
        None => Ok(Seq::new(results.len(), |i: int| results[i]->Ok_0)),
    }
}

/// The errors of all results that are one, in order.
pub open spec fn all_errors<T, E>(results: Seq<Result<T, E>>) -> Seq<E>
    decreases results.len(),
{
    if results.len() == 0 {
        Seq::empty()
    } else {
        match results.last() {
            Err(error) => all_errors(results.drop_last()).push(error),
            Ok(_) => all_errors(results.drop_last()),
        }
    }
}

/// Where every result before position `i` is a success and the one at `i`
/// is an error, that error is the first.
pub proof fn lemma_first_error_at<T, E>(results: Seq<Result<T, E>>, i: int)
    requires
        0 <= i < results.len(),
        forall|j: int| 0 <= j < i ==> (#[trigger] results[j]) is Ok,
        results[i] is Err,
    ensures
        first_error(results) == Some(results[i]->Err_0),
    decreases i,
{
    if i > 0 {
        let rest = results.drop_first();
        assert forall|j: int| 0 <= j < i - 1 implies (#[trigger] rest[j]) is Ok by {
            assert(rest[j] == results[j + 1]);
        }
        lemma_first_error_at(rest, i - 1);
    }
}

/// Where every result is a success, there is no first error.
pub proof fn lemma_first_error_none<T, E>(results: Seq<Result<T, E>>)
    requires
        forall|j: int| 0 <= j < results.len() ==> (#[trigger] results[j]) is Ok,
    ensures
        first_error(results) is None,
    decreases results.len(),
{
    if results.len() > 0 {
        let rest = results.drop_first();
        assert forall|j: int| 0 <= j < rest.len() implies (#[trigger] rest[j]) is Ok by {
            assert(rest[j] == results[j + 1]);
        }
        lemma_first_error_none(rest);
    }
}

/// There is no error among the results exactly where every one is a success.
pub proof fn lemma_all_errors_empty<T, E>(results: Seq<Result<T, E>>)
    ensures
        all_errors(results).len() == 0 <==> forall|j: int|
            0 <= j < results.len() ==> (#[trigger] results[j]) is Ok,
    decreases results.len(),
{
    if results.len() > 0 {
        let front = results.drop_last();
        lemma_all_errors_empty(front);
        if all_errors(results).len() == 0 {
            assert forall|j: int| 0 <= j < results.len() implies (#[trigger] results[j]) is Ok by {
                if j < results.len() - 1 {
                    assert(front[j] == results[j]);
                }
            }
        } else if results.last() is Ok {
            let j = choose|j: int| 0 <= j < front.len() && !((#[trigger] front[j]) is Ok);
            assert(results[j] == front[j]);
        }
    }
}

/// Where there is no first error, every result is a success.
pub proof fn lemma_collected_ok<T, E>(results: Seq<Result<T, E>>)
    requires
        collected(results) is Ok,
    ensures
        collected(results)->Ok_0.len() == results.len(),
        forall|j: int| 0 <= j < results.len() ==> (#[trigger] results[j]) is Ok,
    decreases results.len(),
{
    if results.len() > 0 {
        let rest = results.drop_first();
        lemma_collected_ok(rest);
        assert forall|j: int| 0 <= j < results.len() implies (#[trigger] results[j]) is Ok by {
            if j > 0 {
                assert(rest[j - 1] == results[j]);
            }
        }
    }
}

} // verus!
