//! The first failure among checks that are made in order.
use vstd::prelude::*;

verus! {

/// What the first failing check says, if any fails.
pub open spec fn first_failure<A, E>(s: Seq<A>, check: spec_fn(A) -> Option<E>) -> Option<E>
    decreases s.len(),
{
    if s.len() == 0 {
        None
    } else {
        match check(s[0]) {
            Some(e) => Some(e),
            None => first_failure(s.drop_first(), check),
        }
    }
}

/// The first failure is that of the first item whose check fails.
pub proof fn first_failure_at<A, E>(s: Seq<A>, check: spec_fn(A) -> Option<E>, i: int)
    requires
        0 <= i < s.len(),
        check(s[i]) is Some,
        forall|j: int| 0 <= j < i ==> check(#[trigger] s[j]) is None,
    ensures
        first_failure(s, check) == check(s[i]),
    decreases i,
{
    if i > 0 {
        let rest = s.drop_first();
        assert forall|j: int| 0 <= j < i - 1 implies check(#[trigger] rest[j]) is None by {
            assert(rest[j] == s[j + 1]);
        }
        assert(check(s[0]) is None);
        first_failure_at(rest, check, i - 1);
    }
}

/// Nothing fails exactly when every item passes.
pub proof fn nothing_fails<A, E>(s: Seq<A>, check: spec_fn(A) -> Option<E>)
    ensures
        (first_failure(s, check) is None) == (forall|j: int|
            0 <= j < s.len() ==> check(#[trigger] s[j]) is None),
    decreases s.len(),
{
    if s.len() > 0 {
        let rest = s.drop_first();
        nothing_fails(rest, check);
        if check(s[0]) is None {
            if first_failure(s, check) is None {
                assert forall|j: int| 0 <= j < s.len() implies check(#[trigger] s[j]) is None by {
                    if j > 0 {
                        assert(s[j] == rest[j - 1]);
                    }
                }
            }
            if forall|j: int| 0 <= j < s.len() ==> check(#[trigger] s[j]) is None {
                assert forall|j: int| 0 <= j < rest.len() implies check(#[trigger] rest[j]) is None by {
                    assert(rest[j] == s[j + 1]);
                }
            }
        }
    }
}

} // verus!
