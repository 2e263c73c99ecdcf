//! The fail-fast emission discipline at the protocol boundary. The external
//! emitter receives each operation in order and answers a status; a
//! non-zero status aborts the remaining sequence at once, and the whole
//! compilation reports failure with a fixed sentinel code. Nothing already
//! emitted is retracted.
use vstd::prelude::*;
use crate::ops::Op;

verus! {

/// The index of the first non-zero status, if any.
pub open spec fn first_failure(s: Seq<i32>) -> Option<int>
    decreases s.len(),
{
    if s.len() == 0 {
        None
    } else if s[0] != 0 {
        Some(0)
    } else {
        match first_failure(s.drop_first()) {
            Some(k) => Some(k + 1),
            None => None,
        }
    }
}

/// How many operations the engine emits when the emitter answers the given
/// statuses: every operation up to and including the first failing one, or
/// all of them when none fails.
pub open spec fn emitted_count(s: Seq<i32>) -> int {
    match first_failure(s) {
        Some(k) => k + 1,
        None => s.len() as int,
    }
}

/// Whether the whole sequence goes through.
pub open spec fn emission_ok(s: Seq<i32>) -> bool {
    first_failure(s) is None
}

/// `first_failure` finds exactly the first non-zero status.
pub proof fn lemma_first_failure_char(s: Seq<i32>, k: int)
    requires
        0 <= k < s.len(),
        s[k] != 0,
        forall|j: int| 0 <= j < k ==> s[j] == 0,
    ensures
        first_failure(s) == Some(k),
    decreases k,
{
    if k == 0 {
    } else {
        assert(s.drop_first()[k - 1] == s[k]);
        assert(forall|j: int| 0 <= j < k - 1 ==> s.drop_first()[j] == s[j + 1] && s[j + 1] == 0);
        lemma_first_failure_char(s.drop_first(), k - 1);
    }
}

/// With no failing status there is no first failure.
pub proof fn lemma_first_failure_none(s: Seq<i32>)
    requires
        forall|j: int| 0 <= j < s.len() ==> s[j] == 0,
    ensures
        first_failure(s) is None,
    decreases s.len(),
{
    if s.len() > 0 {
        assert(forall|j: int| 0 <= j < s.drop_first().len() ==> s.drop_first()[j] == s[j + 1]
            && s[j + 1] == 0);
        lemma_first_failure_none(s.drop_first());
    }
}

/// Fail-fast propagation: when the emitter fails on an operation, exactly
/// the operations up to and including that one are emitted — none after it
/// — and the whole emission reports failure.
pub proof fn lemma_fail_fast(s: Seq<i32>, k: int)
    requires
        0 <= k < s.len(),
        s[k] != 0,
        forall|j: int| 0 <= j < k ==> s[j] == 0,
    ensures
        emitted_count(s) == k + 1,
        !emission_ok(s),
{
    lemma_first_failure_char(s, k);
}

/// The decision at each step of the emission loop: go on exactly while the
/// emitter answers zero.
pub fn emission_continue(status: i32) -> (r: bool)
    ensures
        r == (status == 0),
{
    status == 0
}

/// The fail-fast emission loop, given the status the emitter answers for
/// each operation as it is attempted: returns how many operations were
/// emitted and the overall status — zero when the whole sequence went
/// through, the sentinel failure code otherwise.
#[verifier::loop_isolation(false)]
pub fn run_emission(ops: &Vec<Op>, statuses: &Vec<i32>) -> (r: (usize, i32))
    requires
        statuses@.len() == ops@.len(),
    ensures
        r.0 == emitted_count(statuses@),
        r.1 == if emission_ok(statuses@) {
            0i32
        } else {
            -1i32
        },
{
    let mut i: usize = 0;
    while i < ops.len()
        invariant
            0 <= i <= ops.len(),
            forall|j: int| 0 <= j < i ==> statuses@[j] == 0,
        decreases ops.len() - i,
    {
        let status = statuses[i];
        if !emission_continue(status) {
            proof {
                lemma_first_failure_char(statuses@, i as int);
            }
            return (i + 1, -1);
        }
        i += 1;
    }
    proof {
        lemma_first_failure_none(statuses@);
    }
    (ops.len(), 0)
}

} // verus!
