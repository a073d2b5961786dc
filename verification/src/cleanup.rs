//! Selection of partial-download artifacts left behind by an interrupted
//! job, and the bounded retry policy used when deleting them. Deliberately
//! conservative: only entries that carry the job's exact title as a prefix
//! *and* a temporary-file suffix are touched, so files of unrelated jobs
//! sharing the directory are left alone. The directory listing and the
//! deletions themselves are I/O and happen on the caller's side.

use vstd::prelude::*;
use crate::strutil::{contains_seq, is_prefix_of, is_suffix_of, str_contains, str_ends_with,
    str_starts_with};

verus! {

/// `name` is a temporary artifact of the job titled `title`: it starts
/// with the exact title and carries one of the tool's temporary suffixes
/// (`.ytdl` may sit in the middle of a fragment name).
pub open spec fn is_partial_artifact_spec(name: Seq<char>, title: Seq<char>) -> bool {
    is_prefix_of(title, name) && (is_suffix_of(".part"@, name) || is_suffix_of(".temp"@, name)
        || contains_seq(name, ".ytdl"@))
}

/// Decides whether one directory entry is this job's temporary artifact.
pub fn is_partial_artifact(name: &str, title: &str) -> (r: bool)
    ensures
        r == is_partial_artifact_spec(name@, title@),
{
    if !str_starts_with(name, title) {
        return false;
    }
    str_ends_with(name, ".part") || str_ends_with(name, ".temp") || str_contains(name, ".ytdl")
}

proof fn lemma_filter_step<A>(s: Seq<A>, pred: spec_fn(A) -> bool, i: int)
    requires
        0 <= i < s.len(),
    ensures
        s.subrange(0, i + 1).filter(pred) == s.subrange(0, i).filter(pred) + (if pred(s[i]) {
            seq![s[i]]
        } else {
            Seq::<A>::empty()
        }),
{
    reveal(Seq::filter);
    let t = s.subrange(0, i + 1);
    assert(t.drop_last() =~= s.subrange(0, i));
    assert(t.last() == s[i]);
    if pred(s[i]) {
        assert(t.filter(pred) =~= s.subrange(0, i).filter(pred) + seq![s[i]]);
    } else {
        assert(t.filter(pred) =~= s.subrange(0, i).filter(pred) + Seq::<A>::empty());
    }
}

/// The names among `names` that cleanup for `title` must delete: exactly
/// those that are this job's temporary artifacts, in directory order.
#[verifier::loop_isolation(false)]
pub fn cleanup_targets(names: &Vec<String>, title: &str) -> (r: Vec<String>)
    ensures
        r.deep_view() == names.deep_view().filter(
            |n: Seq<char>| is_partial_artifact_spec(n, title@),
        ),
{
    let ghost pred = |n: Seq<char>| is_partial_artifact_spec(n, title@);
    let mut r: Vec<String> = Vec::new();
    let n = names.len();
    let mut i: usize = 0;
    proof {
        assert(names.deep_view().subrange(0, 0) =~= Seq::<Seq<char>>::empty());
        reveal(Seq::filter);
    }
    while i < n
        invariant
            i <= n,
            r.deep_view() == names.deep_view().subrange(0, i as int).filter(pred),
        decreases n - i,
    {
        proof {
            lemma_filter_step(names.deep_view(), pred, i as int);
            assert(names.deep_view()[i as int] == names@[i as int]@);
        }
        if is_partial_artifact(names[i].as_str(), title) {
            r.push(names[i].clone());
            proof {
                assert(r.deep_view() =~= names.deep_view().subrange(0, i + 1).filter(pred));
            }
        } else {
            proof {
                assert(r.deep_view() =~= names.deep_view().subrange(0, i + 1).filter(pred));
            }
        }
        i += 1;
    }
    proof {
        assert(names.deep_view().subrange(0, n as int) =~= names.deep_view());
    }
    r
}

/// A bounded retry policy: how often an operation may be attempted and the
/// fixed pause between attempts.
#[derive(Debug, Clone, Copy, PartialEq, Eq, Structural)]
pub struct RetryPolicy {
    pub max_attempts: u32,
    pub delay_ms: u32,
}

/// The policy deletion uses: up to five attempts, 200 milliseconds apart,
/// tolerating delayed release of file handles; exhausting the attempts is
/// non-fatal for the overall cleanup.
pub fn deletion_retry_policy() -> (r: RetryPolicy)
    ensures
        r == (RetryPolicy { max_attempts: 5, delay_ms: 200 }),
{
    RetryPolicy { max_attempts: 5, delay_ms: 200 }
}

/// After `failed_attempts` failed tries: `Some(pause)` when another try is
/// allowed, `None` when the attempts are exhausted.
pub fn next_retry(policy: &RetryPolicy, failed_attempts: u32) -> (r: Option<u32>)
    ensures
        failed_attempts < policy.max_attempts ==> r == Some(policy.delay_ms),
        failed_attempts >= policy.max_attempts ==> r == None::<u32>,
{
    if failed_attempts < policy.max_attempts {
        Some(policy.delay_ms)
    } else {
        None
    }
}

} // verus!
