//! Playlist fan-out: a playlist download is one independent job per video.
//! A per-video spawn failure does not abort the rest; it is recorded as a
//! distinct item-level error carrying that video's URL, so the caller sees
//! a mix of job identifiers and per-item errors.

use vstd::prelude::*;

verus! {

/// The item-level error of one video that could not be submitted.
pub struct ItemError {
    pub url: String,
    pub error: String,
}

/// The job identifiers of the successful submissions, in order.
pub open spec fn fanout_ids(outcomes: Seq<Result<Seq<char>, Seq<char>>>) -> Seq<Seq<char>>
    decreases outcomes.len(),
{
    if outcomes.len() == 0 {
        Seq::empty()
    } else {
        fanout_ids(outcomes.drop_last()) + (match outcomes.last() {
            Ok(id) => seq![id],
            Err(_) => Seq::empty(),
        })
    }
}

/// The `(url, error)` pairs of the failed submissions, in order.
pub open spec fn fanout_errors(
    urls: Seq<Seq<char>>,
    outcomes: Seq<Result<Seq<char>, Seq<char>>>,
) -> Seq<(Seq<char>, Seq<char>)>
    decreases outcomes.len(),
{
    if outcomes.len() == 0 {
        Seq::empty()
    } else {
        fanout_errors(urls, outcomes.drop_last()) + (match outcomes.last() {
            Ok(_) => Seq::empty(),
            Err(e) => seq![(urls[outcomes.len() - 1], e)],
        })
    }
}

/// View of one submission outcome.
pub open spec fn outcome_view(o: Result<String, String>) -> Result<Seq<char>, Seq<char>> {
    match o {
        Ok(id) => Ok(id@),
        Err(e) => Err(e@),
    }
}

/// Views of a run of submission outcomes.
pub open spec fn outcome_views(s: Seq<Result<String, String>>) -> Seq<Result<Seq<char>, Seq<char>>> {
    s.map(|i: int, o: Result<String, String>| outcome_view(o))
}

/// Records one video's submission outcome: a successful submission adds
/// its job identifier, a failed one adds an item-level error carrying the
/// video's URL.
pub fn record_outcome(
    ids: &mut Vec<String>,
    errors: &mut Vec<ItemError>,
    url: &String,
    outcome: Result<String, String>,
)
    ensures
        final(ids)@ == (match outcome {
            Ok(id) => old(ids)@.push(id),
            Err(_) => old(ids)@,
        }),
        final(errors)@.len() == (match outcome {
            Ok(_) => old(errors)@.len(),
            Err(_) => old(errors)@.len() + 1,
        }),
        forall|i: int| 0 <= i < old(errors)@.len() ==> final(errors)@[i] == old(errors)@[i],
        outcome matches Err(e) ==> final(errors)@.last().url@ == url@
            && final(errors)@.last().error == e,
{
    match outcome {
        Ok(id) => {
            ids.push(id);
        },
        Err(e) => {
            errors.push(ItemError { url: url.clone(), error: e });
        },
    }
}

/// Collects a whole fan-out: pairs each video URL with its submission
/// outcome and splits them into the identifiers of the submitted jobs and
/// the item-level errors, both in submission order.
#[verifier::loop_isolation(false)]
pub fn collect_fanout(urls: &Vec<String>, outcomes: Vec<Result<String, String>>) -> (r: (
    Vec<String>,
    Vec<ItemError>,
))
    requires
        urls@.len() == outcomes@.len(),
    ensures
        r.0.deep_view() == fanout_ids(outcome_views(outcomes@)),
        r.1@.map(|i: int, e: ItemError| (e.url@, e.error@)) == fanout_errors(
            urls.deep_view(),
            outcome_views(outcomes@),
        ),
{
    let ghost all = outcome_views(outcomes@);
    let mut ids: Vec<String> = Vec::new();
    let mut errors: Vec<ItemError> = Vec::new();
    let n = urls.len();
    let mut i: usize = 0;
    proof {
        assert(outcome_views(outcomes@.subrange(0, 0)) =~= Seq::<
            Result<Seq<char>, Seq<char>>,
        >::empty());
        assert(ids.deep_view() =~= fanout_ids(outcome_views(outcomes@.subrange(0, 0))));
        assert(errors@.map(|i: int, e: ItemError| (e.url@, e.error@)) =~= fanout_errors(
            urls.deep_view(),
            outcome_views(outcomes@.subrange(0, 0)),
        ));
    }
    while i < n
        invariant
            i <= n,
            outcomes@.len() == n,
            ids.deep_view() == fanout_ids(outcome_views(outcomes@.subrange(0, i as int))),
            errors@.map(|i: int, e: ItemError| (e.url@, e.error@)) == fanout_errors(
                urls.deep_view(),
                outcome_views(outcomes@.subrange(0, i as int)),
            ),
        decreases n - i,
    {
        let outcome: Result<String, String> = match &outcomes[i] {
            Ok(id) => Ok(id.clone()),
            Err(e) => Err(e.clone()),
        };
        proof {
            lemma_fanout_step(urls.deep_view(), outcomes@, i as int);
            assert(outcome_view(outcome) == outcome_view(outcomes@[i as int]));
        }
        record_outcome(&mut ids, &mut errors, &urls[i], outcome);
        proof {
            assert(ids.deep_view() =~= fanout_ids(outcome_views(outcomes@.subrange(0, i + 1))));
            assert(errors@.map(|i: int, e: ItemError| (e.url@, e.error@)) =~= fanout_errors(
                urls.deep_view(),
                outcome_views(outcomes@.subrange(0, i + 1)),
            ));
        }
        i += 1;
    }
    proof {
        assert(outcomes@.subrange(0, n as int) =~= outcomes@);
    }
    (ids, errors)
}

proof fn lemma_fanout_step(urls: Seq<Seq<char>>, outcomes: Seq<Result<String, String>>, i: int)
    requires
        0 <= i < outcomes.len(),
    ensures
        fanout_ids(outcome_views(outcomes.subrange(0, i + 1))) == fanout_ids(
            outcome_views(outcomes.subrange(0, i)),
        ) + (match outcome_view(outcomes[i]) {
            Ok(id) => seq![id],
            Err(_) => Seq::<Seq<char>>::empty(),
        }),
        fanout_errors(urls, outcome_views(outcomes.subrange(0, i + 1))) == fanout_errors(
            urls,
            outcome_views(outcomes.subrange(0, i)),
        ) + (match outcome_view(outcomes[i]) {
            Ok(_) => Seq::<(Seq<char>, Seq<char>)>::empty(),
            Err(e) => seq![(urls[i], e)],
        }),
{
    let t = outcome_views(outcomes.subrange(0, i + 1));
    assert(t.drop_last() =~= outcome_views(outcomes.subrange(0, i)));
    assert(t.last() == outcome_view(outcomes[i]));
    assert(t.len() == i + 1);
}

} // verus!
