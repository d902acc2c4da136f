//! The fetch side of the pipeline: planning which requests to issue for a
//! source configuration, filtering work-in-progress items out of a response,
//! and assembling the per-request outcomes into the final list.
//!
//! The HTTP calls themselves are network I/O and live outside the library;
//! callers issue exactly one GET per planned URL and hand back, per request,
//! either the parsed record list or a marker that the request failed.

use vstd::prelude::*;
use vstd::string::StringExecFns;
use crate::coffee_config::Gitlab;

verus! {

/// One open review request as parsed from the upstream response. Immutable
/// once constructed; lives for a single pipeline run.
#[derive(Debug, PartialEq)]
pub struct MergeRequest {
    pub title: String,
    pub author: Author,
    pub created_at: String,
    pub upvotes: i8,
    pub web_url: String,
    pub work_in_progress: bool,
}

/// The author of a review request.
#[derive(Debug, PartialEq)]
pub struct Author {
    pub name: String,
}

/// The fetch failed outright: a connection failure, a malformed response
/// body, or a non-success status on the unscoped path.
#[derive(Debug, PartialEq)]
pub enum FetchError {
    Upstream,
}

/// The URL of the single unscoped query.
pub open spec fn spec_unscoped_url(base: Seq<char>) -> Seq<char> {
    base + "/merge_requests?state=opened"@
}

/// The URL of the query scoped to one project identifier.
pub open spec fn spec_project_url(base: Seq<char>, id: Seq<char>) -> Seq<char> {
    base + "/projects/"@ + id + "/merge_requests?state=opened"@
}

/// How many outbound requests one fetch issues: one per configured project
/// identifier, or exactly one when the query is unscoped.
pub open spec fn spec_request_count(config: Gitlab) -> nat {
    match config.projects {
        None => 1,
        Some(ids) => ids@.len(),
    }
}

/// Whether the configuration asks for work-in-progress items to be kept.
pub open spec fn spec_includes_wip(config: Gitlab) -> bool {
    config.include_wip == Some(true)
}

/// Whether one item survives the work-in-progress filter.
pub open spec fn keeps(mr: MergeRequest, include_wip: bool) -> bool {
    !mr.work_in_progress || include_wip
}

/// The response list after the work-in-progress filter, source order kept.
pub open spec fn spec_filter_wip(s: Seq<MergeRequest>, include_wip: bool) -> Seq<MergeRequest>
    decreases s.len(),
{
    if s.len() == 0 {
        Seq::empty()
    } else if keeps(s.last(), include_wip) {
        spec_filter_wip(s.drop_last(), include_wip).push(s.last())
    } else {
        spec_filter_wip(s.drop_last(), include_wip)
    }
}

/// The concatenation, in request order, of the filtered contents of every
/// request that succeeded; failed requests contribute nothing.
pub open spec fn spec_gather_filtered(
    results: Seq<Option<Vec<MergeRequest>>>,
    include_wip: bool,
) -> Seq<MergeRequest>
    decreases results.len(),
{
    if results.len() == 0 {
        Seq::empty()
    } else {
        spec_gather_filtered(results.drop_last(), include_wip) + match results.last() {
            Some(v) => spec_filter_wip(v@, include_wip),
            None => Seq::<MergeRequest>::empty(),
        }
    }
}

fn unscoped_url(base: &str) -> (u: String)
    ensures
        u@ == spec_unscoped_url(base@),
{
    let mut u = base.to_owned();
    u.append("/merge_requests?state=opened");
    u
}

fn project_url(base: &str, id: &str) -> (u: String)
    ensures
        u@ == spec_project_url(base@, id@),
{
    let mut u = base.to_owned();
    u.append("/projects/");
    u.append(id);
    u.append("/merge_requests?state=opened");
    u
}

/// Plans the outbound requests for one fetch: exactly one URL per configured
/// project identifier, in identifier-list order, or the single unscoped URL
/// when no project list is configured.
pub fn fetch_urls(config: &Gitlab) -> (urls: Vec<String>)
    ensures
        urls@.len() == spec_request_count(*config),
        config.projects is None ==> urls@[0]@ == spec_unscoped_url(config.base_url@),
        config.projects is Some ==> forall|i: int|
            0 <= i < urls@.len() ==> (#[trigger] urls@[i])@ == spec_project_url(
                config.base_url@,
                config.projects->0@[i]@,
            ),
{
    match &config.projects {
        None => {
            let mut urls: Vec<String> = Vec::new();
            urls.push(unscoped_url(config.base_url.as_str()));
            urls
        },
        Some(ids) => {
            let mut urls: Vec<String> = Vec::new();
            let mut j: usize = 0;
            while j < ids.len()
                invariant
                    j <= ids@.len(),
                    urls@.len() == j,
                    forall|i: int|
                        0 <= i < j ==> (#[trigger] urls@[i])@ == spec_project_url(
                            config.base_url@,
                            ids@[i]@,
                        ),
                decreases ids@.len() - j,
            {
                urls.push(project_url(config.base_url.as_str(), ids[j].as_str()));
                j += 1;
            }
            urls
        },
    }
}

/// Applies the work-in-progress policy to one parsed response: an item whose
/// work-in-progress flag is set is dropped unless the configuration asks for
/// it explicitly; everything else is kept in source order.
pub fn filter_merge_requests(merge_requests: Vec<MergeRequest>, include_wip: Option<bool>) -> (r:
    Vec<MergeRequest>)
    ensures
        r@ == spec_filter_wip(merge_requests@, include_wip == Some(true)),
{
    let with_wip: bool = match include_wip {
        Some(b) => b,
        None => false,
    };
    let ghost orig = merge_requests@;
    proof {
        assert(merge_requests.len() == orig.len());
    }
    let mut rest = merge_requests;
    let mut r: Vec<MergeRequest> = Vec::new();
    let mut i: usize = 0;
    while rest.len() > 0
        invariant
            i + rest@.len() == orig.len(),
            orig.len() <= usize::MAX,
            rest@ == orig.skip(i as int),
            r@ == spec_filter_wip(orig.take(i as int), with_wip),
        decreases rest@.len(),
    {
        let mr = rest.remove(0);
        proof {
            assert(mr == orig[i as int]);
            assert(rest@ =~= orig.skip(i as int + 1));
        }
        if !mr.work_in_progress || with_wip {
            r.push(mr);
        }
        i += 1;
        proof {
            assert(orig.take(i as int).drop_last() =~= orig.take(i as int - 1));
            assert(orig.take(i as int).last() == orig[i as int - 1]);
        }
    }
    proof {
        assert(orig.take(orig.len() as int) =~= orig);
    }
    r
}

/// Assembles the final fetch result from the per-request outcomes, one
/// outcome per planned request, in request order. On the unscoped path the
/// single request's failure is fatal; on the per-project path a failed
/// request is silently skipped and the successful ones are concatenated in
/// identifier-list order.
pub fn assemble_open(config: &Gitlab, responses: Vec<Option<Vec<MergeRequest>>>) -> (r: Result<
    Vec<MergeRequest>,
    FetchError,
>)
    requires
        responses@.len() == spec_request_count(*config),
    ensures
        config.projects is None && responses@[0] is Some ==> r is Ok && r->Ok_0@
            == spec_filter_wip(responses@[0]->0@, spec_includes_wip(*config)),
        config.projects is None && responses@[0] is None ==> r == Err::<
            Vec<MergeRequest>,
            FetchError,
        >(FetchError::Upstream),
        config.projects is Some ==> r is Ok && r->Ok_0@ == spec_gather_filtered(
            responses@,
            spec_includes_wip(*config),
        ),
{
    let ghost orig = responses@;
    proof {
        assert(responses.len() == orig.len());
    }
    let mut rest = responses;
    match &config.projects {
        None => {
            let first = rest.remove(0);
            match first {
                Some(v) => Ok(filter_merge_requests(v, config.include_wip)),
                None => Err(FetchError::Upstream),
            }
        },
        Some(_) => {
            let mut r: Vec<MergeRequest> = Vec::new();
            let mut i: usize = 0;
            while rest.len() > 0
                invariant
                    i + rest@.len() == orig.len(),
                    orig.len() <= usize::MAX,
                    rest@ == orig.skip(i as int),
                    r@ == spec_gather_filtered(orig.take(i as int), spec_includes_wip(*config)),
                decreases rest@.len(),
            {
                let outcome = rest.remove(0);
                proof {
                    assert(outcome == orig[i as int]);
                    assert(rest@ =~= orig.skip(i as int + 1));
                }
                match outcome {
                    Some(v) => {
                        let mut filtered = filter_merge_requests(v, config.include_wip);
                        r.append(&mut filtered);
                    },
                    None => {},
                }
                i += 1;
                proof {
                    assert(orig.take(i as int).drop_last() =~= orig.take(i as int - 1));
                    assert(orig.take(i as int).last() == orig[i as int - 1]);
                    assert(r@ =~= spec_gather_filtered(
                        orig.take(i as int),
                        spec_includes_wip(*config),
                    ));
                }
            }
            proof {
                assert(orig.take(orig.len() as int) =~= orig);
            }
            Ok(r)
        },
    }
}

/// The filter drops exactly the flagged items: with the flag off the result
/// is the subsequence of items not marked work-in-progress; with the flag on
/// the whole list survives; and toggling the flag never changes which
/// non-work-in-progress items are present — filtering the kept list again
/// with the flag off gives the same list as filtering the original directly.
pub proof fn lemma_wip_filter_policy(s: Seq<MergeRequest>, include_wip: bool)
    ensures
        spec_filter_wip(s, true) == s,
        forall|i: int|
            0 <= i < spec_filter_wip(s, false).len() ==> !(#[trigger] spec_filter_wip(
                s,
                false,
            )[i]).work_in_progress,
        spec_filter_wip(spec_filter_wip(s, include_wip), false) == spec_filter_wip(s, false),
    decreases s.len(),
{
    if s.len() == 0 {
        assert(spec_filter_wip(s, true) =~= s);
        assert(spec_filter_wip(spec_filter_wip(s, include_wip), false) =~= spec_filter_wip(
            s,
            false,
        ));
    } else {
        lemma_wip_filter_policy(s.drop_last(), include_wip);
        assert(spec_filter_wip(s, true) =~= s);
        if keeps(s.last(), include_wip) {
            let kept = spec_filter_wip(s.drop_last(), include_wip).push(s.last());
            assert(kept.drop_last() =~= spec_filter_wip(s.drop_last(), include_wip));
            assert(kept.last() == s.last());
        }
    }
}

/// The fetched aggregate respects the work-in-progress policy: with the
/// flag off, no item of the assembled per-project result is marked
/// work-in-progress, whichever requests failed.
pub proof fn lemma_gather_respects_wip_policy(results: Seq<Option<Vec<MergeRequest>>>)
    ensures
        forall|i: int|
            0 <= i < spec_gather_filtered(results, false).len() ==> !(
            #[trigger] spec_gather_filtered(results, false)[i]).work_in_progress,
    decreases results.len(),
{
    if results.len() > 0 {
        lemma_gather_respects_wip_policy(results.drop_last());
        let head = spec_gather_filtered(results.drop_last(), false);
        let tail = match results.last() {
            Some(v) => spec_filter_wip(v@, false),
            None => Seq::<MergeRequest>::empty(),
        };
        if results.last() is Some {
            lemma_wip_filter_policy(results.last()->0@, false);
        }
        assert(spec_gather_filtered(results, false) == head + tail);
        assert forall|i: int|
            0 <= i < spec_gather_filtered(results, false).len() implies !(
        #[trigger] spec_gather_filtered(results, false)[i]).work_in_progress by {
            if i < head.len() {
                assert(spec_gather_filtered(results, false)[i] == head[i]);
            } else {
                assert(spec_gather_filtered(results, false)[i] == tail[i - head.len()]);
            }
        }
    }
}

} // verus!
