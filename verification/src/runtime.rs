use vstd::prelude::*;
use crate::config::RuntimeConfig;
use crate::invocation::{FetchResult, InvocationRequest};
use crate::uri::{error_path_of, error_uri, response_path_of, response_uri, uri_of};
use crate::{LambdaHandler, LambdaStatus};

verus! {

/// One POST the reporter asks the transport to deliver: the target URL and
/// the raw bytes of the body.
pub struct ReportRequest {
    pub uri: String,
    pub body: String,
}

/// `rep` delivers outcome `outcome` of invocation `request_id` to the right
/// place: a success body goes verbatim to the response URL, an error message
/// verbatim to the error URL.
pub open spec fn report_delivers(
    rep: ReportRequest,
    endpoint: Seq<char>,
    request_id: Seq<char>,
    outcome: LambdaStatus,
) -> bool {
    match outcome {
        Ok(body) => rep.uri@ == uri_of(endpoint, response_path_of(request_id)) && rep.body@
            == body@,
        Err(message) => rep.uri@ == uri_of(endpoint, error_path_of(request_id)) && rep.body@
            == message@,
    }
}

/// `rep` is addressed to one of the two outcome URLs of invocation
/// `request_id` — the shape every report has when the handler's outcome is
/// not known.
pub open spec fn report_addressed_to(
    rep: ReportRequest,
    endpoint: Seq<char>,
    request_id: Seq<char>,
) -> bool {
    rep.uri@ == uri_of(endpoint, response_path_of(request_id)) || rep.uri@ == uri_of(
        endpoint,
        error_path_of(request_id),
    )
}

/// Converts a handler outcome into the single control-plane POST that
/// reports it: exactly one request, aimed at the response URL on success and
/// at the error URL on failure, carrying the outcome's string as its body.
pub fn report_for(config: &RuntimeConfig, request_id: &str, outcome: LambdaStatus) -> (r:
    ReportRequest)
    ensures
        report_delivers(r, config.endpoint@, request_id@, outcome),
        report_addressed_to(r, config.endpoint@, request_id@),
{
    match outcome {
        Ok(body) => ReportRequest { uri: response_uri(config, request_id), body },
        Err(message) => ReportRequest { uri: error_uri(config, request_id), body: message },
    }
}

/// The request ids of the invocations the loop dispatches, in order, given
/// what the fetcher yields on each successive poll: every `Present` before
/// the first `Absent`, with `Skipped` polls passed over.
pub open spec fn present_ids<T>(fetches: Seq<FetchResult<T>>) -> Seq<Seq<char>>
    decreases fetches.len(),
{
    if fetches.len() == 0 {
        Seq::empty()
    } else {
        match fetches[0] {
            FetchResult::Absent => Seq::empty(),
            FetchResult::Skipped => present_ids(fetches.drop_first()),
            FetchResult::Present(inv) => seq![inv.request_id@] + present_ids(
                fetches.drop_first(),
            ),
        }
    }
}

/// Law: when the fetcher yields an invocation on each of the first `n - 1`
/// polls and no work on the `n`-th, the loop dispatches exactly `n - 1`
/// invocations — one invoke/report cycle per poll that found work — and
/// then stops.
pub proof fn lemma_loop_termination<T>(fetches: Seq<FetchResult<T>>, n: int)
    requires
        1 <= n <= fetches.len(),
        fetches[n - 1] is Absent,
        forall|i: int| 0 <= i < n - 1 ==> fetches[i] is Present,
    ensures
        present_ids(fetches).len() == n - 1,
    decreases n,
{
    if n == 1 {
        assert(fetches[0] is Absent);
    } else {
        assert(fetches[0] is Present);
        assert(fetches.drop_first()[n - 2] is Absent);
        assert(forall|i: int| 0 <= i < n - 2 ==> fetches.drop_first()[i] is Present);
        lemma_loop_termination(fetches.drop_first(), n - 1);
    }
}

/// Law: a poll whose invocation is skipped — a body that did not
/// deserialize — never changes what the loop dispatches: inserting a
/// `Skipped` poll anywhere leaves the dispatched invocations exactly as
/// they were, so no single malformed invocation can end the loop.
pub proof fn lemma_skipped_preserves_dispatch<T>(fetches: Seq<FetchResult<T>>, k: int)
    requires
        0 <= k <= fetches.len(),
    ensures
        present_ids(fetches.insert(k, FetchResult::<T>::Skipped)) == present_ids(fetches),
    decreases k,
{
    let with_skip = fetches.insert(k, FetchResult::<T>::Skipped);
    if k == 0 {
        assert(with_skip[0] is Skipped);
        assert(with_skip.drop_first() =~= fetches);
    } else {
        assert(with_skip[0] == fetches[0]);
        assert(with_skip.drop_first() =~= fetches.drop_first().insert(
            k - 1,
            FetchResult::<T>::Skipped,
        ));
        lemma_skipped_preserves_dispatch(fetches.drop_first(), k - 1);
    }
}

/// The runtime loop's decisions, run over a given sequence of fetch
/// outcomes: each `Present` invocation is dispatched to the handler and its
/// outcome turned into exactly one report; a `Skipped` poll is passed over
/// and the loop goes on to the next fetch; the first `Absent` drains the
/// loop. The reports come back in dispatch order, the i-th addressed to an
/// outcome URL of the i-th dispatched invocation.
#[verifier::loop_isolation(false)]
pub fn process_events<T, H: LambdaHandler<T>>(
    config: &RuntimeConfig,
    handler: &H,
    fetches: Vec<FetchResult<T>>,
) -> (reports: Vec<ReportRequest>)
    ensures
        reports@.len() == present_ids(fetches@).len(),
        forall|i: int|
            0 <= i < reports@.len() ==> report_addressed_to(
                reports@[i],
                config.endpoint@,
                present_ids(fetches@)[i],
            ),
{
    let mut rest = fetches;
    let mut reports: Vec<ReportRequest> = Vec::new();
    let ghost all = rest@;
    let ghost mut ids: Seq<Seq<char>> = Seq::empty();
    proof {
        assert(ids + present_ids(all) =~= present_ids(all));
    }
    while rest.len() > 0
        invariant
            present_ids(all) == ids + present_ids(rest@),
            reports@.len() == ids.len(),
            forall|i: int|
                0 <= i < reports@.len() ==> report_addressed_to(
                    reports@[i],
                    config.endpoint@,
                    ids[i],
                ),
        decreases rest@.len(),
    {
        let ghost before = rest@;
        let next = rest.remove(0);
        proof {
            assert(rest@ =~= before.drop_first());
        }
        match next {
            FetchResult::Absent => {
                proof {
                    assert(present_ids(before) =~= Seq::<Seq<char>>::empty());
                    assert(present_ids(all) =~= ids);
                }
                return reports;
            },
            FetchResult::Skipped => {},
            FetchResult::Present(inv) => {
                let InvocationRequest { payload, request_id, trace_id: _, function_arn: _ } =
                    inv;
                let outcome = handler.handle(payload);
                let rep = report_for(config, request_id.as_str(), outcome);
                reports.push(rep);
                proof {
                    assert(present_ids(before) =~= seq![request_id@] + present_ids(
                        before.drop_first(),
                    ));
                    ids = ids.push(request_id@);
                    assert(ids + present_ids(rest@) =~= present_ids(all));
                }
            },
        }
    }
    proof {
        assert(present_ids(rest@) =~= Seq::<Seq<char>>::empty());
        assert(present_ids(all) =~= ids);
    }
    reports
}

} // verus!
