use vstd::prelude::*;

verus! {

/// Fixed number of attempts one relayed request is given.
pub const MAX_RETRIES: usize = 5;

/// Fixed delay, in milliseconds, the relay waits between two attempts.
pub const RETRY_DELAY_MS: u64 = 500;

/// One UI-originated request to forward: target URL, HTTP verb, optional
/// headers (names case-sensitive as provided, not deduplicated) and optional
/// raw body.
#[derive(Debug)]
pub struct HttpRequest {
    pub url: String,
    pub method: String,
    pub headers: Option<Vec<(String, String)>>,
    pub body: Option<String>,
}

/// The normalized response handed back to the UI: status code and text, the
/// response headers with one value per name, and the raw body.
#[derive(Debug)]
pub struct HttpResponse {
    pub status: u16,
    pub status_text: String,
    pub headers: Vec<(String, String)>,
    pub body: String,
}

/// The five HTTP verbs the relay supports.
#[derive(Clone, Copy, PartialEq, Eq, Structural, Debug)]
pub enum Method {
    Get,
    Post,
    Put,
    Delete,
    Patch,
}

/// The verb a method string denotes, or `None` for an unsupported method.
pub open spec fn spec_parse_method(m: Seq<char>) -> Option<Method> {
    if m == "GET"@ {
        Some(Method::Get)
    } else if m == "POST"@ {
        Some(Method::Post)
    } else if m == "PUT"@ {
        Some(Method::Put)
    } else if m == "DELETE"@ {
        Some(Method::Delete)
    } else if m == "PATCH"@ {
        Some(Method::Patch)
    } else {
        None
    }
}

/// Validates the request's HTTP verb.
pub fn parse_method(m: &str) -> (r: Option<Method>)
    ensures
        r == spec_parse_method(m@),
{
    let s = String::from_str(m);
    if s == String::from_str("GET") {
        Some(Method::Get)
    } else if s == String::from_str("POST") {
        Some(Method::Post)
    } else if s == String::from_str("PUT") {
        Some(Method::Put)
    } else if s == String::from_str("DELETE") {
        Some(Method::Delete)
    } else if s == String::from_str("PATCH") {
        Some(Method::Patch)
    } else {
        None
    }
}

/// The error message reported for an unsupported HTTP verb.
pub open spec fn spec_unsupported_message(m: Seq<char>) -> Seq<char> {
    "Unsupported method: "@ + m
}

/// Renders the error message for an unsupported HTTP verb.
pub fn unsupported_method_message(m: &str) -> (r: String)
    ensures
        r@ == spec_unsupported_message(m@),
{
    let mut s = String::from_str("Unsupported method: ");
    s.append(m);
    s
}

/// What one forwarding attempt produced: a normalized response, or the
/// message of the failure (a network or protocol error, or the unsupported
/// verb detected before any network traffic).
pub enum AttemptOutcome {
    Success(HttpResponse),
    Failure(String),
}

/// What the relay does once one attempt has completed: hand the final result
/// back to the caller, or wait the fixed delay and try again, carrying the
/// error of the failed attempt.
pub enum RelayDecision {
    Finish(Result<HttpResponse, String>),
    RetryAfterDelay(String),
}

/// The retry decision after attempt number `attempt` (counted from 1): a
/// success returns at once; a failure is retried while attempts remain and
/// becomes the final error on the last attempt.
pub fn relay_step(attempt: usize, outcome: AttemptOutcome) -> (d: RelayDecision)
    requires
        1 <= attempt <= MAX_RETRIES,
    ensures
        (outcome matches AttemptOutcome::Success(resp) ==> d == RelayDecision::Finish(
            Result::<HttpResponse, String>::Ok(resp),
        )),
        (outcome matches AttemptOutcome::Failure(e) ==> (if attempt < MAX_RETRIES {
            d == RelayDecision::RetryAfterDelay(e)
        } else {
            d == RelayDecision::Finish(Result::<HttpResponse, String>::Err(e))
        })),
{
    match outcome {
        AttemptOutcome::Success(resp) => RelayDecision::Finish(Ok(resp)),
        AttemptOutcome::Failure(e) => {
            if attempt < MAX_RETRIES {
                RelayDecision::RetryAfterDelay(e)
            } else {
                RelayDecision::Finish(Err(e))
            }
        },
    }
}

/// No attempt with an index below `n` succeeded.
pub open spec fn no_success_before(outcomes: Seq<AttemptOutcome>, n: int) -> bool {
    forall|j: int| 0 <= j < n ==> !(#[trigger] outcomes[j] is Success)
}

/// One completed relay run: the final result, how many attempts were made,
/// and how many fixed backoff delays were waited through.
pub struct RelayRun {
    pub result: Result<HttpResponse, String>,
    pub attempts: usize,
    pub sleeps: usize,
}

/// The full bounded-retry relay over a given run of attempt outcomes.
///
/// `outcomes[i]` is what the network would answer on attempt `i + 1`; the
/// shell, which owns the network, drives the same decisions one attempt at a
/// time through `relay_step`. An unsupported verb never reaches the network:
/// the check is part of each attempt, not of the loop, so such a request
/// still consumes every attempt before its error surfaces.
///
/// The contract pins the whole run down:
/// - an unsupported verb exhausts all attempts and reports it;
/// - the first successful attempt returns at once — attempt `i + 1` waits
///   through exactly `i` delays, so an immediate success waits through none;
/// - a run of nothing but failures makes exactly `MAX_RETRIES` attempts and
///   returns the error of the last one.
#[verifier::loop_isolation(false)]
pub fn relay(req: &HttpRequest, outcomes: Vec<AttemptOutcome>) -> (r: RelayRun)
    requires
        outcomes@.len() == MAX_RETRIES,
    ensures
        spec_parse_method(req.method@) is None ==> (r.result matches Err(e) && e@
            == spec_unsupported_message(req.method@) && r.attempts == MAX_RETRIES && r.sleeps
            == MAX_RETRIES - 1),
        spec_parse_method(req.method@) is Some ==> forall|i: int|
            (0 <= i < MAX_RETRIES && (#[trigger] outcomes@[i]) is Success && no_success_before(
                outcomes@,
                i,
            )) ==> (r.result == Result::<HttpResponse, String>::Ok(outcomes@[i]->Success_0)
                && r.attempts == i + 1 && r.sleeps == i),
        (spec_parse_method(req.method@) is Some && no_success_before(
            outcomes@,
            MAX_RETRIES as int,
        )) ==> (r.result matches Err(e) && e == outcomes@[MAX_RETRIES - 1]->Failure_0
            && r.attempts == MAX_RETRIES && r.sleeps == MAX_RETRIES - 1),
{
    let method = parse_method(req.method.as_str());
    let ghost orig = outcomes@;
    let mut remaining = outcomes;
    let mut attempt: usize = 1;
    let mut sleeps: usize = 0;
    loop
        invariant
            1 <= attempt <= MAX_RETRIES,
            sleeps == attempt - 1,
            method == spec_parse_method(req.method@),
            orig.len() == MAX_RETRIES,
            method is Some ==> remaining@ == orig.subrange(attempt as int - 1, MAX_RETRIES as int),
            method is Some ==> no_success_before(orig, attempt as int - 1),
        decreases MAX_RETRIES - attempt,
    {
        let outcome = if method.is_none() {
            AttemptOutcome::Failure(unsupported_method_message(req.method.as_str()))
        } else {
            remaining.remove(0)
        };
        proof {
            if method is Some {
                assert(outcome == orig[attempt as int - 1]);
            }
        }
        match relay_step(attempt, outcome) {
            RelayDecision::Finish(result) => {
                proof {
                    if method is Some {
                        if outcome is Success {
                            assert(orig[attempt as int - 1] is Success);
                            assert forall|i: int|
                                0 <= i < MAX_RETRIES && (#[trigger] orig[i]) is Success
                                    && no_success_before(orig, i) implies i == attempt as int
                                - 1 by {
                                assert(orig[attempt as int - 1] is Success);
                            };
                        } else {
                            assert(attempt == MAX_RETRIES);
                            assert forall|j: int| 0 <= j < MAX_RETRIES implies !((
                            #[trigger] orig[j]) is Success) by {
                                if j == attempt as int - 1 {
                                    assert(orig[j] == outcome);
                                }
                            };
                        }
                    }
                }
                return RelayRun { result, attempts: attempt, sleeps };
            },
            RelayDecision::RetryAfterDelay(_err) => {
                proof {
                    assert(outcome is Failure && attempt < MAX_RETRIES);
                    if method is Some {
                        assert(orig.subrange(attempt as int - 1, MAX_RETRIES as int).remove(0)
                            =~= orig.subrange(attempt as int, MAX_RETRIES as int));
                    }
                }
                sleeps = sleeps + 1;
                attempt = attempt + 1;
            },
        }
    }
}

/// `name` occurs among the header pairs.
pub open spec fn spec_has_name(pairs: Seq<(String, String)>, name: Seq<char>) -> bool {
    exists|i: int| 0 <= i < pairs.len() && (#[trigger] pairs[i].0@) == name
}

/// The pair at index `i` is the first occurrence of its name.
pub open spec fn spec_first_occurrence(pairs: Seq<(String, String)>, i: int) -> bool {
    forall|j: int| 0 <= j < i ==> (#[trigger] pairs[j].0@) != pairs[i].0@
}

/// The pair `p` repeats, name and value, the first occurrence of its name
/// among `pairs`.
pub open spec fn spec_from_first_occurrence(pairs: Seq<(String, String)>, p: (String, String)) -> bool {
    exists|t: int|
        0 <= t < pairs.len() && spec_first_occurrence(pairs, t) && p.0@ == (#[trigger] pairs[t]).0@
            && p.1@ == pairs[t].1@
}

/// Whether some pair carries `name`.
fn contains_name(pairs: &Vec<(String, String)>, name: &String) -> (r: bool)
    ensures
        r == spec_has_name(pairs@, name@),
{
    let mut i: usize = 0;
    while i < pairs.len()
        invariant
            i <= pairs@.len(),
            forall|j: int| 0 <= j < i ==> (#[trigger] pairs@[j].0@) != name@,
        decreases pairs@.len() - i,
    {
        if pairs[i].0 == *name {
            return true;
        }
        i = i + 1;
    }
    false
}

/// Collapses raw response header pairs into one value per name. Every name
/// that occurs in `raw` occurs in the result exactly once, carrying the value
/// of its first occurrence — the semantics of a header lookup that asks for
/// each name in turn and is answered with the first match.
pub fn collect_headers(raw: &Vec<(String, String)>) -> (out: Vec<(String, String)>)
    ensures
        forall|t: int| 0 <= t < raw@.len() ==> spec_has_name(out@, (#[trigger] raw@[t].0@)),
        forall|j: int| 0 <= j < out@.len() ==> spec_from_first_occurrence(raw@, #[trigger] out@[j]),
        forall|j: int, k: int| 0 <= j < k < out@.len() ==> out@[j].0@ != out@[k].0@,
{
    let mut out: Vec<(String, String)> = Vec::new();
    let mut i: usize = 0;
    while i < raw.len()
        invariant
            i <= raw@.len(),
            forall|t: int| 0 <= t < i ==> spec_has_name(out@, (#[trigger] raw@[t].0@)),
            forall|j: int| 0 <= j < out@.len() ==> spec_from_first_occurrence(
                raw@,
                #[trigger] out@[j],
            ),
            forall|j: int, k: int| 0 <= j < k < out@.len() ==> out@[j].0@ != out@[k].0@,
        decreases raw@.len() - i,
    {
        let present = contains_name(&out, &raw[i].0);
        let ghost out_before = out@;
        if !present {
            proof {
                assert forall|j: int| 0 <= j < i implies (#[trigger] raw@[j].0@)
                    != raw@[i as int].0@ by {
                    assert(spec_has_name(out_before, raw@[j].0@));
                }
                assert(spec_first_occurrence(raw@, i as int));
            }
            out.push((raw[i].0.clone(), raw[i].1.clone()));
            proof {
                assert forall|t: int| 0 <= t < i + 1 implies spec_has_name(
                    out@,
                    (#[trigger] raw@[t].0@),
                ) by {
                    if t < i {
                        let w = choose|w: int|
                            0 <= w < out_before.len() && (#[trigger] out_before[w].0@)
                                == raw@[t].0@;
                        assert(out@[w].0@ == raw@[t].0@);
                    } else {
                        assert(out@[out@.len() - 1].0@ == raw@[t].0@);
                    }
                }
            }
        } else {
            proof {
                assert forall|t: int| 0 <= t < i + 1 implies spec_has_name(
                    out@,
                    (#[trigger] raw@[t].0@),
                ) by {
                    if t == i {
                        assert(spec_has_name(out@, raw@[i as int].0@));
                    }
                }
            }
        }
        i = i + 1;
    }
    out
}

} // verus!
