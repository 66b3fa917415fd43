//! What each API call sends and how its answer is judged: endpoints, query
//! parameters, status checks, throttling retries and the simulation id.
use crate::app::BaseSetting;
use crate::low_level::types::User;
use crate::err::{ApiClientError, StatusCodeDisplay};
use crate::location::{
    header_bytes, location_result, simulation_id, simulation_id_law, LocationError, LocationFailure,
};
use crate::text::all_visible_ascii;
use crate::text::{ascii_chars, decimal, header_text, u64_text};
use vstd::prelude::*;
use vstd::string::*;

verus! {

/// The HTTP method of a call.
#[derive(Debug, Clone, Copy, PartialEq, Eq)]
pub enum HttpMethod {
    Get,
    Post,
    Delete,
    Options,
    Patch,
}

impl HttpMethod {
    /// A method that changes what the server holds.
    pub open spec fn modifies(self) -> bool {
        self is Post || self is Delete || self is Patch
    }
}

/// One endpoint of the API, with the identifiers that its path holds.
#[derive(Debug, Clone)]
pub enum Endpoint {
    SignIn,
    GetAuthentication,
    DeleteAuthentication,
    OptionSimulations,
    PostSimulations,
    GetSimulations(String),
    Alphas(String),
    AlphaRecordsets(String),
    /// Sets the name of a recordset of an alpha, the recordset being named by
    /// `name` (such as "pnl"): a modifying request (PATCH) on
    /// `alphas/{id}/recordsets/{name}`; a failure is reported under
    /// `alpha_recordsets_setname`.
    AlphaRecordsetsName(String, String),
    UserActivitiesDiversities(String),
    DataSets,
    DataFields,
    Operators,
}

impl Endpoint {
    pub open spec fn spec_method(&self) -> HttpMethod {
        match self {
            Endpoint::SignIn => HttpMethod::Post,
            Endpoint::DeleteAuthentication => HttpMethod::Delete,
            Endpoint::OptionSimulations => HttpMethod::Options,
            Endpoint::PostSimulations => HttpMethod::Post,
            Endpoint::AlphaRecordsetsName(_, _) => HttpMethod::Patch,
            _ => HttpMethod::Get,
        }
    }

    /// The path of the endpoint, relative to the API's base URL.
    pub open spec fn spec_path(&self) -> Seq<char> {
        match self {
            Endpoint::SignIn => "authentication"@,
            Endpoint::GetAuthentication => "authentication"@,
            Endpoint::DeleteAuthentication => "authentication"@,
            Endpoint::OptionSimulations => "simulations"@,
            Endpoint::PostSimulations => "simulations"@,
            Endpoint::GetSimulations(id) => "simulations/"@ + id@,
            Endpoint::Alphas(id) => "alphas/"@ + id@,
            Endpoint::AlphaRecordsets(id) => "alphas/"@ + id@ + "/recordsets"@,
            Endpoint::AlphaRecordsetsName(id, name) => "alphas/"@ + id@ + "/recordsets/"@
                + name@,
            Endpoint::UserActivitiesDiversities(user) => "users/"@ + user@
                + "/activities/diversity"@,
            Endpoint::DataSets => "data-sets"@,
            Endpoint::DataFields => "data-fields"@,
            Endpoint::Operators => "operators"@,
        }
    }

    /// The name under which a failed answer of the endpoint is reported.
    pub open spec fn spec_api_name(&self) -> Seq<char> {
        match self {
            Endpoint::SignIn => "sign_in"@,
            Endpoint::GetAuthentication => "get_authentication"@,
            Endpoint::DeleteAuthentication => "delete_authentication"@,
            Endpoint::OptionSimulations => "option_simulations"@,
            Endpoint::PostSimulations => "post_simulations"@,
            Endpoint::GetSimulations(_) => "get_simulations"@,
            Endpoint::Alphas(_) => "get_alphas"@,
            Endpoint::AlphaRecordsets(_) => "get_alpha_recordsets"@,
            Endpoint::AlphaRecordsetsName(_, _) => "alpha_recordsets_setname"@,
            Endpoint::UserActivitiesDiversities(_) => "user_activities_diversities"@,
            Endpoint::DataSets => "data_sets"@,
            Endpoint::DataFields => "data_fields"@,
            Endpoint::Operators => "operators"@,
        }
    }

    pub fn method(&self) -> (m: HttpMethod)
        ensures
            m == self.spec_method(),
    {
        match self {
            Endpoint::SignIn => HttpMethod::Post,
            Endpoint::DeleteAuthentication => HttpMethod::Delete,
            Endpoint::OptionSimulations => HttpMethod::Options,
            Endpoint::PostSimulations => HttpMethod::Post,
            Endpoint::AlphaRecordsetsName(_, _) => HttpMethod::Patch,
            _ => HttpMethod::Get,
        }
    }

    pub fn path(&self) -> (s: String)
        ensures
            s@ == self.spec_path(),
    {
        match self {
            Endpoint::SignIn => String::from_str("authentication"),
            Endpoint::GetAuthentication => String::from_str("authentication"),
            Endpoint::DeleteAuthentication => String::from_str("authentication"),
            Endpoint::OptionSimulations => String::from_str("simulations"),
            Endpoint::PostSimulations => String::from_str("simulations"),
            Endpoint::GetSimulations(id) => {
                let mut s = String::from_str("simulations/");
                s.append(id.as_str());
                s
            },
            Endpoint::Alphas(id) => {
                let mut s = String::from_str("alphas/");
                s.append(id.as_str());
                s
            },
            Endpoint::AlphaRecordsets(id) => {
                let mut s = String::from_str("alphas/");
                s.append(id.as_str());
                s.append("/recordsets");
                s
            },
            Endpoint::AlphaRecordsetsName(id, name) => {
                let mut s = String::from_str("alphas/");
                s.append(id.as_str());
                s.append("/recordsets/");
                s.append(name.as_str());
                s
            },
            Endpoint::UserActivitiesDiversities(user) => {
                let mut s = String::from_str("users/");
                s.append(user.as_str());
                s.append("/activities/diversity");
                s
            },
            Endpoint::DataSets => String::from_str("data-sets"),
            Endpoint::DataFields => String::from_str("data-fields"),
            Endpoint::Operators => String::from_str("operators"),
        }
    }

    pub fn api_name(&self) -> (s: String)
        ensures
            s@ == self.spec_api_name(),
    {
        match self {
            Endpoint::SignIn => String::from_str("sign_in"),
            Endpoint::GetAuthentication => String::from_str("get_authentication"),
            Endpoint::DeleteAuthentication => String::from_str("delete_authentication"),
            Endpoint::OptionSimulations => String::from_str("option_simulations"),
            Endpoint::PostSimulations => String::from_str("post_simulations"),
            Endpoint::GetSimulations(_) => String::from_str("get_simulations"),
            Endpoint::Alphas(_) => String::from_str("get_alphas"),
            Endpoint::AlphaRecordsets(_) => String::from_str("get_alpha_recordsets"),
            Endpoint::AlphaRecordsetsName(_, _) => String::from_str("alpha_recordsets_setname"),
            Endpoint::UserActivitiesDiversities(_) => String::from_str(
                "user_activities_diversities",
            ),
            Endpoint::DataSets => String::from_str("data_sets"),
            Endpoint::DataFields => String::from_str("data_fields"),
            Endpoint::Operators => String::from_str("operators"),
        }
    }
}

/// Which calls change what the server holds, and with which method each
/// call is sent: signing in and posting a simulation are POSTs, ending the
/// session is a DELETE and renaming a recordset a PATCH; these four, and only
/// these, modify. Asking for the simulation options is an OPTIONS request,
/// and every other call (the session, a simulation's progress, alphas and
/// their recordsets, a user's activities, data sets, data fields and
/// operators) is a plain GET, which reads only.
pub proof fn method_law(e: Endpoint)
    ensures
        e.spec_method().modifies() <==> (e is SignIn || e is DeleteAuthentication
            || e is PostSimulations || e is AlphaRecordsetsName),
        e is SignIn ==> e.spec_method() == HttpMethod::Post,
        e is PostSimulations ==> e.spec_method() == HttpMethod::Post,
        e is DeleteAuthentication ==> e.spec_method() == HttpMethod::Delete,
        e is AlphaRecordsetsName ==> e.spec_method() == HttpMethod::Patch,
        e is OptionSimulations ==> e.spec_method() == HttpMethod::Options,
        (e is GetAuthentication || e is GetSimulations || e is Alphas || e is AlphaRecordsets
            || e is UserActivitiesDiversities || e is DataSets || e is DataFields
            || e is Operators) ==> e.spec_method() == HttpMethod::Get,
{
}

/// How the endpoint paths are laid out: the session is `authentication`;
/// simulations live under `simulations`, one simulation at
/// `simulations/{id}`; an alpha at `alphas/{id}`, its recordsets below it at
/// `/recordsets`, and a named recordset one segment further; a user's
/// activity diversity at `users/{id}/activities/diversity`; and the
/// listings at `data-sets`, `data-fields` and `operators`.
pub proof fn path_law(id: String, name: String)
    ensures
        Endpoint::SignIn.spec_path() == "authentication"@,
        Endpoint::GetAuthentication.spec_path() == Endpoint::SignIn.spec_path(),
        Endpoint::DeleteAuthentication.spec_path() == Endpoint::SignIn.spec_path(),
        Endpoint::PostSimulations.spec_path() == "simulations"@,
        Endpoint::OptionSimulations.spec_path() == Endpoint::PostSimulations.spec_path(),
        Endpoint::GetSimulations(id).spec_path() == Endpoint::PostSimulations.spec_path() + "/"@
            + id@,
        Endpoint::Alphas(id).spec_path() == "alphas/"@ + id@,
        Endpoint::AlphaRecordsets(id).spec_path() == Endpoint::Alphas(id).spec_path()
            + "/recordsets"@,
        Endpoint::AlphaRecordsetsName(id, name).spec_path() == Endpoint::AlphaRecordsets(
            id,
        ).spec_path() + "/"@ + name@,
        Endpoint::UserActivitiesDiversities(id).spec_path() == "users/"@ + id@
            + "/activities/diversity"@,
        Endpoint::DataSets.spec_path() == "data-sets"@,
        Endpoint::DataFields.spec_path() == "data-fields"@,
        Endpoint::Operators.spec_path() == "operators"@,
{
    assert(Endpoint::GetSimulations(id).spec_path() =~= Endpoint::PostSimulations.spec_path()
        + "/"@ + id@) by {
        reveal_strlit("simulations/");
        reveal_strlit("simulations");
        reveal_strlit("/");
    }
    assert(Endpoint::AlphaRecordsetsName(id, name).spec_path() =~= Endpoint::AlphaRecordsets(
        id,
    ).spec_path() + "/"@ + name@) by {
        reveal_strlit("/recordsets/");
        reveal_strlit("/recordsets");
        reveal_strlit("/");
    }
}

/// The base URL that every endpoint path is resolved against.
pub open spec fn api_base() -> Seq<char> {
    "https://api.worldquantbrain.com"@
}

/// The URL that resolving `reference` against the absolute URL `base`
/// yields, in its serialised form, when both parse.
pub uninterp spec fn joined_url(base: Seq<char>, reference: Seq<char>) -> Option<Seq<char>>;

/// Resolves `reference` against `base` and serialises the result.
///
/// Calls `url::Url::parse` on `base`, `Url::join` with `reference`, and
/// turns the joined URL into its text. The contract claims only that the
/// outcome depends on the two texts alone (named `joined_url`); the WHATWG
/// parsing and resolution rules are the `url` crate's and are not restated.
#[verifier::external_body]
fn url_join(base: &str, reference: &str) -> (res: Result<String, url::ParseError>)
    ensures
        res is Ok <==> joined_url(base@, reference@) is Some,
        res matches Ok(u) ==> joined_url(base@, reference@) == Some(u@),
{
    match url::Url::parse(base) {
        Ok(b) => match b.join(reference) {
            Ok(u) => Ok(String::from(u)),
            Err(e) => Err(e),
        },
        Err(e) => Err(e),
    }
}

/// The absolute URL of `endpoint`: its path resolved against the API's base.
pub fn endpoint_url(endpoint: &Endpoint) -> (res: Result<String, url::ParseError>)
    ensures
        match joined_url(api_base(), endpoint.spec_path()) {
            Some(u) => res matches Ok(r) && r@ == u,
            None => res is Err,
        },
{
    let path = endpoint.path();
    url_join("https://api.worldquantbrain.com", path.as_str())
}

/// The URL a call to `endpoint` is sent to; a URL that does not resolve is
/// reported as `UrlError`.
pub fn request_url(endpoint: &Endpoint) -> (res: Result<String, ApiClientError>)
    ensures
        match joined_url(api_base(), endpoint.spec_path()) {
            Some(u) => res matches Ok(r) && r@ == u,
            None => res matches Err(ApiClientError::UrlError(_)),
        },
{
    match endpoint_url(endpoint) {
        Ok(u) => Ok(u),
        Err(e) => Err(ApiClientError::UrlError(e)),
    }
}

/// The second request of `user_activities_diversities`, decided from the
/// answer to the first (who is signed in): a failed first request ends the
/// call with its error; otherwise the next request asks for the diversity of
/// that user's activities.
pub fn user_activities_request(signed_in: Result<User, ApiClientError>) -> (next: Result<Endpoint, ApiClientError>)
    ensures
        signed_in matches Err(e) ==> next == Err::<Endpoint, ApiClientError>(e),
        signed_in matches Ok(u) ==> (next matches Ok(Endpoint::UserActivitiesDiversities(id))
            && id@ == u.id@),
{
    match signed_in {
        Ok(u) => Ok(Endpoint::UserActivitiesDiversities(u.id)),
        Err(e) => Err(e),
    }
}

/// A status that `Response::error_for_status` turns into an error: a client
/// error (400..=499) or a server error (500..=599).
pub open spec fn is_error_status(status: u16) -> bool {
    400 <= status < 600
}

/// Judges the status of an answer: an error status becomes a
/// `ResponseError` under `api_name`, any other status passes.
pub fn check_status(api_name: &str, status: u16) -> (res: Result<(), ApiClientError>)
    ensures
        res is Err <==> is_error_status(status),
        res matches Err(e) ==> (e matches ApiClientError::ResponseError { api_name: n, status: s }
            && n@ == api_name@ && s.0 == Some(status)),
{
    if 400 <= status && status < 600 {
        Err(
            ApiClientError::ResponseError {
                api_name: String::from_str(api_name),
                status: StatusCodeDisplay(Some(status)),
            },
        )
    } else {
        Ok(())
    }
}

/// The status with which the server asks the client to slow down.
pub const TOO_MANY_REQUESTS: u16 = 429;

/// How often, and after how long a pause, a throttled request is sent again.
#[derive(Debug, Clone, Copy)]
pub struct RetryPolicy {
    pub max_retries: usize,
    pub retry_delay_secs: u64,
}

impl RetryPolicy {
    /// The client's policy: six retries, one minute apart.
    pub fn standard() -> (p: RetryPolicy)
        ensures
            p.max_retries == 6,
            p.retry_delay_secs == 60,
    {
        RetryPolicy { max_retries: 6, retry_delay_secs: 60 }
    }
}

/// What to do after an answer arrived.
#[derive(Debug, Clone, Copy, PartialEq, Eq)]
pub enum RetryStep {
    /// Hand the answer on.
    Accept,
    /// Pause this many seconds, then send the request again.
    WaitThenResend(u64),
    /// Pause this many seconds, then fail with `MaxRetriesExceeded`.
    WaitThenGiveUp(u64),
}

/// The state of one throttled request: how many more sends it may make.
#[derive(Debug)]
pub struct Retry {
    pub retries_left: usize,
    pub retry_delay_secs: u64,
}

/// The step after an answer with `status`, when `left` more sends are allowed.
pub open spec fn retry_step(left: nat, delay: u64, status: u16) -> RetryStep {
    if status != TOO_MANY_REQUESTS {
        RetryStep::Accept
    } else if left > 0 {
        RetryStep::WaitThenResend(delay)
    } else {
        RetryStep::WaitThenGiveUp(delay)
    }
}

impl Retry {
    /// A request that has not been sent yet.
    pub fn new(policy: &RetryPolicy) -> (r: Retry)
        ensures
            r.retries_left == policy.max_retries,
            r.retry_delay_secs == policy.retry_delay_secs,
    {
        Retry { retries_left: policy.max_retries, retry_delay_secs: policy.retry_delay_secs }
    }

    /// Decides what follows an answer with `status`.
    pub fn on_status(&mut self, status: u16) -> (step: RetryStep)
        ensures
            step == retry_step(old(self).retries_left as nat, old(self).retry_delay_secs, status),
            final(self).retry_delay_secs == old(self).retry_delay_secs,
            final(self).retries_left == (if step is WaitThenResend {
                old(self).retries_left - 1
            } else {
                old(self).retries_left as int
            }),
    {
        if status != TOO_MANY_REQUESTS {
            RetryStep::Accept
        } else if self.retries_left > 0 {
            self.retries_left = self.retries_left - 1;
            RetryStep::WaitThenResend(self.retry_delay_secs)
        } else {
            RetryStep::WaitThenGiveUp(self.retry_delay_secs)
        }
    }

    /// Decides whether a request whose sending failed (no answer came) is
    /// sent again: it is, after the retry delay, while retries remain, and
    /// each such resend uses up one retry.
    pub fn on_transport_error(&mut self) -> (resend: bool)
        ensures
            resend == (old(self).retries_left > 0),
            final(self).retry_delay_secs == old(self).retry_delay_secs,
            final(self).retries_left == (if resend {
                old(self).retries_left - 1
            } else {
                old(self).retries_left as int
            }),
    {
        if self.retries_left > 0 {
            self.retries_left = self.retries_left - 1;
            true
        } else {
            false
        }
    }

    /// The error with which a request fails when its retries ran out.
    pub fn exhausted(&self) -> (e: ApiClientError)
        ensures
            e is MaxRetriesExceeded,
    {
        ApiClientError::MaxRetriesExceeded
    }
}

/// The steps that one request takes against a server whose successive
/// answers carry `statuses`, with `left` more sends allowed: each answer is
/// judged by `Retry::on_status`, and the request stops at the first answer it
/// accepts or gives up after, or when the answers run out.
pub open spec fn retry_trace(left: nat, delay: u64, statuses: Seq<u16>) -> Seq<RetryStep>
    decreases statuses.len(),
{
    if statuses.len() == 0 {
        Seq::empty()
    } else {
        let step = retry_step(left, delay, statuses[0]);
        if step is WaitThenResend {
            seq![step] + retry_trace((left - 1) as nat, delay, statuses.drop_first())
        } else {
            seq![step]
        }
    }
}

proof fn lemma_trace_shape(left: nat, delay: u64, statuses: Seq<u16>)
    requires
        statuses.len() > left,
    ensures
        1 <= retry_trace(left, delay, statuses).len() <= left + 1,
        forall|k: int|
            0 <= k < retry_trace(left, delay, statuses).len() - 1 ==> statuses[k]
                == TOO_MANY_REQUESTS && #[trigger] retry_trace(left, delay, statuses)[k]
                == RetryStep::WaitThenResend(delay),
    decreases left,
{
    let t = retry_trace(left, delay, statuses);
    let rest = statuses.drop_first();
    if statuses[0] == TOO_MANY_REQUESTS && left > 0 {
        lemma_trace_shape((left - 1) as nat, delay, rest);
        let r = retry_trace((left - 1) as nat, delay, rest);
        assert(t =~= seq![RetryStep::WaitThenResend(delay)] + r);
        assert forall|k: int| 0 <= k < t.len() - 1 implies statuses[k] == TOO_MANY_REQUESTS
            && #[trigger] t[k] == RetryStep::WaitThenResend(delay) by {
            if k > 0 {
                assert(t[k] == r[k - 1]);
                assert(statuses[k] == rest[k - 1]);
            }
        }
    }
}

proof fn lemma_trace_gives_up(left: nat, delay: u64, statuses: Seq<u16>)
    requires
        statuses.len() > left,
        forall|i: int| 0 <= i <= left ==> #[trigger] statuses[i] == TOO_MANY_REQUESTS,
    ensures
        retry_trace(left, delay, statuses).len() == left + 1,
        retry_trace(left, delay, statuses).last() == RetryStep::WaitThenGiveUp(delay),
    decreases left,
{
    let rest = statuses.drop_first();
    assert(statuses[0] == TOO_MANY_REQUESTS);
    if left > 0 {
        assert forall|i: int| 0 <= i <= left - 1 implies #[trigger] rest[i]
            == TOO_MANY_REQUESTS by {
            assert(statuses[i + 1] == TOO_MANY_REQUESTS);
        }
        lemma_trace_gives_up((left - 1) as nat, delay, rest);
        let r = retry_trace((left - 1) as nat, delay, rest);
        assert(retry_trace(left, delay, statuses) =~= seq![RetryStep::WaitThenResend(delay)] + r);
    } else {
        assert(retry_trace(left, delay, statuses) =~= seq![RetryStep::WaitThenGiveUp(delay)]);
    }
}

proof fn lemma_trace_accepts(left: nat, delay: u64, statuses: Seq<u16>, i: int)
    requires
        statuses.len() > left,
        0 <= i <= left,
        statuses[i] != TOO_MANY_REQUESTS,
        forall|j: int| 0 <= j < i ==> #[trigger] statuses[j] == TOO_MANY_REQUESTS,
    ensures
        retry_trace(left, delay, statuses).len() == i + 1,
        retry_trace(left, delay, statuses).last() == RetryStep::Accept,
    decreases left,
{
    let rest = statuses.drop_first();
    if i == 0 {
        assert(retry_trace(left, delay, statuses) =~= seq![RetryStep::Accept]);
    } else {
        assert(statuses[0] == TOO_MANY_REQUESTS);
        assert(rest[i - 1] == statuses[i]);
        assert forall|j: int| 0 <= j < i - 1 implies #[trigger] rest[j] == TOO_MANY_REQUESTS by {
            assert(statuses[j + 1] == TOO_MANY_REQUESTS);
        }
        lemma_trace_accepts((left - 1) as nat, delay, rest, i - 1);
        let r = retry_trace((left - 1) as nat, delay, rest);
        assert(retry_trace(left, delay, statuses) =~= seq![RetryStep::WaitThenResend(delay)] + r);
    }
}

/// A throttled request is sent at most `max_retries + 1` times, pausing the
/// retry delay after every throttled answer. It hands on the first answer
/// that is not throttled, if one comes within the first `max_retries + 1`
/// sends; if all of those are throttled it gives up after exactly
/// `max_retries + 1` sends.
pub proof fn retry_law(policy: RetryPolicy, statuses: Seq<u16>)
    requires
        statuses.len() > policy.max_retries,
    ensures
        ({
            let m = policy.max_retries as nat;
            let d = policy.retry_delay_secs;
            let t = retry_trace(m, d, statuses);
            &&& 1 <= t.len() <= m + 1
            &&& forall|k: int|
                0 <= k < t.len() - 1 ==> statuses[k] == TOO_MANY_REQUESTS && #[trigger] t[k]
                    == RetryStep::WaitThenResend(d)
            &&& (forall|i: int| 0 <= i <= m ==> #[trigger] statuses[i] == TOO_MANY_REQUESTS)
                ==> t.len() == m + 1 && t.last() == RetryStep::WaitThenGiveUp(d)
            &&& forall|i: int|
                0 <= i <= m && #[trigger] statuses[i] != TOO_MANY_REQUESTS && (forall|j: int|
                    0 <= j < i ==> statuses[j] == TOO_MANY_REQUESTS) ==> t.len() == i + 1
                    && t.last() == RetryStep::Accept
        }),
{
    let m = policy.max_retries as nat;
    let d = policy.retry_delay_secs;
    lemma_trace_shape(m, d, statuses);
    if forall|i: int| 0 <= i <= m ==> #[trigger] statuses[i] == TOO_MANY_REQUESTS {
        lemma_trace_gives_up(m, d, statuses);
    }
    assert forall|i: int|
        0 <= i <= m && #[trigger] statuses[i] != TOO_MANY_REQUESTS && (forall|j: int|
            0 <= j < i ==> statuses[j] == TOO_MANY_REQUESTS) implies retry_trace(m, d, statuses).len() == i + 1
        && retry_trace(m, d, statuses).last() == RetryStep::Accept by {
        lemma_trace_accepts(m, d, statuses, i);
    }
}

/// The detail text of the business error that a failed `Location` reading
/// is reported with (a URL that does not parse is reported as `UrlError`).
pub open spec fn location_detail(f: LocationFailure) -> Seq<char> {
    match f {
        LocationFailure::Missing => "Location header not found"@,
        LocationFailure::NotText => "Location header contains invalid UTF-8"@,
        LocationFailure::NotHierarchical => "Location URL cannot be a base (no path segments)"@,
        _ => "Location header path is empty"@,
    }
}

/// Reports a failed `Location` reading as an error of `post_simulations`.
pub fn location_error(e: LocationError) -> (r: ApiClientError)
    ensures
        e.kind() is Url <==> r is UrlError,
        !(e.kind() is Url) ==> (r matches ApiClientError::BussinessError(a, b) && a@
            == "post_simulations"@ && b@ == location_detail(e.kind())),
{
    let detail = match e {
        LocationError::Url(u) => return ApiClientError::UrlError(u),
        LocationError::Missing => String::from_str("Location header not found"),
        LocationError::NotText => String::from_str("Location header contains invalid UTF-8"),
        LocationError::NotHierarchical => String::from_str(
            "Location URL cannot be a base (no path segments)",
        ),
        LocationError::NoSegment => String::from_str("Location header path is empty"),
    };
    ApiClientError::BussinessError(String::from_str("post_simulations"), detail)
}

/// The id of the simulation that a `post_simulations` answer created, read
/// from its `Location` header (`None` when the answer has none).
pub fn created_simulation_id(location: Option<&[u8]>) -> (res: Result<String, ApiClientError>)
    ensures
        match location_result(header_bytes(location)) {
            Ok(id) => res matches Ok(r) && r@ == id,
            Err(f) => match f {
                LocationFailure::Url => res matches Err(ApiClientError::UrlError(_)),
                _ => res matches Err(ApiClientError::BussinessError(a, b)) && a@
                    == "post_simulations"@ && b@ == location_detail(f),
            },
        },
        res matches Ok(id) ==> id@.len() > 0 && !id@.contains('/'),
{
    proof {
        simulation_id_law(header_bytes(location));
    }
    match simulation_id(location) {
        Ok(id) => Ok(id),
        Err(e) => Err(location_error(e)),
    }
}

/// The text of a `Retry-After` header as the client reads it: absent when
/// there is no header, "1" when the header is not visible ASCII.
pub fn retry_after_text(header: Option<&[u8]>) -> (res: Option<String>)
    ensures
        header is None <==> res is None,
        header matches Some(b) ==> (res matches Some(t) && t@ == (if all_visible_ascii(b@) {
            ascii_chars(b@)
        } else {
            "1"@
        })),
{
    match header {
        None => None,
        Some(b) => match header_text(b) {
            Some(t) => Some(t),
            None => Some(String::from_str("1")),
        },
    }
}

/// The seconds to wait before polling a simulation again: none when the
/// answer has no `Retry-After` header, else the seconds that `seconds_of`
/// reads from the header's text as `retry_after_text` gives it.
pub fn retry_after_seconds<F: Fn(&str) -> u64>(header: Option<&[u8]>, seconds_of: F) -> (secs: u64)
    requires
        forall|t: &str| #[trigger] seconds_of.requires((t,)),
    ensures
        header is None ==> secs == 0,
        header matches Some(b) ==> exists|t: &str|
            t@ == (if all_visible_ascii(b@) {
                ascii_chars(b@)
            } else {
                "1"@
            }) && #[trigger] seconds_of.ensures((t,), secs),
{
    match retry_after_text(header) {
        None => 0,
        Some(text) => {
            let t = text.as_str();
            seconds_of(t)
        },
    }
}

/// The query parameters that a `BaseSetting` is sent as.
pub open spec fn setting_pairs(s: BaseSetting) -> Seq<(Seq<char>, Seq<char>)> {
    seq![
        ("delay"@, decimal(s.delay as nat)),
        ("instrumentType"@, s.instrument_type@),
        ("region"@, s.region@),
        ("universe"@, s.universe@),
    ]
}

/// The query `q` sends `value` under `key`: some pair carries it, and every
/// pair with that key carries that value.
pub open spec fn sends(q: Seq<(Seq<char>, Seq<char>)>, key: Seq<char>, value: Seq<char>) -> bool {
    &&& exists|i: int| 0 <= i < q.len() && #[trigger] q[i] == (key, value)
    &&& forall|i: int| 0 <= i < q.len() && (#[trigger] q[i]).0 == key ==> q[i].1 == value
}

/// A `BaseSetting` is sent field by field, each under its own name: the
/// delay in decimal, then the instrument type, the region and the universe
/// as they are.
pub proof fn setting_pairs_law(s: BaseSetting)
    ensures
        setting_pairs(s).len() == 4,
        sends(setting_pairs(s), "delay"@, decimal(s.delay as nat)),
        sends(setting_pairs(s), "instrumentType"@, s.instrument_type@),
        sends(setting_pairs(s), "region"@, s.region@),
        sends(setting_pairs(s), "universe"@, s.universe@),
{
    let q = setting_pairs(s);
    reveal_strlit("delay");
    reveal_strlit("instrumentType");
    reveal_strlit("region");
    reveal_strlit("universe");
    assert(q[0] == ("delay"@, decimal(s.delay as nat)));
    assert(q[1] == ("instrumentType"@, s.instrument_type@));
    assert(q[2] == ("region"@, s.region@));
    assert(q[3] == ("universe"@, s.universe@));
    assert("delay"@ != "instrumentType"@ && "delay"@ != "region"@ && "delay"@ != "universe"@) by {
        assert("delay"@[0] != "instrumentType"@[0]);
        assert("delay"@[0] != "region"@[0]);
        assert("delay"@[0] != "universe"@[0]);
    }
    assert("instrumentType"@ != "region"@ && "instrumentType"@ != "universe"@) by {
        assert("instrumentType"@[0] != "region"@[0]);
        assert("instrumentType"@[0] != "universe"@[0]);
    }
    assert("region"@ != "universe"@) by {
        assert("region"@[0] != "universe"@[0]);
    }
}

/// The paging parameters of a listing.
pub open spec fn page_pairs(limit: u32, offset: u32) -> Seq<(Seq<char>, Seq<char>)> {
    seq![("limit"@, decimal(limit as nat)), ("offset"@, decimal(offset as nat))]
}

/// Caller-given query pairs, as text.
pub open spec fn str_pairs(q: Seq<(&str, &str)>) -> Seq<(Seq<char>, Seq<char>)> {
    q.map_values(|p: (&str, &str)| (p.0@, p.1@))
}

/// Built query pairs, as text.
pub open spec fn string_pairs(q: Seq<(String, String)>) -> Seq<(Seq<char>, Seq<char>)> {
    q.map_values(|p: (String, String)| (p.0@, p.1@))
}

fn push_pair(q: &mut Vec<(String, String)>, key: &str, value: String)
    ensures
        string_pairs(final(q)@) == string_pairs(old(q)@).push((key@, value@)),
{
    q.push((String::from_str(key), value));
    assert(string_pairs(q@) =~= string_pairs(old(q)@).push((key@, value@)));
}

fn push_setting(q: &mut Vec<(String, String)>, settings: &BaseSetting)
    ensures
        string_pairs(final(q)@) == string_pairs(old(q)@) + setting_pairs(*settings),
{
    push_pair(q, "delay", u64_text(settings.delay as u64));
    push_pair(q, "instrumentType", settings.instrument_type.clone());
    push_pair(q, "region", settings.region.clone());
    push_pair(q, "universe", settings.universe.clone());
    assert(string_pairs(q@) =~= string_pairs(old(q)@) + setting_pairs(*settings));
}

fn push_page(q: &mut Vec<(String, String)>, limit: u32, offset: u32)
    ensures
        string_pairs(final(q)@) == string_pairs(old(q)@) + page_pairs(limit, offset),
{
    push_pair(q, "limit", u64_text(limit as u64));
    push_pair(q, "offset", u64_text(offset as u64));
    assert(string_pairs(q@) =~= string_pairs(old(q)@) + page_pairs(limit, offset));
}

fn push_query(q: &mut Vec<(String, String)>, query: &[(&str, &str)])
    ensures
        string_pairs(final(q)@) == string_pairs(old(q)@) + str_pairs(query@),
{
    let mut i: usize = 0;
    while i < query.len()
        invariant
            i <= query@.len(),
            string_pairs(q@) == string_pairs(old(q)@) + str_pairs(query@.subrange(0, i as int)),
        decreases query@.len() - i,
    {
        let (k, v) = query[i];
        push_pair(q, k, String::from_str(v));
        assert(str_pairs(query@.subrange(0, i + 1)) =~= str_pairs(query@.subrange(0, i as int)).push((k@, v@)));
        i = i + 1;
    }
    assert(query@.subrange(0, query@.len() as int) =~= query@);
}

/// The query of a `data_sets` call: the settings, then the page, then the
/// caller's pairs.
pub fn data_sets_query(settings: &BaseSetting, limit: u32, offset: u32, query: &[(&str, &str)]) -> (q: Vec<(String, String)>)
    ensures
        string_pairs(q@) == setting_pairs(*settings) + page_pairs(limit, offset) + str_pairs(query@),
{
    let mut q: Vec<(String, String)> = Vec::new();
    assert(string_pairs(q@) =~= Seq::empty());
    push_setting(&mut q, settings);
    push_page(&mut q, limit, offset);
    push_query(&mut q, query);
    assert(Seq::<(Seq<char>, Seq<char>)>::empty() + setting_pairs(*settings) =~= setting_pairs(*settings));
    q
}

/// The query of a `data_fields` call: the settings, then the caller's pairs,
/// then the page.
pub fn data_fields_query(settings: &BaseSetting, limit: u32, offset: u32, query: &[(&str, &str)]) -> (q: Vec<(String, String)>)
    ensures
        string_pairs(q@) == setting_pairs(*settings) + str_pairs(query@) + page_pairs(limit, offset),
{
    let mut q: Vec<(String, String)> = Vec::new();
    assert(string_pairs(q@) =~= Seq::empty());
    push_setting(&mut q, settings);
    push_query(&mut q, query);
    push_page(&mut q, limit, offset);
    assert(Seq::<(Seq<char>, Seq<char>)>::empty() + setting_pairs(*settings) =~= setting_pairs(*settings));
    q
}

} // verus!
