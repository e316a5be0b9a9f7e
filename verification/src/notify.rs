//! The notification dispatcher: which requests a profile calls for, and what
//! each reply means.
//!
//! A profile is notified by one authenticated GET for each protocol that it
//! has switched on, IPv4 before IPv6. The two are independent: what comes
//! back for one has no bearing on the other. Every reply becomes an outcome;
//! nothing that a server or the network does makes the dispatcher fail.

use vstd::prelude::*;
use crate::i18n::{get_msg_en, message};
use crate::logging::{entry_views, LogEntry, LogEntryView, LogLevel};
use crate::registry::{config_views, Config, ConfigView};
use crate::text::{replace_all, replace_first, replaced_all, replaced_first};

verus! {

/// The protocol whose address a request reports.
#[derive(Clone, Copy, Debug, PartialEq, Eq)]
pub enum Protocol {
    Ipv4,
    Ipv6,
}

/// The two addresses to which notifications go.
#[derive(Debug, PartialEq, Eq)]
pub struct Endpoints {
    pub ipv4: String,
    pub ipv6: String,
}

/// The endpoints as a mathematical value.
pub struct EndpointsView {
    pub ipv4: Seq<char>,
    pub ipv6: Seq<char>,
}

impl View for Endpoints {
    type V = EndpointsView;

    open spec fn view(&self) -> EndpointsView {
        EndpointsView { ipv4: self.ipv4@, ipv6: self.ipv6@ }
    }
}

/// The provider's endpoints.
pub open spec fn provider_endpoints() -> EndpointsView {
    EndpointsView {
        ipv4: "https://ipv4.mydns.jp/login.html"@,
        ipv6: "https://ipv6.mydns.jp/login.html"@,
    }
}

impl Endpoints {
    /// The provider's endpoints.
    pub fn mydns() -> (endpoints: Endpoints)
        ensures
            endpoints@ == provider_endpoints(),
    {
        Endpoints {
            ipv4: "https://ipv4.mydns.jp/login.html".to_owned(),
            ipv6: "https://ipv6.mydns.jp/login.html".to_owned(),
        }
    }
}

/// One request to the provider: a GET of `url` without a body, with
/// `username` and `password` as HTTP Basic credentials.
#[derive(Debug, PartialEq, Eq)]
pub struct NotifyRequest {
    pub protocol: Protocol,
    pub url: String,
    pub username: String,
    pub password: String,
}

/// A request as a mathematical value.
pub struct NotifyRequestView {
    pub protocol: Protocol,
    pub url: Seq<char>,
    pub username: Seq<char>,
    pub password: Seq<char>,
}

impl View for NotifyRequest {
    type V = NotifyRequestView;

    open spec fn view(&self) -> NotifyRequestView {
        NotifyRequestView {
            protocol: self.protocol,
            url: self.url@,
            username: self.username@,
            password: self.password@,
        }
    }
}

/// The requests of a vector as mathematical values.
pub open spec fn request_views(requests: Seq<NotifyRequest>) -> Seq<NotifyRequestView> {
    requests.map_values(|r: NotifyRequest| r@)
}

/// What came back for a request: the status of the server's response, or the
/// reason why there was no response (name resolution, TLS, timeout, refused
/// connection).
#[derive(Debug, PartialEq, Eq)]
pub enum HttpReply {
    Status { code: u16 },
    Failed { reason: String },
}

/// A reply as a mathematical value.
pub enum HttpReplyView {
    Status { code: u16 },
    Failed { reason: Seq<char> },
}

impl View for HttpReply {
    type V = HttpReplyView;

    open spec fn view(&self) -> HttpReplyView {
        match *self {
            HttpReply::Status { code } => HttpReplyView::Status { code },
            HttpReply::Failed { reason } => HttpReplyView::Failed { reason: reason@ },
        }
    }
}

/// The replies of a vector as mathematical values.
pub open spec fn reply_views(replies: Seq<HttpReply>) -> Seq<HttpReplyView> {
    replies.map_values(|r: HttpReply| r@)
}

/// How one request ended.
#[derive(Debug, PartialEq, Eq)]
pub enum Outcome {
    Success { endpoint: String, status_code: u16 },
    Failure { endpoint: String, reason: String },
}

/// An outcome as a mathematical value.
pub enum OutcomeView {
    Success { endpoint: Seq<char>, status_code: u16 },
    Failure { endpoint: Seq<char>, reason: Seq<char> },
}

impl View for Outcome {
    type V = OutcomeView;

    open spec fn view(&self) -> OutcomeView {
        match *self {
            Outcome::Success { endpoint, status_code } => OutcomeView::Success {
                endpoint: endpoint@,
                status_code,
            },
            Outcome::Failure { endpoint, reason } => OutcomeView::Failure {
                endpoint: endpoint@,
                reason: reason@,
            },
        }
    }
}

/// The outcomes of a vector as mathematical values.
pub open spec fn outcome_views(outcomes: Seq<Outcome>) -> Seq<OutcomeView> {
    outcomes.map_values(|o: Outcome| o@)
}

/// Whether a status lies in the success range.
pub open spec fn is_success(code: u16) -> bool {
    200 <= code < 300
}

/// The request that notifies `config` over `protocol`.
pub open spec fn request_for(endpoints: EndpointsView, config: ConfigView, protocol: Protocol) -> NotifyRequestView {
    NotifyRequestView {
        protocol,
        url: match protocol {
            Protocol::Ipv4 => endpoints.ipv4,
            Protocol::Ipv6 => endpoints.ipv6,
        },
        username: config.master_id,
        password: config.password,
    }
}

/// The requests that `config` calls for: one for each protocol that is
/// switched on, IPv4 first.
pub open spec fn planned(endpoints: EndpointsView, config: ConfigView) -> Seq<NotifyRequestView> {
    (if config.ipv4_notify {
        seq![request_for(endpoints, config, Protocol::Ipv4)]
    } else {
        Seq::empty()
    }) + (if config.ipv6_notify {
        seq![request_for(endpoints, config, Protocol::Ipv6)]
    } else {
        Seq::empty()
    })
}

/// What `reqwest::StatusCode` prints for the status `code`: the number and
/// the standard reason phrase of the status.
pub uninterp spec fn status_display(code: u16) -> Seq<char>;

/// The text that stands for a status: what the status code prints, or a note
/// that the number is no status code.
pub open spec fn status_text_of(code: u16) -> Seq<char> {
    if 100 <= code <= 999 {
        status_display(code)
    } else {
        "invalid status code"@
    }
}

/// `reqwest::StatusCode::from_u16`, followed by the `Display` of the status
/// code that it gives. A number from 100 to 999 is a status code, and no
/// other number is; the text is what the status code prints.
#[verifier::external_body]
fn status_code_text(code: u16) -> (text: Option<String>)
    ensures
        text is Some <==> 100 <= code <= 999,
        text matches Some(t) ==> t@ == status_display(code),
{
    match reqwest::StatusCode::from_u16(code) {
        Ok(status) => Some(status.to_string()),
        Err(_) => None,
    }
}

/// The text that stands for a status.
pub fn status_text(code: u16) -> (text: String)
    ensures
        text@ == status_text_of(code),
{
    match status_code_text(code) {
        Some(text) => text,
        None => "invalid status code".to_owned(),
    }
}

/// The words that open the reason for a status outside the success range.
pub open spec fn status_class(code: u16) -> Seq<char> {
    if 400 <= code < 500 {
        "HTTP status client error"@
    } else if 500 <= code < 600 {
        "HTTP status server error"@
    } else {
        "HTTP status"@
    }
}

/// The reason given for a response whose status is outside the success range.
pub open spec fn rejection_reason(code: u16, text: Seq<char>, url: Seq<char>) -> Seq<char> {
    status_class(code) + " ("@ + text + ") for url ("@ + url + ")"@
}

/// The reason for a response whose status `code` is outside the success
/// range; `text` is the text that stands for the status.
pub fn rejection(code: u16, text: &str, url: &str) -> (reason: String)
    ensures
        reason@ == rejection_reason(code, text@, url@),
{
    let mut reason = if 400 <= code && code < 500 {
        "HTTP status client error".to_owned()
    } else if 500 <= code && code < 600 {
        "HTTP status server error".to_owned()
    } else {
        "HTTP status".to_owned()
    };
    reason.append(" (");
    reason.append(text);
    reason.append(") for url (");
    reason.append(url);
    reason.append(")");
    reason
}

/// The outcome of a request to `url` for which `reply` came back: success
/// for a status in the success range, failure for every other status and for
/// every failure to get a response.
pub open spec fn outcome_of_reply(url: Seq<char>, reply: HttpReplyView) -> OutcomeView {
    match reply {
        HttpReplyView::Status { code } => {
            if is_success(code) {
                OutcomeView::Success { endpoint: url, status_code: code }
            } else {
                OutcomeView::Failure {
                    endpoint: url,
                    reason: rejection_reason(code, status_text_of(code), url),
                }
            }
        },
        HttpReplyView::Failed { reason } => OutcomeView::Failure { endpoint: url, reason },
    }
}

/// Reads the reply to a request as an outcome.
pub fn notify(request: &NotifyRequest, reply: &HttpReply) -> (outcome: Outcome)
    ensures
        outcome@ == outcome_of_reply(request@.url, reply@),
{
    match reply {
        HttpReply::Status { code } => {
            if 200 <= *code && *code < 300 {
                Outcome::Success { endpoint: request.url.clone(), status_code: *code }
            } else {
                let text = status_text(*code);
                Outcome::Failure {
                    endpoint: request.url.clone(),
                    reason: rejection(*code, text.as_str(), request.url.as_str()),
                }
            }
        },
        HttpReply::Failed { reason } => Outcome::Failure {
            endpoint: request.url.clone(),
            reason: reason.clone(),
        },
    }
}

/// The requests that `config` calls for.
pub fn planned_requests(endpoints: &Endpoints, config: &Config) -> (requests: Vec<NotifyRequest>)
    ensures
        request_views(requests@) == planned(endpoints@, config@),
{
    let mut requests: Vec<NotifyRequest> = Vec::new();
    if config.ipv4_notify {
        requests.push(
            NotifyRequest {
                protocol: Protocol::Ipv4,
                url: endpoints.ipv4.clone(),
                username: config.master_id.clone(),
                password: config.password.clone(),
            },
        );
    }
    if config.ipv6_notify {
        requests.push(
            NotifyRequest {
                protocol: Protocol::Ipv6,
                url: endpoints.ipv6.clone(),
                username: config.master_id.clone(),
                password: config.password.clone(),
            },
        );
    }
    assert(request_views(requests@) =~= planned(endpoints@, config@));
    requests
}

/// The outcomes of requests and the replies to them, pair by pair; a request
/// without a reply has no outcome.
pub open spec fn outcomes_for(requests: Seq<NotifyRequestView>, replies: Seq<HttpReplyView>) -> Seq<
    OutcomeView,
> {
    Seq::new(
        if requests.len() <= replies.len() {
            requests.len()
        } else {
            replies.len()
        },
        |i: int| outcome_of_reply(requests[i].url, replies[i]),
    )
}

/// Notifies one profile: given the replies to the requests that the profile
/// calls for, in their order, the outcome of each.
pub fn perform_notification(endpoints: &Endpoints, config: &Config, replies: &Vec<HttpReply>) -> (outcomes:
    Vec<Outcome>)
    ensures
        outcome_views(outcomes@) == outcomes_for(planned(endpoints@, config@), reply_views(replies@)),
{
    let requests = planned_requests(endpoints, config);
    let count: usize = if requests.len() <= replies.len() {
        requests.len()
    } else {
        replies.len()
    };
    let ghost wanted = outcomes_for(planned(endpoints@, config@), reply_views(replies@));
    let mut outcomes: Vec<Outcome> = Vec::new();
    let mut i: usize = 0;
    while i < count
        invariant
            i <= count,
            count <= requests.len(),
            count <= replies.len(),
            wanted.len() == count,
            request_views(requests@) == planned(endpoints@, config@),
            wanted == outcomes_for(planned(endpoints@, config@), reply_views(replies@)),
            outcome_views(outcomes@) == wanted.take(i as int),
        decreases count - i,
    {
        let outcome = notify(&requests[i], &replies[i]);
        let ghost before = outcomes@;
        let ghost made = outcome@;
        assert(request_views(requests@)[i as int] == requests@[i as int]@);
        assert(reply_views(replies@)[i as int] == replies@[i as int]@);
        assert(planned(endpoints@, config@)[i as int] == requests@[i as int]@);
        assert(made == wanted[i as int]);
        outcomes.push(outcome);
        assert(outcome_views(outcomes@) =~= outcome_views(before).push(made));
        assert(wanted.take(i + 1) =~= wanted.take(i as int).push(wanted[i as int]));
        i = i + 1;
    }
    assert(wanted.take(count as int) =~= wanted);
    outcomes
}

/// A profile with only IPv4 switched on has exactly one outcome, and it is
/// that of the IPv4 endpoint.
pub proof fn lemma_only_ipv4(endpoints: EndpointsView, config: ConfigView, replies: Seq<HttpReplyView>)
    requires
        config.ipv4_notify,
        !config.ipv6_notify,
        replies.len() >= 1,
    ensures
        outcomes_for(planned(endpoints, config), replies).len() == 1,
        outcomes_for(planned(endpoints, config), replies)[0] == outcome_of_reply(
            endpoints.ipv4,
            replies[0],
        ),
{
}

/// A profile has as many requests as it has protocols switched on.
pub proof fn lemma_planned_count(endpoints: EndpointsView, config: ConfigView)
    ensures
        planned(endpoints, config).len() == (if config.ipv4_notify {
            1int
        } else {
            0int
        }) + (if config.ipv6_notify {
            1int
        } else {
            0int
        }),
{
}

/// The protocols are independent: the outcome of a request is decided by the
/// reply to that request, whatever came back for the others.
pub proof fn lemma_outcomes_independent(
    requests: Seq<NotifyRequestView>,
    first: Seq<HttpReplyView>,
    second: Seq<HttpReplyView>,
    i: int,
)
    requires
        0 <= i < requests.len(),
        i < first.len(),
        i < second.len(),
        first[i] == second[i],
    ensures
        outcomes_for(requests, first)[i] == outcomes_for(requests, second)[i],
{
}

/// With both protocols switched on, a failure to get a response for IPv4 and
/// a response in the success range for IPv6 give two outcomes: the failure,
/// then the success.
pub proof fn lemma_failure_then_success(
    endpoints: EndpointsView,
    config: ConfigView,
    reason: Seq<char>,
    code: u16,
)
    requires
        config.ipv4_notify,
        config.ipv6_notify,
        is_success(code),
    ensures
        outcomes_for(
            planned(endpoints, config),
            seq![HttpReplyView::Failed { reason }, HttpReplyView::Status { code }],
        ) == seq![
            OutcomeView::Failure { endpoint: endpoints.ipv4, reason },
            OutcomeView::Success { endpoint: endpoints.ipv6, status_code: code },
        ],
{
    let replies = seq![HttpReplyView::Failed { reason }, HttpReplyView::Status { code }];
    let expected = seq![
        OutcomeView::Failure { endpoint: endpoints.ipv4, reason },
        OutcomeView::Success { endpoint: endpoints.ipv6, status_code: code },
    ];
    assert(outcomes_for(planned(endpoints, config), replies) =~= expected);
}

/// The requests of one pass: those that each profile calls for, profile by
/// profile in the order of the profiles.
pub open spec fn pass_plan(endpoints: EndpointsView, configs: Seq<ConfigView>) -> Seq<NotifyRequestView>
    decreases configs.len(),
{
    if configs.len() == 0 {
        Seq::empty()
    } else {
        pass_plan(endpoints, configs.drop_last()) + planned(endpoints, configs.last())
    }
}

/// The requests of one pass over `configs`.
pub fn dispatch_pass(endpoints: &Endpoints, configs: &Vec<Config>) -> (requests: Vec<NotifyRequest>)
    ensures
        request_views(requests@) == pass_plan(endpoints@, config_views(configs@)),
{
    let ghost all = config_views(configs@);
    let mut requests: Vec<NotifyRequest> = Vec::new();
    let mut i: usize = 0;
    assert(all.take(0) =~= Seq::<ConfigView>::empty());
    assert(request_views(requests@) =~= Seq::<NotifyRequestView>::empty());
    while i < configs.len()
        invariant
            i <= configs.len(),
            all == config_views(configs@),
            request_views(requests@) == pass_plan(endpoints@, all.take(i as int)),
        decreases configs.len() - i,
    {
        let ghost before = requests@;
        let mut more = planned_requests(endpoints, &configs[i]);
        let ghost added = more@;
        requests.append(&mut more);
        proof {
            assert(all.take(i + 1).drop_last() =~= all.take(i as int));
            assert(all.take(i + 1).last() == configs@[i as int]@);
            assert(request_views(requests@) =~= request_views(before) + request_views(added));
        }
        i = i + 1;
    }
    assert(all.take(configs@.len() as int) =~= all);
    requests
}

/// A pass over no profiles makes no request, and a pass over profiles makes
/// the requests of all but the last profile before those of the last.
pub proof fn lemma_pass_order(endpoints: EndpointsView, configs: Seq<ConfigView>, last: ConfigView)
    ensures
        pass_plan(endpoints, Seq::empty()) == Seq::<NotifyRequestView>::empty(),
        pass_plan(endpoints, configs.push(last)) == pass_plan(endpoints, configs) + planned(
            endpoints,
            last,
        ),
{
    assert(configs.push(last).drop_last() =~= configs);
}

/// A profile with each protocol switched on only where it is asked for.
pub open spec fn restricted(config: ConfigView, use_ipv4: bool, use_ipv6: bool) -> ConfigView {
    ConfigView {
        ipv4_notify: use_ipv4 && config.ipv4_notify,
        ipv6_notify: use_ipv6 && config.ipv6_notify,
        ..config
    }
}

/// The profiles to notify on demand: every profile, with a protocol switched
/// on where the operator asks for it and the profile has it switched on.
/// Without profiles there is nothing to notify.
pub fn notify_now_mode(configs: &Vec<Config>, use_ipv4: bool, use_ipv6: bool) -> (plan: Option<
    Vec<Config>,
>)
    ensures
        plan is None <==> configs@.len() == 0,
        plan matches Some(chosen) ==> {
            &&& chosen@.len() == configs@.len()
            &&& forall|i: int|
                0 <= i < configs@.len() ==> #[trigger] chosen@[i]@ == restricted(
                    configs@[i]@,
                    use_ipv4,
                    use_ipv6,
                )
        },
{
    if configs.len() == 0 {
        return None;
    }
    let mut chosen: Vec<Config> = Vec::new();
    let mut i: usize = 0;
    while i < configs.len()
        invariant
            i <= configs.len(),
            chosen@.len() == i,
            forall|j: int|
                0 <= j < i ==> #[trigger] chosen@[j]@ == restricted(configs@[j]@, use_ipv4, use_ipv6),
        decreases configs.len() - i,
    {
        let mut config = configs[i].clone();
        config.ipv4_notify = use_ipv4 && config.ipv4_notify;
        config.ipv6_notify = use_ipv6 && config.ipv6_notify;
        chosen.push(config);
        i = i + 1;
    }
    Some(chosen)
}

/// The key of the text that records a failed notification.
pub open spec fn failure_key(protocol: Protocol) -> Seq<char> {
    match protocol {
        Protocol::Ipv4 => "log_ipv4_fail_fmt"@,
        Protocol::Ipv6 => "log_ipv6_fail_fmt"@,
    }
}

/// The id of a profile in square brackets, in front of what is recorded of it.
pub open spec fn tagged(id: Seq<char>, text: Seq<char>) -> Seq<char> {
    "["@ + id + "] "@ + text
}

/// The text that records a notification that succeeded: the endpoint, then
/// the status, each in its place in the English text for it.
pub open spec fn success_text(id: Seq<char>, endpoint: Seq<char>, status: Seq<char>) -> Seq<char> {
    tagged(
        id,
        replaced_first(
            replaced_first(message("log_notify_status_fmt"@, false), "{}"@, endpoint),
            "{}"@,
            status,
        ),
    )
}

/// The text that records a notification that failed.
pub open spec fn failure_text(id: Seq<char>, protocol: Protocol, reason: Seq<char>) -> Seq<char> {
    tagged(id, replaced_all(message(failure_key(protocol), false), "{}"@, reason))
}

/// The log entry for an outcome: of level `Info` for a success, of level
/// `Error` for a failure.
pub open spec fn outcome_entry(id: Seq<char>, protocol: Protocol, outcome: OutcomeView) -> LogEntryView {
    match outcome {
        OutcomeView::Success { endpoint, status_code } => LogEntryView {
            level: LogLevel::Info,
            text: success_text(id, endpoint, status_text_of(status_code)),
        },
        OutcomeView::Failure { endpoint, reason } => LogEntryView {
            level: LogLevel::Error,
            text: failure_text(id, protocol, reason),
        },
    }
}

/// The text that records a notification that succeeded; `status` is the text
/// that stands for its status.
pub fn success_line(id: &str, endpoint: &str, status: &str) -> (text: String)
    ensures
        text@ == success_text(id@, endpoint@, status@),
{
    let with_endpoint = replace_first(get_msg_en("log_notify_status_fmt"), "{}", endpoint);
    let with_status = replace_first(with_endpoint.as_str(), "{}", status);
    let mut text = "[".to_owned();
    text.append(id);
    text.append("] ");
    text.append(with_status.as_str());
    text
}

/// The text that records a notification that failed.
pub fn failure_line(id: &str, protocol: Protocol, reason: &str) -> (text: String)
    ensures
        text@ == failure_text(id@, protocol, reason@),
{
    let key = match protocol {
        Protocol::Ipv4 => "log_ipv4_fail_fmt",
        Protocol::Ipv6 => "log_ipv6_fail_fmt",
    };
    let filled = replace_all(get_msg_en(key), "{}", reason);
    let mut text = "[".to_owned();
    text.append(id);
    text.append("] ");
    text.append(filled.as_str());
    text
}

/// The log entry for the outcome of notifying the profile `id` over `protocol`.
pub fn outcome_log(id: &str, protocol: Protocol, outcome: &Outcome) -> (entry: LogEntry)
    ensures
        entry@ == outcome_entry(id@, protocol, outcome@),
{
    match outcome {
        Outcome::Success { endpoint, status_code } => {
            let status = status_text(*status_code);
            LogEntry {
                level: LogLevel::Info,
                text: success_line(id, endpoint.as_str(), status.as_str()),
            }
        },
        Outcome::Failure { endpoint, reason } => LogEntry {
            level: LogLevel::Error,
            text: failure_line(id, protocol, reason.as_str()),
        },
    }
}

/// The log entries for outcomes and the requests that they belong to, pair
/// by pair.
pub open spec fn entries_for(id: Seq<char>, requests: Seq<NotifyRequestView>, outcomes: Seq<OutcomeView>) -> Seq<
    LogEntryView,
> {
    Seq::new(
        if requests.len() <= outcomes.len() {
            requests.len()
        } else {
            outcomes.len()
        },
        |i: int| outcome_entry(id, requests[i].protocol, outcomes[i]),
    )
}

/// What goes to the log after a profile was notified: one entry for each
/// outcome, in the order of the requests.
pub fn notification_log(endpoints: &Endpoints, config: &Config, outcomes: &Vec<Outcome>) -> (log: Vec<
    LogEntry,
>)
    ensures
        entry_views(log@) == entries_for(
            config@.master_id,
            planned(endpoints@, config@),
            outcome_views(outcomes@),
        ),
{
    let requests = planned_requests(endpoints, config);
    let count: usize = if requests.len() <= outcomes.len() {
        requests.len()
    } else {
        outcomes.len()
    };
    let ghost wanted = entries_for(
        config@.master_id,
        planned(endpoints@, config@),
        outcome_views(outcomes@),
    );
    let mut log: Vec<LogEntry> = Vec::new();
    let mut i: usize = 0;
    while i < count
        invariant
            i <= count,
            count <= requests.len(),
            count <= outcomes.len(),
            wanted.len() == count,
            request_views(requests@) == planned(endpoints@, config@),
            wanted == entries_for(
                config@.master_id,
                planned(endpoints@, config@),
                outcome_views(outcomes@),
            ),
            entry_views(log@) == wanted.take(i as int),
        decreases count - i,
    {
        let entry = outcome_log(config.master_id.as_str(), requests[i].protocol, &outcomes[i]);
        let ghost before = log@;
        let ghost made = entry@;
        assert(request_views(requests@)[i as int] == requests@[i as int]@);
        assert(outcome_views(outcomes@)[i as int] == outcomes@[i as int]@);
        assert(planned(endpoints@, config@)[i as int] == requests@[i as int]@);
        assert(made == wanted[i as int]);
        log.push(entry);
        assert(entry_views(log@) =~= entry_views(before).push(made));
        assert(wanted.take(i + 1) =~= wanted.take(i as int).push(wanted[i as int]));
        i = i + 1;
    }
    assert(wanted.take(count as int) =~= wanted);
    log
}

} // verus!
