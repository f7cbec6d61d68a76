//! The orchestrator: a validated configuration, the ordered set of public-IP
//! lookup mechanisms, and the synchronization state machine that sequences
//! discovery, record building and submission. The machine makes every
//! decision; the caller only performs the actions it asks for (one lookup or
//! HTTP call each) and feeds the observed result back in as the next event.

use vstd::prelude::*;
use vstd::string::*;

use crate::ip::{is_valid_for_family, valid_for_family, IpType};
use crate::vercel::{
    classify_response, classify_spec, dns_type_of, dns_type_spec, failure_message_spec,
    records_url_spec, upsert_body_spec, upsert_request, ApiFailure, ApiRequest, FailureView,
    Method, Record, RequestView,
};

verus! {

/// The validated configuration of one run, supplied by the command-line
/// collaborator: the zone, the record label, the address family, the record
/// TTL in seconds, and the bearer credential for the API.
#[derive(Debug)]
pub struct Args {
    pub domain: String,
    pub subdomain: String,
    pub ip_type: IpType,
    pub ttl: i64,
    pub token: String,
}

/// Mathematical image of `Args`.
pub struct ConfigView {
    pub domain: Seq<char>,
    pub subdomain: Seq<char>,
    pub family: IpType,
    pub ttl: int,
    pub token: Seq<char>,
}

impl View for Args {
    type V = ConfigView;

    open spec fn view(&self) -> ConfigView {
        ConfigView {
            domain: self.domain@,
            subdomain: self.subdomain@,
            family: self.ip_type,
            ttl: self.ttl as int,
            token: self.token@,
        }
    }
}

/// One independent public-IP lookup service. The same two services serve
/// both address families; the family picks the service's v4 or v6 endpoint.
#[derive(Clone, Copy, Debug, PartialEq, Eq, Structural)]
pub enum Mechanism {
    OpenDns,
    GoogleDns,
}

/// The mechanism tried at position `i` of the fallback order.
pub open spec fn mechanism_at(i: int) -> Mechanism {
    if i == 0 {
        Mechanism::OpenDns
    } else {
        Mechanism::GoogleDns
    }
}

/// The ordered fallback list of lookup mechanisms: at least two independent
/// services, tried first to last.
pub fn mechanisms() -> (r: Vec<Mechanism>)
    ensures
        r@.len() == 2,
        forall|i: int| 0 <= i < r@.len() ==> r@[i] == mechanism_at(i),
{
    let mut v: Vec<Mechanism> = Vec::new();
    v.push(Mechanism::OpenDns);
    v.push(Mechanism::GoogleDns);
    v
}

/// What one run comes to.
#[derive(Debug)]
pub enum Outcome {
    /// The record was created or updated.
    Success,
    /// No mechanism produced a valid address; the API was never contacted.
    DiscoveryFailed,
    /// The API was contacted and refused the submission.
    SubmitFailed { failure: ApiFailure },
}

/// Mathematical image of an `Outcome`.
pub enum OutcomeView {
    Success,
    DiscoveryFailed,
    SubmitFailed { failure: FailureView },
}

impl View for Outcome {
    type V = OutcomeView;

    open spec fn view(&self) -> OutcomeView {
        match self {
            Outcome::Success => OutcomeView::Success,
            Outcome::DiscoveryFailed => OutcomeView::DiscoveryFailed,
            Outcome::SubmitFailed { failure } => OutcomeView::SubmitFailed { failure: failure@ },
        }
    }
}

/// Where the machine stands.
#[derive(Debug)]
pub enum SyncState {
    /// Nothing has happened yet.
    Start,
    /// Waiting for the answer of the mechanism at position `next`.
    Resolving { next: usize },
    /// A valid address was found; waiting for the API's response.
    Submitting,
    /// Terminal: the run's single outcome.
    Done { outcome: Outcome },
}

/// Mathematical image of a `SyncState`.
pub enum StateView {
    Start,
    Resolving { next: int },
    Submitting,
    Done { outcome: OutcomeView },
}

impl View for SyncState {
    type V = StateView;

    open spec fn view(&self) -> StateView {
        match self {
            SyncState::Start => StateView::Start,
            SyncState::Resolving { next } => StateView::Resolving { next: *next as int },
            SyncState::Submitting => StateView::Submitting,
            SyncState::Done { outcome } => StateView::Done { outcome: outcome@ },
        }
    }
}

/// What the caller observed and hands back to the machine.
#[derive(Debug)]
pub enum Event {
    /// The run begins.
    Begin,
    /// A lookup mechanism answered (`None`: it failed outright).
    Answer { address: Option<String> },
    /// The API answered with this status and body.
    Response { status: u16, body: String },
}

/// Mathematical image of an `Event`.
pub enum EventView {
    Begin,
    Answer { address: Option<Seq<char>> },
    Response { status: u16, body: Seq<char> },
}

impl View for Event {
    type V = EventView;

    open spec fn view(&self) -> EventView {
        match self {
            Event::Begin => EventView::Begin,
            Event::Answer { address } => EventView::Answer {
                address: match address {
                    Some(a) => Some(a@),
                    None => None,
                },
            },
            Event::Response { status, body } => EventView::Response {
                status: *status,
                body: body@,
            },
        }
    }
}

/// What the caller must do next.
#[derive(Debug)]
pub enum Action {
    /// Ask this lookup mechanism for the public address of the configured
    /// family, and feed the answer back as an `Answer` event.
    Query { mechanism: Mechanism },
    /// Perform this API request, and feed status and body back as a
    /// `Response` event.
    Submit { request: ApiRequest },
    /// Terminal: report the outcome and stop.
    Report { outcome: Outcome },
}

/// Mathematical image of an `Action`.
pub enum ActionView {
    Query { mechanism: Mechanism },
    Submit { request: RequestView },
    Report { outcome: OutcomeView },
}

impl View for Action {
    type V = ActionView;

    open spec fn view(&self) -> ActionView {
        match self {
            Action::Query { mechanism } => ActionView::Query { mechanism: *mechanism },
            Action::Submit { request } => ActionView::Submit { request: request@ },
            Action::Report { outcome } => ActionView::Report { outcome: outcome@ },
        }
    }
}

/// A mechanism's answer counts only when it is present and syntactically a
/// valid address of the requested family.
pub open spec fn answer_accepted(address: Option<Seq<char>>, family: IpType) -> bool {
    match address {
        Some(a) => valid_for_family(a, family),
        None => false,
    }
}

/// The upsert request the machine submits once `address` was discovered:
/// the record named by the configured subdomain, valued by the address,
/// typed by the family, with the configured TTL.
pub open spec fn upsert_request_view(cfg: ConfigView, address: Seq<char>) -> RequestView {
    RequestView {
        method: Method::Post,
        url: records_url_spec(cfg.domain),
        token: cfg.token,
        body: Some(
            upsert_body_spec(cfg.subdomain, address, dns_type_spec(cfg.family), cfg.ttl as nat),
        ),
    }
}

/// The outcome once the API answered: 200 is success; anything else the
/// classified failure.
pub open spec fn submit_outcome(domain: Seq<char>, status: u16, body: Seq<char>) -> OutcomeView {
    if status == 200 {
        OutcomeView::Success
    } else {
        OutcomeView::SubmitFailed { failure: classify_spec(domain, status, body) }
    }
}

/// The events each state is waiting for.
pub open spec fn state_accepts(st: StateView, ev: EventView) -> bool {
    match (st, ev) {
        (StateView::Start, EventView::Begin) => true,
        (StateView::Resolving { .. }, EventView::Answer { .. }) => true,
        (StateView::Submitting, EventView::Response { .. }) => true,
        _ => false,
    }
}

/// The transition table of the machine. From `Start` it asks the first
/// mechanism. While resolving, the first accepted answer wins and is
/// submitted; a rejected answer moves to the next mechanism, and after the
/// last one discovery has failed and the API is never asked. Once the API
/// answered, the run is done with that response's outcome.
pub open spec fn run_spec(cfg: ConfigView, st: StateView, ev: EventView) -> (StateView, ActionView) {
    match (st, ev) {
        (StateView::Start, EventView::Begin) => (
            StateView::Resolving { next: 0 },
            ActionView::Query { mechanism: mechanism_at(0) },
        ),
        (StateView::Resolving { next }, EventView::Answer { address }) => {
            if answer_accepted(address, cfg.family) {
                (
                    StateView::Submitting,
                    ActionView::Submit { request: upsert_request_view(cfg, address->0) },
                )
            } else if next < 1 {
                (
                    StateView::Resolving { next: next + 1 },
                    ActionView::Query { mechanism: mechanism_at(next + 1) },
                )
            } else {
                (
                    StateView::Done { outcome: OutcomeView::DiscoveryFailed },
                    ActionView::Report { outcome: OutcomeView::DiscoveryFailed },
                )
            }
        },
        (StateView::Submitting, EventView::Response { status, body }) => {
            let o = submit_outcome(cfg.domain, status, body);
            (StateView::Done { outcome: o }, ActionView::Report { outcome: o })
        },
        _ => arbitrary(),
    }
}

fn response_outcome(domain: &str, status: u16, body: &str) -> (r: Outcome)
    ensures
        r@ == submit_outcome(domain@, status, body@),
{
    match classify_response(domain, status, body) {
        Ok(_) => Outcome::Success,
        Err(f) => Outcome::SubmitFailed { failure: f },
    }
}

/// Drives the run one step: from the current state and the observed event
/// to the next state and the next action, exactly as `run_spec` says.
pub fn run(config: &Args, state: SyncState, event: Event) -> (r: (SyncState, Action))
    requires
        state_accepts(state@, event@),
        config.ttl >= 0,
    ensures
        r.0@ == run_spec(config@, state@, event@).0,
        r.1@ == run_spec(config@, state@, event@).1,
{
    match (state, event) {
        (SyncState::Start, Event::Begin) => (
            SyncState::Resolving { next: 0 },
            Action::Query { mechanism: Mechanism::OpenDns },
        ),
        (SyncState::Resolving { next }, Event::Answer { address }) => {
            let accepted = match &address {
                Some(a) => is_valid_for_family(a.as_str(), &config.ip_type),
                None => false,
            };
            if accepted {
                let addr = match address {
                    Some(a) => a,
                    None => String::new(),
                };
                let record = Record::new(
                    config.subdomain.clone(),
                    addr,
                    dns_type_of(&config.ip_type),
                    config.ttl,
                );
                let request = upsert_request(
                    config.domain.as_str(),
                    config.token.as_str(),
                    &record,
                );
                (SyncState::Submitting, Action::Submit { request })
            } else if next < 1 {
                (
                    SyncState::Resolving { next: next + 1 },
                    Action::Query { mechanism: Mechanism::GoogleDns },
                )
            } else {
                (
                    SyncState::Done { outcome: Outcome::DiscoveryFailed },
                    Action::Report { outcome: Outcome::DiscoveryFailed },
                )
            }
        },
        (SyncState::Submitting, Event::Response { status, body }) => {
            let for_state = response_outcome(config.domain.as_str(), status, body.as_str());
            let for_action = response_outcome(config.domain.as_str(), status, body.as_str());
            (
                SyncState::Done { outcome: for_state },
                Action::Report { outcome: for_action },
            )
        },
        _ => {
            proof {
                assert(false);
            }
            (SyncState::Start, Action::Report { outcome: Outcome::DiscoveryFailed })
        },
    }
}

/// The single terminal line a run reports.
pub open spec fn outcome_message_spec(o: OutcomeView) -> Seq<char> {
    match o {
        OutcomeView::Success => "Record added / updated successfully."@,
        OutcomeView::DiscoveryFailed => "Unable to get public IP."@,
        OutcomeView::SubmitFailed { failure } => "Unable to add / update the record. "@
            + failure_message_spec(failure),
    }
}

/// Renders the outcome's terminal report line.
pub fn outcome_message(o: &Outcome) -> (r: String)
    ensures
        r@ == outcome_message_spec(o@),
{
    match o {
        Outcome::Success => String::from_str("Record added / updated successfully."),
        Outcome::DiscoveryFailed => String::from_str("Unable to get public IP."),
        Outcome::SubmitFailed { failure } => {
            let mut s = String::from_str("Unable to add / update the record. ");
            s.append(failure.message().as_str());
            s
        },
    }
}

/// Whether the outcome is the successful one (its report is informational,
/// a failure's is an error line).
pub fn outcome_is_success(o: &Outcome) -> (r: bool)
    ensures
        r == (o@ is Success),
{
    match o {
        Outcome::Success => true,
        _ => false,
    }
}

/// The state after the machine, started and already resolving, consumed the
/// first `k` mechanism answers.
pub open spec fn resolving_after(
    cfg: ConfigView,
    answers: Seq<Option<Seq<char>>>,
    k: int,
) -> StateView
    decreases k,
{
    if k <= 0 {
        StateView::Resolving { next: 0 }
    } else {
        run_spec(
            cfg,
            resolving_after(cfg, answers, k - 1),
            EventView::Answer { address: answers[k - 1] },
        ).0
    }
}

proof fn lemma_rejected_prefix(cfg: ConfigView, answers: Seq<Option<Seq<char>>>, k: int)
    requires
        0 <= k <= 2,
        k <= answers.len(),
        forall|j: int| 0 <= j < k ==> !answer_accepted(answers[j], cfg.family),
    ensures
        k < 2 ==> resolving_after(cfg, answers, k) == (StateView::Resolving { next: k }),
        k == 2 ==> resolving_after(cfg, answers, k) == (StateView::Done {
            outcome: OutcomeView::DiscoveryFailed,
        }),
    decreases k,
{
    if k > 0 {
        lemma_rejected_prefix(cfg, answers, k - 1);
    }
}

/// When no mechanism's answer is a valid address of the requested family,
/// the run ends in a discovery failure, and no step of it ever asks for an
/// API submission.
pub proof fn lemma_discovery_failure_never_submits(
    cfg: ConfigView,
    answers: Seq<Option<Seq<char>>>,
)
    requires
        answers.len() == 2,
        forall|j: int| 0 <= j < 2 ==> !answer_accepted(answers[j], cfg.family),
    ensures
        resolving_after(cfg, answers, 2) == (StateView::Done {
            outcome: OutcomeView::DiscoveryFailed,
        }),
        forall|k: int|
            0 <= k < 2 ==> !(run_spec(
                cfg,
                resolving_after(cfg, answers, k),
                EventView::Answer { address: answers[k] },
            ).1 is Submit),
{
    lemma_rejected_prefix(cfg, answers, 2);
    assert forall|k: int| 0 <= k < 2 implies !(run_spec(
        cfg,
        resolving_after(cfg, answers, k),
        EventView::Answer { address: answers[k] },
    ).1 is Submit) by {
        lemma_rejected_prefix(cfg, answers, k);
    }
}

/// Whenever some mechanism yields a valid address of the requested family
/// and every earlier one does not, the run submits — and what it submits
/// carries exactly that mechanism's address, syntactically valid for the
/// requested family: the first acceptable answer wins.
pub proof fn lemma_first_valid_answer_submits(
    cfg: ConfigView,
    answers: Seq<Option<Seq<char>>>,
    k: int,
)
    requires
        0 <= k < 2,
        k < answers.len(),
        forall|j: int| 0 <= j < k ==> !answer_accepted(answers[j], cfg.family),
        answer_accepted(answers[k], cfg.family),
    ensures
        run_spec(
            cfg,
            resolving_after(cfg, answers, k),
            EventView::Answer { address: answers[k] },
        ).0 == StateView::Submitting,
        run_spec(
            cfg,
            resolving_after(cfg, answers, k),
            EventView::Answer { address: answers[k] },
        ).1 == (ActionView::Submit { request: upsert_request_view(cfg, answers[k]->0) }),
        valid_for_family(answers[k]->0, cfg.family),
{
    lemma_rejected_prefix(cfg, answers, k);
}

} // verus!
