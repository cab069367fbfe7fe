use vstd::prelude::*;
use crate::config::Config;
use crate::record::{build_record, desired_record, DnsRecord};
use crate::request::{build_update_request, update_request, UpdateRequest, UpdateRequestView};
use crate::response::{outcome_of, settle_update, ProviderResponse, TransportError, UpdateOutcome};

verus! {

/// Seconds to wait between two polls.
pub const POLL_INTERVAL_SECS: u64 = 300;

/// Where the polling loop stands. Nothing is remembered from one round to
/// the next: every round looks the address up and writes the record anew.
pub enum DriverState {
    /// Waiting for the public address.
    Resolving,
    /// Waiting for the provider's answer to this request.
    Updating(UpdateRequest),
    /// Waiting for the poll interval to pass.
    Sleeping,
}

/// What the loop's runner observed after carrying out an action.
pub enum Event {
    /// The public address was looked up.
    IpResolved(String),
    /// The address lookup failed.
    IpLookupFailed(TransportError),
    /// The update exchange ended, with the provider's answer or a transport failure.
    UpdateAnswered(Result<ProviderResponse, TransportError>),
    /// The poll interval has passed.
    Woke,
}

/// What the loop's runner must do next.
pub enum Action {
    /// Look up the public address.
    FetchIp,
    /// Send this update request.
    SendUpdate(UpdateRequest),
    /// Wait this many seconds.
    Sleep(u64),
}

/// A line of progress for the operator.
pub enum Report {
    /// The record about to be written.
    RecordPrepared(DnsRecord),
    /// The address lookup failed; this round writes nothing.
    IpLookupFailed(TransportError),
    /// The provider answered the update.
    UpdateSettled(UpdateOutcome),
    /// The update exchange failed.
    UpdateFailed(TransportError),
}

/// One move of the loop: the new state, the action that state waits on,
/// and what to tell the operator.
pub struct Step {
    pub state: DriverState,
    pub action: Action,
    pub report: Option<Report>,
}

/// Mathematical model of a [`DriverState`].
pub enum DriverStateView {
    Resolving,
    Updating(UpdateRequestView),
    Sleeping,
}

/// Mathematical model of an [`Action`].
pub enum ActionView {
    FetchIp,
    SendUpdate(UpdateRequestView),
    Sleep(u64),
}

impl View for DriverState {
    type V = DriverStateView;

    open spec fn view(&self) -> DriverStateView {
        match self {
            DriverState::Resolving => DriverStateView::Resolving,
            DriverState::Updating(req) => DriverStateView::Updating(req@),
            DriverState::Sleeping => DriverStateView::Sleeping,
        }
    }
}

impl View for Action {
    type V = ActionView;

    open spec fn view(&self) -> ActionView {
        match self {
            Action::FetchIp => ActionView::FetchIp,
            Action::SendUpdate(req) => ActionView::SendUpdate(req@),
            Action::Sleep(secs) => ActionView::Sleep(*secs),
        }
    }
}

/// The request that points the configured record at `ip`.
pub open spec fn request_for(cfg: Config, ip: Seq<char>) -> UpdateRequestView {
    update_request(cfg.zone_id@, cfg.record_id@, desired_record(ip, cfg.domain_name@), cfg.api_key@)
}

/// The state after `event` in state `s`. An event that does not answer what
/// `s` waits on leaves `s` as it is.
pub open spec fn next_state(cfg: Config, s: DriverStateView, event: Event) -> DriverStateView {
    match (s, event) {
        (DriverStateView::Resolving, Event::IpResolved(ip)) => DriverStateView::Updating(request_for(cfg, ip@)),
        (DriverStateView::Resolving, Event::IpLookupFailed(_)) => DriverStateView::Sleeping,
        (DriverStateView::Updating(_), Event::UpdateAnswered(_)) => DriverStateView::Sleeping,
        (DriverStateView::Sleeping, Event::Woke) => DriverStateView::Resolving,
        _ => s,
    }
}

/// The action that state `s` waits on.
pub open spec fn action_for(s: DriverStateView) -> ActionView {
    match s {
        DriverStateView::Resolving => ActionView::FetchIp,
        DriverStateView::Updating(req) => ActionView::SendUpdate(req),
        DriverStateView::Sleeping => ActionView::Sleep(POLL_INTERVAL_SECS),
    }
}

/// Whether `report` is what `event` in state `s` tells the operator.
pub open spec fn reported(cfg: Config, s: DriverStateView, event: Event, report: Option<Report>) -> bool {
    match (s, event) {
        (DriverStateView::Resolving, Event::IpResolved(ip)) => report matches Some(
            Report::RecordPrepared(rec),
        ) && rec@ == desired_record(ip@, cfg.domain_name@),
        (DriverStateView::Resolving, Event::IpLookupFailed(e)) => report == Some(Report::IpLookupFailed(e)),
        (DriverStateView::Updating(_), Event::UpdateAnswered(Ok(response))) => report == Some(
            Report::UpdateSettled(outcome_of(response)),
        ),
        (DriverStateView::Updating(_), Event::UpdateAnswered(Err(e))) => report == Some(Report::UpdateFailed(e)),
        _ => report is None,
    }
}

impl DriverState {
    /// The action this state waits on.
    pub fn pending_action(&self) -> (r: Action)
        ensures
            r@ == action_for(self@),
    {
        match self {
            DriverState::Resolving => Action::FetchIp,
            DriverState::Updating(req) => Action::SendUpdate(req.duplicate()),
            DriverState::Sleeping => Action::Sleep(POLL_INTERVAL_SECS),
        }
    }
}

/// The loop's first move: look the address up.
pub fn start() -> (r: Step)
    ensures
        r.state@ == DriverStateView::Resolving,
        r.action@ == ActionView::FetchIp,
        r.report is None,
{
    Step { state: DriverState::Resolving, action: Action::FetchIp, report: None }
}

/// Decides the loop's next move after `event` in `state`.
pub fn step(cfg: &Config, state: DriverState, event: Event) -> (r: Step)
    ensures
        r.state@ == next_state(*cfg, state@, event),
        r.action@ == action_for(r.state@),
        reported(*cfg, state@, event, r.report),
{
    match (state, event) {
        (DriverState::Resolving, Event::IpResolved(ip)) => {
            let record = build_record(ip.as_str(), cfg.domain_name.as_str());
            let shown = record.duplicate();
            let request = build_update_request(
                cfg.zone_id.as_str(),
                cfg.record_id.as_str(),
                record,
                cfg.api_key.as_str(),
            );
            let action = Action::SendUpdate(request.duplicate());
            Step { state: DriverState::Updating(request), action, report: Some(Report::RecordPrepared(shown)) }
        },
        (DriverState::Resolving, Event::IpLookupFailed(e)) => {
            Step {
                state: DriverState::Sleeping,
                action: Action::Sleep(POLL_INTERVAL_SECS),
                report: Some(Report::IpLookupFailed(e)),
            }
        },
        (DriverState::Updating(_), Event::UpdateAnswered(reply)) => {
            let report = match settle_update(reply) {
                Ok(outcome) => Report::UpdateSettled(outcome),
                Err(e) => Report::UpdateFailed(e),
            };
            Step { state: DriverState::Sleeping, action: Action::Sleep(POLL_INTERVAL_SECS), report: Some(report) }
        },
        (DriverState::Sleeping, Event::Woke) => {
            Step { state: DriverState::Resolving, action: Action::FetchIp, report: None }
        },
        (state, _) => {
            let action = state.pending_action();
            Step { state, action, report: None }
        },
    }
}

/// A failed address lookup issues no update: the round ends in the wait
/// before the next poll.
pub proof fn lemma_lookup_failure_skips_update(cfg: Config, e: TransportError)
    ensures
        next_state(cfg, DriverStateView::Resolving, Event::IpLookupFailed(e)) == DriverStateView::Sleeping,
        action_for(next_state(cfg, DriverStateView::Resolving, Event::IpLookupFailed(e)))
            == ActionView::Sleep(POLL_INTERVAL_SECS),
{
}

/// An update that the provider refuses does not stop the loop: it waits,
/// then looks the address up again, as after an accepted update.
pub proof fn lemma_refusal_keeps_polling(cfg: Config, req: UpdateRequestView, response: ProviderResponse)
    requires
        !response.success,
    ensures
        next_state(cfg, DriverStateView::Updating(req), Event::UpdateAnswered(Ok(response)))
            == DriverStateView::Sleeping,
        next_state(cfg, DriverStateView::Sleeping, Event::Woke) == DriverStateView::Resolving,
{
}

/// Two rounds that find the same address send the same update request: a
/// round whatever its answer, and the wait after it, leave nothing behind
/// that would suppress or change the second write.
pub proof fn lemma_repoll_repeats_request(cfg: Config, ip1: String, answer: Event, ip2: String)
    requires
        ip1@ == ip2@,
        answer is UpdateAnswered,
    ensures
        ({
            let s1 = next_state(cfg, DriverStateView::Resolving, Event::IpResolved(ip1));
            let s2 = next_state(cfg, s1, answer);
            let s3 = next_state(cfg, s2, Event::Woke);
            let s4 = next_state(cfg, s3, Event::IpResolved(ip2));
            &&& s3 == DriverStateView::Resolving
            &&& action_for(s1) == ActionView::SendUpdate(request_for(cfg, ip1@))
            &&& action_for(s4) == action_for(s1)
        }),
{
}

} // verus!
