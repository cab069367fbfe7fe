use ddns_updater::config::Config;
use ddns_updater::driver::{start, step, Action, DriverState, Event, Report, POLL_INTERVAL_SECS};
use ddns_updater::request::UpdateRequest;
use ddns_updater::response::{ProviderResponse, TransportError, UpdateOutcome};

fn cfg() -> Config {
    Config {
        api_key: "key-abc".to_string(),
        zone_id: "zone-1".to_string(),
        record_id: "rec-9".to_string(),
        domain_name: "home.example.com".to_string(),
    }
}

fn refused() -> ProviderResponse {
    ProviderResponse { success: false, errors: vec!["bad token".to_string()], messages: vec![], result: None }
}

fn sent(a: &Action) -> &UpdateRequest {
    match a {
        Action::SendUpdate(r) => r,
        _ => panic!("expected an update"),
    }
}

#[test]
fn loop_starts_with_lookup() {
    let s = start();
    assert!(matches!(s.state, DriverState::Resolving));
    assert!(matches!(s.action, Action::FetchIp));
    assert!(s.report.is_none());
}

#[test]
fn resolved_ip_sends_update() {
    let c = cfg();
    let s = step(&c, DriverState::Resolving, Event::IpResolved("203.0.113.7".to_string()));
    let req = sent(&s.action);
    assert_eq!(req.url, "https://api.cloudflare.com/client/v4/zones/zone-1/dns_records/rec-9");
    assert_eq!(req.authorization, "Bearer key-abc");
    assert_eq!(req.body.content, "203.0.113.7");
    assert_eq!(req.body.name, "home.example.com");
    assert!(matches!(s.state, DriverState::Updating(_)));
    match s.report {
        Some(Report::RecordPrepared(r)) => assert_eq!(r.content, "203.0.113.7"),
        _ => panic!("expected the prepared record"),
    }
}

#[test]
fn lookup_failure_skips_update() {
    let c = cfg();
    let e = TransportError { message: "network unreachable".to_string() };
    let s = step(&c, DriverState::Resolving, Event::IpLookupFailed(e));
    assert!(matches!(s.state, DriverState::Sleeping));
    assert!(matches!(s.action, Action::Sleep(300)));
    match s.report {
        Some(Report::IpLookupFailed(e)) => assert_eq!(e.message, "network unreachable"),
        _ => panic!("expected the lookup failure"),
    }
}

#[test]
fn refusal_still_sleeps() {
    let c = cfg();
    let first = step(&c, DriverState::Resolving, Event::IpResolved("203.0.113.7".to_string()));
    let s = step(&c, first.state, Event::UpdateAnswered(Ok(refused())));
    assert!(matches!(s.state, DriverState::Sleeping));
    assert!(matches!(s.action, Action::Sleep(POLL_INTERVAL_SECS)));
    match s.report {
        Some(Report::UpdateSettled(UpdateOutcome::Rejected(errs))) => assert_eq!(errs, vec!["bad token".to_string()]),
        _ => panic!("expected the refusal"),
    }
}

#[test]
fn transport_failure_on_update_still_sleeps() {
    let c = cfg();
    let first = step(&c, DriverState::Resolving, Event::IpResolved("203.0.113.7".to_string()));
    let e = TransportError { message: "timed out".to_string() };
    let s = step(&c, first.state, Event::UpdateAnswered(Err(e)));
    assert!(matches!(s.action, Action::Sleep(300)));
    assert!(matches!(s.report, Some(Report::UpdateFailed(_))));
}

#[test]
fn repoll_sends_identical_request() {
    let c = cfg();
    let a = step(&c, DriverState::Resolving, Event::IpResolved("203.0.113.7".to_string()));
    let ok = ProviderResponse { success: true, errors: vec![], messages: vec![], result: None };
    let b = step(&c, a.state, Event::UpdateAnswered(Ok(ok)));
    let w = step(&c, b.state, Event::Woke);
    assert!(matches!(w.action, Action::FetchIp));
    let d = step(&c, w.state, Event::IpResolved("203.0.113.7".to_string()));
    let (r1, r2) = (sent(&a.action), sent(&d.action));
    assert_eq!(r1.url, r2.url);
    assert_eq!(r1.authorization, r2.authorization);
    assert_eq!(r1.content_type, r2.content_type);
    assert_eq!(r1.body.record_type, r2.body.record_type);
    assert_eq!(r1.body.name, r2.body.name);
    assert_eq!(r1.body.content, r2.body.content);
    assert_eq!(r1.body.ttl, r2.body.ttl);
    assert_eq!(r1.body.proxied, r2.body.proxied);
}

#[test]
fn unexpected_event_repeats_pending_action() {
    let c = cfg();
    let s = step(&c, DriverState::Sleeping, Event::IpResolved("1.2.3.4".to_string()));
    assert!(matches!(s.state, DriverState::Sleeping));
    assert!(matches!(s.action, Action::Sleep(300)));
    assert!(s.report.is_none());
    let s = step(&c, DriverState::Resolving, Event::Woke);
    assert!(matches!(s.action, Action::FetchIp));
}
