use cafe_auth::probe::{
    check_auth_url, probe_confirms, AuthProbeResult, PollStep, Poller, ProbeResponse,
};

fn redirect(r: AuthProbeResult) -> Option<String> {
    match r {
        AuthProbeResult::RedirectTo(u) => Some(u),
        AuthProbeResult::NoRedirectOrFailed => None,
    }
}

#[test]
fn found_with_location_redirects() {
    let r = check_auth_url(Some(ProbeResponse {
        status: 302,
        location: Some(String::from("http://auth.example/login")),
    }));
    assert_eq!(redirect(r), Some(String::from("http://auth.example/login")));
}

#[test]
fn ok_is_no_redirect() {
    let r = check_auth_url(Some(ProbeResponse { status: 200, location: None }));
    assert_eq!(redirect(r), None);
    let r = check_auth_url(Some(ProbeResponse {
        status: 200,
        location: Some(String::from("http://auth.example/login")),
    }));
    assert_eq!(redirect(r), None);
}

#[test]
fn found_without_location_is_no_redirect() {
    let r = check_auth_url(Some(ProbeResponse { status: 302, location: None }));
    assert_eq!(redirect(r), None);
}

#[test]
fn other_redirect_status_is_no_redirect() {
    let r = check_auth_url(Some(ProbeResponse {
        status: 301,
        location: Some(String::from("http://auth.example/login")),
    }));
    assert_eq!(redirect(r), None);
}

#[test]
fn failed_probe_is_no_redirect() {
    assert_eq!(redirect(check_auth_url(None)), None);
}

#[test]
fn only_ok_confirms_connectivity() {
    assert!(probe_confirms(Some(200)));
    assert!(!probe_confirms(Some(302)));
    assert!(!probe_confirms(Some(204)));
    assert!(!probe_confirms(None));
}

#[test]
fn queued_requests_give_one_probe_each() {
    let mut p = Poller::new();
    let n = 5;
    let mut probes = 0;
    for _ in 0..n {
        if p.on_message(Some(true)) == PollStep::Probe {
            probes += 1;
        }
    }
    assert_eq!(probes, n);
    assert_eq!(p.on_message(None), PollStep::Stop);
    assert!(!p.running);
    assert_eq!(p.on_message(Some(true)), PollStep::Stop);
}

#[test]
fn false_request_neither_probes_nor_stops() {
    let mut p = Poller::new();
    assert_eq!(p.on_message(Some(false)), PollStep::Skip);
    assert!(p.running);
    assert_eq!(p.on_message(Some(true)), PollStep::Probe);
    assert_eq!(p.on_message(None), PollStep::Stop);
    assert!(!p.running);
}
