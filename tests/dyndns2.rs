use ddcrust::dyndns2::status_is_success;
use ddcrust::{CycleOutcome, Dyndns2, PollAction, PollLoop, PollState};

fn host1() -> Dyndns2 {
    Dyndns2 {
        server: "dyn.example.com".to_string(),
        login: "user".to_string(),
        password: "pw".to_string(),
        identifier: "host1".to_string(),
    }
}

#[test]
fn params_name_present_families_and_hostname() {
    let p = host1().update_params(Some("1.2.3.4".to_string()), None);
    assert_eq!(
        p,
        vec![
            ("myip".to_string(), "1.2.3.4".to_string()),
            ("hostname".to_string(), "host1".to_string())
        ]
    );
    let p = host1().update_params(Some("1.2.3.4".to_string()), Some("2001:db8::1".to_string()));
    assert_eq!(p.len(), 3);
    assert_eq!(p[1], ("myipv6".to_string(), "2001:db8::1".to_string()));
    let p = host1().update_params(None, None);
    assert_eq!(p, vec![("hostname".to_string(), "host1".to_string())]);
}

#[test]
fn update_url_encodes_query() {
    let u = host1().update_url(Some("1.2.3.4".to_string()), None);
    assert_eq!(
        u,
        Some("https://dyn.example.com/nic/update?myip=1.2.3.4&hostname=host1".to_string())
    );
    let u = host1().update_url(None, Some("2001:db8::1".to_string()));
    assert_eq!(
        u,
        Some("https://dyn.example.com/nic/update?myipv6=2001%3Adb8%3A%3A1&hostname=host1".to_string())
    );
}

#[test]
fn update_url_rejects_bad_server() {
    let mut s = host1();
    s.server = "bad host:99999".to_string();
    assert_eq!(s.update_url(None, None), None);
}

#[test]
fn status_success_is_2xx() {
    assert!(status_is_success(200));
    assert!(status_is_success(299));
    assert!(!status_is_success(300));
    assert!(!status_is_success(199));
    assert!(!status_is_success(401));
}

#[test]
fn one_shot_loop_stops_after_one_cycle() {
    let mut l = PollLoop::new(true, 300);
    assert!(l.is_polling());
    assert_eq!(l.after_cycle(CycleOutcome::Completed), PollAction::Stop);
    assert_eq!(l.state, PollState::Stopped);
    assert!(!l.is_polling());
    let mut l = PollLoop::new(true, 300);
    assert_eq!(l.after_cycle(CycleOutcome::ResolutionFailed), PollAction::Fail);
}

#[test]
fn continuous_loop_sleeps_interval() {
    let mut l = PollLoop::new(false, 300);
    assert_eq!(l.after_cycle(CycleOutcome::Completed), PollAction::Sleep(300));
    assert_eq!(l.after_cycle(CycleOutcome::ServiceFailed), PollAction::Sleep(300));
    assert!(l.is_polling());
}
