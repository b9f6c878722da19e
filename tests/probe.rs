use veko_dome::{ip_services, tor_confirmed, IpProbe, TOR_CHECK_URL};

#[test]
fn services_are_in_preference_order() {
    let s = ip_services();
    assert_eq!(s, vec![
        "https://api.ipify.org".to_string(),
        "https://checkip.amazonaws.com".to_string(),
        "https://ifconfig.me/ip".to_string(),
    ]);
    assert_eq!(TOR_CHECK_URL, "https://check.torproject.org/api/ip");
}

#[test]
fn third_service_answers_after_two_failures() {
    let mut p = IpProbe::new(ip_services());
    assert_eq!(p.next_service(), Some("https://api.ipify.org"));
    p.record(None);
    assert_eq!(p.next_service(), Some("https://checkip.amazonaws.com"));
    p.record(None);
    assert_eq!(p.next_service(), Some("https://ifconfig.me/ip"));
    p.record(Some("203.0.113.7\n".to_string()));
    assert_eq!(p.next_service(), None);
    assert_eq!(p.detected_ip(), "203.0.113.7");
}

#[test]
fn first_answer_stops_the_probe() {
    let mut p = IpProbe::new(ip_services());
    p.record(Some("  198.51.100.1 \r\n".to_string()));
    assert_eq!(p.next_service(), None);
    assert_eq!(p.detected_ip(), "198.51.100.1");
}

#[test]
fn all_failures_give_unknown() {
    let mut p = IpProbe::new(ip_services());
    while p.next_service().is_some() {
        p.record(None);
    }
    assert_eq!(p.detected_ip(), "unknown");
}

#[test]
fn tor_marker_confirms() {
    assert!(tor_confirmed(Some("{\"IsTor\":true,\"IP\":\"1.2.3.4\"}".to_string())));
    assert!(!tor_confirmed(Some("{\"IsTor\":false,\"IP\":\"1.2.3.4\"}".to_string())));
    assert!(!tor_confirmed(Some(String::new())));
    assert!(!tor_confirmed(None));
}
