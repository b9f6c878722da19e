use veko_dome::{ProxySource, RelayLaunch, Session, SessionPhase, StartupError, TorManager};

#[test]
fn stop_twice_is_harmless() {
    let mut m = TorManager::start(42u32);
    assert!(m.is_running());
    assert_eq!(m.stop(), Some(42));
    assert!(!m.is_running());
    assert_eq!(m.stop(), None);
    assert!(!m.is_running());
}

#[test]
fn idle_supervisor_stops_nothing() {
    let mut m: TorManager<u32> = TorManager::idle();
    assert!(!m.is_running());
    assert_eq!(m.stop(), None);
}

#[test]
fn empty_pool_means_direct_mode() {
    let s: Session<u32> = match Session::start(RelayLaunch::NotRequested, ProxySource::Absent, 30, 0) {
        Ok(s) => s,
        Err(_) => panic!("start failed"),
    };
    assert_eq!(s.phase(), SessionPhase::Running);
    assert!(!s.rotation_enabled());
    assert!(s.rotation().is_none());
    assert_eq!(s.current_proxy(), None);
}

#[test]
fn blank_proxy_file_means_direct_mode() {
    let text = "\n   \n\t\n".to_string();
    let s: Session<u32> = match Session::start(RelayLaunch::NotRequested, ProxySource::Text(text), 30, 0) {
        Ok(s) => s,
        Err(_) => panic!("start failed"),
    };
    assert!(!s.rotation_enabled());
}

#[test]
fn proxy_file_enables_rotation() {
    let text = "socks5://a:1080\n\n  socks5://b:1080  \n".to_string();
    let s: Session<u32> = match Session::start(RelayLaunch::Started(7), ProxySource::Text(text), 10, 0) {
        Ok(s) => s,
        Err(_) => panic!("start failed"),
    };
    assert!(s.rotation_enabled());
    assert_eq!(s.current_proxy(), Some("socks5://a:1080".to_string()));
    let r = s.rotation().unwrap();
    assert_eq!(r.tick(10_000), Some("socks5://b:1080".to_string()));
    assert_eq!(s.current_proxy(), Some("socks5://b:1080".to_string()));
}

#[test]
fn relay_launch_failure_is_fatal() {
    let r: Result<Session<u32>, _> =
        Session::start(RelayLaunch::Failed, ProxySource::Text("a:1\n".to_string()), 10, 0);
    match r {
        Err(f) => {
            assert_eq!(f.error, StartupError::RelaySpawnFailed);
            assert_eq!(f.relay, None);
        }
        Ok(_) => panic!("a failed relay launch must abort the start"),
    }
}

#[test]
fn unreadable_proxy_file_hands_back_the_relay() {
    let r: Result<Session<u32>, _> = Session::start(RelayLaunch::Started(9), ProxySource::Unreadable, 10, 0);
    match r {
        Err(f) => {
            assert_eq!(f.error, StartupError::ProxyFileUnreadable);
            assert_eq!(f.relay, Some(9));
        }
        Ok(_) => panic!("an unreadable proxy file must abort the start"),
    }
}

#[test]
fn shutdown_runs_once_in_order() {
    let mut s: Session<u32> = match Session::start(RelayLaunch::Started(3), ProxySource::Absent, 10, 0) {
        Ok(s) => s,
        Err(_) => panic!("start failed"),
    };
    assert!(s.observe(false));
    assert_eq!(s.phase(), SessionPhase::Running);
    assert!(!s.observe(true));
    assert_eq!(s.phase(), SessionPhase::ShuttingDown);
    assert!(!s.observe(false));
    assert_eq!(s.phase(), SessionPhase::ShuttingDown);
    assert_eq!(s.finish(), Some(3));
    assert_eq!(s.phase(), SessionPhase::Terminated);
    assert!(!s.observe(true));
    assert_eq!(s.phase(), SessionPhase::Terminated);
}
