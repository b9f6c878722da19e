use veko_dome::{resolve_settings, FileConfig, ProfileKind, SecurityProfile, StartOptions};
use veko_dome::{decimal_string, ip_status, proxy_status, tor_status};

#[test]
fn mode_name_is_case_insensitive() {
    let p = SecurityProfile::new("PARANOID");
    assert_eq!(p.kind(), ProfileKind::Paranoid);
    assert_eq!(p.mode(), "paranoid");
    assert_eq!(p.headers().len(), 3);
    assert_eq!(p.tls_settings().cipher_suites.len(), 3);
}

#[test]
fn unknown_and_custom_modes_are_stealth() {
    assert_eq!(SecurityProfile::new("custom").mode(), "stealth");
    assert_eq!(SecurityProfile::new("whatever").mode(), "stealth");
    assert_eq!(SecurityProfile::new("Basic").mode(), "basic");
    assert!(SecurityProfile::new("basic").headers().is_empty());
}

#[test]
fn random_user_agent_comes_from_the_profile() {
    let p = SecurityProfile::new("stealth");
    for _ in 0..20 {
        let ua = p.random_user_agent();
        assert!(ua.contains("Chrome/118") || ua.contains("Version/17.1"));
    }
}

fn no_options() -> StartOptions {
    StartOptions { mode: None, proxy: None, tor: false, doh: false, check: false, rotate: None, no_log: false }
}

#[test]
fn defaults_apply_without_options() {
    let s = resolve_settings(no_options(), None);
    assert_eq!(s.mode, "stealth");
    assert_eq!(s.proxy, None);
    assert!(!s.tor && !s.doh && !s.check);
    assert_eq!(s.rotate_secs, 30);
    assert!(s.logging);
}

#[test]
fn command_line_overrides_file() {
    let mut cli = no_options();
    cli.mode = Some("basic".to_string());
    cli.rotate = Some(5);
    let file = FileConfig {
        mode: Some("paranoid".to_string()),
        proxy: Some("list.txt".to_string()),
        tor: Some(true),
        doh: Some(false),
        rotate: Some(60),
        no_log: Some(true),
    };
    let s = resolve_settings(cli, Some(file));
    assert_eq!(s.mode, "basic");
    assert_eq!(s.proxy, Some("list.txt".to_string()));
    assert!(s.tor);
    assert!(!s.doh);
    assert_eq!(s.rotate_secs, 5);
    assert!(!s.logging);
}

#[test]
fn status_lines() {
    assert_eq!(decimal_string(0), "0");
    assert_eq!(decimal_string(30), "30");
    assert_eq!(decimal_string(18446744073709551615), "18446744073709551615");
    assert_eq!(proxy_status(Some("socks5://a:1080"), 30), "Using proxy: socks5://a:1080 (Rotation: 30s)");
    assert_eq!(proxy_status(None, 30), "Direct connection");
    assert_eq!(tor_status(false, true), "Tor not enabled");
    assert_eq!(tor_status(true, true), "Connected via Tor");
    assert_eq!(tor_status(true, false), "Tor connection failed");
    assert_eq!(ip_status("unknown"), "Public IP: unknown");
}
