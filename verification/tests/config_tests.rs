use bmctl::config::{
    apply_settings, check_loaded, default_timeout, needs_password, normalize_host,
    password_prompt, saved_lines, show_lines, Config, ConfigError,
};

fn cfg(host: &str, password: &str) -> Config {
    Config {
        host: host.to_string(),
        user: "admin".to_string(),
        password: password.to_string(),
        verify_tls: false,
        timeout_secs: 15,
    }
}

#[test]
fn default_config() {
    let c = Config::default();
    assert_eq!(c.host, "");
    assert_eq!(c.user, "admin");
    assert_eq!(c.password, "");
    assert!(!c.verify_tls);
    assert_eq!(c.timeout_secs, 15);
    assert_eq!(default_timeout(), 15);
}

#[test]
fn a_file_without_host_is_refused() {
    match check_loaded(cfg("", "x")) {
        Err(e) => assert_eq!(e.message(), "no host configured. Run `bmctl config set --host <ip>`."),
        Ok(_) => panic!("accepted a config without host"),
    }
    assert_eq!(check_loaded(cfg("10.0.0.2", "x")).unwrap().host, "10.0.0.2");
}

#[test]
fn error_messages_name_the_file() {
    let m = ConfigError::Missing { path: "/home/a/.config/bmctl/config.toml".into() }.message();
    assert_eq!(
        m,
        "no configuration at /home/a/.config/bmctl/config.toml\n\nRun `bmctl config set --host <ip>` first."
    );
    let i = ConfigError::Invalid { path: "/x.toml".into() }.message();
    assert_eq!(i, "/x.toml is not valid TOML");
}

#[test]
fn pasted_urls_become_hosts() {
    assert_eq!(normalize_host("https://192.168.1.135/"), "192.168.1.135");
    assert_eq!(normalize_host("http://bmc.lan//"), "bmc.lan");
    assert_eq!(normalize_host("192.168.1.135"), "192.168.1.135");
}

#[test]
fn set_replaces_only_what_is_given() {
    let c = apply_settings(cfg("old", "pw"), Some("https://new/".into()), None, Some(true));
    assert_eq!(c.host, "new");
    assert_eq!(c.user, "admin");
    assert_eq!(c.password, "pw");
    assert!(c.verify_tls);
    let d = apply_settings(cfg("old", "pw"), None, Some("root".into()), None);
    assert_eq!(d.host, "old");
    assert_eq!(d.user, "root");
    assert!(!d.verify_tls);
}

#[test]
fn password_is_asked_when_missing_or_requested() {
    assert!(needs_password(false, &cfg("h", "")));
    assert!(needs_password(true, &cfg("h", "pw")));
    assert!(!needs_password(false, &cfg("h", "pw")));
    assert_eq!(password_prompt(&cfg("10.0.0.1", "")), "Password for admin@10.0.0.1: ");
}

#[test]
fn show_masks_the_password() {
    let lines = show_lines(&cfg("10.0.0.1", "s3cret"), "/c.toml");
    assert_eq!(
        lines,
        vec![
            "  host       10.0.0.1",
            "  user       admin",
            "  password   ********",
            "  verify_tls false",
            "  timeout    15 s",
            "  file       /c.toml",
        ]
    );
    assert!(lines.iter().all(|l| !l.contains("s3cret")));
    let empty = show_lines(&cfg("h", ""), "/c.toml");
    assert_eq!(empty[2], "  password   (not set)");
}

#[test]
fn saved_message() {
    assert_eq!(
        saved_lines("/c.toml"),
        vec!["Saved to /c.toml", "Check it with `bmctl config test`."]
    );
}
