use vps_monitor::config::{
    cookie_secure, security_headers, DEFAULT_DATABASE_URL, LISTEN_ADDR,
};

#[test]
fn secure_cookies_are_off_unless_asked_for() {
    for on in ["1", "true", "TRUE", "True"] {
        assert!(cookie_secure(&Some(on.to_string())));
    }
    for off in ["", "0", "false", "yes", "11", " true"] {
        assert!(!cookie_secure(&Some(off.to_string())));
    }
    assert!(!cookie_secure(&None));
}

#[test]
fn every_answer_carries_the_security_headers() {
    assert_eq!(
        security_headers(),
        vec![
            ("x-content-type-options", "nosniff"),
            ("x-frame-options", "DENY"),
            (
                "content-security-policy",
                "default-src 'self'; script-src 'self' 'unsafe-inline' https://cdn.tailwindcss.com; \
                 style-src 'self' 'unsafe-inline' https://cdnjs.cloudflare.com; \
                 font-src https://cdnjs.cloudflare.com; img-src 'self' data:; connect-src 'self'",
            ),
        ]
    );
}

#[test]
fn defaults() {
    assert_eq!(DEFAULT_DATABASE_URL, "sqlite:data/monitor.db");
    assert_eq!(LISTEN_ADDR, "0.0.0.0:8080");
}
