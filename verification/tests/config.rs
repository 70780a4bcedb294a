use waitlist::config::{
    listen_port, log_filter, static_dir, DEFAULT_LOG_FILTER, DEFAULT_PORT, DEFAULT_STATIC_DIR,
    JOIN_WAITLIST_PATH,
};
use waitlist::text::parse_u16;

#[test]
fn port_defaults_to_3000() {
    assert_eq!(listen_port(None), Some(3000));
    assert_eq!(DEFAULT_PORT, 3000);
}

#[test]
fn configured_port_is_read_as_a_number() {
    assert_eq!(listen_port(Some("8080")), Some(8080));
    assert_eq!(listen_port(Some("0")), Some(0));
    assert_eq!(listen_port(Some("65535")), Some(65535));
    assert_eq!(listen_port(Some("+80")), Some(80));
}

#[test]
fn configured_port_that_is_no_port_gives_none() {
    assert_eq!(listen_port(Some("")), None);
    assert_eq!(listen_port(Some("65536")), None);
    assert_eq!(listen_port(Some("-1")), None);
    assert_eq!(listen_port(Some("-0")), None);
    assert_eq!(listen_port(Some("http")), None);
    assert_eq!(listen_port(Some("80 ")), None);
}

#[test]
fn parse_u16_agrees_with_the_standard_parser() {
    let samples = [
        "", "0", "1", "+1", "-1", "-0", "+", "-", "65535", "65536", "065535", "00000000000000000080",
        "99999999999999999999999", "8o", " 80", "80\n", "+-1", "3000",
    ];
    for sample in samples {
        assert_eq!(parse_u16(sample), sample.parse::<u16>().ok(), "on {:?}", sample);
    }
}

#[test]
fn static_dir_and_log_filter_fall_back_to_their_defaults() {
    assert_eq!(static_dir(None), "../dist");
    assert_eq!(static_dir(Some("/srv/site")), "/srv/site");
    assert_eq!(static_dir(Some("")), "");
    assert_eq!(log_filter(None), "server=debug,tower_http=debug");
    assert_eq!(log_filter(Some("info")), "info");
    assert_eq!(DEFAULT_STATIC_DIR, "../dist");
    assert_eq!(DEFAULT_LOG_FILTER, "server=debug,tower_http=debug");
}

#[test]
fn submissions_go_to_the_join_path() {
    assert_eq!(JOIN_WAITLIST_PATH, "/api/join-waitlist");
}
