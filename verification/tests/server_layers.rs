use elo::args::{db_path, Level, Verbosity};
use elo::handler::access;
use elo::server::layer::auth::{header_to_str, Admission, Auth, Middleware, Refusal};
use elo::server::layer::logger::{get_length, get_status_tuple, log_level, parse_usize, Future};
use elo::server::layer::logger;

#[test]
fn numbers_parse_as_std_does() {
    for text in ["0", "27", "+27", "0027", "", "+", "-1", " 1", "1 ", "1a", "18446744073709551615", "18446744073709551616", "99999999999999999999999"] {
        assert_eq!(parse_usize(text.as_bytes()), text.parse::<usize>().ok(), "{text:?}");
    }
}

#[test]
fn content_lengths() {
    assert_eq!(get_length(None), None);
    assert_eq!(get_length(Some(b"27")), Some(27));
    assert_eq!(get_length(Some(b"0")), None);
    assert_eq!(get_length(Some(b"x")), None);
    assert_eq!(get_length(Some(b"2\x007")), None);
}

#[test]
fn header_text() {
    assert_eq!(header_to_str(b"tester@email.com"), Some(String::from("tester@email.com")));
    assert_eq!(header_to_str(b"a\tb"), Some(String::from("a\tb")));
    assert_eq!(header_to_str(b"\xff"), None);
    assert_eq!(header_to_str(b"a\nb"), None);
}

#[test]
fn status_tuples() {
    assert_eq!(get_status_tuple(404), (404, " ", "Not Found"));
    assert_eq!(get_status_tuple(200), (200, " ", "OK"));
    assert_eq!(get_status_tuple(599), (599, "", ""));
    assert_eq!(log_level(101), Level::Debug);
    assert_eq!(log_level(399), Level::Debug);
    assert_eq!(log_level(400), Level::Warn);
    assert_eq!(log_level(499), Level::Warn);
    assert_eq!(log_level(500), Level::Error);
}

#[test]
fn request_records() {
    let f = Future::new(String::from("GET"), String::from("/ws/text"), Some(b"a@b.c"), Some(b"12"), ());
    assert_eq!(f.user, Some(String::from("a@b.c")));
    assert_eq!(f.length, Some(12));
    let f = Future::new(String::from("GET"), String::from("/"), None, Some(b"0"), ());
    assert_eq!(f.user, None);
    assert_eq!(f.length, None);
    let mw = logger::Logger.layer(5u8);
    let _ = mw;
    let _ = elo::server::layer::logger();
}

#[test]
fn auth_layer() {
    let auth = Auth::new(access::Auth::new());
    assert_eq!(auth.user(None), Err(Refusal::MissingHeader));
    assert_eq!(auth.user(Some(b"\x01")), Err(Refusal::UnreadableHeader));
    assert_eq!(auth.user(Some(b"a@b.c")), Ok(String::from("a@b.c")));
    assert!(matches!(auth.decide::<()>(Ok(None)), Admission::Forbid(Refusal::Unauthorized)));
    assert!(matches!(auth.decide(Err(())), Admission::Forbid(Refusal::ProviderFailed)));
    let user = access::UserAccess::Pending(access::User::new(1, String::new(), String::new()));
    assert!(matches!(auth.decide::<()>(Ok(Some(user))), Admission::Admit(access::UserAccess::Pending(_))));
}

#[test]
fn middleware_readiness() {
    let mut m = Middleware::new(Auth::new(access::Auth::new()), 7u32);
    m.prepare();
    assert_eq!(m.take_ready(), 7);
    m.put_ready(8);
    m.prepare();
    assert_eq!(m.take_ready(), 8);
}

#[test]
fn verbosity_levels() {
    assert_eq!(Verbosity::from(0), Verbosity { level: Level::Error, internal: false });
    assert_eq!(Verbosity::from(1), Verbosity { level: Level::Warn, internal: false });
    assert_eq!(Verbosity::from(2), Verbosity { level: Level::Info, internal: false });
    assert_eq!(Verbosity::from(3), Verbosity { level: Level::Info, internal: true });
    assert_eq!(Verbosity::from(4), Verbosity { level: Level::Debug, internal: true });
    assert_eq!(Verbosity::from(200), Verbosity { level: Level::Trace, internal: true });
}

#[test]
fn database_paths() {
    assert_eq!(db_path("sqlite://elo.db"), "elo.db");
    assert_eq!(db_path("/tmp/elo.db"), "/tmp/elo.db");
    assert_eq!(db_path("sqlite:/x"), "sqlite:/x");
}
