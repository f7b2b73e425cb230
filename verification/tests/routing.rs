use scoreboard_core::parse::{parse_bool, parse_i32};
use scoreboard_core::routes::{route, Method, Route};

#[test]
fn routes_match() {
    assert_eq!(route(Method::Get, b"/"), Route::Index);
    assert_eq!(route(Method::Post, b"/"), Route::Submit);
    assert_eq!(route(Method::Get, b"/time"), Route::Time);
    assert_eq!(route(Method::Get, b"/set/true"), Route::SetIndicator(true));
    assert_eq!(route(Method::Get, b"/set/false"), Route::SetIndicator(false));
    assert_eq!(route(Method::Get, b"/ctrl/0"), Route::Ctrl(0));
    assert_eq!(route(Method::Get, b"/ctrl/7"), Route::Ctrl(7));
    assert_eq!(route(Method::Get, b"/ctrl/-3"), Route::Ctrl(-3));
}

#[test]
fn routes_reject() {
    assert_eq!(route(Method::Get, b""), Route::NotFound);
    assert_eq!(route(Method::Get, b"/nope"), Route::NotFound);
    assert_eq!(route(Method::Get, b"/set/yes"), Route::NotFound);
    assert_eq!(route(Method::Get, b"/set/"), Route::NotFound);
    assert_eq!(route(Method::Get, b"/set"), Route::NotFound);
    assert_eq!(route(Method::Get, b"/ctrl/x"), Route::NotFound);
    assert_eq!(route(Method::Get, b"/ctrl/"), Route::NotFound);
    assert_eq!(route(Method::Get, b"/timex"), Route::NotFound);
    assert_eq!(route(Method::Post, b"/time"), Route::NotFound);
    assert_eq!(route(Method::Post, b"/set/true"), Route::NotFound);
}

#[test]
fn parse_bool_accepts_exactly_true_false() {
    assert_eq!(parse_bool(b"true"), Some(true));
    assert_eq!(parse_bool(b"false"), Some(false));
    assert_eq!(parse_bool(b"True"), None);
    assert_eq!(parse_bool(b"1"), None);
    assert_eq!(parse_bool(b""), None);
    assert_eq!(parse_bool(b"truee"), None);
}

#[test]
fn parse_i32_values() {
    assert_eq!(parse_i32(b"0"), Some(0));
    assert_eq!(parse_i32(b"42"), Some(42));
    assert_eq!(parse_i32(b"+7"), Some(7));
    assert_eq!(parse_i32(b"-3"), Some(-3));
    assert_eq!(parse_i32(b"007"), Some(7));
    assert_eq!(parse_i32(b"2147483647"), Some(i32::MAX));
    assert_eq!(parse_i32(b"-2147483648"), Some(i32::MIN));
    assert_eq!(parse_i32(b"0000000000000000001"), Some(1));
}

#[test]
fn parse_i32_rejects() {
    assert_eq!(parse_i32(b""), None);
    assert_eq!(parse_i32(b"-"), None);
    assert_eq!(parse_i32(b"+"), None);
    assert_eq!(parse_i32(b"12a"), None);
    assert_eq!(parse_i32(b" 1"), None);
    assert_eq!(parse_i32(b"2147483648"), None);
    assert_eq!(parse_i32(b"-2147483649"), None);
    assert_eq!(parse_i32(b"99999999999999999999"), None);
}
