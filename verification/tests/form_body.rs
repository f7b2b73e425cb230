use scoreboard_core::form::parse_form;

#[test]
fn form_accepts_both_orders() {
    let fd = parse_form(b"a=5&b=hello").expect("well-shaped body");
    assert_eq!(fd.a, 5);
    assert_eq!(fd.b, b"hello".to_vec());

    let fd = parse_form(b"b=hello&a=-12").expect("well-shaped body");
    assert_eq!(fd.a, -12);
    assert_eq!(fd.b, b"hello".to_vec());
}

#[test]
fn form_accepts_edge_values() {
    let fd = parse_form(b"a=2147483647&b=").expect("empty b is fine");
    assert_eq!(fd.a, i32::MAX);
    assert_eq!(fd.b, Vec::<u8>::new());

    // b of exactly 32 bytes passes; its value may contain '='
    let body = b"a=0&b=0123456789012345678901234567890=";
    let fd = parse_form(body).expect("32-byte b");
    assert_eq!(fd.b.len(), 32);
}

#[test]
fn form_rejects_malformed_bodies() {
    assert!(parse_form(b"").is_none());
    assert!(parse_form(b"a=5").is_none()); // no separator
    assert!(parse_form(b"a=5&a=6").is_none()); // same key twice
    assert!(parse_form(b"b=x&b=y").is_none());
    assert!(parse_form(b"c=5&b=x").is_none()); // unknown key
    assert!(parse_form(b"a=x&b=y").is_none()); // a not an integer
    assert!(parse_form(b"a=2147483648&b=x").is_none()); // a out of range
    assert!(parse_form(b"a5&b=x").is_none()); // missing '='
    // b of 33 bytes is too long
    assert!(parse_form(b"a=1&b=012345678901234567890123456789012").is_none());
}
