use opt2r::{
    opt_is_none, opt_is_none_i32, opt_is_none_u32, str_option_is_none, Error, StdError,
    ERROR_CODE_OPTION_IS_NONE,
};

#[test]
fn display_integer_errors() {
    assert_eq!(Error::integer(1).display(), "1");
    assert_eq!(Error::integer(0).display(), "0");
    assert_eq!(Error::integer(-42).display(), "-42");
    assert_eq!(Error::integer(i32::MAX).display(), "2147483647");
    assert_eq!(Error::integer(i32::MIN).display(), "-2147483648");
}

#[test]
fn display_unsigned_errors() {
    assert_eq!(Error::unsigned(0).display(), "0");
    assert_eq!(Error::unsigned(1).display(), "1");
    assert_eq!(Error::unsigned(305419896).display(), "305419896");
    assert_eq!(Error::unsigned(u32::MAX).display(), "4294967295");
}

#[test]
fn display_text_is_transparent() {
    assert_eq!(Error::text(String::from("boom")).display(), "boom");
    assert_eq!(Error::text(String::from("")).display(), "");
    assert_eq!(Error::text(String::from("a b :: c")).display(), "a b :: c");
}

#[test]
fn error_value_matches_display() {
    assert_eq!(Error::integer(-5).error_value(), "-5");
    assert_eq!(Error::unsigned(12).error_value(), "12");
    assert_eq!(Error::text(String::from("msg")).error_value(), "msg");
}

#[test]
fn new_builds_a_text_error() {
    let e = Error::new(String::from("custom"));
    assert_eq!(e.display(), "custom");
    match e {
        Error::TextError(m) => assert_eq!(m, "custom"),
        _ => panic!("expected the text variant"),
    }
}

#[test]
fn payload_round_trips() {
    assert_eq!(Error::integer(-5).into_integer(), -5);
    assert_eq!(Error::integer(i32::MIN).into_integer(), i32::MIN);
    assert_eq!(Error::unsigned(42).into_unsigned(), 42);
    assert_eq!(Error::text(String::from("hello")).into_text(), "hello");
}

#[test]
fn default_errors_carry_the_fixed_constants() {
    assert_eq!(ERROR_CODE_OPTION_IS_NONE, 1);
    assert_eq!(str_option_is_none(), "Option is None.");
    assert_eq!(opt_is_none().into_text(), "Option is None.");
    assert_eq!(opt_is_none_i32().into_integer(), 1);
    assert_eq!(opt_is_none_u32().into_unsigned(), 1);
}

#[test]
fn describable_error_interface() {
    let e = Error::text(String::from("what went wrong"));
    assert_eq!(e.message(), "what went wrong");
    assert!(e.source().is_none());
    let n = Error::integer(-1);
    assert_eq!(n.message(), "-1");
    assert!(n.source().is_none());
}

#[test]
fn clone_preserves_the_payload() {
    let e = Error::text(String::from("twice"));
    let c = e.clone();
    assert_eq!(c.display(), "twice");
    assert_eq!(e.display(), "twice");
}
