use debug_fn::debug_fn;
use std::fmt::{self, Display, Formatter};

fn hello(f: &mut Formatter<'_>, user_id: Option<u64>) -> fmt::Result {
    if let Some(user_id) = user_id {
        f.write_str("user number ")?;
        Display::fmt(&user_id, f)
    } else {
        f.write_str("anonymous user")
    }
}

#[test]
fn test() {
    let res = format!("{}", debug_fn(|f| f.write_str("test")));
    assert_eq!(res, "test");

    let res = format!("{:?}", debug_fn(|f| f.write_str("test")));
    assert_eq!(res, "test");
}

#[test]
fn hello_names_a_numbered_user() {
    let res = format!("Hello {}", debug_fn(|f| hello(f, Some(1234))));
    assert_eq!(res, "Hello user number 1234");
}

#[test]
fn hello_names_an_anonymous_user() {
    let res = format!("Hello {}", debug_fn(|f| hello(f, None)));
    assert_eq!(res, "Hello anonymous user");
}

#[test]
fn hello_is_the_same_in_debug_rendering() {
    let res = format!("Hello {:?}", debug_fn(|f| hello(f, Some(1234))));
    assert_eq!(res, "Hello user number 1234");
    let res = format!("Hello {:?}", debug_fn(|f| hello(f, None)));
    assert_eq!(res, "Hello anonymous user");
}

#[test]
fn both_renderings_hold_what_the_callable_writes() {
    let adapter = debug_fn(|f| {
        f.write_str("alpha")?;
        f.write_str(", ")?;
        f.write_str("beta")
    });
    assert_eq!(format!("{}", adapter), "alpha, beta");
    assert_eq!(format!("{:?}", adapter), "alpha, beta");
    assert_eq!(format!("{}", adapter), format!("{:?}", adapter));
}

#[test]
fn callable_that_writes_nothing_renders_empty() {
    let adapter = debug_fn(|_| Ok(()));
    assert_eq!(format!("{}", adapter), "");
    assert_eq!(format!("{:?}", adapter), "");
    assert_eq!(format!("[{}]", adapter), "[]");
}

#[test]
fn rendering_sits_inside_a_larger_template() {
    let adapter = debug_fn(|f| f.write_str("middle"));
    assert_eq!(format!("<{}|{:?}>", adapter, adapter), "<middle|middle>");
}

#[test]
fn rendering_twice_gives_the_same_text() {
    let adapter = debug_fn(|f| f.write_str("again"));
    let first = format!("{}", adapter);
    let second = format!("{}", adapter);
    assert_eq!(first, "again");
    assert_eq!(second, "again");
    let first = format!("{:?}", adapter);
    let second = format!("{:?}", adapter);
    assert_eq!(first, "again");
    assert_eq!(second, "again");
}

#[test]
fn to_string_is_the_display_rendering() {
    let adapter = debug_fn(|f| f.write_str("as a string"));
    assert_eq!(adapter.to_string(), "as a string");
}

#[test]
fn captured_text_is_written() {
    let name = String::from("captured");
    let adapter = debug_fn(move |f| f.write_str(&name));
    assert_eq!(format!("{}", adapter), "captured");
    assert_eq!(format!("{:?}", adapter), "captured");
}

#[test]
fn non_ascii_text_is_written_unchanged() {
    let adapter = debug_fn(|f| f.write_str("żółć \u{1F980} \"quoted\"\n"));
    assert_eq!(format!("{}", adapter), "żółć \u{1F980} \"quoted\"\n");
    assert_eq!(format!("{:?}", adapter), "żółć \u{1F980} \"quoted\"\n");
}

#[test]
fn function_item_can_be_wrapped() {
    fn fixed(f: &mut Formatter<'_>) -> fmt::Result {
        f.write_str("fixed")
    }
    assert_eq!(format!("{}", debug_fn(fixed)), "fixed");
    assert_eq!(format!("{:?}", debug_fn(fixed)), "fixed");
}

#[test]
fn adapter_serves_where_display_or_debug_is_asked_for() {
    fn shown(value: &dyn Display) -> String {
        format!("{}", value)
    }
    fn debugged(value: &dyn fmt::Debug) -> String {
        format!("{:?}", value)
    }
    let adapter = debug_fn(|f| f.write_str("either"));
    assert_eq!(shown(&adapter), "either");
    assert_eq!(debugged(&adapter), "either");
}
