use typed_id::text::debug_form_of;
use typed_id::TypedId;

struct Customer;

#[derive(Debug)]
struct Account {
    id: TypedId<u32, Customer>,
}

#[test]
fn display_text_is_that_of_the_raw_id() {
    assert_eq!(TypedId::<u32, Customer>::new(42).to_string(), "42");
    assert_eq!(TypedId::<i64, Customer>::new(-7).to_string(), "-7");
    assert_eq!(TypedId::<u8, Customer>::new(0).to_string(), "0");
    let text: TypedId<String, Customer> = String::from("c-0042").into();
    assert_eq!(text.to_string(), "c-0042");
    let letter: TypedId<char, Customer> = 'x'.into();
    assert_eq!(letter.to_string(), 'x'.to_string());
}

#[test]
fn debug_text_names_the_wrapper() {
    assert_eq!(format!("{:?}", TypedId::<u32, Customer>::new(42)), "TypedId(42)");
    assert_eq!(format!("{:?}", TypedId::<i8, Customer>::new(-1)), "TypedId(-1)");
    let text: TypedId<&str, Customer> = "a\"b".into();
    assert_eq!(format!("{text:?}"), "TypedId(\"a\\\"b\")");
    let pair: TypedId<(u8, u8), Customer> = (1, 2).into();
    assert_eq!(format!("{pair:?}"), "TypedId((1, 2))");
}

#[test]
fn debug_text_differs_from_display_text() {
    let id: TypedId<&str, Customer> = "ann".into();
    assert_eq!(id.to_string(), "ann");
    assert_eq!(format!("{id:?}"), "TypedId(\"ann\")");
}

#[test]
fn pretty_debug_text_spreads_over_lines() {
    let id = TypedId::<u32, Customer>::new(42);
    assert_eq!(format!("{id:#?}"), "TypedId(\n    42,\n)");
}

#[test]
fn hexadecimal_debug_text_reaches_the_raw_id() {
    let id = TypedId::<u32, Customer>::new(255);
    assert_eq!(format!("{id:x?}"), "TypedId(ff)");
}

#[test]
fn ids_show_inside_derived_debug_text() {
    let account = Account { id: 9.into() };
    assert_eq!(format!("{account:?}"), "Account { id: TypedId(9) }");
    assert_eq!(*account.id, 9);
}

#[test]
fn to_debug_string_is_the_debug_text() {
    let number = TypedId::<u32, Customer>::new(42);
    assert_eq!(number.to_debug_string(), "TypedId(42)");
    assert_eq!(number.to_debug_string(), format!("{number:?}"));

    let text: TypedId<String, Customer> = String::from("a b").into();
    assert_eq!(text.to_debug_string(), "TypedId(\"a b\")");
    assert_eq!(text.to_debug_string(), format!("{text:?}"));

    let nothing: TypedId<Option<u8>, Customer> = None.into();
    assert_eq!(nothing.to_debug_string(), "TypedId(None)");
}

#[test]
fn debug_form_wraps_any_inner_text() {
    assert_eq!(debug_form_of("42"), "TypedId(42)");
    assert_eq!(debug_form_of(""), "TypedId()");
    assert_eq!(debug_form_of("a(b)"), "TypedId(a(b))");
    assert_eq!(debug_form_of("é"), "TypedId(é)");
}
