use doku::formatting::{requires_custom_formatting, AutoComments, Formatting};
use doku::frame::Frame;
use doku::schema::{Example, Meta, MetaValue, Tag, TagKind, Type, TypeKind, Visibility};
use doku::text::{starts_with, starts_with_char, str_eq, to_decimal};

#[test]
fn all_switches_every_hint_on() {
    let hints = AutoComments::all();
    assert!(hints.array_size);
    assert!(hints.optional);
    assert_eq!(AutoComments::default(), AutoComments::all());
}

#[test]
fn none_switches_every_hint_off() {
    let hints = AutoComments::none();
    assert!(!hints.array_size);
    assert!(!hints.optional);
}

#[test]
fn standard_formatting() {
    let fmt = Formatting::default();
    assert_eq!(fmt.auto_comments, AutoComments::all());
    assert_eq!(fmt.comments_style.separator, "//");
    assert_eq!(fmt.ellipsis, "/* ... */");
    assert_eq!(fmt.inline_threshold, 0);
    assert!(!fmt.expand_variants);
}

#[test]
fn namespace_keys_ask_for_custom_formatting() {
    let meta = |key| Meta { key, value: MetaValue::Bool(true) };
    assert!(requires_custom_formatting(&vec![meta("fmt")]));
    assert!(requires_custom_formatting(&vec![meta("other"), meta("fmt.anything")]));
    assert!(!requires_custom_formatting(&vec![]));
    assert!(!requires_custom_formatting(&vec![meta("fmtx"), meta("format"), meta("fm"), meta("a.fmt.")]));
}

#[test]
fn customize_applies_overrides_in_order() {
    let fmt = Formatting::standard();
    let custom = fmt.customize(&vec![
        Meta { key: "fmt.auto_comments.optional", value: MetaValue::Bool(false) },
        Meta { key: "fmt.comments_style.separator", value: MetaValue::Text("#") },
        Meta { key: "fmt.ellipsis", value: MetaValue::Text("...") },
        Meta { key: "fmt.inline_threshold", value: MetaValue::Integer(5) },
        Meta { key: "fmt.expand_variants", value: MetaValue::Bool(true) },
        Meta { key: "fmt.inline_threshold", value: MetaValue::Integer(9) },
    ]);
    assert!(!custom.auto_comments.optional);
    assert!(custom.auto_comments.array_size);
    assert_eq!(custom.comments_style.separator, "#");
    assert_eq!(custom.ellipsis, "...");
    assert_eq!(custom.inline_threshold, 9);
    assert!(custom.expand_variants);
    assert!(fmt.auto_comments.optional);
    assert_eq!(fmt.ellipsis, "/* ... */");
}

#[test]
fn customize_ignores_what_it_does_not_know() {
    let fmt = Formatting::standard();
    let custom = fmt.customize(&vec![
        Meta { key: "fmt.auto_comments.optional", value: MetaValue::Text("false") },
        Meta { key: "fmt.ellipsis", value: MetaValue::Bool(false) },
        Meta { key: "fmt.inline_threshold", value: MetaValue::Bool(true) },
        Meta { key: "fmt.nothing", value: MetaValue::Integer(1) },
        Meta { key: "auto_comments.optional", value: MetaValue::Bool(false) },
        Meta { key: "fmt", value: MetaValue::Text("other") },
    ]);
    assert_eq!(custom.auto_comments, AutoComments::all());
    assert_eq!(custom.ellipsis, "/* ... */");
    assert_eq!(custom.inline_threshold, 0);
}

#[test]
fn customize_goes_back_to_the_standard() {
    let fmt = Formatting { auto_comments: AutoComments::none(), inline_threshold: 3, ..Formatting::standard() };
    let custom = fmt.customize(&vec![
        Meta { key: "fmt", value: MetaValue::Text("default") },
        Meta { key: "fmt.auto_comments.array_size", value: MetaValue::Bool(false) },
    ]);
    assert!(custom.auto_comments.optional);
    assert!(!custom.auto_comments.array_size);
    assert_eq!(custom.inline_threshold, 0);
}

#[test]
fn visibility_filters() {
    let both = Visibility::SerializableAndDeserializable;
    assert!(both.allows(true, true));
    assert!(both.allows(true, false));
    assert!(both.allows(false, true));
    assert!(!both.allows(false, false));
    assert!(Visibility::SerializableOnly.allows(true, false));
    assert!(!Visibility::SerializableOnly.allows(false, true));
    assert!(!Visibility::SerializableOnly.allows(false, false));
    assert!(Visibility::DeserializableOnly.allows(false, true));
    assert!(!Visibility::DeserializableOnly.allows(true, false));
    assert!(!Visibility::DeserializableOnly.allows(false, false));
}

#[test]
fn declared_tag_strategy() {
    assert_eq!(TagKind::declared(Some(true), true, true), TagKind::Untagged);
    assert_eq!(TagKind::declared(Some(true), false, false), TagKind::Untagged);
    assert_eq!(TagKind::declared(Some(false), true, true), TagKind::Adjacent);
    assert_eq!(TagKind::declared(None, true, true), TagKind::Adjacent);
    assert_eq!(TagKind::declared(None, true, false), TagKind::External);
    assert_eq!(TagKind::declared(None, false, true), TagKind::Internal);
    assert_eq!(TagKind::declared(None, false, false), TagKind::External);
    assert_eq!(Tag::Untagged.kind(), TagKind::Untagged);
    assert_eq!(Tag::External.kind(), TagKind::External);
    assert_eq!(Tag::Internal { tag: "t" }.kind(), TagKind::Internal);
    assert_eq!(Tag::Adjacent { tag: "t", content: "c" }.kind(), TagKind::Adjacent);
}

#[test]
fn examples_offer_their_first_value() {
    assert_eq!(Example::Simple("a").first(), Some("a"));
    assert_eq!(Example::Compound(&["b", "c"]).first(), Some("b"));
    assert_eq!(Example::Compound(&[]).first(), None);
    assert_eq!(Example::Literal("d").first(), Some("d"));
    assert_eq!(Example::Literal("d").literal(), Some("d"));
    assert_eq!(Example::Simple("a").literal(), None);
    assert_eq!(Example::Compound(&["b"]).literal(), None);
}

#[test]
fn frame_derivations() {
    let plain = Type::new(TypeKind::String);
    let wrapper = Type::new(TypeKind::Struct { fields: vec![], transparent: true });
    let mut own = Type::new(TypeKind::Integer);
    own.example = Some(Example::Simple("1"));
    let root = Frame::root(&plain, None, Visibility::SerializableOnly, Formatting::standard());
    assert_eq!(root.depth, 0);
    assert!(!root.flat);
    assert!(root.parent.is_none());

    let down = root.set_is_key().with_flat().with_example(Some(Example::Simple("2"))).nested();
    assert_eq!(down.depth, 1);
    assert!(!down.is_key);
    assert!(down.flat);
    assert_eq!(down.first_example(), Some("2"));

    let at = down.with_ty(&own);
    assert!(!at.flat);
    assert!(at.parent.is_some());
    assert_eq!(at.first_example(), Some("1"));
    assert_eq!(at.with_example(Some(Example::Literal("3"))).literal_example(), Some("3"));
    assert_eq!(at.literal_example(), None);

    let through = Frame::root(&wrapper, None, Visibility::SerializableOnly, Formatting::standard())
        .with_flat()
        .child(&plain);
    assert!(through.flat);
    assert_eq!(through.depth, 1);
    let not_flat = Frame::root(&wrapper, None, Visibility::SerializableOnly, Formatting::standard())
        .child(&plain);
    assert!(!not_flat.flat);

    let other = Formatting { inline_threshold: 2, ..Formatting::standard() };
    let changed = root.set_is_key().with_fmt(other);
    assert!(!changed.is_key);
    assert_eq!(changed.fmt.inline_threshold, 2);
}

#[test]
fn decimal_numerals() {
    assert_eq!(to_decimal(0), "0");
    assert_eq!(to_decimal(9), "9");
    assert_eq!(to_decimal(10), "10");
    assert_eq!(to_decimal(12345), "12345");
    assert_eq!(to_decimal(usize::MAX), usize::MAX.to_string());
}

#[test]
fn text_comparisons() {
    assert!(str_eq("", ""));
    assert!(str_eq("fmt", "fmt"));
    assert!(!str_eq("fmt", "fmt."));
    assert!(!str_eq("fmt", "fmx"));
    assert!(str_eq("zażółć", "zażółć"));
    assert!(starts_with("fmt.a", "fmt."));
    assert!(starts_with("fmt.", "fmt."));
    assert!(starts_with("abc", ""));
    assert!(!starts_with("fmt", "fmt."));
    assert!(!starts_with("xfmt.", "fmt."));
    assert!(starts_with_char("[1]", '['));
    assert!(!starts_with_char(" [1]", '['));
    assert!(!starts_with_char("", '['));
}
