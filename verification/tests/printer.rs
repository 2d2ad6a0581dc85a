use doku::ctxt::Ctxt;
use doku::formatting::{AutoComments, Formatting};
use doku::output::Output;
use doku::schema::{
    Entry, Example, Field, Meta, MetaValue, Tag, Type, TypeKind, Value, Variant, Visibility,
};
use doku::script::PrintError;
use doku::{to_json, to_output};

const BOTH: Visibility = Visibility::SerializableAndDeserializable;

fn string() -> Type {
    Type::new(TypeKind::String)
}

fn integer() -> Type {
    Type::new(TypeKind::Integer)
}

fn optional(ty: Type) -> Type {
    Type::new(TypeKind::Optional { ty: Box::new(ty) })
}

fn array(ty: Type, size: Option<usize>) -> Type {
    Type::new(TypeKind::Array { ty: Box::new(ty), size })
}

fn field(name: &'static str, ty: Type) -> Field {
    Field { name, ty, flattened: false }
}

fn flattened(name: &'static str, ty: Type) -> Field {
    Field { name, ty, flattened: true }
}

fn structure(fields: Vec<Field>) -> Type {
    Type::new(TypeKind::Struct { fields, transparent: false })
}

fn transparent(ty: Type) -> Type {
    Type::new(TypeKind::Struct { fields: vec![field("0", ty)], transparent: true })
}

fn enumeration(tag: Tag, variants: Vec<Variant>) -> Type {
    Type::new(TypeKind::Enum { tag, variants })
}

fn commented(comment: &'static str, mut ty: Type) -> Type {
    ty.comment = Some(comment);
    ty
}

fn with_example(example: Example, mut ty: Type) -> Type {
    ty.example = Some(example);
    ty
}

fn with_meta(key: &'static str, value: MetaValue, mut ty: Type) -> Type {
    ty.metas.push(Meta { key, value });
    ty
}

fn hidden(mut ty: Type) -> Type {
    ty.serializable = false;
    ty.deserializable = false;
    ty
}

fn json(ty: &Type) -> String {
    to_json(ty, None, BOTH, &Formatting::standard()).unwrap()
}

fn json_fmt(ty: &Type, fmt: &Formatting) -> String {
    to_json(ty, None, BOTH, fmt).unwrap()
}

fn no_hints() -> Formatting {
    Formatting { auto_comments: AutoComments::none(), ..Formatting::standard() }
}

#[test]
fn scalars_show_their_placeholders() {
    assert_eq!(json(&Type::new(TypeKind::Bool)), "true");
    assert_eq!(json(&Type::new(TypeKind::Float)), "123.45");
    assert_eq!(json(&integer()), "123");
    assert_eq!(json(&string()), "\"string\"");
}

#[test]
fn scalars_show_their_examples() {
    assert_eq!(json(&with_example(Example::Simple("7"), integer())), "7");
    assert_eq!(json(&with_example(Example::Simple("foo"), string())), "\"foo\"");
    assert_eq!(json(&with_example(Example::Compound(&["a", "b"]), string())), "\"a\"");
    assert_eq!(json(&with_example(Example::Compound(&[]), string())), "\"string\"");
}

#[test]
fn struct_shows_fields_in_order() {
    let ty = structure(vec![field("a", string()), field("b", integer())]);
    assert_eq!(json(&ty), "{\n  \"a\": \"string\",\n  \"b\": 123\n}");
}

#[test]
fn empty_struct_shows_braces() {
    assert_eq!(json(&structure(vec![])), "{\n}");
}

#[test]
fn comment_stands_above_the_line_of_its_node() {
    let ty = structure(vec![field("a", commented("The name", string()))]);
    assert_eq!(json(&ty), "{\n  // The name\n  \"a\": \"string\"\n}");
}

#[test]
fn hidden_node_leaves_nothing() {
    let ty = hidden(structure(vec![field("a", string())]));
    let out = to_output(&ty, None, BOTH, &Formatting::standard()).unwrap();
    assert_eq!(out.lines().len(), 0);
    assert_eq!(to_json(&ty, None, Visibility::SerializableOnly, &Formatting::standard()).unwrap(), "");
    assert_eq!(to_json(&ty, None, Visibility::DeserializableOnly, &Formatting::standard()).unwrap(), "");
    assert_eq!(json(&ty), "");
}

#[test]
fn hidden_node_leaves_an_output_as_it_was() {
    let ty = hidden(commented("never shown", string()));
    let fmt = Formatting::standard();
    let mut out = Output::new(fmt);
    out.write("before");
    out.comment("kept");
    let ctxt = Ctxt {
        ty: &ty,
        val: None,
        vis: BOTH,
        fmt: &fmt,
        out: &mut out,
        is_key: false,
        parent: None,
        example: None,
        flat: false,
        depth: 0,
    };
    assert_eq!(ctxt.try_print(), Ok(()));
    assert_eq!(out.lines().len(), 1);
    assert_eq!(out.lines()[0].body, "before");
    assert_eq!(out.lines()[0].comments, vec!["kept".to_string()]);
}

#[test]
fn filter_shows_what_it_allows() {
    let mut written = string();
    written.deserializable = false;
    let mut read = integer();
    read.serializable = false;
    let ty = structure(vec![field("w", written), field("r", read)]);
    let fmt = Formatting::standard();
    assert_eq!(
        to_json(&ty, None, Visibility::SerializableOnly, &fmt).unwrap(),
        "{\n  \"w\": \"string\"\n}"
    );
    assert_eq!(
        to_json(&ty, None, Visibility::DeserializableOnly, &fmt).unwrap(),
        "{\n  \"r\": 123\n}"
    );
    assert_eq!(
        to_json(&ty, None, BOTH, &fmt).unwrap(),
        "{\n  \"w\": \"string\",\n  \"r\": 123\n}"
    );
}

#[test]
fn optional_hint_appears_when_switched_on() {
    assert_eq!(json(&optional(string())), "// Optional\n\"string\"");
}

#[test]
fn optional_without_hint_and_value_is_left_out() {
    assert_eq!(json_fmt(&optional(string()), &no_hints()), "");
    let ty = structure(vec![field("a", optional(string())), field("b", integer())]);
    assert_eq!(json_fmt(&ty, &no_hints()), "{\n  \"b\": 123\n}");
}

#[test]
fn optional_without_hint_shows_a_forced_value() {
    let val = Value::Present(Box::new(Value::Leaf));
    let text = to_json(&optional(string()), Some(&val), BOTH, &no_hints()).unwrap();
    assert_eq!(text, "\"string\"");
}

#[test]
fn optional_hint_follows_the_annotations_of_its_node() {
    let quiet = with_meta("fmt.auto_comments.optional", MetaValue::Bool(false), optional(string()));
    let ty = structure(vec![field("a", quiet), field("b", optional(integer()))]);
    assert_eq!(json(&ty), "{\n  // Optional\n  \"b\": 123\n}");
    let loud = with_meta("fmt.auto_comments.optional", MetaValue::Bool(true), optional(string()));
    assert_eq!(json_fmt(&loud, &no_hints()), "// Optional\n\"string\"");
}

#[test]
fn optional_hands_its_example_down() {
    let ty = with_example(Example::Simple("zar-value"), optional(optional(optional(string()))));
    assert_eq!(json(&ty), "// Optional\n// Optional\n// Optional\n\"zar-value\"");
}

#[test]
fn literal_example_is_written_as_it_is() {
    let ty = with_example(
        Example::Literal("{ \"anything\": [1, 2] }"),
        structure(vec![field("a", string())]),
    );
    assert_eq!(json(&ty), "{ \"anything\": [1, 2] }");
    let ty = commented("A shape", with_example(Example::Literal("<shape>"), optional(string())));
    assert_eq!(json(&ty), "// A shape\n<shape>");
}

#[test]
fn literal_example_hides_faults_below() {
    let bad = enumeration(
        Tag::Internal { tag: "type" },
        vec![Variant { name: "Bar", payload: string() }],
    );
    assert!(to_json(&bad, None, BOTH, &Formatting::standard()).is_err());
    let ty = with_example(Example::Literal("\"Bar\""), bad);
    assert_eq!(json(&ty), "\"Bar\"");
}

#[test]
fn rendering_twice_gives_the_same_text() {
    let ty = structure(vec![
        field("a", commented("first", optional(string()))),
        field("b", array(integer(), Some(3))),
    ]);
    assert_eq!(json(&ty), json(&ty));
}

#[test]
fn adjacent_tag_shows_tag_and_content() {
    let ty = enumeration(
        Tag::Adjacent { tag: "kind", content: "data" },
        vec![Variant { name: "Foo", payload: structure(vec![field("x", integer())]) }],
    );
    assert_eq!(
        json(&ty),
        "{\n  \"kind\": \"Foo\",\n  \"data\": {\n    \"x\": 123\n  }\n}"
    );
}

#[test]
fn internal_tag_stands_beside_the_fields() {
    let ty = enumeration(
        Tag::Internal { tag: "type" },
        vec![Variant { name: "Bar", payload: structure(vec![field("y", string())]) }],
    );
    assert_eq!(json(&ty), "{\n  \"type\": \"Bar\",\n  \"y\": \"string\"\n}");
}

#[test]
fn internal_tag_on_a_bare_payload_is_refused() {
    let ty = enumeration(
        Tag::Internal { tag: "type" },
        vec![Variant { name: "Bar", payload: string() }],
    );
    assert_eq!(
        to_json(&ty, None, BOTH, &Formatting::standard()),
        Err(PrintError::Untaggable { tag: "type", variant: "Bar" })
    );
    let inside = structure(vec![field("a", string()), field("e", ty)]);
    assert_eq!(
        to_json(&inside, None, BOTH, &Formatting::standard()),
        Err(PrintError::Untaggable { tag: "type", variant: "Bar" })
    );
    assert!(to_output(&inside, None, BOTH, &Formatting::standard()).is_err());
}

#[test]
fn internal_tag_on_a_transparent_payload_is_refused() {
    let ty = enumeration(
        Tag::Internal { tag: "t" },
        vec![Variant { name: "V", payload: transparent(structure(vec![])) }],
    );
    assert_eq!(
        to_json(&ty, None, BOTH, &Formatting::standard()),
        Err(PrintError::Untaggable { tag: "t", variant: "V" })
    );
}

#[test]
fn external_tag_wraps_the_payload() {
    let ty = enumeration(
        Tag::External,
        vec![
            Variant { name: "Foo", payload: string() },
            Variant { name: "Bar", payload: integer() },
        ],
    );
    assert_eq!(json(&ty), "{\n  \"Foo\": \"string\"\n}");
}

#[test]
fn untagged_enum_shows_the_bare_payload() {
    let ty = enumeration(Tag::Untagged, vec![Variant { name: "Foo", payload: integer() }]);
    assert_eq!(json(&ty), "123");
}

#[test]
fn enum_without_variants_leaves_nothing() {
    assert_eq!(json(&enumeration(Tag::External, vec![])), "");
}

#[test]
fn sample_value_picks_the_variant() {
    let ty = enumeration(
        Tag::External,
        vec![
            Variant { name: "Foo", payload: string() },
            Variant { name: "Bar", payload: integer() },
        ],
    );
    let fmt = Formatting::standard();
    let bar = Value::Variant { name: "Bar", payload: Box::new(Value::Leaf) };
    assert_eq!(to_json(&ty, Some(&bar), BOTH, &fmt).unwrap(), "{\n  \"Bar\": 123\n}");
    let unknown = Value::Variant { name: "Baz", payload: Box::new(Value::Leaf) };
    assert_eq!(to_json(&ty, Some(&unknown), BOTH, &fmt).unwrap(), "{\n  \"Foo\": \"string\"\n}");
    assert_eq!(to_json(&ty, Some(&Value::Leaf), BOTH, &fmt).unwrap(), "{\n  \"Foo\": \"string\"\n}");
}

#[test]
fn sample_value_is_followed_through_fields() {
    let choice = enumeration(
        Tag::Untagged,
        vec![
            Variant { name: "Text", payload: string() },
            Variant { name: "Number", payload: integer() },
        ],
    );
    let ty = structure(vec![field("first", optional(string())), field("second", choice)]);
    let val = Value::Struct {
        entries: vec![
            Entry {
                name: "second",
                value: Value::Variant { name: "Number", payload: Box::new(Value::Leaf) },
            },
            Entry { name: "first", value: Value::Present(Box::new(Value::Leaf)) },
        ],
    };
    assert_eq!(
        to_json(&ty, Some(&val), BOTH, &no_hints()).unwrap(),
        "{\n  \"first\": \"string\",\n  \"second\": 123\n}"
    );
    assert_eq!(to_json(&ty, None, BOTH, &no_hints()).unwrap(), "{\n  \"second\": \"string\"\n}");
}

#[test]
fn flattened_field_is_spliced() {
    let inner = structure(vec![field("a", string()), field("b", string())]);
    let outer = structure(vec![flattened("flattened", inner)]);
    assert_eq!(json(&outer), "{\n  \"a\": \"string\",\n  \"b\": \"string\"\n}");
}

#[test]
fn flattening_twice_splices_to_the_top() {
    let deep = structure(vec![field("c", string())]);
    let inner = structure(vec![field("a", string()), flattened("deep", deep)]);
    let outer = structure(vec![field("z", integer()), flattened("inner", inner)]);
    assert_eq!(
        json(&outer),
        "{\n  \"z\": 123,\n  \"a\": \"string\",\n  \"c\": \"string\"\n}"
    );
}

#[test]
fn flattening_does_not_reach_below_its_field() {
    let t3 = structure(vec![field("f1", string()), field("f2", string())]);
    let t2 = structure(vec![field("f", t3)]);
    let t1 = structure(vec![flattened("f", t2)]);
    assert_eq!(
        json(&t1),
        "{\n  \"f\": {\n    \"f1\": \"string\",\n    \"f2\": \"string\"\n  }\n}"
    );
}

#[test]
fn flattening_goes_through_a_transparent_struct() {
    let t3 = structure(vec![field("f1", string()), field("f2", string())]);
    let t1 = structure(vec![flattened("f", transparent(t3))]);
    assert_eq!(json(&t1), "{\n  \"f1\": \"string\",\n  \"f2\": \"string\"\n}");
}

#[test]
fn transparent_struct_shows_its_field() {
    assert_eq!(json(&transparent(integer())), "123");
    let ty = structure(vec![field("a", transparent(structure(vec![field("b", string())])))]);
    assert_eq!(json(&ty), "{\n  \"a\": {\n    \"b\": \"string\"\n  }\n}");
    let none = Type::new(TypeKind::Struct { fields: vec![], transparent: true });
    assert_eq!(json(&none), "");
}

#[test]
fn array_shows_one_entry_and_the_rest() {
    assert_eq!(json(&array(string(), None)), "[\n  \"string\",\n  /* ... */\n]");
}

#[test]
fn array_of_known_size_shows_its_hint() {
    assert_eq!(
        json(&array(string(), Some(3))),
        "// Must contain exactly 3 elements\n[\n  \"string\",\n  /* ... */\n]"
    );
    assert_eq!(json_fmt(&array(string(), Some(3)), &no_hints()), "[\n  \"string\",\n  /* ... */\n]");
    let ty = structure(vec![field("friends", array(string(), Some(120)))]);
    assert_eq!(
        json(&ty),
        "{\n  // Must contain exactly 120 elements\n  \"friends\": [\n    \"string\",\n    /* ... */\n  ]\n}"
    );
}

#[test]
fn small_array_stands_on_one_line() {
    let fmt = Formatting { inline_threshold: 4, ..no_hints() };
    assert_eq!(json_fmt(&array(integer(), Some(3)), &fmt), "[ 123, /* ... */ ]");
    assert_eq!(json_fmt(&array(integer(), Some(4)), &fmt), "[\n  123,\n  /* ... */\n]");
    assert_eq!(json_fmt(&array(integer(), None), &fmt), "[\n  123,\n  /* ... */\n]");
}

#[test]
fn array_example_for_the_whole_array_is_written_as_it_is() {
    let ty = with_example(Example::Simple("[\"foo\", \"bar\"]"), array(string(), Some(2)));
    assert_eq!(json(&ty), "[\"foo\", \"bar\"]");
}

#[test]
fn array_example_for_one_element_goes_to_the_element() {
    let ty = with_example(Example::Simple("foo"), array(string(), None));
    assert_eq!(json(&ty), "[\n  \"foo\",\n  /* ... */\n]");
}

#[test]
fn array_with_hidden_element_leaves_nothing() {
    assert_eq!(json(&array(hidden(string()), Some(2))), "");
}

#[test]
fn array_shows_each_variant_when_asked() {
    let element = enumeration(
        Tag::External,
        vec![
            Variant { name: "A", payload: string() },
            Variant { name: "B", payload: integer() },
        ],
    );
    let fmt = Formatting { expand_variants: true, ..Formatting::standard() };
    assert_eq!(
        json_fmt(&array(element, None), &fmt),
        "[\n  {\n    \"A\": \"string\"\n  },\n  {\n    \"B\": 123\n  }\n]"
    );
    let plain = array(string(), None);
    assert_eq!(json_fmt(&plain, &fmt), "[\n  \"string\",\n  /* ... */\n]");
}

#[test]
fn tuple_shows_fields_in_order() {
    let ty = Type::new(TypeKind::Tuple { fields: vec![string(), integer()] });
    assert_eq!(json(&ty), "[\n  \"string\",\n  123\n]");
}

#[test]
fn map_shows_one_entry_and_the_rest() {
    let ty = Type::new(TypeKind::Mapping { key: Box::new(string()), value: Box::new(integer()) });
    assert_eq!(json(&ty), "{\n  \"string\": 123,\n  /* ... */\n}");
}

#[test]
fn map_key_stands_between_quotes() {
    let ty = Type::new(TypeKind::Mapping { key: Box::new(integer()), value: Box::new(integer()) });
    assert_eq!(json(&ty), "{\n  \"123\": 123,\n  /* ... */\n}");
}

#[test]
fn annotations_reach_the_nodes_below() {
    let inner = structure(vec![field("a", optional(array(string(), Some(2))))]);
    let quiet = with_meta("fmt.auto_comments.array_size", MetaValue::Bool(false), inner);
    let ty = structure(vec![field("quiet", quiet), field("loud", array(integer(), Some(2)))]);
    assert_eq!(
        json(&ty),
        "{\n  \"quiet\": {\n    // Optional\n    \"a\": [\n      \"string\",\n      /* ... */\n    ]\n  },\n  // Must contain exactly 2 elements\n  \"loud\": [\n    123,\n    /* ... */\n  ]\n}"
    );
}

#[test]
fn annotation_changes_the_mark_for_the_rest() {
    let ty = with_meta("fmt.ellipsis", MetaValue::Text("..."), array(string(), None));
    assert_eq!(json(&ty), "[\n  \"string\",\n  ...\n]");
}

#[test]
fn unknown_annotations_change_nothing() {
    let ty = with_meta(
        "fmt.unknown",
        MetaValue::Bool(true),
        with_meta("other", MetaValue::Text("x"), array(string(), Some(1))),
    );
    assert_eq!(json(&ty), json(&array(string(), Some(1))));
}

fn chain_of_optionals(n: usize) -> Type {
    let mut ty = string();
    for _ in 0..n {
        ty = optional(ty);
    }
    ty
}

fn chain_of_arrays(n: usize) -> Type {
    let mut ty = string();
    for _ in 0..n {
        ty = array(ty, None);
    }
    ty
}

#[test]
fn chain_up_to_the_deepest_level_is_rendered() {
    let fmt = Formatting::standard();
    let text = to_json(&chain_of_optionals(255), None, BOTH, &fmt).unwrap();
    assert!(text.ends_with("// Optional\n\"string\""));
    assert_eq!(text.matches("// Optional").count(), 255);
    assert!(to_json(&chain_of_arrays(255), None, BOTH, &fmt).is_ok());
}

#[test]
fn chain_below_the_deepest_level_is_refused() {
    let fmt = Formatting::standard();
    assert_eq!(to_json(&chain_of_optionals(256), None, BOTH, &fmt), Err(PrintError::TooDeep));
    assert_eq!(to_json(&chain_of_arrays(256), None, BOTH, &fmt), Err(PrintError::TooDeep));
    assert_eq!(to_json(&chain_of_arrays(300), None, BOTH, &fmt), Err(PrintError::TooDeep));
    assert!(to_output(&chain_of_optionals(256), None, BOTH, &fmt).is_err());
}

#[test]
fn excess_anywhere_in_the_tree_is_refused_before_any_output() {
    let ty = structure(vec![
        field("fine", string()),
        field("deep", structure(vec![field("chain", chain_of_optionals(254))])),
    ]);
    let fmt = Formatting::standard();
    assert_eq!(to_json(&ty, None, BOTH, &fmt), Err(PrintError::TooDeep));
    let mut out = Output::new(fmt);
    let ctxt = Ctxt {
        ty: &ty,
        val: None,
        vis: BOTH,
        fmt: &fmt,
        out: &mut out,
        is_key: false,
        parent: None,
        example: None,
        flat: false,
        depth: 0,
    };
    assert_eq!(ctxt.try_print(), Err(PrintError::TooDeep));
    assert_eq!(out.lines().len(), 0);
    let shallow = structure(vec![
        field("fine", string()),
        field("deep", structure(vec![field("chain", chain_of_optionals(253))])),
    ]);
    assert!(to_json(&shallow, None, BOTH, &fmt).is_ok());
}

#[test]
fn deep_chain_is_no_fault_where_the_walk_does_not_go() {
    let fmt = Formatting::standard();
    assert_eq!(to_json(&hidden(chain_of_optionals(300)), None, BOTH, &fmt).unwrap(), "");
    let literal = with_example(Example::Literal("null"), chain_of_optionals(300));
    assert_eq!(to_json(&literal, None, BOTH, &fmt).unwrap(), "null");
}

#[test]
fn hint_for_an_array_of_known_size() {
    let person = structure(vec![field("friends", array(string(), Some(3)))]);
    assert_eq!(
        json(&person),
        "{\n  // Must contain exactly 3 elements\n  \"friends\": [\n    \"string\",\n    /* ... */\n  ]\n}"
    );
}

#[test]
fn hint_for_an_optional_value() {
    let person = structure(vec![field("friend", optional(string()))]);
    assert_eq!(json(&person), "{\n  // Optional\n  \"friend\": \"string\"\n}");
}

#[test]
fn optional_fields_with_comments_and_examples() {
    let ty = structure(vec![
        field("f1", commented("Some comment", optional(string()))),
        field(
            "f2",
            commented("Another comment", with_example(Example::Simple("bar-value"), optional(string()))),
        ),
        field(
            "zar",
            commented(
                "Yet another comment",
                with_example(Example::Simple("zar-value"), optional(optional(optional(string())))),
            ),
        ),
    ]);
    assert_eq!(
        json(&ty),
        "{\n  // Some comment\n  // Optional\n  \"f1\": \"string\",\n  // Another comment\n  // Optional\n  \"f2\": \"bar-value\",\n  // Yet another comment\n  // Optional\n  // Optional\n  // Optional\n  \"zar\": \"zar-value\"\n}"
    );
}

#[test]
fn commas_stand_only_between_entries() {
    let empty = || structure(vec![]);
    let ty = structure(vec![
        flattened("none", empty()),
        field("a", string()),
        flattened("nothing", empty()),
        field("gone", hidden(string())),
        field("b", integer()),
        flattened("last", empty()),
    ]);
    assert_eq!(json(&ty), "{\n  \"a\": \"string\",\n  \"b\": 123\n}");
    let only_hidden = structure(vec![field("gone", hidden(string())), flattened("none", empty())]);
    assert_eq!(json(&only_hidden), "{\n}");
}

#[test]
fn flattened_field_without_fields_to_splice_is_an_entry() {
    let map = Type::new(TypeKind::Mapping { key: Box::new(string()), value: Box::new(integer()) });
    let ty = structure(vec![field("a", string()), flattened("rest", map)]);
    assert_eq!(
        json(&ty),
        "{\n  \"a\": \"string\",\n  \"rest\": {\n    \"string\": 123,\n    /* ... */\n  }\n}"
    );
    let given = with_example(Example::Literal("<given>"), structure(vec![field("x", string())]));
    let ty = structure(vec![flattened("inner", given)]);
    assert_eq!(json(&ty), "{\n  \"inner\": <given>\n}");
}

#[test]
fn tag_field_stands_alone_without_other_entries() {
    let internal = enumeration(
        Tag::Internal { tag: "type" },
        vec![Variant { name: "Unit", payload: structure(vec![]) }],
    );
    assert_eq!(json(&internal), "{\n  \"type\": \"Unit\"\n}");
    let adjacent = enumeration(
        Tag::Adjacent { tag: "t", content: "c" },
        vec![Variant { name: "Gone", payload: hidden(string()) }],
    );
    assert_eq!(json(&adjacent), "{\n  \"t\": \"Gone\"\n}");
    let external = enumeration(
        Tag::External,
        vec![Variant { name: "Gone", payload: hidden(string()) }],
    );
    assert_eq!(json(&external), "{\n}");
}

#[test]
fn tuple_leaves_hidden_fields_out() {
    let ty = Type::new(TypeKind::Tuple { fields: vec![string(), hidden(integer()), integer(), hidden(string())] });
    assert_eq!(json(&ty), "[\n  \"string\",\n  123\n]");
    let ty = Type::new(TypeKind::Tuple { fields: vec![] });
    assert_eq!(json(&ty), "[\n]");
}

#[test]
fn small_array_of_variants_stands_on_one_line() {
    let element = enumeration(
        Tag::Untagged,
        vec![
            Variant { name: "A", payload: string() },
            Variant { name: "B", payload: integer() },
        ],
    );
    let fmt = Formatting { expand_variants: true, inline_threshold: 3, ..no_hints() };
    assert_eq!(json_fmt(&array(element, Some(2)), &fmt), "[ \"string\", 123 ]");
}

#[test]
fn faults_say_what_is_wrong() {
    assert_eq!(
        PrintError::TooDeep.message(),
        "the schema is nested too deeply; it may hold a recursive type"
    );
    assert_eq!(
        PrintError::Untaggable { tag: "type", variant: "Bar" }.message(),
        "the variant `Bar` cannot carry the tag `type`: its payload has no fields"
    );
}
