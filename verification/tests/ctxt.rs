use doku::ctxt::Ctxt;
use doku::formatting::Formatting;
use doku::layout::render;
use doku::output::Output;
use doku::schema::{Example, Field, Type, TypeKind, Value, Visibility};

fn ctxt_on<'a>(ty: &'a Type, fmt: &'a Formatting, out: &'a mut Output) -> Ctxt<'a, 'a, 'a> {
    Ctxt {
        ty,
        val: None,
        vis: Visibility::SerializableAndDeserializable,
        fmt,
        out,
        is_key: false,
        parent: None,
        example: None,
        flat: false,
        depth: 0,
    }
}

#[test]
fn nested_goes_one_level_down() {
    let ty = Type::new(TypeKind::String);
    let fmt = Formatting::standard();
    let mut out = Output::new(fmt);
    let mut ctxt = ctxt_on(&ty, &fmt, &mut out).set_is_key().with_flat();
    {
        let inner = ctxt.nested();
        assert_eq!(inner.depth, 1);
        assert!(!inner.is_key);
        assert!(inner.flat);
        inner.out.write("x");
    }
    assert_eq!(ctxt.depth, 0);
    assert!(ctxt.is_key);
    let mut second = ctxt.nested();
    let third = second.nested();
    assert_eq!(third.depth, 2);
    assert_eq!(out.lines()[0].body, "x");
}

#[test]
fn with_ty_keeps_track_of_the_parent() {
    let parent = Type::new(TypeKind::Struct { fields: vec![], transparent: false });
    let child = Type::new(TypeKind::Integer);
    let fmt = Formatting::standard();
    let mut out = Output::new(fmt);
    let ctxt = ctxt_on(&parent, &fmt, &mut out)
        .with_example(Some(Example::Simple("1")))
        .with_flat()
        .with_ty(&child);
    assert!(ctxt.parent.is_some());
    assert!(matches!(ctxt.parent.unwrap().kind, TypeKind::Struct { .. }));
    assert!(matches!(ctxt.ty.kind, TypeKind::Integer));
    assert!(ctxt.example.is_none());
    assert!(!ctxt.flat);
}

#[test]
fn with_ty_keeps_flat_through_a_transparent_struct() {
    let parent = Type::new(TypeKind::Struct { fields: vec![], transparent: true });
    let child = Type::new(TypeKind::Integer);
    let fmt = Formatting::standard();
    let mut out = Output::new(fmt);
    let ctxt = ctxt_on(&parent, &fmt, &mut out).with_flat().with_ty(&child);
    assert!(ctxt.flat);
    let mut out = Output::new(fmt);
    let ctxt = ctxt_on(&parent, &fmt, &mut out).with_ty(&child);
    assert!(!ctxt.flat);
}

#[test]
fn with_fmt_swaps_the_choices() {
    let ty = Type::new(TypeKind::String);
    let fmt = Formatting::standard();
    let other = Formatting { ellipsis: "...", ..Formatting::standard() };
    let mut out = Output::new(fmt);
    let ctxt = ctxt_on(&ty, &fmt, &mut out).set_is_key().with_fmt(&other);
    assert_eq!(ctxt.fmt.ellipsis, "...");
    assert!(!ctxt.is_key);
    assert_eq!(ctxt.depth, 0);
}

#[test]
fn with_val_sets_the_sample() {
    let ty = Type::new(TypeKind::String);
    let fmt = Formatting::standard();
    let val = Value::Leaf;
    let mut out = Output::new(fmt);
    let ctxt = ctxt_on(&ty, &fmt, &mut out).with_val(Some(&val));
    assert!(matches!(ctxt.val, Some(Value::Leaf)));
    assert!(ctxt.with_val(None).val.is_none());
}

#[test]
fn example_handed_down_goes_first() {
    let mut ty = Type::new(TypeKind::String);
    ty.example = Some(Example::Compound(&["own", "second"]));
    let fmt = Formatting::standard();
    let mut out = Output::new(fmt);
    let ctxt = ctxt_on(&ty, &fmt, &mut out);
    assert!(matches!(ctxt.example(), Some(Example::Compound(_))));
    assert_eq!(ctxt.first_example(), Some("own"));
    assert_eq!(ctxt.literal_example(), None);
    let ctxt = ctxt.with_example(Some(Example::Literal("given")));
    assert!(matches!(ctxt.example(), Some(Example::Literal("given"))));
    assert_eq!(ctxt.first_example(), Some("given"));
    assert_eq!(ctxt.literal_example(), Some("given"));
    let ctxt = ctxt.with_example(None);
    assert_eq!(ctxt.first_example(), Some("own"));
}

#[test]
fn print_writes_into_the_output_it_was_given() {
    let ty = Type::new(TypeKind::Struct {
        fields: vec![Field { name: "a", ty: Type::new(TypeKind::Bool), flattened: false }],
        transparent: false,
    });
    let fmt = Formatting::standard();
    let mut out = Output::new(fmt);
    out.write("x = ");
    assert!(ctxt_on(&ty, &fmt, &mut out).frame().check().is_ok());
    ctxt_on(&ty, &fmt, &mut out).print();
    assert_eq!(out.indent, 0);
    assert_eq!(render(out), "x = {\n  \"a\": true\n}");
}

#[test]
fn print_array_on_its_own() {
    let element = Type::new(TypeKind::Integer);
    let ty = Type::new(TypeKind::Array { ty: Box::new(Type::new(TypeKind::Integer)), size: Some(2) });
    let fmt = Formatting::standard();
    let mut out = Output::new(fmt);
    ctxt_on(&ty, &fmt, &mut out).print_array(&element, Some(2));
    assert_eq!(render(out), "// Must contain exactly 2 elements\n[\n  123,\n  /* ... */\n]");
    let mut out = Output::new(fmt);
    let given = ctxt_on(&ty, &fmt, &mut out).with_example(Some(Example::Simple("[1, 2]")));
    given.print_array(&element, Some(2));
    assert_eq!(render(out), "[1, 2]");
}

#[test]
fn flat_context_shows_fields_without_braces() {
    let ty = Type::new(TypeKind::Struct {
        fields: vec![
            Field { name: "b", ty: Type::new(TypeKind::String), flattened: false },
            Field { name: "c", ty: Type::new(TypeKind::String), flattened: false },
        ],
        transparent: false,
    });
    let fmt = Formatting::standard();
    let mut out = Output::new(fmt);
    out.open_block("{");
    ctxt_on(&ty, &fmt, &mut out).with_flat().print();
    out.close_block("}");
    assert_eq!(render(out), "{\n  \"b\": \"string\",\n  \"c\": \"string\"\n}");
}

#[test]
fn key_context_quotes_scalars() {
    let ty = Type::new(TypeKind::Bool);
    let fmt = Formatting::standard();
    let mut out = Output::new(fmt);
    ctxt_on(&ty, &fmt, &mut out).set_is_key().print_scalar();
    assert_eq!(render(out), "\"true\"");
}
