use ink_ir::attrs::Attribute;
use ink_ir::attrs::AttributeArgKind;
use ink_ir::attrs::RawAttribute;
use ink_ir::attrs::Span;
use ink_ir::event::Event;
use ink_ir::item::Field;
use ink_ir::item::GenericParam;
use ink_ir::item::ItemStruct;
use ink_ir::item::Visibility;
use ink_ir::item::VisibilityKind;

fn span(n: u32) -> Span {
    Span { lo: n, hi: n + 1 }
}

fn ink_attr(n: u32, kinds: &[AttributeArgKind]) -> RawAttribute {
    let mut args = Vec::new();
    for (k, kind) in kinds.iter().enumerate() {
        args.push(Attribute { kind: *kind, span: span(n + k as u32) });
    }
    RawAttribute::Ink { span: span(n), args }
}

fn pub_vis() -> Visibility {
    Visibility { kind: VisibilityKind::Public, span: span(0) }
}

fn plain_field(n: u32, name: &str, ty: &str, attrs: Vec<RawAttribute>) -> Field {
    Field {
        span: span(n),
        attrs,
        vis: Visibility { kind: VisibilityKind::Inherited, span: span(n) },
        ident: Some(name.to_string()),
        ty: ty.to_string(),
    }
}

fn event_struct(attrs: Vec<RawAttribute>, fields: Vec<Field>) -> ItemStruct {
    ItemStruct {
        span: span(100),
        attrs,
        vis: pub_vis(),
        ident: "MyEvent".to_string(),
        generics: Vec::new(),
        fields,
    }
}

fn default_fields() -> Vec<Field> {
    vec![
        plain_field(10, "field_1", "i32", vec![ink_attr(11, &[AttributeArgKind::Topic])]),
        plain_field(20, "field_2", "bool", Vec::new()),
    ]
}

fn assert_try_from_fails(item_struct: ItemStruct, expected: &str) {
    match Event::try_from(item_struct) {
        Ok(_) => panic!("expected the event builder to fail"),
        Err(err) => assert_eq!(err.message(), expected.to_string()),
    }
}

#[test]
fn simple_try_from_works() {
    let item_struct = event_struct(vec![ink_attr(1, &[AttributeArgKind::Event])], default_fields());
    assert!(Event::try_from(item_struct).is_ok());
}

#[test]
fn conflicting_struct_attributes_fails() {
    assert_try_from_fails(
        event_struct(
            vec![
                ink_attr(1, &[AttributeArgKind::Event]),
                ink_attr(2, &[AttributeArgKind::Storage]),
            ],
            default_fields(),
        ),
        "encountered conflicting ink! attribute argument",
    )
}

#[test]
fn duplicate_struct_attributes_fails() {
    assert_try_from_fails(
        event_struct(
            vec![
                ink_attr(1, &[AttributeArgKind::Event]),
                ink_attr(2, &[AttributeArgKind::Event]),
            ],
            default_fields(),
        ),
        "encountered duplicate ink! attribute",
    )
}

#[test]
fn wrong_first_struct_attribute_fails() {
    assert_try_from_fails(
        event_struct(
            vec![
                ink_attr(1, &[AttributeArgKind::Storage]),
                ink_attr(2, &[AttributeArgKind::Event]),
            ],
            default_fields(),
        ),
        "unexpected first ink! attribute argument",
    )
}

#[test]
fn missing_storage_attribute_fails() {
    assert_try_from_fails(
        event_struct(Vec::new(), default_fields()),
        "encountered unexpected empty expanded ink! attribute arguments",
    )
}

#[test]
fn generic_event_fails() {
    let mut item_struct = event_struct(vec![ink_attr(1, &[AttributeArgKind::Event])], vec![
        plain_field(10, "field_1", "T", vec![ink_attr(11, &[AttributeArgKind::Topic])]),
        plain_field(20, "field_2", "bool", Vec::new()),
    ]);
    item_struct.ident = "GenericEvent".to_string();
    item_struct.generics.push(GenericParam { ident: "T".to_string(), span: span(3) });
    assert_try_from_fails(item_struct, "generic ink! event structs are not supported")
}

#[test]
fn non_pub_event_struct() {
    let mut item_struct =
        event_struct(vec![ink_attr(1, &[AttributeArgKind::Event])], default_fields());
    item_struct.ident = "PrivateEvent".to_string();
    item_struct.vis = Visibility { kind: VisibilityKind::Inherited, span: span(0) };
    assert_try_from_fails(item_struct, "non `pub` ink! event structs are not supported")
}

#[test]
fn duplicate_field_attributes_fails() {
    assert_try_from_fails(
        event_struct(vec![ink_attr(1, &[AttributeArgKind::Event])], vec![
            plain_field(10, "field_1", "i32", vec![
                ink_attr(11, &[AttributeArgKind::Topic]),
                ink_attr(12, &[AttributeArgKind::Topic]),
            ]),
            plain_field(20, "field_2", "bool", Vec::new()),
        ]),
        "encountered duplicate ink! attribute",
    )
}

#[test]
fn invalid_field_attributes_fails() {
    assert_try_from_fails(
        event_struct(vec![ink_attr(1, &[AttributeArgKind::Event])], vec![
            plain_field(10, "field_1", "i32", vec![ink_attr(11, &[AttributeArgKind::Message])]),
            plain_field(20, "field_2", "bool", Vec::new()),
        ]),
        "first optional ink! attribute of an event field must be #[ink(topic)]",
    )
}

#[test]
fn conflicting_field_attributes_fails() {
    assert_try_from_fails(
        event_struct(vec![ink_attr(1, &[AttributeArgKind::Event])], vec![
            plain_field(10, "field_1", "i32", vec![
                ink_attr(11, &[AttributeArgKind::Topic]),
                ink_attr(12, &[AttributeArgKind::Payable]),
            ]),
            plain_field(20, "field_2", "bool", Vec::new()),
        ]),
        "encountered conflicting ink! attribute for event field",
    )
}
