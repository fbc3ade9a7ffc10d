use ink_ir::attrs::Attribute;
use ink_ir::attrs::AttributeArgKind;
use ink_ir::attrs::OtherAttribute;
use ink_ir::attrs::RawAttribute;
use ink_ir::attrs::Span;
use ink_ir::diagnostic::DiagnosticKind;
use ink_ir::event::Event;
use ink_ir::item::Field;
use ink_ir::item::ItemStruct;
use ink_ir::item::Visibility;
use ink_ir::item::VisibilityKind;

fn span(n: u32) -> Span {
    Span { lo: n, hi: n + 1 }
}

fn ink_attr(n: u32, kinds: &[AttributeArgKind]) -> RawAttribute {
    let mut args = Vec::new();
    for (k, kind) in kinds.iter().enumerate() {
        args.push(Attribute { kind: *kind, span: span(n + k as u32) });
    }
    RawAttribute::Ink { span: span(n), args }
}

fn other_attr(n: u32, path: &str) -> RawAttribute {
    RawAttribute::Other(OtherAttribute { span: span(n), path: path.to_string() })
}

fn named_field(n: u32, name: &str, ty: &str, attrs: Vec<RawAttribute>) -> Field {
    Field {
        span: span(n),
        attrs,
        vis: Visibility { kind: VisibilityKind::Inherited, span: span(n) },
        ident: Some(name.to_string()),
        ty: ty.to_string(),
    }
}

fn pub_struct(attrs: Vec<RawAttribute>, fields: Vec<Field>) -> ItemStruct {
    ItemStruct {
        span: span(100),
        attrs,
        vis: Visibility { kind: VisibilityKind::Public, span: span(0) },
        ident: "Transaction".to_string(),
        generics: Vec::new(),
        fields,
    }
}

#[test]
fn fields_topic_flags_in_declaration_order() {
    let item = pub_struct(vec![ink_attr(1, &[AttributeArgKind::Event])], vec![
        named_field(10, "from", "AccountId", vec![ink_attr(11, &[AttributeArgKind::Topic])]),
        named_field(20, "value", "Balance", Vec::new()),
    ]);
    let event = Event::try_from(item).unwrap();
    let mut iter = event.fields();

    let first = iter.next().unwrap();
    assert!(first.is_topic);
    assert_eq!(first.ident().unwrap(), "from");
    assert_eq!(first.ty(), "AccountId");
    assert_eq!(first.span(), span(10));

    let second = iter.next().unwrap();
    assert!(!second.is_topic);
    assert_eq!(second.ident().unwrap(), "value");
    assert_eq!(second.ty(), "Balance");

    assert!(iter.next().is_none());
}

#[test]
fn fields_iteration_is_idempotent() {
    let item = pub_struct(vec![ink_attr(1, &[AttributeArgKind::Event])], vec![
        named_field(10, "from", "AccountId", vec![ink_attr(11, &[AttributeArgKind::Topic])]),
        named_field(20, "to", "AccountId", vec![ink_attr(21, &[AttributeArgKind::Topic])]),
        named_field(30, "value", "Balance", Vec::new()),
    ]);
    let event = Event::try_from(item).unwrap();

    let mut first_pass: Vec<(bool, String)> = Vec::new();
    let mut iter = event.fields();
    while let Some(field) = iter.next() {
        first_pass.push((field.is_topic, field.ident().unwrap().clone()));
    }

    let mut second_pass: Vec<(bool, String)> = Vec::new();
    let mut iter = event.fields();
    while let Some(field) = iter.next() {
        second_pass.push((field.is_topic, field.ident().unwrap().clone()));
    }

    assert_eq!(first_pass.len(), 3);
    assert_eq!(first_pass, second_pass);
}

#[test]
fn non_dsl_attributes_are_retained() {
    let item = pub_struct(
        vec![other_attr(1, "derive"), ink_attr(2, &[AttributeArgKind::Event]), other_attr(
            3, "doc",
        )],
        vec![named_field(10, "value", "Balance", vec![other_attr(11, "doc")])],
    );
    let event = Event::try_from(item).unwrap();
    assert_eq!(event.ident(), "Transaction");
    let kept: Vec<String> = event.attrs().iter().map(|a| a.path.clone()).collect();
    assert_eq!(kept, vec!["derive".to_string(), "doc".to_string()]);

    let mut iter = event.fields();
    let field = iter.next().unwrap();
    assert_eq!(field.attrs().len(), 1);
    assert_eq!(field.attrs()[0].path, "doc");
    assert_eq!(field.vis().kind, VisibilityKind::Inherited);
}

#[test]
fn malformed_struct_attribute_fails() {
    let malformed = RawAttribute::Ink { span: span(7), args: Vec::new() };
    let item = pub_struct(vec![ink_attr(1, &[AttributeArgKind::Event]), malformed], vec![]);
    let err = Event::try_from(item).unwrap_err();
    assert_eq!(err.kind, DiagnosticKind::MalformedAttribute);
    assert_eq!(err.span, span(7));
    assert_eq!(err.message(), "encountered malformed ink! attribute".to_string());
}

#[test]
fn conflicting_attribute_reports_offending_span() {
    let item = pub_struct(
        vec![ink_attr(1, &[AttributeArgKind::Event, AttributeArgKind::Storage])],
        vec![],
    );
    let err = Event::try_from(item).unwrap_err();
    assert_eq!(err.kind, DiagnosticKind::ConflictingAttribute);
    // the second argument of the group carries the conflict
    assert_eq!(err.span, span(2));
}

#[test]
fn duplicate_field_attribute_chains_field_position() {
    let item = pub_struct(vec![ink_attr(1, &[AttributeArgKind::Event])], vec![named_field(
        10,
        "from",
        "AccountId",
        vec![ink_attr(11, &[AttributeArgKind::Topic, AttributeArgKind::Topic])],
    )]);
    let err = Event::try_from(item).unwrap_err();
    assert_eq!(err.kind, DiagnosticKind::DuplicateAttribute);
    // the repeated annotation itself is the primary position
    assert_eq!(err.span, span(12));
    // the enclosing field's position is chained for context
    assert_eq!(err.notes, vec![span(10)]);
}

#[test]
fn missing_attribute_reports_struct_position() {
    let item = pub_struct(vec![other_attr(1, "derive")], vec![]);
    let err = Event::try_from(item).unwrap_err();
    assert_eq!(err.kind, DiagnosticKind::MissingExpectedAttribute);
    assert_eq!(err.span, span(100));
}

#[test]
fn is_ink_event_checks_first_annotation_only() {
    let event_first = pub_struct(
        vec![ink_attr(1, &[AttributeArgKind::Event]), ink_attr(2, &[AttributeArgKind::Storage])],
        vec![],
    );
    assert_eq!(Event::is_ink_event(&event_first).unwrap(), true);

    let storage_first = pub_struct(vec![ink_attr(1, &[AttributeArgKind::Storage])], vec![]);
    assert_eq!(Event::is_ink_event(&storage_first).unwrap(), false);

    let no_dsl = pub_struct(vec![other_attr(1, "derive")], vec![]);
    assert_eq!(Event::is_ink_event(&no_dsl).unwrap(), false);

    let malformed_first = pub_struct(
        vec![RawAttribute::Ink { span: span(4), args: Vec::new() }],
        vec![],
    );
    let err = Event::is_ink_event(&malformed_first).unwrap_err();
    assert_eq!(err.kind, DiagnosticKind::MalformedAttribute);
    assert_eq!(err.span, span(4));
}

#[test]
fn duplicate_detection_is_by_tag_not_value() {
    // two selector annotations with different values are still duplicates
    let item = pub_struct(
        vec![ink_attr(
            1,
            &[
                AttributeArgKind::Event,
                AttributeArgKind::Selector(1),
                AttributeArgKind::Selector(2),
            ],
        )],
        vec![],
    );
    let err = Event::try_from(item).unwrap_err();
    assert_eq!(err.kind, DiagnosticKind::DuplicateAttribute);
    assert_eq!(err.span, span(3));
}
