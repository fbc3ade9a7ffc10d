use ink_ir::attrs::contains_ink_attributes;
use ink_ir::attrs::first_ink_attribute;
use ink_ir::attrs::partition_attributes;
use ink_ir::attrs::Attribute;
use ink_ir::attrs::AttributeArgKind;
use ink_ir::attrs::InkAttribute;
use ink_ir::attrs::KindTag;
use ink_ir::attrs::OtherAttribute;
use ink_ir::attrs::RawAttribute;
use ink_ir::attrs::Span;
use ink_ir::diagnostic::DiagnosticKind;

fn span(n: u32) -> Span {
    Span { lo: n, hi: n + 1 }
}

fn ink_attr(n: u32, kinds: &[AttributeArgKind]) -> RawAttribute {
    let mut args = Vec::new();
    for (k, kind) in kinds.iter().enumerate() {
        args.push(Attribute { kind: *kind, span: span(n + k as u32) });
    }
    RawAttribute::Ink { span: span(n), args }
}

fn other_attr(n: u32, path: &str) -> RawAttribute {
    RawAttribute::Other(OtherAttribute { span: span(n), path: path.to_string() })
}

#[test]
fn kind_tags_ignore_carried_values() {
    assert_eq!(AttributeArgKind::Selector(1).tag(), AttributeArgKind::Selector(2).tag());
    assert_eq!(AttributeArgKind::Salt(3).tag(), KindTag::Salt);
    assert_eq!(AttributeArgKind::Other(4).tag(), AttributeArgKind::Other(5).tag());
    assert_ne!(AttributeArgKind::Event.tag(), AttributeArgKind::Storage.tag());
}

#[test]
fn partition_splits_and_preserves_order() {
    let (inks, others) = partition_attributes(vec![
        other_attr(1, "doc"),
        ink_attr(2, &[AttributeArgKind::Event]),
        other_attr(3, "derive"),
        ink_attr(4, &[AttributeArgKind::Topic]),
    ])
    .unwrap();
    assert_eq!(inks.len(), 2);
    assert_eq!(inks[0].first().kind.tag(), KindTag::Event);
    assert_eq!(inks[1].first().kind.tag(), KindTag::Topic);
    let paths: Vec<String> = others.iter().map(|o| o.path.clone()).collect();
    assert_eq!(paths, vec!["doc".to_string(), "derive".to_string()]);
}

#[test]
fn partition_fails_on_malformed() {
    let err = partition_attributes(vec![
        ink_attr(1, &[AttributeArgKind::Event]),
        RawAttribute::Ink { span: span(2), args: Vec::new() },
    ])
    .unwrap_err();
    assert_eq!(err.kind, DiagnosticKind::MalformedAttribute);
    assert_eq!(err.span, span(2));
}

#[test]
fn from_expanded_flattens_in_source_order() {
    let (inks, _) = partition_attributes(vec![
        ink_attr(1, &[AttributeArgKind::Event]),
        ink_attr(2, &[AttributeArgKind::Selector(5)]),
    ])
    .unwrap();
    let normalized = InkAttribute::from_expanded(span(0), inks).unwrap();
    assert_eq!(normalized.args().len(), 2);
    assert_eq!(normalized.first().kind.tag(), KindTag::Event);
    assert_eq!(normalized.args()[1].kind, AttributeArgKind::Selector(5));
}

#[test]
fn from_expanded_rejects_empty_expansion() {
    let err = InkAttribute::from_expanded(span(9), Vec::new()).unwrap_err();
    assert_eq!(err.kind, DiagnosticKind::MissingExpectedAttribute);
    assert_eq!(err.span, span(9));
}

#[test]
fn from_expanded_rejects_duplicates_across_groups() {
    let (inks, _) = partition_attributes(vec![
        ink_attr(1, &[AttributeArgKind::Event]),
        ink_attr(2, &[AttributeArgKind::Event]),
    ])
    .unwrap();
    let err = InkAttribute::from_expanded(span(0), inks).unwrap_err();
    assert_eq!(err.kind, DiagnosticKind::DuplicateAttribute);
    assert_eq!(err.span, span(2));
}

#[test]
fn first_ink_attribute_skips_foreign_annotations() {
    let attrs = vec![other_attr(1, "doc"), ink_attr(2, &[AttributeArgKind::Storage])];
    assert!(contains_ink_attributes(&attrs));
    let first = first_ink_attribute(&attrs).unwrap().unwrap();
    assert_eq!(first.first().kind.tag(), KindTag::Storage);

    let none = vec![other_attr(1, "doc")];
    assert!(!contains_ink_attributes(&none));
    assert!(first_ink_attribute(&none).unwrap().is_none());
}
