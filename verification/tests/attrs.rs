use blocks_sdk::attrs::{AttrErrorKind, AttrInput, AttrSpan, Behavior, LitInput, MetaInput, NodeAttrs};

fn kv(key: &str, value: &str) -> MetaInput {
    MetaInput::NameValue { path: Some(key.to_string()), value: LitInput::Str(value.to_string()) }
}

fn node(metas: Vec<MetaInput>) -> AttrInput {
    AttrInput { is_node: true, args: Ok(metas) }
}

fn other() -> AttrInput {
    AttrInput { is_node: false, args: Err("not parsed".to_string()) }
}

#[test]
fn complete_attribute_parses() {
    let attrs = vec![
        other(),
        node(vec![kv("kind", "sys.core.folder"), kv("manifest", "manifests/folder.yaml"), kv("behavior", "none")]),
    ];
    let a = NodeAttrs::parse(&attrs).unwrap();
    assert_eq!(a.kind, "sys.core.folder");
    assert_eq!(a.manifest_path, "manifests/folder.yaml");
    assert_eq!(a.behavior, Behavior::ManifestOnly);
    assert_eq!(a.span, AttrSpan::Attr(1));
}

#[test]
fn keys_may_be_split_and_repeated() {
    let attrs = vec![
        node(vec![kv("kind", "a"), kv("behavior", "none")]),
        node(vec![kv("manifest", "m.yaml"), kv("kind", "b"), kv("behavior", "custom")]),
    ];
    let a = NodeAttrs::parse(&attrs).unwrap();
    assert_eq!(a.kind, "b");
    assert_eq!(a.behavior, Behavior::Custom);
    assert_eq!(a.span, AttrSpan::Attr(1));
}

#[test]
fn missing_keys_are_reported_in_order() {
    let e = NodeAttrs::parse(&vec![]).unwrap_err();
    assert_eq!(e.kind, AttrErrorKind::MissingKind);
    assert_eq!(e.span, AttrSpan::CallSite);
    assert_eq!(e.message(), "missing `kind = \"...\"` in `#[node(...)]`");
    let e = NodeAttrs::parse(&vec![node(vec![kv("kind", "k")])]).unwrap_err();
    assert_eq!(e.kind, AttrErrorKind::MissingManifest);
    assert_eq!(e.span, AttrSpan::Attr(0));
    let e = NodeAttrs::parse(&vec![node(vec![kv("kind", "k"), kv("manifest", "m")])]).unwrap_err();
    assert_eq!(e.kind, AttrErrorKind::MissingBehavior);
    assert!(e.message().starts_with("missing `behavior = \"...\"`"));
}

#[test]
fn malformed_entries_stop_at_the_first() {
    let e = NodeAttrs::parse(&vec![node(vec![kv("kind", "k"), MetaInput::Other, kv("bogus", "x")])]).unwrap_err();
    assert_eq!(e.kind, AttrErrorKind::ExpectedNameValue);
    assert_eq!(e.span, AttrSpan::Meta { attr: 0, meta: 1 });
    let lit = MetaInput::NameValue { path: Some("kind".to_string()), value: LitInput::Other };
    let e = NodeAttrs::parse(&vec![node(vec![lit])]).unwrap_err();
    assert_eq!(e.kind, AttrErrorKind::ExpectedStringLiteral);
    assert_eq!(e.message(), "expected a string literal");
    let e = NodeAttrs::parse(&vec![node(vec![kv("behavior", "maybe")])]).unwrap_err();
    assert_eq!(e.kind, AttrErrorKind::UnknownBehavior("maybe".to_string()));
    assert_eq!(
        e.message(),
        "unknown behavior `maybe` — use `\"none\"` for container kinds or `\"custom\"` when providing a NodeBehavior impl"
    );
    let e = NodeAttrs::parse(&vec![node(vec![kv("colour", "red")])]).unwrap_err();
    assert_eq!(e.kind, AttrErrorKind::UnknownKey);
    assert_eq!(e.message(), "unknown attribute — expected one of `kind`, `manifest`, `behavior`");
    let path = MetaInput::NameValue { path: None, value: LitInput::Str("x".to_string()) };
    let e = NodeAttrs::parse(&vec![node(vec![path])]).unwrap_err();
    assert_eq!(e.kind, AttrErrorKind::UnknownKey);
}

#[test]
fn unparsable_arguments_are_reported_and_other_attributes_ignored() {
    let e = NodeAttrs::parse(&vec![other(), AttrInput { is_node: true, args: Err("expected `,`".to_string()) }]).unwrap_err();
    assert_eq!(e.kind, AttrErrorKind::Unparsable("expected `,`".to_string()));
    assert_eq!(e.span, AttrSpan::Args(1));
    assert_eq!(e.message(), "expected `,`");
}

fn struct_attrs(src: &str) -> Vec<syn::Attribute> {
    syn::parse_str::<syn::DeriveInput>(src).unwrap().attrs
}

#[test]
fn attributes_of_a_struct_are_read_and_parsed() {
    let attrs = struct_attrs(
        "#[derive(Debug)] #[node(kind = \"acme.pump\", manifest = \"pump.yaml\")] #[doc = \"x\"] #[node(behavior = \"custom\")] struct Pump;",
    );
    let (outcome, inputs) = blocks_sdk::attrs::parse_attributes(&attrs);
    assert_eq!(inputs.len(), 4);
    assert!(!inputs[0].is_node);
    assert!(inputs[1].is_node);
    assert!(!inputs[2].is_node);
    let a = outcome.unwrap();
    assert_eq!(a.kind, "acme.pump");
    assert_eq!(a.manifest_path, "pump.yaml");
    assert_eq!(a.behavior, Behavior::Custom);
    assert_eq!(a.span, AttrSpan::Attr(3));
}

#[test]
fn attribute_syntax_errors_are_reported() {
    let attrs = struct_attrs("#[node(kind = 3)] struct Pump;");
    let (outcome, _) = blocks_sdk::attrs::parse_attributes(&attrs);
    let e = outcome.unwrap_err();
    assert_eq!(e.kind, AttrErrorKind::ExpectedStringLiteral);
    assert_eq!(e.span, AttrSpan::Meta { attr: 0, meta: 0 });

    let attrs = struct_attrs("#[node(kind)] struct Pump;");
    let (outcome, _) = blocks_sdk::attrs::parse_attributes(&attrs);
    assert_eq!(outcome.unwrap_err().kind, AttrErrorKind::ExpectedNameValue);

    let attrs = struct_attrs("#[node = \"x\"] struct Pump;");
    let (outcome, _) = blocks_sdk::attrs::parse_attributes(&attrs);
    let e = outcome.unwrap_err();
    assert!(matches!(e.kind, AttrErrorKind::Unparsable(_)));
    assert_eq!(e.span, AttrSpan::Args(0));

    let attrs = struct_attrs("#[serde(rename = 1)] struct Pump;");
    let (outcome, inputs) = blocks_sdk::attrs::parse_attributes(&attrs);
    assert!(!inputs[0].is_node);
    assert_eq!(outcome.unwrap_err().kind, AttrErrorKind::MissingKind);
}

#[test]
fn inserting_other_attributes_keeps_the_outcome() {
    let base = vec![node(vec![kv("kind", "k"), kv("manifest", "m.yaml"), kv("behavior", "none")])];
    let mut with_others = vec![other()];
    with_others.push(node(vec![kv("kind", "k"), kv("manifest", "m.yaml"), kv("behavior", "none")]));
    with_others.push(other());
    let a = NodeAttrs::parse(&base).unwrap();
    let b = NodeAttrs::parse(&with_others).unwrap();
    assert_eq!((a.kind, a.manifest_path, a.behavior), (b.kind, b.manifest_path, b.behavior));
    assert_eq!(b.span, AttrSpan::Attr(1));
}

#[test]
fn last_behavior_wins() {
    let attrs = vec![node(vec![kv("kind", "k"), kv("manifest", "m"), kv("behavior", "custom")]), node(vec![kv("behavior", "none")])];
    assert_eq!(NodeAttrs::parse(&attrs).unwrap().behavior, Behavior::ManifestOnly);
}
