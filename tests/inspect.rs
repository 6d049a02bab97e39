use variant_helper::{
    Attribute, Fields, FieldsNamed, FieldsUnnamed, MissingDiscriminant, NamedField, Path, Variant,
    VariantHelper,
};

fn path(segments: &[&str]) -> Path {
    Path {
        leading_colon: false,
        segments: segments.iter().map(|s| s.to_string()).collect(),
    }
}

fn marker(name: &str) -> Attribute {
    Attribute { path: path(&[name]), args: None }
}

fn list(name: &str, args: &str) -> Attribute {
    Attribute { path: path(&[name]), args: Some(args.to_string()) }
}

fn variant(ident: &str, attrs: Vec<Attribute>, fields: Fields, discriminant: Option<&str>) -> Variant {
    Variant {
        attrs,
        ident: ident.to_string(),
        fields,
        discriminant: discriminant.map(|d| d.to_string()),
    }
}

fn named(fields: &[(&str, &str)]) -> FieldsNamed {
    FieldsNamed {
        named: fields
            .iter()
            .map(|(i, t)| NamedField { ident: i.to_string(), ty: t.to_string() })
            .collect(),
    }
}

fn unnamed(types: &[&str]) -> FieldsUnnamed {
    FieldsUnnamed { unnamed: types.iter().map(|t| t.to_string()).collect() }
}

/// enum Message { Ok = 0, #[foo] Quit = 1, Move { x: u16, y: u16 }, Write(String), ChangeColor(u16, u16, u16) }
fn message_variants() -> Vec<Variant> {
    vec![
        variant("Ok", vec![], Fields::Unit, Some("0")),
        variant("Quit", vec![marker("foo")], Fields::Unit, Some("1")),
        variant("Move", vec![], Fields::Named(named(&[("x", "u16"), ("y", "u16")])), None),
        variant("Write", vec![], Fields::Unnamed(unnamed(&["String"])), None),
        variant("ChangeColor", vec![], Fields::Unnamed(unnamed(&["u16", "u16", "u16"])), None),
    ]
}

#[test]
fn enum_message() {
    let variants = message_variants();
    for v in variants.iter() {
        match v.ident.as_str() {
            "Ok" => {
                assert!(v.is_unit());
                assert!(v.has_attribute("foo").is_none());
                assert_eq!(v.literal().unwrap().to_string(), "0");
            }
            "Quit" => {
                assert!(v.is_unit());
                assert!(v.has_attribute("foo").is_some());
                assert_eq!(v.literal().unwrap().to_string(), "1");
            }
            "Move" => {
                assert!(v.is_named().is_some());
                assert!(!v.has_attribute("foo").is_some());
            }
            "Write" => {
                assert!(v.is_unnamed().is_some());
                assert!(!v.has_attribute("foo").is_some());
            }
            _ => (),
        }
    }
}

#[test]
fn unit_variant_has_no_fields() {
    let v = variant("Ok", vec![], Fields::Unit, Some("0"));
    assert!(v.is_unit());
    assert!(v.is_named().is_none());
    assert!(v.is_unnamed().is_none());
}

#[test]
fn named_variant_gives_its_fields_in_order() {
    let fields = named(&[("x", "u16"), ("y", "u32")]);
    let v = variant("Move", vec![], Fields::Named(fields.clone()), None);
    assert!(!v.is_unit());
    assert_eq!(v.is_named(), Some(&fields));
    let got = v.is_named().unwrap();
    assert_eq!(got.named[0].ident, "x");
    assert_eq!(got.named[1].ident, "y");
    assert_eq!(got.named[1].ty, "u32");
    assert!(v.is_unnamed().is_none());
}

#[test]
fn unnamed_variant_gives_its_fields_in_order() {
    let fields = unnamed(&["u8", "String"]);
    let v = variant("Write", vec![], Fields::Unnamed(fields.clone()), None);
    assert!(!v.is_unit());
    assert_eq!(v.is_unnamed(), Some(&fields));
    assert_eq!(v.is_unnamed().unwrap().unnamed, vec!["u8".to_string(), "String".to_string()]);
    assert!(v.is_named().is_none());
}

#[test]
fn no_attribute_on_unannotated_variant() {
    let v = variant("Ok", vec![], Fields::Unit, None);
    assert!(v.has_attribute("foo").is_none());
    assert!(v.has_attribute("").is_none());
}

#[test]
fn first_of_duplicate_attributes_wins() {
    let attrs = vec![marker("bar"), list("foo", "first"), list("foo", "second")];
    let v = variant("Quit", attrs, Fields::Unit, None);
    let found = v.has_attribute("foo").unwrap();
    assert_eq!(found.args.as_deref(), Some("first"));
    assert_eq!(v.has_attribute("bar").unwrap(), &marker("bar"));
}

#[test]
fn attribute_name_matches_whole_single_segment() {
    let qualified = Attribute { path: path(&["foo", "bar"]), args: None };
    let rooted = Attribute {
        path: Path { leading_colon: true, segments: vec!["foo".to_string()] },
        args: None,
    };
    let v = variant("Quit", vec![qualified, rooted, marker("foobar")], Fields::Unit, None);
    assert!(v.has_attribute("foo").is_none());
    assert!(v.has_attribute("bar").is_none());
    assert!(v.has_attribute("fooba").is_none());
    assert!(v.has_attribute("foobar").is_some());
    assert!(v.has_attribute("Foobar").is_none());
}

#[test]
fn path_is_ident() {
    assert!(path(&["repr"]).is_ident("repr"));
    assert!(!path(&["repr"]).is_ident("rep"));
    assert!(!path(&["std", "repr"]).is_ident("repr"));
    assert!(!path(&[]).is_ident(""));
}

#[test]
fn literal_renders_assigned_value() {
    let v = variant("Big", vec![], Fields::Unit, Some("0x10"));
    assert_eq!(v.literal(), Ok("0x10".to_string()));
}

#[test]
fn literal_without_discriminant_is_an_error() {
    let variants = message_variants();
    let write = &variants[3];
    assert_eq!(
        write.literal(),
        Err(MissingDiscriminant { variant: "Write".to_string() })
    );
}
