use enum_wrapper::attr::{extract, extract_required};
use enum_wrapper::descriptor::Descriptor;
use enum_wrapper::generate::{expand, generate, select_mode};
use enum_wrapper::model::{Body, Declaration, Lit, MetaItem, NestedMetaItem, Variant, WrapError};
use enum_wrapper::synth::{ErrorKind, Expansion, GenerationMode};
use enum_wrapper::text::same_text;

fn pair(name: &str, value: &str) -> NestedMetaItem {
    NestedMetaItem::MetaItem(MetaItem::NameValue(name.to_string(), Lit::Str(value.to_string())))
}

fn wrap(items: Vec<NestedMetaItem>) -> MetaItem {
    MetaItem::List("wrap".to_string(), items)
}

fn variant(name: &str, suffix: &str) -> Variant {
    Variant { name: name.to_string(), attrs: vec![wrap(vec![pair("c_variant", suffix)])] }
}

fn color(top: Vec<MetaItem>) -> Declaration {
    Declaration {
        name: "Color".to_string(),
        attrs: top,
        body: Body::Enum(vec![variant("Red", "RED"), variant("Green", "GREEN")]),
    }
}

fn colour_t() -> Vec<MetaItem> {
    vec![wrap(vec![pair("c_enum", "Colour_t")])]
}

fn is_missing(e: &WrapError, owner: &str, key: &str) -> bool {
    match e {
        WrapError::MissingAttribute { owner: o, key: k } => o == owner && k == key,
        _ => false,
    }
}

fn is_shape(e: &WrapError, owner: &str, key: &str) -> bool {
    match e {
        WrapError::AttributeShape { owner: o, key: k } => o == owner && k == key,
        _ => false,
    }
}

fn unwrap_expansion(r: Result<Expansion, WrapError>) -> Expansion {
    match r {
        Ok(e) => e,
        Err(_) => panic!("generation failed"),
    }
}

#[test]
fn color_scenario_fallible() {
    let e = unwrap_expansion(generate(&color(colour_t())));
    assert!(matches!(e.mode, GenerationMode::Fallible));
    assert_eq!(e.as_external("Red"), Some("Colour_t_RED".to_string()));
    assert_eq!(e.as_external("Green"), Some("Colour_t_GREEN".to_string()));
    assert_eq!(e.try_from_external("Colour_t_BLUE"), Some(Err(ErrorKind::UnexpectedVariant)));
    assert_eq!(e.try_from_external("Colour_t_RED"), Some(Ok("Red".to_string())));
    assert_eq!(e.from_external("Colour_t_RED"), None);
}

#[test]
fn color_scenario_text() {
    let text = match expand(&color(colour_t())) {
        Ok(t) => t,
        Err(_) => panic!("generation failed"),
    };
    let expected = "impl Color {\n    /// Returns the external value that corresponds to this variant.\n    pub fn as_external(&self) -> Colour_t {\n        match *self {\n            Color::Red => Colour_t_RED,\n            Color::Green => Colour_t_GREEN,\n        }\n    }\n\n    /// Returns the variant for an external value.\n    ///\n    /// # Errors\n    /// * `UnexpectedVariant`, where the value maps to no variant.\n    pub fn try_from_external(value: Colour_t) -> Result<Self, Error> {\n        match value {\n            Colour_t_RED => Ok(Color::Red),\n            Colour_t_GREEN => Ok(Color::Green),\n            _ => Err(Error::from_kind(ErrorKind::UnexpectedVariant)),\n        }\n    }\n}\n";
    assert_eq!(text, expected);
}

#[test]
fn fallback_text_and_arms() {
    let mut top = colour_t();
    top.push(wrap(vec![pair("default", "Red")]));
    let e = unwrap_expansion(generate(&color(top)));
    assert!(matches!(&e.mode, GenerationMode::Fallback(d) if d == "Red"));
    let fwd = e.as_external_arms();
    assert_eq!(fwd.len(), 2);
    assert_eq!(fwd[0].pattern, "Color::Red");
    assert_eq!(fwd[0].body, "Colour_t_RED");
    let rev = e.reverse_arms();
    assert_eq!(rev.len(), 3);
    assert_eq!(rev[1].pattern, "Colour_t_GREEN");
    assert_eq!(rev[1].body, "Color::Green");
    assert_eq!(rev[2].pattern, "_");
    assert_eq!(rev[2].body, "Color::Red");
    let text = e.render();
    assert!(text.contains("    pub fn from_external(value: Colour_t) -> Self {\n"));
    assert!(text.contains("            _ => Color::Red,\n"));
    assert!(!text.contains("try_from_external"));
}

#[test]
fn fallback_conversions() {
    let mut top = colour_t();
    top.push(wrap(vec![pair("default", "Green")]));
    let e = unwrap_expansion(generate(&color(top)));
    assert_eq!(e.from_external("Colour_t_RED"), Some("Red".to_string()));
    assert_eq!(e.from_external("Colour_t_BLUE"), Some("Green".to_string()));
    assert_eq!(e.try_from_external("Colour_t_RED"), None);
}

#[test]
fn round_trip_every_variant() {
    let decl = Declaration {
        name: "Mode".to_string(),
        attrs: vec![wrap(vec![pair("c_enum", "mode_t")])],
        body: Body::Enum(vec![variant("A", "ONE"), variant("B", "TWO"), variant("C", "THREE")]),
    };
    let e = unwrap_expansion(generate(&decl));
    for v in ["A", "B", "C"] {
        let s = e.as_external(v).unwrap();
        assert_eq!(e.try_from_external(&s), Some(Ok(v.to_string())));
    }
    assert_eq!(e.as_external("D"), None);
}

#[test]
fn duplicate_symbols_reach_first_variant_only() {
    let decl = Declaration {
        name: "Dup".to_string(),
        attrs: vec![wrap(vec![pair("c_enum", "dup_t")])],
        body: Body::Enum(vec![variant("A", "X"), variant("B", "X")]),
    };
    let e = unwrap_expansion(generate(&decl));
    assert_eq!(e.as_external("B"), Some("dup_t_X".to_string()));
    assert_eq!(e.try_from_external("dup_t_X"), Some(Ok("A".to_string())));
    assert_eq!(e.reverse_arms().len(), 3);
}

#[test]
fn missing_external_name() {
    let r = generate(&color(vec![]));
    assert!(matches!(r, Err(ref e) if is_missing(e, "Color", "c_enum")));
}

#[test]
fn missing_variant_symbol_names_variant() {
    let decl = Declaration {
        name: "Color".to_string(),
        attrs: colour_t(),
        body: Body::Enum(vec![
            variant("Red", "RED"),
            Variant { name: "Green".to_string(), attrs: vec![] },
            Variant { name: "Blue".to_string(), attrs: vec![] },
        ]),
    };
    let r = generate(&decl);
    assert!(matches!(r, Err(ref e) if is_missing(e, "Green", "c_variant")));
}

#[test]
fn struct_rejected_regardless_of_attributes() {
    let decl = Declaration { name: "S".to_string(), attrs: vec![], body: Body::Struct };
    assert!(matches!(generate(&decl), Err(WrapError::UnsupportedDeclarationShape)));
    let decl = Declaration {
        name: "S".to_string(),
        attrs: vec![wrap(vec![NestedMetaItem::MetaItem(MetaItem::Word("junk".to_string()))])],
        body: Body::Struct,
    };
    assert!(matches!(expand(&decl), Err(WrapError::UnsupportedDeclarationShape)));
}

#[test]
fn non_string_value_is_shape_error() {
    let top = vec![wrap(vec![NestedMetaItem::MetaItem(MetaItem::NameValue(
        "c_enum".to_string(),
        Lit::Other("7".to_string()),
    ))])];
    let r = generate(&color(top));
    assert!(matches!(r, Err(ref e) if is_shape(e, "Color", "c_enum")));
}

#[test]
fn nested_word_is_shape_error() {
    let attrs = vec![wrap(vec![pair("c_variant", "RED"), NestedMetaItem::MetaItem(MetaItem::Word("w".to_string()))])];
    let r = extract(&"Red".to_string(), &attrs, "wrap", "c_variant");
    assert!(matches!(r, Err(ref e) if is_shape(e, "Red", "c_variant")));
    let attrs = vec![wrap(vec![NestedMetaItem::Literal(Lit::Str("x".to_string()))])];
    let r = extract(&"Red".to_string(), &attrs, "wrap", "c_variant");
    assert!(matches!(r, Err(ref e) if is_shape(e, "Red", "c_variant")));
}

#[test]
fn malformed_default_is_shape_error() {
    let mut top = colour_t();
    top.push(wrap(vec![NestedMetaItem::MetaItem(MetaItem::NameValue("default".to_string(), Lit::Other("1".to_string())))]));
    let r = generate(&color(top));
    assert!(matches!(r, Err(ref e) if is_shape(e, "Color", "default")));
}

#[test]
fn variant_shape_error_names_variant() {
    let decl = Declaration {
        name: "Color".to_string(),
        attrs: colour_t(),
        body: Body::Enum(vec![Variant {
            name: "Red".to_string(),
            attrs: vec![wrap(vec![NestedMetaItem::MetaItem(MetaItem::List("c_variant".to_string(), vec![]))])],
        }]),
    };
    let r = generate(&decl);
    assert!(matches!(r, Err(ref e) if is_shape(e, "Red", "c_variant")));
}

#[test]
fn last_match_wins() {
    let attrs = vec![
        wrap(vec![pair("c_variant", "FIRST"), pair("c_variant", "SECOND")]),
        MetaItem::NameValue("doc".to_string(), Lit::Str("text".to_string())),
        wrap(vec![pair("other", "x"), pair("c_variant", "THIRD")]),
    ];
    let r = extract_required(&"V".to_string(), &attrs, "wrap", "c_variant");
    assert!(matches!(r, Ok(ref s) if s == "THIRD"));
}

#[test]
fn other_namespaces_ignored() {
    let attrs = vec![
        MetaItem::List("serde".to_string(), vec![pair("c_variant", "NO"), NestedMetaItem::MetaItem(MetaItem::Word("w".to_string()))]),
        MetaItem::Word("wrap".to_string()),
        MetaItem::NameValue("wrap".to_string(), Lit::Other("1".to_string())),
    ];
    let r = extract(&"V".to_string(), &attrs, "wrap", "c_variant");
    assert!(matches!(r, Ok(None)));
    let r = extract_required(&"V".to_string(), &attrs, "wrap", "c_variant");
    assert!(matches!(r, Err(ref e) if is_missing(e, "V", "c_variant")));
}

#[test]
fn unrelated_non_string_pair_ignored() {
    let attrs = vec![wrap(vec![
        NestedMetaItem::MetaItem(MetaItem::NameValue("size".to_string(), Lit::Other("4".to_string()))),
        pair("c_variant", "OK"),
    ])];
    let r = extract(&"V".to_string(), &attrs, "wrap", "c_variant");
    assert!(matches!(r, Ok(Some(ref s)) if s == "OK"));
}

#[test]
fn mode_selection() {
    let attrs = vec![wrap(vec![pair("default", "Unknown")])];
    assert!(matches!(select_mode(&"E".to_string(), &attrs), Ok(GenerationMode::Fallback(ref v)) if v == "Unknown"));
    assert!(matches!(select_mode(&"E".to_string(), &vec![]), Ok(GenerationMode::Fallible)));
}

#[test]
fn descriptor_symbol_and_arms() {
    let d = match Descriptor::build(&"Color".to_string(), &"Colour_t".to_string(), &variant("Red", "RED")) {
        Ok(d) => d,
        Err(_) => panic!("descriptor failed"),
    };
    assert_eq!(d.symbol, "Colour_t_RED");
    assert_eq!(d.variant, "Red");
    let a = d.as_external_arm();
    assert_eq!((a.pattern.as_str(), a.body.as_str()), ("Color::Red", "Colour_t_RED"));
    let a = d.from_external_arm();
    assert_eq!((a.pattern.as_str(), a.body.as_str()), ("Colour_t_RED", "Color::Red"));
    let a = d.try_from_external_arm();
    assert_eq!((a.pattern.as_str(), a.body.as_str()), ("Colour_t_RED", "Ok(Color::Red)"));
}

#[test]
fn empty_enum() {
    let decl = Declaration { name: "E".to_string(), attrs: vec![wrap(vec![pair("c_enum", "e_t")])], body: Body::Enum(vec![]) };
    let e = unwrap_expansion(generate(&decl));
    assert_eq!(e.as_external_arms().len(), 0);
    assert_eq!(e.reverse_arms().len(), 1);
    assert_eq!(e.try_from_external("e_t_A"), Some(Err(ErrorKind::UnexpectedVariant)));
    assert!(e.render().contains("        match *self {\n        }\n"));
}

#[test]
fn text_comparison() {
    assert!(same_text("wrap", "wrap"));
    assert!(!same_text("wrap", "wrapper"));
    assert!(!same_text("wrap", "warp"));
    assert!(same_text("", ""));
}
