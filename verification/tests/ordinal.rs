use ordinalizer::arms::generate_match_arms;
use ordinalizer::decl::detect_variant;
use ordinalizer::decl::detect_variants;
use ordinalizer::decl::FieldListDecl;
use ordinalizer::decl::OrdinalError;
use ordinalizer::decl::TypeBody;
use ordinalizer::decl::TypeDecl;
use ordinalizer::decl::VariantDecl;
use ordinalizer::emit::derive_ordinal;
use ordinalizer::eval::ordinal;
use ordinalizer::eval::EnumValue;
use ordinalizer::eval::FieldContents;

fn unit_variant(name: &str) -> VariantDecl {
    VariantDecl {
        name: name.to_string(),
        fields: FieldListDecl::Unit,
    }
}

fn unnamed_variant(name: &str, count: usize) -> VariantDecl {
    VariantDecl {
        name: name.to_string(),
        fields: FieldListDecl::Unnamed { count },
    }
}

fn named_variant(name: &str, count: usize) -> VariantDecl {
    VariantDecl {
        name: name.to_string(),
        fields: FieldListDecl::Named { count },
    }
}

fn enum_decl(name: &str, variants: Vec<VariantDecl>) -> TypeDecl {
    TypeDecl {
        name: name.to_string(),
        body: TypeBody::Variants(variants),
    }
}

fn unit_value(variant: &str) -> EnumValue {
    EnumValue {
        variant: variant.to_string(),
        contents: FieldContents::Unit,
    }
}

fn tuple_value(variant: &str, fields: &[&str]) -> EnumValue {
    EnumValue {
        variant: variant.to_string(),
        contents: FieldContents::Unnamed(fields.iter().map(|f| f.to_string()).collect()),
    }
}

fn braced_value(variant: &str, fields: &[&str]) -> EnumValue {
    EnumValue {
        variant: variant.to_string(),
        contents: FieldContents::Named(fields.iter().map(|f| f.to_string()).collect()),
    }
}

#[test]
fn basic() {
    let decl = enum_decl(
        "Test",
        vec![
            unit_variant("A"),
            unit_variant("B"),
            unit_variant("C"),
            unit_variant("D"),
            unit_variant("E"),
            unit_variant("F"),
            unit_variant("G"),
        ],
    );
    let variants = detect_variants(&decl).unwrap();

    assert_eq!(ordinal(&variants, &unit_value("A")), Some(0));
    assert_eq!(ordinal(&variants, &unit_value("B")), Some(1));
    assert_eq!(ordinal(&variants, &unit_value("C")), Some(2));
    assert_eq!(ordinal(&variants, &unit_value("D")), Some(3));
    assert_eq!(ordinal(&variants, &unit_value("E")), Some(4));
    assert_eq!(ordinal(&variants, &unit_value("F")), Some(5));
    assert_eq!(ordinal(&variants, &unit_value("G")), Some(6));
}

#[test]
fn fields() {
    let decl = enum_decl(
        "Test",
        vec![
            unnamed_variant("A", 1),
            named_variant("B", 2),
            unnamed_variant("C", 2),
            unit_variant("D"),
        ],
    );
    let variants = detect_variants(&decl).unwrap();

    assert_eq!(ordinal(&variants, &tuple_value("A", &["43223"])), Some(0));
    assert_eq!(ordinal(&variants, &braced_value("B", &["test", "10"])), Some(1));
    assert_eq!(ordinal(&variants, &tuple_value("C", &["10", "0"])), Some(2));
    assert_eq!(ordinal(&variants, &unit_value("D")), Some(3));
}

#[test]
fn emitted_method_text() {
    let decl = enum_decl("Animal", vec![unit_variant("Dog"), named_variant("Cat", 1)]);
    let text = derive_ordinal(&decl).unwrap();
    assert_eq!(
        text,
        "impl Animal { pub fn ordinal(&self) -> usize { match self { \
         Animal::Dog => 0, Animal::Cat { .. } => 1, } } }"
    );
}

#[test]
fn match_arm_patterns() {
    let decl = enum_decl(
        "Test",
        vec![
            unnamed_variant("A", 1),
            named_variant("B", 2),
            unnamed_variant("C", 2),
            unit_variant("D"),
        ],
    );
    let variants = detect_variants(&decl).unwrap();
    let arms = generate_match_arms(&variants, &decl);
    assert_eq!(
        arms,
        vec![
            "Test::A(_) => 0",
            "Test::B { .. } => 1",
            "Test::C(_, _) => 2",
            "Test::D => 3",
        ]
    );
}

#[test]
fn zero_arity_unnamed_list() {
    let decl = enum_decl("Test", vec![unnamed_variant("V", 0), unit_variant("W")]);
    let variants = detect_variants(&decl).unwrap();
    let arms = generate_match_arms(&variants, &decl);
    // A zero-length unnamed list renders as the bare variant path, like a
    // variant without fields.
    assert_eq!(arms, vec!["Test::V => 0", "Test::W => 1"]);
    // Its rule accepts a value with an empty positional list and a value
    // without fields alike: the two shapes behave identically.
    assert_eq!(ordinal(&variants, &tuple_value("V", &[])), Some(0));
    assert_eq!(ordinal(&variants, &unit_value("V")), Some(0));
}

#[test]
fn non_enum_rejected() {
    let record = TypeDecl {
        name: "Point".to_string(),
        body: TypeBody::Record,
    };
    assert_eq!(derive_ordinal(&record), Err(OrdinalError::NotVariantBased));
    assert_eq!(detect_variants(&record).err(), Some(OrdinalError::NotVariantBased));

    let untagged = TypeDecl {
        name: "Raw".to_string(),
        body: TypeBody::Untagged,
    };
    assert_eq!(derive_ordinal(&untagged), Err(OrdinalError::NotVariantBased));
}

#[test]
fn error_message_text() {
    assert_eq!(
        OrdinalError::NotVariantBased.message(),
        "cannot derive `Ordinal` on an item which is not an enum"
    );
}

#[test]
fn field_values_ignored() {
    let decl = enum_decl(
        "Test",
        vec![unnamed_variant("A", 2), named_variant("B", 2), unit_variant("C")],
    );
    let variants = detect_variants(&decl).unwrap();

    let first = ordinal(&variants, &tuple_value("A", &["1", "2"]));
    let second = ordinal(&variants, &tuple_value("A", &["999", "-4"]));
    assert_eq!(first, Some(0));
    assert_eq!(first, second);

    let third = ordinal(&variants, &braced_value("B", &["x", "y"]));
    let fourth = ordinal(&variants, &braced_value("B", &["a", "b"]));
    assert_eq!(third, Some(1));
    assert_eq!(third, fourth);
}

#[test]
fn reordering_follows_new_order() {
    let first = enum_decl(
        "Test",
        vec![unit_variant("A"), unit_variant("B"), unit_variant("C")],
    );
    let second = enum_decl(
        "Test",
        vec![unit_variant("C"), unit_variant("A"), unit_variant("B")],
    );
    let vs1 = detect_variants(&first).unwrap();
    let vs2 = detect_variants(&second).unwrap();

    assert_eq!(ordinal(&vs1, &unit_value("B")), Some(1));
    assert_eq!(ordinal(&vs2, &unit_value("B")), Some(2));
    assert_eq!(ordinal(&vs1, &unit_value("C")), Some(2));
    assert_eq!(ordinal(&vs2, &unit_value("C")), Some(0));
}

#[test]
fn arity_change_keeps_ordinals() {
    let narrow = enum_decl("Test", vec![unnamed_variant("A", 1), unit_variant("B")]);
    let wide = enum_decl("Test", vec![unnamed_variant("A", 3), unit_variant("B")]);
    let vs_narrow = detect_variants(&narrow).unwrap();
    let vs_wide = detect_variants(&wide).unwrap();

    // The changed variant keeps its ordinal; only its own rule's arity moves.
    assert_eq!(ordinal(&vs_narrow, &tuple_value("A", &["7"])), Some(0));
    assert_eq!(ordinal(&vs_wide, &tuple_value("A", &["7", "8", "9"])), Some(0));
    let arms_narrow = generate_match_arms(&vs_narrow, &narrow);
    let arms_wide = generate_match_arms(&vs_wide, &wide);
    assert_eq!(arms_narrow[0], "Test::A(_) => 0");
    assert_eq!(arms_wide[0], "Test::A(_, _, _) => 0");
    assert_eq!(arms_narrow[1], arms_wide[1]);
}

#[test]
fn named_field_count_collapses() {
    let one = detect_variant(&named_variant("B", 1));
    let five = detect_variant(&named_variant("B", 5));
    assert!(one.has_named_fields);
    assert_eq!(one.unit_field_count, 0);
    assert!(five.has_named_fields);
    assert_eq!(five.unit_field_count, 0);
    assert_eq!(one.ident, five.ident);
}

#[test]
fn two_digit_ordinals() {
    let mut variants_decl = Vec::new();
    for i in 0..12usize {
        variants_decl.push(unit_variant(&format!("V{}", i)));
    }
    let decl = enum_decl("Big", variants_decl);
    let variants = detect_variants(&decl).unwrap();
    let arms = generate_match_arms(&variants, &decl);
    assert_eq!(arms[9], "Big::V9 => 9");
    assert_eq!(arms[10], "Big::V10 => 10");
    assert_eq!(arms[11], "Big::V11 => 11");
    assert_eq!(ordinal(&variants, &unit_value("V10")), Some(10));
}

#[test]
fn no_rule_matches() {
    let decl = enum_decl("Test", vec![unnamed_variant("A", 1), unit_variant("B")]);
    let variants = detect_variants(&decl).unwrap();
    // A variant name the declaration does not hold.
    assert_eq!(ordinal(&variants, &unit_value("Z")), None);
    // A declared name with contents of the wrong shape.
    assert_eq!(ordinal(&variants, &tuple_value("A", &["1", "2"])), None);
    assert_eq!(ordinal(&variants, &braced_value("B", &["x"])), None);
}

#[test]
fn empty_declaration() {
    let decl = enum_decl("Never", vec![]);
    let variants = detect_variants(&decl).unwrap();
    assert_eq!(variants.len(), 0);
    assert_eq!(
        derive_ordinal(&decl).unwrap(),
        "impl Never { pub fn ordinal(&self) -> usize { match self { } } }"
    );
    assert_eq!(ordinal(&variants, &unit_value("Never")), None);
}
