use enum_tag::bind::{bind, ClassifyBinding, DispatchArm, Instance};
use enum_tag::derive::{enum_tag, enum_tag_impl, Diagnostic, Expansion, Output};
use enum_tag::error::{Rejection, UnsupportedKind};
use enum_tag::extract::extract;
use enum_tag::schema::{
    DeclBody, DeclKind, FieldShape, Fields, GenericParam, GenericParamKind, Generics, NamedField,
    Position, SourceTypeDecl, Span, TypeDecl, VariantDecl,
};
use enum_tag::synth::{make_unit, synthesize, Capability, DerivedTagDecl, TagCase};
use enum_tag::EnumTag;

fn text(s: &str) -> String {
    s.to_string()
}

fn span(line: usize, from: usize, to: usize) -> Span {
    Span { start: Position { line, column: from }, end: Position { line, column: to } }
}

fn no_generics() -> Generics {
    Generics { params: vec![], predicates: vec![] }
}

fn unit(ident: &str) -> VariantDecl {
    VariantDecl { ident: text(ident), fields: Fields::Unit, discriminant: None }
}

fn positional(ident: &str, types: &[&str]) -> VariantDecl {
    VariantDecl {
        ident: text(ident),
        fields: Fields::Positional(types.iter().map(|t| text(t)).collect()),
        discriminant: None,
    }
}

fn named(ident: &str, fields: &[(&str, &str)]) -> VariantDecl {
    VariantDecl {
        ident: text(ident),
        fields: Fields::Named(
            fields.iter().map(|(n, t)| NamedField { name: text(n), ty: text(t) }).collect(),
        ),
        discriminant: None,
    }
}

fn numbered(mut variant: VariantDecl, discriminant: &str) -> VariantDecl {
    variant.discriminant = Some(text(discriminant));
    variant
}

fn sum_type(ident: &str, variants: Vec<VariantDecl>) -> TypeDecl {
    TypeDecl {
        ident: text(ident),
        generics: no_generics(),
        body: DeclBody::Enum(variants),
        span: span(3, 0, 40),
    }
}

fn shape() -> TypeDecl {
    sum_type(
        "Shape",
        vec![positional("Circle", &["u32"]), positional("Square", &["u32"]), unit("Point")],
    )
}

fn status() -> TypeDecl {
    sum_type(
        "Status",
        vec![
            numbered(unit("Ok"), "0"),
            numbered(unit("Warning"), "1"),
            numbered(positional("Error", &["u16"]), "2"),
        ],
    )
}

fn case(ident: &str) -> TagCase {
    TagCase { ident: text(ident), discriminant: None }
}

fn arm(ident: &str) -> DispatchArm {
    DispatchArm { variant: text(ident), case: text(ident) }
}

fn instance(variant: &str, payload: &[&str]) -> Instance {
    Instance { variant: text(variant), payload: payload.iter().map(|p| text(p)).collect() }
}

fn source_of(decl: TypeDecl) -> SourceTypeDecl {
    match extract(decl) {
        Ok(source) => source,
        Err(rejection) => panic!("refused: {:?}", rejection),
    }
}

fn expansion_of(decl: TypeDecl) -> Expansion {
    match enum_tag_impl(decl) {
        Ok(expansion) => expansion,
        Err(rejection) => panic!("refused: {:?}", rejection),
    }
}

#[test]
fn extract_accepts_a_sum_type_as_it_stands() {
    let source = source_of(shape());
    assert_eq!(source.ident, "Shape");
    assert_eq!(source.generics, no_generics());
    assert_eq!(
        source.variants,
        vec![positional("Circle", &["u32"]), positional("Square", &["u32"]), unit("Point")]
    );
}

#[test]
fn extract_accepts_a_sum_type_without_variants() {
    let source = source_of(sum_type("Never", vec![]));
    assert_eq!(source.ident, "Never");
    assert!(source.variants.is_empty());
}

#[test]
fn extract_refuses_a_product_type() {
    let decl = TypeDecl {
        ident: text("Point"),
        generics: no_generics(),
        body: DeclBody::Struct(Fields::Named(vec![
            NamedField { name: text("x"), ty: text("i32") },
            NamedField { name: text("y"), ty: text("i32") },
        ])),
        span: span(7, 4, 38),
    };
    assert_eq!(
        extract(decl),
        Err(Rejection { kind: UnsupportedKind::Product, ident: text("Point"), span: span(7, 4, 38) })
    );
}

#[test]
fn extract_refuses_a_unit_product_type() {
    let decl = TypeDecl {
        ident: text("Marker"),
        generics: no_generics(),
        body: DeclBody::Struct(Fields::Unit),
        span: span(1, 0, 14),
    };
    assert_eq!(
        extract(decl),
        Err(Rejection { kind: UnsupportedKind::Product, ident: text("Marker"), span: span(1, 0, 14) })
    );
}

#[test]
fn extract_refuses_a_union() {
    let decl = TypeDecl {
        ident: text("Bits"),
        generics: no_generics(),
        body: DeclBody::Union(vec![
            NamedField { name: text("int"), ty: text("u32") },
            NamedField { name: text("float"), ty: text("f32") },
        ]),
        span: span(12, 0, 44),
    };
    assert_eq!(
        extract(decl),
        Err(Rejection { kind: UnsupportedKind::Union, ident: text("Bits"), span: span(12, 0, 44) })
    );
}

#[test]
fn rejection_messages_name_expected_and_found_kind() {
    assert_eq!(
        UnsupportedKind::Product.message(),
        "derive(EnumTag) only works on `enum` types but found struct"
    );
    assert_eq!(
        UnsupportedKind::Union.message(),
        "derive(EnumTag) only works on `enum` types but found union"
    );
    let rejection =
        Rejection { kind: UnsupportedKind::Union, ident: text("Bits"), span: span(1, 0, 9) };
    assert_eq!(
        rejection.message(),
        "derive(EnumTag) only works on `enum` types but found union"
    );
    assert_eq!(UnsupportedKind::Product.found_kind(), DeclKind::Struct);
    assert_eq!(UnsupportedKind::Union.found_kind(), DeclKind::Union);
}

#[test]
fn rejection_diagnostic_carries_span_and_message() {
    let rejection =
        Rejection { kind: UnsupportedKind::Product, ident: text("Point"), span: span(7, 4, 38) };
    assert_eq!(
        rejection.diagnostic(),
        Diagnostic {
            span: span(7, 4, 38),
            message: text("derive(EnumTag) only works on `enum` types but found struct"),
        }
    );
}

#[test]
fn make_unit_drops_the_payload_and_nothing_else() {
    let variant = VariantDecl {
        ident: text("Error"),
        fields: Fields::Named(vec![NamedField { name: text("code"), ty: text("u16") }]),
        discriminant: Some(text("1 << 3")),
    };
    assert_eq!(
        make_unit(&variant),
        TagCase { ident: text("Error"), discriminant: Some(text("1 << 3")) }
    );
}

#[test]
fn make_unit_gives_no_discriminant_where_none_is_written() {
    assert_eq!(make_unit(&positional("Circle", &["u32"])), case("Circle"));
    assert_eq!(make_unit(&unit("Point")), case("Point"));
    assert_eq!(make_unit(&named("Rect", &[("w", "u32"), ("h", "u32")])), case("Rect"));
}

#[test]
fn synthesize_shape() {
    let derived = synthesize(&source_of(shape()));
    assert_eq!(
        derived,
        DerivedTagDecl {
            ident: text("ShapeTag"),
            cases: vec![case("Circle"), case("Square"), case("Point")],
            capabilities: vec![
                Capability::DebugPrint,
                Capability::Duplication,
                Capability::StructuralEquality,
                Capability::TotalEquality,
                Capability::TotalOrdering,
                Capability::Hashing,
            ],
        }
    );
}

#[test]
fn synthesize_keeps_count_order_and_identifiers() {
    let idents = ["Zeta", "alpha", "Alpha", "M", "B9", "a_b"];
    let variants: Vec<VariantDecl> = idents.iter().map(|i| positional(i, &["u8"])).collect();
    let source = source_of(sum_type("Mixed", variants));
    let derived = synthesize(&source);
    assert_eq!(derived.cases.len(), idents.len());
    for (i, ident) in idents.iter().enumerate() {
        assert_eq!(derived.cases[i].ident, *ident);
        assert_eq!(derived.cases[i].ident, source.variants[i].ident);
    }
}

#[test]
fn synthesize_keeps_explicit_discriminants() {
    let derived = synthesize(&source_of(status()));
    assert_eq!(derived.ident, "StatusTag");
    assert_eq!(
        derived.cases,
        vec![
            TagCase { ident: text("Ok"), discriminant: Some(text("0")) },
            TagCase { ident: text("Warning"), discriminant: Some(text("1")) },
            TagCase { ident: text("Error"), discriminant: Some(text("2")) },
        ]
    );
}

#[test]
fn synthesize_assigns_no_discriminant_of_its_own() {
    let source = source_of(sum_type(
        "Foo",
        vec![unit("A"), numbered(unit("B"), "42"), positional("C", &["i32"])],
    ));
    let derived = synthesize(&source);
    assert_eq!(derived.cases[0].discriminant, None);
    assert_eq!(derived.cases[1].discriminant, Some(text("42")));
    assert_eq!(derived.cases[2].discriminant, None);
}

#[test]
fn synthesize_without_variants() {
    let derived = synthesize(&source_of(sum_type("Never", vec![])));
    assert_eq!(derived.ident, "NeverTag");
    assert!(derived.cases.is_empty());
    assert_eq!(derived.capabilities, Capability::every());
}

#[test]
fn capabilities_are_six_in_order() {
    assert_eq!(
        Capability::every(),
        vec![
            Capability::DebugPrint,
            Capability::Duplication,
            Capability::StructuralEquality,
            Capability::TotalEquality,
            Capability::TotalOrdering,
            Capability::Hashing,
        ]
    );
}

#[test]
fn capabilities_name_their_traits() {
    assert_eq!(Capability::DebugPrint.derives(), "::core::fmt::Debug");
    assert_eq!(Capability::Duplication.derives(), "::core::clone::Clone, ::core::marker::Copy");
    assert_eq!(Capability::StructuralEquality.derives(), "::core::cmp::PartialEq");
    assert_eq!(Capability::TotalEquality.derives(), "::core::cmp::Eq");
    assert_eq!(Capability::TotalOrdering.derives(), "::core::cmp::PartialOrd, ::core::cmp::Ord");
    assert_eq!(Capability::Hashing.derives(), "::core::hash::Hash");
}

#[test]
fn capabilities_do_not_depend_on_the_payload() {
    let opaque = sum_type(
        "Holder",
        vec![positional("Raw", &["*mut dyn FnMut()"]), named("Cell", &[("f", "fn(f64) -> f64")])],
    );
    let derived = synthesize(&source_of(opaque));
    assert_eq!(derived.capabilities, Capability::every());
}

#[test]
fn bind_shape() {
    let source = source_of(shape());
    let derived = synthesize(&source);
    assert_eq!(
        bind(&source, &derived),
        ClassifyBinding {
            receiver: text("Shape"),
            generics: no_generics(),
            tag: text("ShapeTag"),
            arms: vec![arm("Circle"), arm("Square"), arm("Point")],
        }
    );
}

#[test]
fn bind_has_one_arm_per_variant() {
    let idents = ["A", "B", "C", "D", "E", "F", "G"];
    let source = source_of(sum_type("Seven", idents.iter().map(|i| unit(i)).collect()));
    let derived = synthesize(&source);
    let binding = bind(&source, &derived);
    assert_eq!(binding.arms.len(), 7);
    for (i, ident) in idents.iter().enumerate() {
        assert_eq!(binding.arms[i], arm(ident));
    }
}

#[test]
fn bind_keeps_the_generic_parameters_and_their_constraints() {
    let generics = Generics {
        params: vec![
            GenericParam {
                attrs: vec![],
                kind: GenericParamKind::Lifetime,
                name: text("'a"),
                bounds: None,
                default: None,
            },
            GenericParam {
                attrs: vec![],
                kind: GenericParamKind::Type,
                name: text("T"),
                bounds: Some(text("Clone + 'a")),
                default: Some(text("u8")),
            },
            GenericParam {
                attrs: vec![],
                kind: GenericParamKind::Const,
                name: text("N"),
                bounds: Some(text("usize")),
                default: None,
            },
        ],
        predicates: vec![text("T: Default")],
    };
    let decl = TypeDecl {
        ident: text("Wrapper"),
        generics: generics.clone(),
        body: DeclBody::Enum(vec![positional("Full", &["&'a [T; N]"]), unit("Empty")]),
        span: span(1, 0, 60),
    };
    let expansion = expansion_of(decl);
    assert_eq!(expansion.binding.generics, generics);
    assert_eq!(expansion.binding.receiver, "Wrapper");
    assert_eq!(expansion.binding.tag, "WrapperTag");
    assert_eq!(expansion.tag.ident, "WrapperTag");
    assert_eq!(expansion.tag.cases, vec![case("Full"), case("Empty")]);
}

#[test]
fn classify_circle() {
    let binding = expansion_of(shape()).binding;
    assert_eq!(binding.classify(&instance("Circle", &["5"])), Some(text("Circle")));
}

#[test]
fn classify_every_shape_of_variant() {
    let decl = sum_type(
        "Foo",
        vec![
            unit("A"),
            numbered(unit("B"), "42"),
            positional("C", &["i32"]),
            positional("D", &["i32", "i64"]),
            named("E", &[("a", "i32")]),
            named("F", &[("a", "i32"), ("b", "i64")]),
        ],
    );
    let binding = expansion_of(decl).binding;
    assert_eq!(binding.classify(&instance("A", &[])), Some(text("A")));
    assert_eq!(binding.classify(&instance("B", &[])), Some(text("B")));
    assert_eq!(binding.classify(&instance("C", &["1"])), Some(text("C")));
    assert_eq!(binding.classify(&instance("D", &["2", "3"])), Some(text("D")));
    assert_eq!(binding.classify(&instance("E", &["4"])), Some(text("E")));
    assert_eq!(binding.classify(&instance("F", &["5", "6"])), Some(text("F")));
}

#[test]
fn classify_ignores_the_payload() {
    let binding = expansion_of(shape()).binding;
    for payload in [&["0"][..], &["5"], &["4294967295"], &[], &["1", "2", "3"]] {
        assert_eq!(binding.classify(&instance("Square", payload)), Some(text("Square")));
    }
}

#[test]
fn classify_has_no_default_arm() {
    let binding = expansion_of(shape()).binding;
    assert_eq!(binding.classify(&instance("Triangle", &["3"])), None);
    assert_eq!(binding.classify(&instance("circle", &["5"])), None);
    assert_eq!(binding.classify(&instance("", &[])), None);
    let empty = expansion_of(sum_type("Never", vec![])).binding;
    assert_eq!(empty.classify(&instance("Circle", &[])), None);
}

#[test]
fn classify_takes_the_first_matching_arm() {
    let binding = ClassifyBinding {
        receiver: text("Odd"),
        generics: no_generics(),
        tag: text("OddTag"),
        arms: vec![
            DispatchArm { variant: text("A"), case: text("First") },
            DispatchArm { variant: text("B"), case: text("Second") },
            DispatchArm { variant: text("A"), case: text("Third") },
        ],
    };
    assert_eq!(binding.classify(&instance("A", &[])), Some(text("First")));
    assert_eq!(binding.classify(&instance("B", &[])), Some(text("Second")));
}

#[test]
fn changing_a_payload_changes_nothing() {
    let before = sum_type("Shape", vec![positional("Circle", &["u32"]), unit("Point")]);
    let retyped = sum_type("Shape", vec![positional("Circle", &["f64"]), unit("Point")]);
    let grown = sum_type(
        "Shape",
        vec![named("Circle", &[("radius", "u32"), ("label", "String")]), unit("Point")],
    );
    let emptied = sum_type("Shape", vec![unit("Circle"), positional("Point", &["()"])]);
    let expected = expansion_of(before);
    for changed in [retyped, grown, emptied] {
        let expansion = expansion_of(changed);
        assert_eq!(expansion, expected);
        assert_eq!(
            expansion.binding.classify(&instance("Circle", &["1"])),
            expected.binding.classify(&instance("Circle", &["1", "2"]))
        );
    }
}

#[test]
fn enum_tag_impl_gives_both_declarations() {
    let expansion = expansion_of(status());
    let source = source_of(status());
    let derived = synthesize(&source);
    let binding = bind(&source, &derived);
    assert_eq!(expansion, Expansion { tag: derived, binding });
}

#[test]
fn enum_tag_impl_refuses_a_product_type() {
    let decl = TypeDecl {
        ident: text("Point"),
        generics: no_generics(),
        body: DeclBody::Struct(Fields::Positional(vec![text("i32"), text("i32")])),
        span: span(2, 0, 24),
    };
    assert_eq!(
        enum_tag_impl(decl),
        Err(Rejection { kind: UnsupportedKind::Product, ident: text("Point"), span: span(2, 0, 24) })
    );
}

#[test]
fn enum_tag_impl_refuses_a_union() {
    let decl = TypeDecl {
        ident: text("Bits"),
        generics: no_generics(),
        body: DeclBody::Union(vec![NamedField { name: text("raw"), ty: text("u64") }]),
        span: span(5, 2, 30),
    };
    assert_eq!(
        enum_tag_impl(decl),
        Err(Rejection { kind: UnsupportedKind::Union, ident: text("Bits"), span: span(5, 2, 30) })
    );
}

#[test]
fn enum_tag_reports_a_product_type_at_its_span() {
    let decl = TypeDecl {
        ident: text("Point"),
        generics: no_generics(),
        body: DeclBody::Struct(Fields::Named(vec![NamedField { name: text("x"), ty: text("i32") }])),
        span: span(9, 1, 27),
    };
    assert_eq!(
        enum_tag(decl),
        Output::Rejected(Diagnostic {
            span: span(9, 1, 27),
            message: text("derive(EnumTag) only works on `enum` types but found struct"),
        })
    );
}

#[test]
fn enum_tag_reports_a_union_at_its_span() {
    let decl = TypeDecl {
        ident: text("Bits"),
        generics: no_generics(),
        body: DeclBody::Union(vec![]),
        span: span(4, 0, 15),
    };
    assert_eq!(
        enum_tag(decl),
        Output::Rejected(Diagnostic {
            span: span(4, 0, 15),
            message: text("derive(EnumTag) only works on `enum` types but found union"),
        })
    );
}

#[test]
fn enum_tag_is_the_same_for_the_same_input() {
    assert_eq!(enum_tag(status()), enum_tag(status()));
    assert_eq!(enum_tag_impl(shape()), enum_tag_impl(shape()));
}

#[test]
fn fields_have_their_shape_as_tag() {
    assert_eq!(Fields::Unit.tag(), FieldShape::Unit);
    assert_eq!(Fields::Positional(vec![text("u8")]).tag(), FieldShape::Positional);
    assert_eq!(Fields::Positional(vec![]).tag(), FieldShape::Positional);
    assert_eq!(
        Fields::Named(vec![NamedField { name: text("a"), ty: text("u8") }]).tag(),
        FieldShape::Named
    );
}

#[test]
fn declarations_have_their_kind_as_tag() {
    assert_eq!(DeclBody::Enum(vec![unit("A")]).tag(), DeclKind::Enum);
    assert_eq!(DeclBody::Struct(Fields::Unit).tag(), DeclKind::Struct);
    assert_eq!(DeclBody::Union(vec![]).tag(), DeclKind::Union);
}
