use method_export::assemble::generate;
use method_export::ast::{
    ClassDefinition, Diagnostic, DiagnosticKind, GenericCounts, Marker, MarkerArg,
    MethodDeclaration, Param, ParamPattern, RpcArgError, RpcMode,
};

fn plain_generics() -> GenericCounts {
    GenericCounts { type_params: 0, lifetimes: 0, const_params: 0 }
}

fn export_marker() -> Marker {
    Marker { name: "export".to_string(), outer: true, arg: MarkerArg::Absent }
}

fn rpc_marker(segments: &[&str]) -> Marker {
    Marker {
        name: "rpc".to_string(),
        outer: true,
        arg: MarkerArg::Path(segments.iter().map(|s| s.to_string()).collect()),
    }
}

fn named_param(name: &str, ty: &str, mutable: bool) -> Param {
    Param {
        pattern: ParamPattern::Named { name: name.to_string(), mutable },
        ty: ty.to_string(),
    }
}

fn wild_param(ty: &str) -> Param {
    Param { pattern: ParamPattern::Wildcard, ty: ty.to_string() }
}

fn method_decl(name: &str, params: Vec<Param>, markers: Vec<Marker>) -> MethodDeclaration {
    MethodDeclaration {
        name: name.to_string(),
        params,
        generics: plain_generics(),
        is_unsafe: false,
        markers,
        body: "{}".to_string(),
    }
}

fn class_of(methods: Vec<MethodDeclaration>) -> ClassDefinition {
    ClassDefinition { name: "MyClass".to_string(), methods }
}

#[test]
fn end_to_end_mixed_class() {
    // foo(_: i32) tagged export + rpc(Remote); bar<T>(x: T) tagged export;
    // baz(y: bool) untagged.
    let foo = method_decl(
        "foo",
        vec![wild_param("i32")],
        vec![export_marker(), rpc_marker(&["RpcMode", "Remote"])],
    );
    let mut bar = method_decl("bar", vec![named_param("x", "T", false)], vec![export_marker()]);
    bar.generics.type_params = 1;
    let baz = method_decl("baz", vec![named_param("y", "bool", false)], vec![]);

    let out = generate(class_of(vec![foo, bar.clone(), baz.clone()])).unwrap();

    assert_eq!(out.descriptors.len(), 1);
    assert_eq!(out.descriptors[0].name, "foo");
    assert_eq!(out.descriptors[0].rpc_mode, RpcMode::Remote);
    assert_eq!(out.descriptors[0].params, vec![named_param("__arg0", "i32", false)]);

    assert_eq!(
        out.diagnostics,
        vec![Diagnostic { method: "bar".to_string(), kind: DiagnosticKind::TypeParameters }]
    );

    assert_eq!(out.rewritten.name, "MyClass");
    assert_eq!(out.rewritten.methods.len(), 3);
    for m in &out.rewritten.methods {
        assert!(m.markers.is_empty());
    }
    // foo's signature is replaced by its normalized form.
    assert_eq!(out.rewritten.methods[0].params, vec![named_param("__arg0", "i32", false)]);
    // bar is kept with its generics, signature untouched.
    assert_eq!(out.rewritten.methods[1].name, "bar");
    assert_eq!(out.rewritten.methods[1].generics.type_params, 1);
    assert_eq!(out.rewritten.methods[1].params, vec![named_param("x", "T", false)]);
    // baz is kept untouched.
    let mut expected_baz = baz;
    expected_baz.markers.clear();
    assert_eq!(out.rewritten.methods[2], expected_baz);
}

#[test]
fn rewriting_is_idempotent() {
    let exported = method_decl(
        "step",
        vec![wild_param("u8"), named_param("v", "f32", true)],
        vec![export_marker(), rpc_marker(&["RpcMode", "Puppet"])],
    );
    let passive = method_decl("helper", vec![named_param("n", "i64", false)], vec![]);
    let out = generate(class_of(vec![exported, passive])).unwrap();

    let again = generate(out.rewritten.clone()).unwrap();
    assert!(again.descriptors.is_empty());
    assert!(again.diagnostics.is_empty());
    assert_eq!(again.rewritten, out.rewritten);
}

#[test]
fn descriptor_order_follows_declaration_order() {
    let one = method_decl("alpha", vec![], vec![export_marker()]);
    let skipped = method_decl("middle", vec![], vec![]);
    let two = method_decl(
        "beta",
        vec![],
        vec![export_marker(), rpc_marker(&["RpcMode", "MasterSync"])],
    );
    let three = method_decl("gamma", vec![], vec![export_marker()]);
    let out = generate(class_of(vec![one, skipped, two, three])).unwrap();

    let names: Vec<&str> = out.descriptors.iter().map(|d| d.name.as_str()).collect();
    assert_eq!(names, vec!["alpha", "beta", "gamma"]);
    // Rewritten order equals declaration order too.
    let rewritten_names: Vec<&str> =
        out.rewritten.methods.iter().map(|m| m.name.as_str()).collect();
    assert_eq!(rewritten_names, vec!["alpha", "middle", "beta", "gamma"]);
}

#[test]
fn wildcard_names_are_deterministic_and_distinct() {
    // Parameters (_, x, _): synthesized names at positions 0 and 2.
    let method = method_decl(
        "mixed",
        vec![wild_param("i32"), named_param("x", "bool", false), wild_param("u64")],
        vec![export_marker()],
    );
    let class = class_of(vec![method]);
    let out1 = generate(class.clone()).unwrap();
    let out2 = generate(class).unwrap();

    let params = &out1.descriptors[0].params;
    assert_eq!(params[0], named_param("__arg0", "i32", false));
    assert_eq!(params[1], named_param("x", "bool", false));
    assert_eq!(params[2], named_param("__arg2", "u64", false));
    let name0 = match &params[0].pattern {
        ParamPattern::Named { name, .. } => name.clone(),
        _ => panic!("wildcard not named"),
    };
    let name2 = match &params[2].pattern {
        ParamPattern::Named { name, .. } => name.clone(),
        _ => panic!("wildcard not named"),
    };
    assert_ne!(name0, name2);
    assert_ne!(name0, "x");
    assert_ne!(name2, "x");
    // Stable across repeated runs on identical input.
    assert_eq!(out1, out2);
}

#[test]
fn generic_method_rejected_sibling_kept() {
    let mut generic = method_decl("tricky", vec![named_param("t", "T", false)], vec![
        export_marker(),
    ]);
    generic.generics.type_params = 2;
    let plain = method_decl("solid", vec![], vec![export_marker()]);
    let out = generate(class_of(vec![generic, plain])).unwrap();

    assert_eq!(out.descriptors.len(), 1);
    assert_eq!(out.descriptors[0].name, "solid");
    assert_eq!(
        out.diagnostics,
        vec![Diagnostic { method: "tricky".to_string(), kind: DiagnosticKind::TypeParameters }]
    );
    // The rejected method stays in the rewritten class, markers stripped.
    assert_eq!(out.rewritten.methods[0].name, "tricky");
    assert!(out.rewritten.methods[0].markers.is_empty());
}

#[test]
fn lifetime_and_const_params_rejected() {
    let mut with_lifetime = method_decl("borrows", vec![], vec![export_marker()]);
    with_lifetime.generics.lifetimes = 1;
    let mut with_const = method_decl("sized", vec![], vec![export_marker()]);
    with_const.generics.const_params = 1;
    let out = generate(class_of(vec![with_lifetime, with_const])).unwrap();

    assert!(out.descriptors.is_empty());
    assert_eq!(
        out.diagnostics,
        vec![
            Diagnostic {
                method: "borrows".to_string(),
                kind: DiagnosticKind::LifetimeParameters
            },
            Diagnostic { method: "sized".to_string(), kind: DiagnosticKind::ConstParameters },
        ]
    );
}

#[test]
fn exported_method_without_rpc_marker_defaults_to_disabled() {
    let method = method_decl("quiet", vec![named_param("a", "i32", false)], vec![
        export_marker(),
    ]);
    let out = generate(class_of(vec![method])).unwrap();
    assert_eq!(out.descriptors.len(), 1);
    assert_eq!(out.descriptors[0].rpc_mode, RpcMode::Disabled);
}

#[test]
fn every_mode_spelling_classifies() {
    let expected = [
        ("Disabled", RpcMode::Disabled),
        ("Remote", RpcMode::Remote),
        ("RemoteSync", RpcMode::RemoteSync),
        ("Master", RpcMode::Master),
        ("Puppet", RpcMode::Puppet),
        ("MasterSync", RpcMode::MasterSync),
        ("PuppetSync", RpcMode::PuppetSync),
    ];
    for (spelling, mode) in expected {
        let method = method_decl("m", vec![], vec![
            export_marker(),
            rpc_marker(&["RpcMode", spelling]),
        ]);
        let out = generate(class_of(vec![method])).unwrap();
        assert_eq!(out.descriptors[0].rpc_mode, mode, "spelling {}", spelling);
    }
}

#[test]
fn unknown_mode_spelling_is_fatal() {
    let method = method_decl("m", vec![], vec![
        export_marker(),
        rpc_marker(&["RpcMode", "Bogus"]),
    ]);
    let sibling = method_decl("fine", vec![], vec![export_marker()]);
    let err = generate(class_of(vec![method, sibling])).unwrap_err();
    assert_eq!(err.method, "m");
    assert_eq!(err.error, RpcArgError::UnknownVariant("Bogus".to_string()));
}

#[test]
fn malformed_rpc_arguments_are_fatal() {
    for arg in [
        MarkerArg::Absent,
        MarkerArg::Opaque,
        MarkerArg::Path(vec!["Remote".to_string()]),
        MarkerArg::Path(vec!["RpcMode".to_string()]),
        MarkerArg::Path(vec![]),
    ] {
        let marker = Marker { name: "rpc".to_string(), outer: true, arg };
        let method = method_decl("m", vec![], vec![export_marker(), marker]);
        let err = generate(class_of(vec![method])).unwrap_err();
        assert_eq!(err.method, "m");
        assert_eq!(err.error, RpcArgError::MissingModePath);
    }
}

#[test]
fn qualified_mode_path_classifies() {
    let method = method_decl("m", vec![], vec![
        export_marker(),
        rpc_marker(&["gdnative", "init", "RpcMode", "Puppet"]),
    ]);
    let out = generate(class_of(vec![method])).unwrap();
    assert_eq!(out.descriptors[0].rpc_mode, RpcMode::Puppet);
}

#[test]
fn rpc_marker_without_export_is_not_fatal() {
    // A malformed rpc marker on a method that is not exported is ignored,
    // but still stripped from the rewritten class.
    let method = method_decl("m", vec![], vec![rpc_marker(&["Bogus"])]);
    let out = generate(class_of(vec![method])).unwrap();
    assert!(out.descriptors.is_empty());
    assert!(out.diagnostics.is_empty());
    assert!(out.rewritten.methods[0].markers.is_empty());
}

#[test]
fn first_rpc_marker_wins() {
    let method = method_decl("m", vec![], vec![
        export_marker(),
        rpc_marker(&["RpcMode", "Remote"]),
        rpc_marker(&["RpcMode", "Master"]),
    ]);
    let out = generate(class_of(vec![method])).unwrap();
    assert_eq!(out.descriptors[0].rpc_mode, RpcMode::Remote);
    assert!(out.rewritten.methods[0].markers.is_empty());
}

#[test]
fn other_markers_survive_inner_tags_ignored() {
    let other = Marker { name: "inline".to_string(), outer: true, arg: MarkerArg::Absent };
    let inner_export = Marker { name: "export".to_string(), outer: false, arg: MarkerArg::Absent };
    let method = method_decl("m", vec![], vec![
        export_marker(),
        other.clone(),
        export_marker(),
        inner_export.clone(),
    ]);
    let out = generate(class_of(vec![method])).unwrap();
    // The method is exported (first outer export marker wins; duplicates are
    // tolerated and all stripped); unrelated markers and inner-style tags
    // pass through.
    assert_eq!(out.descriptors.len(), 1);
    assert_eq!(out.rewritten.methods[0].markers, vec![other, inner_export]);
}

#[test]
fn unsafety_stripped_only_on_exported_valid_methods() {
    let mut exported = method_decl("danger", vec![], vec![export_marker()]);
    exported.is_unsafe = true;
    let mut passive = method_decl("keep", vec![], vec![]);
    passive.is_unsafe = true;
    let mut invalid = method_decl("generic", vec![], vec![export_marker()]);
    invalid.is_unsafe = true;
    invalid.generics.type_params = 1;
    let out = generate(class_of(vec![exported, passive, invalid])).unwrap();
    assert!(!out.rewritten.methods[0].is_unsafe);
    assert!(out.rewritten.methods[1].is_unsafe);
    assert!(out.rewritten.methods[2].is_unsafe);
}

#[test]
fn mutability_qualifier_stripped_from_bindings() {
    let exported = method_decl("m", vec![named_param("v", "i32", true)], vec![export_marker()]);
    let passive = method_decl("p", vec![named_param("w", "i32", true)], vec![]);
    let out = generate(class_of(vec![exported, passive])).unwrap();
    assert_eq!(out.descriptors[0].params, vec![named_param("v", "i32", false)]);
    assert_eq!(out.rewritten.methods[0].params, vec![named_param("v", "i32", false)]);
    // A method that is not exported keeps its declared mutability.
    assert_eq!(out.rewritten.methods[1].params, vec![named_param("w", "i32", true)]);
}

#[test]
fn empty_class_generates_nothing() {
    let out = generate(class_of(vec![])).unwrap();
    assert!(out.descriptors.is_empty());
    assert!(out.diagnostics.is_empty());
    assert!(out.rewritten.methods.is_empty());
}
