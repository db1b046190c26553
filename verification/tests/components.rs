use method_export::ast::{
    Marker, MarkerArg, MethodDeclaration, GenericCounts, RpcArgError, RpcMode, RpcModeWrapper,
};
use method_export::normalize::{decimal_string, synthesized_name, validate_generics};
use method_export::rpc::{classify_rpc_argument, resolve_mode_name};
use method_export::scan::{find_marker_position, scan_method, strip_markers};

fn outer_tag(name: &str) -> Marker {
    Marker { name: name.to_string(), outer: true, arg: MarkerArg::Absent }
}

fn rpc_path(segments: &[&str]) -> MarkerArg {
    MarkerArg::Path(segments.iter().map(|s| s.to_string()).collect())
}

#[test]
fn decimal_strings_are_exact() {
    assert_eq!(decimal_string(0), "0");
    assert_eq!(decimal_string(7), "7");
    assert_eq!(decimal_string(10), "10");
    assert_eq!(decimal_string(907), "907");
    assert_eq!(decimal_string(usize::MAX), usize::MAX.to_string());
}

#[test]
fn synthesized_names_are_exact() {
    assert_eq!(synthesized_name(0), "__arg0");
    assert_eq!(synthesized_name(2), "__arg2");
    assert_eq!(synthesized_name(10), "__arg10");
}

#[test]
fn mode_names_resolve_and_round_trip() {
    let modes = [
        RpcMode::Disabled,
        RpcMode::Remote,
        RpcMode::RemoteSync,
        RpcMode::Master,
        RpcMode::Puppet,
        RpcMode::MasterSync,
        RpcMode::PuppetSync,
    ];
    for mode in modes {
        let name = mode.variant_name();
        assert_eq!(resolve_mode_name(&name), Some(mode));
    }
    assert_eq!(resolve_mode_name(&"Bogus".to_string()), None);
    assert_eq!(resolve_mode_name(&"remote".to_string()), None);
    assert_eq!(resolve_mode_name(&"".to_string()), None);
}

#[test]
fn classification_reads_segment_after_anchor() {
    assert_eq!(
        classify_rpc_argument(&rpc_path(&["RpcMode", "RemoteSync"])),
        Ok(RpcMode::RemoteSync)
    );
    assert_eq!(
        classify_rpc_argument(&rpc_path(&["gdnative", "init", "RpcMode", "MasterSync"])),
        Ok(RpcMode::MasterSync)
    );
    // The segment right after the first anchor decides, even if an anchor
    // repeats later.
    assert_eq!(
        classify_rpc_argument(&rpc_path(&["RpcMode", "RpcMode", "Remote"])),
        Err(RpcArgError::UnknownVariant("RpcMode".to_string()))
    );
    assert_eq!(
        classify_rpc_argument(&rpc_path(&["Remote"])),
        Err(RpcArgError::MissingModePath)
    );
    assert_eq!(classify_rpc_argument(&MarkerArg::Absent), Err(RpcArgError::MissingModePath));
    assert_eq!(classify_rpc_argument(&MarkerArg::Opaque), Err(RpcArgError::MissingModePath));
}

#[test]
fn wrapper_spells_qualified_path() {
    let wrapper = RpcModeWrapper { rpc_mode: RpcMode::PuppetSync };
    let segments = wrapper.path_segments();
    assert_eq!(segments, vec!["gdnative", "init", "RpcMode", "PuppetSync"]);
}

#[test]
fn marker_lookup_finds_first_outer_match() {
    let inner = Marker { name: "export".to_string(), outer: false, arg: MarkerArg::Absent };
    let markers = vec![inner, outer_tag("inline"), outer_tag("export"), outer_tag("export")];
    assert_eq!(find_marker_position(&markers, &"export".to_string()), Some(2));
    assert_eq!(find_marker_position(&markers, &"inline".to_string()), Some(1));
    assert_eq!(find_marker_position(&markers, &"rpc".to_string()), None);
}

#[test]
fn stripping_removes_only_consumed_outer_tags() {
    let inner = Marker { name: "rpc".to_string(), outer: false, arg: MarkerArg::Absent };
    let markers = vec![
        outer_tag("export"),
        outer_tag("doc"),
        Marker { name: "rpc".to_string(), outer: true, arg: rpc_path(&["RpcMode", "Remote"]) },
        inner.clone(),
        outer_tag("export"),
    ];
    let stripped = strip_markers(&markers);
    assert_eq!(stripped, vec![outer_tag("doc"), inner]);
}

#[test]
fn scanning_reports_and_strips() {
    let mut method = MethodDeclaration {
        name: "m".to_string(),
        params: vec![],
        generics: GenericCounts { type_params: 0, lifetimes: 0, const_params: 0 },
        is_unsafe: false,
        markers: vec![
            outer_tag("export"),
            Marker { name: "rpc".to_string(), outer: true, arg: rpc_path(&["RpcMode", "Master"]) },
            outer_tag("doc"),
        ],
        body: "{}".to_string(),
    };
    let outcome = scan_method(&mut method);
    assert!(outcome.exported);
    assert_eq!(outcome.rpc_argument, Some(rpc_path(&["RpcMode", "Master"])));
    assert_eq!(method.markers, vec![outer_tag("doc")]);

    let mut untagged = MethodDeclaration {
        name: "n".to_string(),
        params: vec![],
        generics: GenericCounts { type_params: 0, lifetimes: 0, const_params: 0 },
        is_unsafe: false,
        markers: vec![outer_tag("doc")],
        body: "{}".to_string(),
    };
    let outcome = scan_method(&mut untagged);
    assert!(!outcome.exported);
    assert_eq!(outcome.rpc_argument, None);
    assert_eq!(untagged.markers, vec![outer_tag("doc")]);
}

#[test]
fn validation_reports_first_violation() {
    let ok = GenericCounts { type_params: 0, lifetimes: 0, const_params: 0 };
    assert_eq!(validate_generics(&ok), None);
    let ty = GenericCounts { type_params: 1, lifetimes: 1, const_params: 1 };
    assert_eq!(
        validate_generics(&ty),
        Some(method_export::ast::DiagnosticKind::TypeParameters)
    );
    let lt = GenericCounts { type_params: 0, lifetimes: 2, const_params: 1 };
    assert_eq!(
        validate_generics(&lt),
        Some(method_export::ast::DiagnosticKind::LifetimeParameters)
    );
    let ct = GenericCounts { type_params: 0, lifetimes: 0, const_params: 3 };
    assert_eq!(
        validate_generics(&ct),
        Some(method_export::ast::DiagnosticKind::ConstParameters)
    );
}
