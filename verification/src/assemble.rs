use vstd::prelude::*;

use crate::ast::{
    lemma_vec_deep_view, push_deep, seq_deep, ClassDefinition, ClassView, DescriptorView,
    Diagnostic, DiagnosticKind, DiagnosticView, FatalError, FatalErrorView, GenerationOutput,
    MethodDeclaration, MethodDescriptor, MethodView, OutputView, RpcArgErrorView, RpcMode,
};
use crate::normalize::{normalize_params, spec_normalize_params, spec_validate, validate_generics};
use crate::rpc::{classify_rpc_argument, spec_classify_arg};
use crate::scan::{scan_method, spec_exported, spec_first_rpc_marker, spec_strip_markers};

verus! {

/// Whether one method's scanning ends in a fatal classification error: it is
/// exported, carries an rpc marker, and the marker's argument does not
/// resolve to a mode. Only exported methods are classified.
pub open spec fn spec_method_fatal(m: MethodView) -> Option<RpcArgErrorView> {
    if spec_exported(m.markers) {
        match spec_first_rpc_marker(m.markers) {
            Some(mk) => match spec_classify_arg(mk.arg) {
                Ok(_) => None,
                Err(e) => Some(e),
            },
            None => None,
        }
    } else {
        None
    }
}

/// The mode an exported method resolves to when classification does not
/// fail: its first rpc marker's argument, or `Disabled` with no rpc marker.
pub open spec fn spec_method_mode(m: MethodView) -> RpcMode {
    match spec_first_rpc_marker(m.markers) {
        Some(mk) => match spec_classify_arg(mk.arg) {
            Ok(mode) => mode,
            Err(_) => RpcMode::Disabled,
        },
        None => RpcMode::Disabled,
    }
}

/// A method that contributes a descriptor: exported and validated.
pub open spec fn spec_emits(m: MethodView) -> bool {
    spec_exported(m.markers) && spec_validate(m.generics) is None
}

/// A method that is skipped with a diagnostic: exported but invalid.
pub open spec fn spec_rejected(m: MethodView) -> bool {
    spec_exported(m.markers) && spec_validate(m.generics) is Some
}

/// The descriptor one exported, validated method contributes.
pub open spec fn spec_descriptor_of(m: MethodView) -> DescriptorView {
    DescriptorView {
        name: m.name,
        params: spec_normalize_params(m.params),
        rpc_mode: spec_method_mode(m),
    }
}

/// The diagnostic one exported, invalid method contributes.
pub open spec fn spec_diagnostic_of(m: MethodView) -> DiagnosticView {
    DiagnosticView {
        method: m.name,
        kind: match spec_validate(m.generics) {
            Some(kind) => kind,
            None => DiagnosticKind::TypeParameters,
        },
    }
}

/// How one method reads after rewriting: its consumed markers are stripped
/// whatever its outcome, and an exported, validated method additionally gets
/// its normalized signature substituted for the original. Everything else is
/// preserved unchanged.
pub open spec fn spec_rewrite_method(m: MethodView) -> MethodView {
    MethodView {
        markers: spec_strip_markers(m.markers),
        params: if spec_emits(m) {
            spec_normalize_params(m.params)
        } else {
            m.params
        },
        is_unsafe: if spec_emits(m) {
            false
        } else {
            m.is_unsafe
        },
        ..m
    }
}

/// The rewritten class body: every method rewritten, in declaration order.
pub open spec fn spec_rewrite_methods(methods: Seq<MethodView>) -> Seq<MethodView> {
    Seq::new(methods.len(), |i: int| spec_rewrite_method(methods[i]))
}

/// The first fatal classification error among the methods, in declaration
/// order, if any. One fatal method aborts the whole class's generation.
pub open spec fn spec_first_fatal(methods: Seq<MethodView>) -> Option<FatalErrorView>
    decreases methods.len(),
{
    if methods.len() == 0 {
        None
    } else {
        match spec_method_fatal(methods[0]) {
            Some(e) => Some(FatalErrorView { method: methods[0].name, error: e }),
            None => spec_first_fatal(methods.drop_first()),
        }
    }
}

/// The descriptor list: one descriptor per exported, validated method, in
/// declaration order.
pub open spec fn spec_descriptors(methods: Seq<MethodView>) -> Seq<DescriptorView>
    decreases methods.len(),
{
    if methods.len() == 0 {
        Seq::empty()
    } else {
        let rest = spec_descriptors(methods.drop_last());
        if spec_emits(methods.last()) {
            rest.push(spec_descriptor_of(methods.last()))
        } else {
            rest
        }
    }
}

/// The diagnostics list: one entry per exported, invalid method, in
/// declaration order.
pub open spec fn spec_diagnostics(methods: Seq<MethodView>) -> Seq<DiagnosticView>
    decreases methods.len(),
{
    if methods.len() == 0 {
        Seq::empty()
    } else {
        let rest = spec_diagnostics(methods.drop_last());
        if spec_rejected(methods.last()) {
            rest.push(spec_diagnostic_of(methods.last()))
        } else {
            rest
        }
    }
}

/// What one generator invocation means: a fatal classification error on the
/// first offending method aborts the class; otherwise the rewritten class,
/// the descriptors, and the diagnostics are produced together.
pub open spec fn spec_generate(c: ClassView) -> Result<OutputView, FatalErrorView> {
    match spec_first_fatal(c.methods) {
        Some(f) => Err(f),
        None => Ok(
            OutputView {
                rewritten: ClassView { name: c.name, methods: spec_rewrite_methods(c.methods) },
                descriptors: spec_descriptors(c.methods),
                diagnostics: spec_diagnostics(c.methods),
            },
        ),
    }
}

/// If every method before `i` is clean and method `i` is fatal, the search
/// for the first fatal error lands on method `i`.
pub proof fn lemma_first_fatal_at(methods: Seq<MethodView>, i: int)
    requires
        0 <= i < methods.len(),
        spec_method_fatal(methods[i]) is Some,
        forall|j: int| 0 <= j < i ==> spec_method_fatal(#[trigger] methods[j]) is None,
    ensures
        spec_first_fatal(methods) == Some(
            FatalErrorView {
                method: methods[i].name,
                error: spec_method_fatal(methods[i])->Some_0,
            },
        ),
    decreases i,
{
    if i > 0 {
        lemma_first_fatal_at(methods.drop_first(), i - 1);
    }
}

/// If no method is fatal, the search finds none.
pub proof fn lemma_first_fatal_none(methods: Seq<MethodView>)
    requires
        forall|j: int| 0 <= j < methods.len() ==> spec_method_fatal(#[trigger] methods[j]) is None,
    ensures
        spec_first_fatal(methods) is None,
    decreases methods.len(),
{
    if methods.len() > 0 {
        lemma_first_fatal_none(methods.drop_first());
    }
}

/// If the search finds no fatal method, every method is clean.
pub proof fn lemma_no_fatal_all_clean(methods: Seq<MethodView>)
    requires
        spec_first_fatal(methods) is None,
    ensures
        forall|j: int| 0 <= j < methods.len() ==> spec_method_fatal(#[trigger] methods[j]) is None,
    decreases methods.len(),
{
    if methods.len() > 0 {
        lemma_no_fatal_all_clean(methods.drop_first());
        assert forall|j: int| 0 <= j < methods.len() implies spec_method_fatal(
            #[trigger] methods[j],
        ) is None by {
            if j > 0 {
                assert(methods.drop_first()[j - 1] == methods[j]);
            }
        }
    }
}

/// Extending the prefix by one method appends its descriptor exactly when it
/// emits one.
pub proof fn lemma_descriptors_step(methods: Seq<MethodView>, i: int)
    requires
        0 <= i < methods.len(),
    ensures
        spec_descriptors(methods.take(i + 1)) == (if spec_emits(methods[i]) {
            spec_descriptors(methods.take(i)).push(spec_descriptor_of(methods[i]))
        } else {
            spec_descriptors(methods.take(i))
        }),
{
    assert(methods.take(i + 1).drop_last() =~= methods.take(i));
    assert(methods.take(i + 1).last() == methods[i]);
}

/// Extending the prefix by one method appends its diagnostic exactly when it
/// is rejected.
pub proof fn lemma_diagnostics_step(methods: Seq<MethodView>, i: int)
    requires
        0 <= i < methods.len(),
    ensures
        spec_diagnostics(methods.take(i + 1)) == (if spec_rejected(methods[i]) {
            spec_diagnostics(methods.take(i)).push(spec_diagnostic_of(methods[i]))
        } else {
            spec_diagnostics(methods.take(i))
        }),
{
    assert(methods.take(i + 1).drop_last() =~= methods.take(i));
    assert(methods.take(i + 1).last() == methods[i]);
}

/// Runs the whole pass over one class definition, consuming it.
///
/// On success, the output holds the rewritten class (every method's export
/// and rpc markers stripped, every exported and validated method's signature
/// normalized, everything else preserved in declaration order), the
/// descriptor list, and the diagnostics for the skipped methods. The first
/// method whose rpc marker cannot be classified aborts the whole class with
/// a fatal error instead.
pub fn generate(class: ClassDefinition) -> (r: Result<GenerationOutput, FatalError>)
    ensures
        match (r, spec_generate(class@)) {
            (Ok(out), Ok(spec_out)) => out@ == spec_out,
            (Err(e), Err(spec_e)) => e@ == spec_e,
            _ => false,
        },
{
    let ghost cv: ClassView = class@;
    let ghost orig: Seq<MethodView> = class@.methods;
    let name = class.name;
    let mut queue = class.methods;
    let mut rewritten_methods: Vec<MethodDeclaration> = Vec::new();
    let mut descriptors: Vec<MethodDescriptor> = Vec::new();
    let mut diagnostics: Vec<Diagnostic> = Vec::new();
    let mut i: usize = 0;
    let total: usize = queue.len();
    proof {
        assert(orig.len() == total);
        assert(orig.skip(0) =~= orig);
        assert(orig.take(0) =~= Seq::<MethodView>::empty());
        assert(rewritten_methods.deep_view() =~= Seq::<MethodView>::empty());
        assert(descriptors.deep_view() =~= Seq::<DescriptorView>::empty());
        assert(diagnostics.deep_view() =~= Seq::<DiagnosticView>::empty());
    }
    while queue.len() > 0
        invariant
            class@ == cv,
            cv.methods == orig,
            cv.name == name@,
            orig.len() <= usize::MAX,
            i + queue@.len() == orig.len(),
            queue.deep_view() == orig.skip(i as int),
            forall|j: int| 0 <= j < i ==> spec_method_fatal(#[trigger] orig[j]) is None,
            rewritten_methods.deep_view().len() == i,
            forall|k: int|
                0 <= k < i ==> rewritten_methods.deep_view()[k] == spec_rewrite_method(
                    #[trigger] orig[k],
                ),
            descriptors.deep_view() == spec_descriptors(orig.take(i as int)),
            diagnostics.deep_view() == spec_diagnostics(orig.take(i as int)),
        decreases queue@.len(),
    {
        let ghost pre_qraw = queue@;
        proof {
            lemma_vec_deep_view(queue);
        }
        let mut method = queue.remove(0);
        let ghost mv = orig[i as int];
        proof {
            lemma_vec_deep_view(queue);
            assert(method@ == seq_deep(pre_qraw)[0]);
            assert(method@ == mv);
            assert forall|k: int| 0 <= k < queue.deep_view().len() implies queue.deep_view()[k]
                == orig.skip(i as int + 1)[k] by {
                assert(queue@[k] == pre_qraw.remove(0)[k]);
                assert(pre_qraw.remove(0)[k] == pre_qraw[k + 1]);
                assert(seq_deep(pre_qraw)[k + 1] == orig.skip(i as int)[k + 1]);
            }
            assert(queue.deep_view() =~= orig.skip(i as int + 1));
        }
        let outcome = scan_method(&mut method);
        proof {
            lemma_descriptors_step(orig, i as int);
            lemma_diagnostics_step(orig, i as int);
        }
        if outcome.exported {
            let mode: RpcMode = match &outcome.rpc_argument {
                None => RpcMode::Disabled,
                Some(arg) => match classify_rpc_argument(arg) {
                    Ok(mode) => mode,
                    Err(e) => {
                        proof {
                            assert(spec_exported(mv.markers));
                            assert(spec_first_rpc_marker(mv.markers) is Some);
                            assert(spec_method_fatal(mv) == Some(e@));
                            lemma_first_fatal_at(orig, i as int);
                            assert(spec_first_fatal(orig) == Some(
                                FatalErrorView { method: mv.name, error: e@ },
                            ));
                            assert(spec_generate(cv) == Err::<OutputView, FatalErrorView>(
                                FatalErrorView { method: mv.name, error: e@ },
                            ));
                            assert(method@.name == mv.name);
                        }
                        return Err(FatalError { method: method.name, error: e });
                    },
                },
            };
            proof {
                assert(spec_method_fatal(mv) is None);
                assert(mode == spec_method_mode(mv));
            }
            match validate_generics(&method.generics) {
                Some(kind) => {
                    proof {
                        assert(spec_rejected(mv));
                        assert(!spec_emits(mv));
                    }
                    let entry = Diagnostic { method: method.name.clone(), kind };
                    proof {
                        assert(entry@ == spec_diagnostic_of(mv));
                    }
                    push_deep(&mut diagnostics, entry);
                    proof {
                        assert(method@ == spec_rewrite_method(mv));
                    }
                    push_deep(&mut rewritten_methods, method);
                },
                None => {
                    proof {
                        assert(spec_emits(mv));
                        assert(!spec_rejected(mv));
                    }
                    let desc_params = normalize_params(&method.params);
                    let desc = MethodDescriptor {
                        name: method.name.clone(),
                        params: desc_params,
                        rpc_mode: mode,
                    };
                    proof {
                        assert(desc@ == spec_descriptor_of(mv));
                    }
                    push_deep(&mut descriptors, desc);
                    let new_params = normalize_params(&method.params);
                    method.params = new_params;
                    method.is_unsafe = false;
                    proof {
                        assert(method@ == spec_rewrite_method(mv));
                    }
                    push_deep(&mut rewritten_methods, method);
                },
            }
        } else {
            proof {
                assert(!spec_exported(mv.markers));
                assert(spec_method_fatal(mv) is None);
                assert(!spec_emits(mv) && !spec_rejected(mv));
                assert(method@ == spec_rewrite_method(mv));
            }
            push_deep(&mut rewritten_methods, method);
        }
        i += 1;
    }
    proof {
        assert(i == orig.len());
        assert(orig.take(orig.len() as int) =~= orig);
        lemma_first_fatal_none(orig);
        assert forall|k: int| 0 <= k < spec_rewrite_methods(orig).len() implies
            rewritten_methods.deep_view()[k] == spec_rewrite_methods(orig)[k] by {
            assert(rewritten_methods.deep_view()[k] == spec_rewrite_method(orig[k]));
        }
        assert(rewritten_methods.deep_view() =~= spec_rewrite_methods(orig));
    }
    Ok(
        GenerationOutput {
            rewritten: ClassDefinition { name, methods: rewritten_methods },
            descriptors,
            diagnostics,
        },
    )
}

} // verus!
