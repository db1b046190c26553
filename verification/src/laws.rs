use vstd::prelude::*;

use crate::assemble::{
    lemma_first_fatal_none, lemma_no_fatal_all_clean, spec_descriptor_of, spec_descriptors,
    spec_diagnostic_of, spec_diagnostics, spec_emits, spec_generate, spec_method_fatal,
    spec_method_mode, spec_rejected, spec_rewrite_method, spec_rewrite_methods,
};
use crate::ast::{
    ClassView, DescriptorView, DiagnosticView, FatalErrorView, MethodView, OutputView, RpcMode,
};
use crate::scan::{
    lemma_first_rpc_marker_absent, lemma_strip_markers_clean, lemma_strip_markers_idempotent,
    spec_exported, spec_first_rpc_marker, spec_is_export_marker, spec_is_rpc_marker,
    spec_strip_markers,
};

verus! {

/// A sequence of methods none of which emits a descriptor produces an empty
/// descriptor list.
pub proof fn lemma_descriptors_none(methods: Seq<MethodView>)
    requires
        forall|j: int| 0 <= j < methods.len() ==> !spec_emits(#[trigger] methods[j]),
    ensures
        spec_descriptors(methods) == Seq::<DescriptorView>::empty(),
    decreases methods.len(),
{
    if methods.len() > 0 {
        lemma_descriptors_none(methods.drop_last());
    }
}

/// A sequence of methods none of which is rejected produces an empty
/// diagnostics list.
pub proof fn lemma_diagnostics_none(methods: Seq<MethodView>)
    requires
        forall|j: int| 0 <= j < methods.len() ==> !spec_rejected(#[trigger] methods[j]),
    ensures
        spec_diagnostics(methods) == Seq::<DiagnosticView>::empty(),
    decreases methods.len(),
{
    if methods.len() > 0 {
        lemma_diagnostics_none(methods.drop_last());
    }
}

/// Order preservation: the descriptor list is exactly the image, in
/// declaration order, of the subsequence of exported, validated methods. For
/// a class whose exported, validated methods are m1 … mN in declaration
/// order, the descriptors are descriptor(m1) … descriptor(mN), in that exact
/// order.
pub proof fn lemma_descriptors_in_order(methods: Seq<MethodView>)
    ensures
        spec_descriptors(methods) == methods.filter(|m: MethodView| spec_emits(m)).map_values(
            |m: MethodView| spec_descriptor_of(m),
        ),
    decreases methods.len(),
{
    reveal(Seq::filter);
    let pred = |m: MethodView| spec_emits(m);
    let f = |m: MethodView| spec_descriptor_of(m);
    if methods.len() == 0 {
        assert(methods.filter(pred).map_values(f) =~= Seq::<DescriptorView>::empty());
    } else {
        let prefix = methods.drop_last();
        let last = methods.last();
        lemma_descriptors_in_order(prefix);
        if spec_emits(last) {
            assert(methods.filter(pred) == prefix.filter(pred).push(last));
            assert(prefix.filter(pred).push(last).map_values(f) =~= prefix.filter(
                pred,
            ).map_values(f).push(f(last)));
        } else {
            assert(methods.filter(pred) == prefix.filter(pred));
        }
    }
}

/// The diagnostics list is exactly the image, in declaration order, of the
/// subsequence of exported methods that failed validation.
pub proof fn lemma_diagnostics_in_order(methods: Seq<MethodView>)
    ensures
        spec_diagnostics(methods) == methods.filter(|m: MethodView| spec_rejected(m)).map_values(
            |m: MethodView| spec_diagnostic_of(m),
        ),
    decreases methods.len(),
{
    reveal(Seq::filter);
    let pred = |m: MethodView| spec_rejected(m);
    let f = |m: MethodView| spec_diagnostic_of(m);
    if methods.len() == 0 {
        assert(methods.filter(pred).map_values(f) =~= Seq::<DiagnosticView>::empty());
    } else {
        let prefix = methods.drop_last();
        let last = methods.last();
        lemma_diagnostics_in_order(prefix);
        if spec_rejected(last) {
            assert(methods.filter(pred) == prefix.filter(pred).push(last));
            assert(prefix.filter(pred).push(last).map_values(f) =~= prefix.filter(
                pred,
            ).map_values(f).push(f(last)));
        } else {
            assert(methods.filter(pred) == prefix.filter(pred));
        }
    }
}

/// Generic rejection: an exported method with any generic parameter is
/// rejected — it emits no descriptor, and its diagnostic names it. Sibling
/// methods are untouched, since by the order-preservation laws each output
/// list is the image of its own subsequence of the methods.
pub proof fn lemma_generic_method_rejected(m: MethodView)
    requires
        spec_exported(m.markers),
        m.generics.type_params > 0 || m.generics.lifetimes > 0 || m.generics.const_params > 0,
    ensures
        !spec_emits(m),
        spec_rejected(m),
        spec_diagnostic_of(m).method == m.name,
{
}

/// Default mode: a method without an rpc marker resolves to `Disabled`, and
/// so does its descriptor if it emits one.
pub proof fn lemma_default_mode(m: MethodView)
    requires
        forall|j: int| 0 <= j < m.markers.len() ==> !spec_is_rpc_marker(#[trigger] m.markers[j]),
    ensures
        spec_method_mode(m) == RpcMode::Disabled,
        spec_descriptor_of(m).rpc_mode == RpcMode::Disabled,
{
    lemma_first_rpc_marker_absent(m.markers);
}

/// Generation succeeds exactly when no method is fatal: a class aborts if and
/// only if some exported method carries an rpc marker whose argument does not
/// classify.
pub proof fn lemma_generate_succeeds_iff(c: ClassView)
    ensures
        spec_generate(c) is Ok <==> (forall|j: int|
            0 <= j < c.methods.len() ==> spec_method_fatal(#[trigger] c.methods[j]) is None),
{
    if spec_generate(c) is Ok {
        lemma_no_fatal_all_clean(c.methods);
    } else {
        if forall|j: int|
            0 <= j < c.methods.len() ==> spec_method_fatal(#[trigger] c.methods[j]) is None {
            lemma_first_fatal_none(c.methods);
        }
    }
}

/// Marker stripping: on success, no method of the rewritten class carries an
/// export or rpc tag, whether the method was exported, skipped for a
/// validation failure, or never exported at all.
pub proof fn lemma_marker_stripping(c: ClassView, i: int, j: int)
    requires
        spec_generate(c) is Ok,
        0 <= i < spec_generate(c)->Ok_0.rewritten.methods.len(),
        0 <= j < spec_generate(c)->Ok_0.rewritten.methods[i].markers.len(),
    ensures
        !spec_is_export_marker(spec_generate(c)->Ok_0.rewritten.methods[i].markers[j]),
        !spec_is_rpc_marker(spec_generate(c)->Ok_0.rewritten.methods[i].markers[j]),
{
    let ms = spec_generate(c)->Ok_0.rewritten.methods;
    assert(ms[i] == spec_rewrite_method(c.methods[i]));
    lemma_strip_markers_clean(c.methods[i].markers);
}

/// Idempotence of rewriting: running the generator on the rewritten class of
/// a successful run succeeds, yields zero descriptors and zero diagnostics,
/// and leaves the class body unchanged.
pub proof fn lemma_rewrite_idempotent(c: ClassView)
    requires
        spec_generate(c) is Ok,
    ensures
        spec_generate(spec_generate(c)->Ok_0.rewritten) == Ok::<OutputView, FatalErrorView>(
            OutputView {
                rewritten: spec_generate(c)->Ok_0.rewritten,
                descriptors: Seq::<DescriptorView>::empty(),
                diagnostics: Seq::<DiagnosticView>::empty(),
            },
        ),
{
    let out = spec_generate(c)->Ok_0;
    let ms = out.rewritten.methods;
    assert(ms == spec_rewrite_methods(c.methods));
    assert forall|i: int| 0 <= i < ms.len() implies !spec_exported(#[trigger] ms[i].markers)
        && spec_first_rpc_marker(ms[i].markers) is None && spec_method_fatal(ms[i]) is None
        && !spec_emits(ms[i]) && !spec_rejected(ms[i]) && spec_rewrite_method(ms[i]) == ms[i] by {
        assert(ms[i] == spec_rewrite_method(c.methods[i]));
        let mk = ms[i].markers;
        assert(mk == spec_strip_markers(c.methods[i].markers));
        lemma_strip_markers_clean(c.methods[i].markers);
        assert(forall|j: int| 0 <= j < mk.len() ==> !spec_is_export_marker(#[trigger] mk[j]));
        assert(forall|j: int| 0 <= j < mk.len() ==> !spec_is_rpc_marker(#[trigger] mk[j]));
        assert(!spec_exported(mk));
        lemma_first_rpc_marker_absent(mk);
        lemma_strip_markers_idempotent(c.methods[i].markers);
        assert(spec_rewrite_method(ms[i]) =~= ms[i]);
    }
    assert forall|i: int| 0 <= i < ms.len() implies spec_method_fatal(#[trigger] ms[i]) is None
        by {}
    lemma_first_fatal_none(ms);
    lemma_descriptors_none(ms);
    lemma_diagnostics_none(ms);
    assert(spec_rewrite_methods(ms) =~= ms);
    assert(ClassView { name: out.rewritten.name, methods: spec_rewrite_methods(ms) }
        =~= out.rewritten);
}

} // verus!
