use vstd::prelude::*;

use crate::ast::{Marker, MarkerArg, MarkerView, MethodDeclaration, MethodView};

verus! {

/// A marker in outer attachment style whose tag name matches. Only outer
/// markers are recognized; tags attached to inner constructs pass through.
pub open spec fn spec_marker_named(m: MarkerView, name: Seq<char>) -> bool {
    m.outer && m.name == name
}

/// The tag that flags a method for host-visible registration.
pub open spec fn spec_is_export_marker(m: MarkerView) -> bool {
    spec_marker_named(m, "export"@)
}

/// The tag that refines how a remote call to the method is dispatched.
pub open spec fn spec_is_rpc_marker(m: MarkerView) -> bool {
    spec_marker_named(m, "rpc"@)
}

/// A marker the scanner consumes: an outer export or rpc tag.
pub open spec fn spec_is_consumed_marker(m: MarkerView) -> bool {
    spec_is_export_marker(m) || spec_is_rpc_marker(m)
}

/// What remains of a marker set once the scanner has consumed its tags: every
/// outer export and rpc marker is dropped, all other markers pass through in
/// order.
pub open spec fn spec_strip_markers(markers: Seq<MarkerView>) -> Seq<MarkerView>
    decreases markers.len(),
{
    if markers.len() == 0 {
        Seq::empty()
    } else {
        let rest = spec_strip_markers(markers.drop_last());
        if spec_is_consumed_marker(markers.last()) {
            rest
        } else {
            rest.push(markers.last())
        }
    }
}

/// No consumed marker survives stripping: the residual marker set is free of
/// outer export and rpc tags.
pub proof fn lemma_strip_markers_clean(markers: Seq<MarkerView>)
    ensures
        forall|j: int|
            0 <= j < spec_strip_markers(markers).len() ==> !spec_is_consumed_marker(
                #[trigger] spec_strip_markers(markers)[j],
            ),
    decreases markers.len(),
{
    if markers.len() > 0 {
        lemma_strip_markers_clean(markers.drop_last());
        let rest = spec_strip_markers(markers.drop_last());
        assert forall|j: int| 0 <= j < spec_strip_markers(markers).len() implies
            !spec_is_consumed_marker(spec_strip_markers(markers)[j]) by {
            if !spec_is_consumed_marker(markers.last()) {
                assert(spec_strip_markers(markers) == rest.push(markers.last()));
                if j < rest.len() {
                    assert(spec_strip_markers(markers)[j] == rest[j]);
                }
            } else {
                assert(spec_strip_markers(markers) == rest);
            }
        }
    }
}

/// Stripping is idempotent: a marker set that has already been stripped is
/// left exactly as it is.
pub proof fn lemma_strip_markers_idempotent(markers: Seq<MarkerView>)
    ensures
        spec_strip_markers(spec_strip_markers(markers)) == spec_strip_markers(markers),
    decreases markers.len(),
{
    if markers.len() > 0 {
        lemma_strip_markers_idempotent(markers.drop_last());
        let rest = spec_strip_markers(markers.drop_last());
        if !spec_is_consumed_marker(markers.last()) {
            assert(spec_strip_markers(markers) == rest.push(markers.last()));
            assert(rest.push(markers.last()).drop_last() =~= rest);
        }
    }
}

/// Stripping a one-element extension keeps the prefix's result and appends
/// the new marker exactly when it is not consumed.
pub proof fn lemma_strip_markers_step(s: Seq<MarkerView>, i: int)
    requires
        0 <= i < s.len(),
    ensures
        spec_strip_markers(s.take(i + 1)) == (if spec_is_consumed_marker(s[i]) {
            spec_strip_markers(s.take(i))
        } else {
            spec_strip_markers(s.take(i)).push(s[i])
        }),
{
    assert(s.take(i + 1).drop_last() =~= s.take(i));
    assert(s.take(i + 1).last() == s[i]);
}

/// Whether a method carries an export marker.
pub open spec fn spec_exported(markers: Seq<MarkerView>) -> bool {
    exists|i: int| 0 <= i < markers.len() && spec_is_export_marker(markers[i])
}

/// The first rpc marker of a marker set, if any. When the tag is duplicated,
/// the first instance is authoritative.
pub open spec fn spec_first_rpc_marker(markers: Seq<MarkerView>) -> Option<MarkerView>
    decreases markers.len(),
{
    if markers.len() == 0 {
        None
    } else if spec_is_rpc_marker(markers[0]) {
        Some(markers[0])
    } else {
        spec_first_rpc_marker(markers.drop_first())
    }
}

/// If `i` is the position of the first rpc marker, the recursive search finds
/// exactly that marker.
pub proof fn lemma_first_rpc_marker_at(markers: Seq<MarkerView>, i: int)
    requires
        0 <= i < markers.len(),
        spec_is_rpc_marker(markers[i]),
        forall|j: int| 0 <= j < i ==> !spec_is_rpc_marker(markers[j]),
    ensures
        spec_first_rpc_marker(markers) == Some(markers[i]),
    decreases i,
{
    if i > 0 {
        lemma_first_rpc_marker_at(markers.drop_first(), i - 1);
    }
}

/// If no marker is an rpc marker, the search finds none.
pub proof fn lemma_first_rpc_marker_absent(markers: Seq<MarkerView>)
    requires
        forall|j: int| 0 <= j < markers.len() ==> !spec_is_rpc_marker(markers[j]),
    ensures
        spec_first_rpc_marker(markers) is None,
    decreases markers.len(),
{
    if markers.len() > 0 {
        lemma_first_rpc_marker_absent(markers.drop_first());
    }
}

/// The position of the first outer marker whose tag name matches `name`, as
/// the scanner looks tags up.
pub fn find_marker_position(markers: &Vec<Marker>, name: &String) -> (r: Option<usize>)
    ensures
        match r {
            Some(i) => 0 <= i < markers.len() && spec_marker_named(
                markers.deep_view()[i as int],
                name@,
            ) && forall|j: int|
                0 <= j < i ==> !spec_marker_named(markers.deep_view()[j], name@),
            None => forall|j: int|
                0 <= j < markers.len() ==> !spec_marker_named(markers.deep_view()[j], name@),
        },
{
    let mut i: usize = 0;
    while i < markers.len()
        invariant
            i <= markers.len(),
            forall|j: int| 0 <= j < i ==> !spec_marker_named(markers.deep_view()[j], name@),
        decreases markers.len() - i,
    {
        if markers[i].outer && markers[i].name == *name {
            return Some(i);
        }
        i += 1;
    }
    None
}

/// Duplicates a list of path segments, value for value.
pub fn clone_segments(segments: &Vec<String>) -> (r: Vec<String>)
    ensures
        r.deep_view() == segments.deep_view(),
{
    let mut out: Vec<String> = Vec::new();
    let mut i: usize = 0;
    while i < segments.len()
        invariant
            i <= segments.len(),
            out@.len() == i,
            forall|k: int| 0 <= k < i ==> out@[k]@ == segments@[k]@,
        decreases segments.len() - i,
    {
        out.push(segments[i].clone());
        i += 1;
    }
    proof {
        assert forall|k: int| 0 <= k < segments.deep_view().len() implies out.deep_view()[k]
            == segments.deep_view()[k] by {
            assert(out@[k]@ == segments@[k]@);
        }
        assert(out.deep_view() =~= segments.deep_view());
    }
    out
}

/// Duplicates a marker argument, value for value.
pub fn clone_marker_arg(arg: &MarkerArg) -> (r: MarkerArg)
    ensures
        r@ == arg@,
{
    match arg {
        MarkerArg::Absent => MarkerArg::Absent,
        MarkerArg::Path(segments) => MarkerArg::Path(clone_segments(segments)),
        MarkerArg::Opaque => MarkerArg::Opaque,
    }
}

/// Duplicates a marker, value for value.
pub fn clone_marker(m: &Marker) -> (r: Marker)
    ensures
        r@ == m@,
{
    Marker { name: m.name.clone(), outer: m.outer, arg: clone_marker_arg(&m.arg) }
}

/// Rebuilds a marker set with every outer export and rpc marker dropped.
pub fn strip_markers(markers: &Vec<Marker>) -> (r: Vec<Marker>)
    ensures
        r.deep_view() == spec_strip_markers(markers.deep_view()),
{
    let export_tag = String::from_str("export");
    let rpc_tag = String::from_str("rpc");
    let mut out: Vec<Marker> = Vec::new();
    let mut i: usize = 0;
    while i < markers.len()
        invariant
            i <= markers.len(),
            export_tag@ == "export"@,
            rpc_tag@ == "rpc"@,
            out.deep_view() == spec_strip_markers(markers.deep_view().take(i as int)),
        decreases markers.len() - i,
    {
        let ghost mv = markers.deep_view()[i as int];
        let ghost pre = out.deep_view();
        let ghost pre_raw = out@;
        let keep = !(markers[i].outer && (markers[i].name == export_tag || markers[i].name
            == rpc_tag));
        proof {
            lemma_strip_markers_step(markers.deep_view(), i as int);
            assert(keep == !spec_is_consumed_marker(mv));
        }
        if keep {
            let kept = clone_marker(&markers[i]);
            out.push(kept);
            proof {
                assert forall|k: int| 0 <= k < out.deep_view().len() implies out.deep_view()[k]
                    == pre.push(mv)[k] by {
                    if k < pre_raw.len() {
                        assert(out@[k] == pre_raw[k]);
                    }
                }
                assert(out.deep_view() =~= pre.push(mv));
            }
        }
        i += 1;
    }
    proof {
        assert(markers.deep_view().take(markers.len() as int) =~= markers.deep_view());
    }
    out
}

/// What the scanner reports of one method: whether an export marker was
/// found, and the argument of the first rpc marker, if any.
pub struct ScanOutcome {
    pub exported: bool,
    pub rpc_argument: Option<MarkerArg>,
}

/// Walks one method's marker set: reports whether the method is flagged for
/// export and hands back the first rpc marker's argument, then drops both
/// tags from the marker set regardless of outcome, so that the residual
/// method is marker-free for these two tags. All other markers and every
/// other part of the method pass through untouched.
pub fn scan_method(method: &mut MethodDeclaration) -> (r: ScanOutcome)
    ensures
        final(method)@ == (MethodView {
            markers: spec_strip_markers(old(method)@.markers),
            ..old(method)@
        }),
        r.exported == spec_exported(old(method)@.markers),
        match spec_first_rpc_marker(old(method)@.markers) {
            Some(mk) => r.rpc_argument matches Some(a) && a@ == mk.arg,
            None => r.rpc_argument is None,
        },
{
    let export_tag = String::from_str("export");
    let rpc_tag = String::from_str("rpc");
    let exported = match find_marker_position(&method.markers, &export_tag) {
        Some(_) => true,
        None => false,
    };
    let rpc_argument = match find_marker_position(&method.markers, &rpc_tag) {
        Some(i) => {
            proof {
                lemma_first_rpc_marker_at(method.markers.deep_view(), i as int);
            }
            Some(clone_marker_arg(&method.markers[i].arg))
        },
        None => {
            proof {
                lemma_first_rpc_marker_absent(method.markers.deep_view());
            }
            None
        },
    };
    let stripped = strip_markers(&method.markers);
    method.markers = stripped;
    ScanOutcome { exported, rpc_argument }
}

} // verus!
