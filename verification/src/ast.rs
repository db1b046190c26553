use vstd::prelude::*;

verus! {

/// Remote-invocation semantics for an exported method, as the host runtime
/// understands them. The generator treats the set as a closed vocabulary that
/// it must round-trip faithfully; `Disabled` is the default when a method
/// carries no rpc marker.
#[derive(Clone, Copy, Debug, PartialEq, Eq, Structural)]
pub enum RpcMode {
    Disabled,
    Remote,
    RemoteSync,
    Master,
    Puppet,
    MasterSync,
    PuppetSync,
}

/// Carries a resolved `RpcMode` towards host-side code generation; the token
/// emitter spells it as a fully qualified path (see `path_segments`).
pub struct RpcModeWrapper {
    pub rpc_mode: RpcMode,
}

/// The argument attached to a marker, as the front-end hands it over: absent,
/// a path (a sequence of identifier segments), or some other shape that the
/// generator cannot read a mode out of.
#[derive(Clone, Debug, PartialEq, Eq)]
pub enum MarkerArg {
    Absent,
    Path(Vec<String>),
    Opaque,
}

/// One annotation-like tag on a method declaration: a tag name, whether it is
/// attached in the conventional outer style (only outer tags are recognized),
/// and an optional argument.
#[derive(Clone, Debug, PartialEq, Eq)]
pub struct Marker {
    pub name: String,
    pub outer: bool,
    pub arg: MarkerArg,
}

/// A parameter's binding pattern: a wildcard (no name) or a simple name with
/// an optional mutability qualifier.
#[derive(Clone, Debug, PartialEq, Eq)]
pub enum ParamPattern {
    Wildcard,
    Named { name: String, mutable: bool },
}

/// One parameter of a method declaration: its binding pattern and the textual
/// reference to its type (types are carried through uninterpreted).
#[derive(Clone, Debug, PartialEq, Eq)]
pub struct Param {
    pub pattern: ParamPattern,
    pub ty: String,
}

/// How many generic parameters of each kind a method declares. The host ABI
/// cannot represent any of them, so validation only needs the counts.
#[derive(Clone, Copy, Debug, PartialEq, Eq, Structural)]
pub struct GenericCounts {
    pub type_params: usize,
    pub lifetimes: usize,
    pub const_params: usize,
}

/// One method declaration of a class body: name, ordered parameters, generic
/// parameter counts, whether it requires an unsafe context, its marker set,
/// and its body, carried through as opaque text.
#[derive(Clone, Debug, PartialEq, Eq)]
pub struct MethodDeclaration {
    pub name: String,
    pub params: Vec<Param>,
    pub generics: GenericCounts,
    pub is_unsafe: bool,
    pub markers: Vec<Marker>,
    pub body: String,
}

/// An ordered sequence of method declarations belonging to one named type.
/// Consumed once by a generator invocation, which replaces it by a rewritten
/// class definition of the same shape.
#[derive(Clone, Debug, PartialEq, Eq)]
pub struct ClassDefinition {
    pub name: String,
    pub methods: Vec<MethodDeclaration>,
}

/// The output unit: one record per exported, validated method, holding its
/// name, its normalized parameter list (wildcards replaced by synthesized
/// unique names, mutability qualifiers stripped), and its resolved mode.
#[derive(Clone, Debug, PartialEq, Eq)]
pub struct MethodDescriptor {
    pub name: String,
    pub params: Vec<Param>,
    pub rpc_mode: RpcMode,
}

/// The constraint a skipped method violated.
#[derive(Clone, Copy, Debug, PartialEq, Eq, Structural)]
pub enum DiagnosticKind {
    TypeParameters,
    LifetimeParameters,
    ConstParameters,
}

/// A per-method build-time failure report: the method's name and the
/// constraint it violated. Skipped methods stay in the rewritten class.
#[derive(Clone, Debug, PartialEq, Eq)]
pub struct Diagnostic {
    pub method: String,
    pub kind: DiagnosticKind,
}

/// Why an rpc marker's argument could not be classified: either no
/// `RpcMode`-qualified path with a following segment was found (including an
/// absent or non-path argument), or the named variant is not in the closed
/// mode vocabulary.
#[derive(Clone, Debug, PartialEq, Eq)]
pub enum RpcArgError {
    MissingModePath,
    UnknownVariant(String),
}

/// A fatal classification failure: the method whose rpc marker was malformed
/// and the reason. A fatal error aborts the whole class's generation.
#[derive(Clone, Debug, PartialEq, Eq)]
pub struct FatalError {
    pub method: String,
    pub error: RpcArgError,
}

/// Everything one successful generator invocation produces: the rewritten
/// class (markers stripped, exported signatures normalized), the descriptor
/// list in declaration order, and the diagnostics for skipped methods.
#[derive(Clone, Debug, PartialEq, Eq)]
pub struct GenerationOutput {
    pub rewritten: ClassDefinition,
    pub descriptors: Vec<MethodDescriptor>,
    pub diagnostics: Vec<Diagnostic>,
}

// ---------------------------------------------------------------------------
// Mathematical models. Contracts speak of these; each executable type views
// into its model below.
// ---------------------------------------------------------------------------

#[verifier::ext_equal]
pub enum ArgView {
    Absent,
    Path(Seq<Seq<char>>),
    Opaque,
}

#[verifier::ext_equal]
pub struct MarkerView {
    pub name: Seq<char>,
    pub outer: bool,
    pub arg: ArgView,
}

#[verifier::ext_equal]
pub enum PatView {
    Wildcard,
    Named { name: Seq<char>, mutable: bool },
}

#[verifier::ext_equal]
pub struct ParamView {
    pub pattern: PatView,
    pub ty: Seq<char>,
}

#[verifier::ext_equal]
pub struct MethodView {
    pub name: Seq<char>,
    pub params: Seq<ParamView>,
    pub generics: GenericCounts,
    pub is_unsafe: bool,
    pub markers: Seq<MarkerView>,
    pub body: Seq<char>,
}

#[verifier::ext_equal]
pub struct ClassView {
    pub name: Seq<char>,
    pub methods: Seq<MethodView>,
}

#[verifier::ext_equal]
pub struct DescriptorView {
    pub name: Seq<char>,
    pub params: Seq<ParamView>,
    pub rpc_mode: RpcMode,
}

#[verifier::ext_equal]
pub struct DiagnosticView {
    pub method: Seq<char>,
    pub kind: DiagnosticKind,
}

#[verifier::ext_equal]
pub enum RpcArgErrorView {
    MissingModePath,
    UnknownVariant(Seq<char>),
}

#[verifier::ext_equal]
pub struct FatalErrorView {
    pub method: Seq<char>,
    pub error: RpcArgErrorView,
}

#[verifier::ext_equal]
pub struct OutputView {
    pub rewritten: ClassView,
    pub descriptors: Seq<DescriptorView>,
    pub diagnostics: Seq<DiagnosticView>,
}

/// The element-wise deep view of a sequence of viewable values.
pub open spec fn seq_deep<T: DeepView>(s: Seq<T>) -> Seq<T::V> {
    Seq::new(s.len(), |i: int| s[i].deep_view())
}

/// A vector's deep view is the element-wise deep view of its contents.
pub proof fn lemma_vec_deep_view<T: DeepView>(v: Vec<T>)
    ensures
        v.deep_view() == seq_deep(v@),
{
    assert(v.deep_view() =~= seq_deep(v@));
}

/// Deep views commute with appending one element.
pub proof fn lemma_seq_deep_push<T: DeepView>(pre: Seq<T>, x: T)
    ensures
        seq_deep(pre.push(x)) == seq_deep(pre).push(x.deep_view()),
{
    assert forall|k: int| 0 <= k < seq_deep(pre.push(x)).len() implies seq_deep(pre.push(x))[k]
        == seq_deep(pre).push(x.deep_view())[k] by {
        if k < pre.len() {
            assert(pre.push(x)[k] == pre[k]);
        } else {
            assert(pre.push(x)[k] == x);
        }
    }
    assert(seq_deep(pre.push(x)) =~= seq_deep(pre).push(x.deep_view()));
}

/// Appends one element and tracks the effect on the deep view.
pub fn push_deep<T: DeepView>(list: &mut Vec<T>, x: T)
    ensures
        final(list).deep_view() == old(list).deep_view().push(x.deep_view()),
        final(list)@.len() == old(list)@.len() + 1,
{
    let ghost pre_raw = list@;
    let ghost xg = x;
    proof {
        lemma_vec_deep_view(*list);
    }
    list.push(x);
    proof {
        lemma_vec_deep_view(*list);
        lemma_seq_deep_push(pre_raw, xg);
    }
}

impl View for MarkerArg {
    type V = ArgView;

    open spec fn view(&self) -> ArgView {
        match self {
            MarkerArg::Absent => ArgView::Absent,
            MarkerArg::Path(segments) => ArgView::Path(segments.deep_view()),
            MarkerArg::Opaque => ArgView::Opaque,
        }
    }
}

impl DeepView for MarkerArg {
    type V = ArgView;

    open spec fn deep_view(&self) -> ArgView {
        self.view()
    }
}

impl View for Marker {
    type V = MarkerView;

    open spec fn view(&self) -> MarkerView {
        MarkerView { name: self.name@, outer: self.outer, arg: self.arg@ }
    }
}

impl DeepView for Marker {
    type V = MarkerView;

    open spec fn deep_view(&self) -> MarkerView {
        self.view()
    }
}

impl View for ParamPattern {
    type V = PatView;

    open spec fn view(&self) -> PatView {
        match self {
            ParamPattern::Wildcard => PatView::Wildcard,
            ParamPattern::Named { name, mutable } => PatView::Named {
                name: name@,
                mutable: *mutable,
            },
        }
    }
}

impl DeepView for ParamPattern {
    type V = PatView;

    open spec fn deep_view(&self) -> PatView {
        self.view()
    }
}

impl View for Param {
    type V = ParamView;

    open spec fn view(&self) -> ParamView {
        ParamView { pattern: self.pattern@, ty: self.ty@ }
    }
}

impl DeepView for Param {
    type V = ParamView;

    open spec fn deep_view(&self) -> ParamView {
        self.view()
    }
}

impl View for MethodDeclaration {
    type V = MethodView;

    open spec fn view(&self) -> MethodView {
        MethodView {
            name: self.name@,
            params: self.params.deep_view(),
            generics: self.generics,
            is_unsafe: self.is_unsafe,
            markers: self.markers.deep_view(),
            body: self.body@,
        }
    }
}

impl DeepView for MethodDeclaration {
    type V = MethodView;

    open spec fn deep_view(&self) -> MethodView {
        self.view()
    }
}

impl View for ClassDefinition {
    type V = ClassView;

    open spec fn view(&self) -> ClassView {
        ClassView { name: self.name@, methods: self.methods.deep_view() }
    }
}

impl DeepView for ClassDefinition {
    type V = ClassView;

    open spec fn deep_view(&self) -> ClassView {
        self.view()
    }
}

impl View for MethodDescriptor {
    type V = DescriptorView;

    open spec fn view(&self) -> DescriptorView {
        DescriptorView {
            name: self.name@,
            params: self.params.deep_view(),
            rpc_mode: self.rpc_mode,
        }
    }
}

impl DeepView for MethodDescriptor {
    type V = DescriptorView;

    open spec fn deep_view(&self) -> DescriptorView {
        self.view()
    }
}

impl View for Diagnostic {
    type V = DiagnosticView;

    open spec fn view(&self) -> DiagnosticView {
        DiagnosticView { method: self.method@, kind: self.kind }
    }
}

impl DeepView for Diagnostic {
    type V = DiagnosticView;

    open spec fn deep_view(&self) -> DiagnosticView {
        self.view()
    }
}

impl View for RpcArgError {
    type V = RpcArgErrorView;

    open spec fn view(&self) -> RpcArgErrorView {
        match self {
            RpcArgError::MissingModePath => RpcArgErrorView::MissingModePath,
            RpcArgError::UnknownVariant(name) => RpcArgErrorView::UnknownVariant(name@),
        }
    }
}

impl DeepView for RpcArgError {
    type V = RpcArgErrorView;

    open spec fn deep_view(&self) -> RpcArgErrorView {
        self.view()
    }
}

impl View for FatalError {
    type V = FatalErrorView;

    open spec fn view(&self) -> FatalErrorView {
        FatalErrorView { method: self.method@, error: self.error@ }
    }
}

impl DeepView for FatalError {
    type V = FatalErrorView;

    open spec fn deep_view(&self) -> FatalErrorView {
        self.view()
    }
}

impl View for GenerationOutput {
    type V = OutputView;

    open spec fn view(&self) -> OutputView {
        OutputView {
            rewritten: self.rewritten@,
            descriptors: self.descriptors.deep_view(),
            diagnostics: self.diagnostics.deep_view(),
        }
    }
}

impl DeepView for GenerationOutput {
    type V = OutputView;

    open spec fn deep_view(&self) -> OutputView {
        self.view()
    }
}

} // verus!
