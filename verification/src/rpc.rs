use vstd::prelude::*;

use crate::ast::{ArgView, MarkerArg, RpcArgError, RpcArgErrorView, RpcMode, RpcModeWrapper};

verus! {

/// The closed vocabulary of mode spellings: each of the seven names resolves
/// to its member, any other name to nothing.
pub open spec fn spec_mode_of_name(name: Seq<char>) -> Option<RpcMode> {
    if name == "Disabled"@ {
        Some(RpcMode::Disabled)
    } else if name == "Remote"@ {
        Some(RpcMode::Remote)
    } else if name == "RemoteSync"@ {
        Some(RpcMode::RemoteSync)
    } else if name == "Master"@ {
        Some(RpcMode::Master)
    } else if name == "Puppet"@ {
        Some(RpcMode::Puppet)
    } else if name == "MasterSync"@ {
        Some(RpcMode::MasterSync)
    } else if name == "PuppetSync"@ {
        Some(RpcMode::PuppetSync)
    } else {
        None
    }
}

/// The spelling of one mode, as host-side code generation writes it.
pub open spec fn spec_variant_name(mode: RpcMode) -> Seq<char> {
    match mode {
        RpcMode::Disabled => "Disabled"@,
        RpcMode::Remote => "Remote"@,
        RpcMode::RemoteSync => "RemoteSync"@,
        RpcMode::Master => "Master"@,
        RpcMode::Puppet => "Puppet"@,
        RpcMode::MasterSync => "MasterSync"@,
        RpcMode::PuppetSync => "PuppetSync"@,
    }
}

/// The position of the first `RpcMode` segment of a path, if any: the
/// classifier reads the mode out of the segment that follows it.
pub open spec fn spec_first_mode_anchor(segments: Seq<Seq<char>>) -> Option<int>
    decreases segments.len(),
{
    if segments.len() == 0 {
        None
    } else if segments[0] == "RpcMode"@ {
        Some(0)
    } else {
        match spec_first_mode_anchor(segments.drop_first()) {
            None => None,
            Some(i) => Some(i + 1),
        }
    }
}

/// If `i` is the position of the first `RpcMode` segment, the recursive
/// search finds exactly that position.
pub proof fn lemma_first_mode_anchor_at(segments: Seq<Seq<char>>, i: int)
    requires
        0 <= i < segments.len(),
        segments[i] == "RpcMode"@,
        forall|j: int| 0 <= j < i ==> segments[j] != "RpcMode"@,
    ensures
        spec_first_mode_anchor(segments) == Some(i),
    decreases i,
{
    if i > 0 {
        lemma_first_mode_anchor_at(segments.drop_first(), i - 1);
    }
}

/// If no segment is an `RpcMode` segment, the search finds none.
pub proof fn lemma_first_mode_anchor_absent(segments: Seq<Seq<char>>)
    requires
        forall|j: int| 0 <= j < segments.len() ==> segments[j] != "RpcMode"@,
    ensures
        spec_first_mode_anchor(segments) is None,
    decreases segments.len(),
{
    if segments.len() > 0 {
        lemma_first_mode_anchor_absent(segments.drop_first());
    }
}

/// What a path-shaped rpc argument resolves to: the segment after the first
/// `RpcMode` segment names the mode. A path without such a pair of segments
/// is malformed; a name outside the closed vocabulary is unknown. Both are
/// fatal to the class's generation.
pub open spec fn spec_classify_path(segments: Seq<Seq<char>>) -> Result<RpcMode, RpcArgErrorView> {
    match spec_first_mode_anchor(segments) {
        None => Err(RpcArgErrorView::MissingModePath),
        Some(i) => if i + 1 < segments.len() {
            match spec_mode_of_name(segments[i + 1]) {
                Some(mode) => Ok(mode),
                None => Err(RpcArgErrorView::UnknownVariant(segments[i + 1])),
            }
        } else {
            Err(RpcArgErrorView::MissingModePath)
        },
    }
}

/// What an rpc marker's argument resolves to: only a path can carry a mode;
/// an absent or otherwise-shaped argument is malformed.
pub open spec fn spec_classify_arg(arg: ArgView) -> Result<RpcMode, RpcArgErrorView> {
    match arg {
        ArgView::Path(segments) => spec_classify_path(segments),
        ArgView::Absent => Err(RpcArgErrorView::MissingModePath),
        ArgView::Opaque => Err(RpcArgErrorView::MissingModePath),
    }
}

/// Resolves one mode spelling against the closed vocabulary.
pub fn resolve_mode_name(name: &String) -> (r: Option<RpcMode>)
    ensures
        r == spec_mode_of_name(name@),
{
    if *name == String::from_str("Disabled") {
        Some(RpcMode::Disabled)
    } else if *name == String::from_str("Remote") {
        Some(RpcMode::Remote)
    } else if *name == String::from_str("RemoteSync") {
        Some(RpcMode::RemoteSync)
    } else if *name == String::from_str("Master") {
        Some(RpcMode::Master)
    } else if *name == String::from_str("Puppet") {
        Some(RpcMode::Puppet)
    } else if *name == String::from_str("MasterSync") {
        Some(RpcMode::MasterSync)
    } else if *name == String::from_str("PuppetSync") {
        Some(RpcMode::PuppetSync)
    } else {
        None
    }
}

/// Resolves a path-shaped rpc argument: finds the first `RpcMode` segment
/// and reads the mode out of the segment that follows it.
pub fn classify_mode_path(segments: &Vec<String>) -> (r: Result<RpcMode, RpcArgError>)
    ensures
        match (r, spec_classify_path(segments.deep_view())) {
            (Ok(mode), Ok(spec_mode)) => mode == spec_mode,
            (Err(e), Err(spec_e)) => e@ == spec_e,
            _ => false,
        },
{
    let anchor_tag = String::from_str("RpcMode");
    let mut i: usize = 0;
    while i < segments.len()
        invariant
            i <= segments.len(),
            anchor_tag@ == "RpcMode"@,
            forall|j: int| 0 <= j < i ==> segments.deep_view()[j] != "RpcMode"@,
        decreases segments.len() - i,
    {
        if segments[i] == anchor_tag {
            proof {
                lemma_first_mode_anchor_at(segments.deep_view(), i as int);
            }
            if i + 1 < segments.len() {
                let variant = &segments[i + 1];
                match resolve_mode_name(variant) {
                    Some(mode) => {
                        return Ok(mode);
                    },
                    None => {
                        return Err(RpcArgError::UnknownVariant(variant.clone()));
                    },
                }
            } else {
                return Err(RpcArgError::MissingModePath);
            }
        }
        i += 1;
    }
    proof {
        lemma_first_mode_anchor_absent(segments.deep_view());
    }
    Err(RpcArgError::MissingModePath)
}

/// Resolves an rpc marker's argument to a member of the mode vocabulary, or
/// reports why it cannot be.
pub fn classify_rpc_argument(arg: &MarkerArg) -> (r: Result<RpcMode, RpcArgError>)
    ensures
        match (r, spec_classify_arg(arg@)) {
            (Ok(mode), Ok(spec_mode)) => mode == spec_mode,
            (Err(e), Err(spec_e)) => e@ == spec_e,
            _ => false,
        },
{
    match arg {
        MarkerArg::Path(segments) => classify_mode_path(segments),
        MarkerArg::Absent => Err(RpcArgError::MissingModePath),
        MarkerArg::Opaque => Err(RpcArgError::MissingModePath),
    }
}

impl RpcMode {
    /// The mode's spelling, for diagnostics and host-side code generation.
    pub fn variant_name(&self) -> (r: String)
        ensures
            r@ == spec_variant_name(*self),
    {
        match self {
            RpcMode::Disabled => String::from_str("Disabled"),
            RpcMode::Remote => String::from_str("Remote"),
            RpcMode::RemoteSync => String::from_str("RemoteSync"),
            RpcMode::Master => String::from_str("Master"),
            RpcMode::Puppet => String::from_str("Puppet"),
            RpcMode::MasterSync => String::from_str("MasterSync"),
            RpcMode::PuppetSync => String::from_str("PuppetSync"),
        }
    }
}

impl RpcModeWrapper {
    /// The fully qualified path that host-side code generation spells the
    /// carried mode as, segment by segment.
    pub fn path_segments(&self) -> (r: Vec<String>)
        ensures
            r.deep_view() == seq![
                "gdnative"@,
                "init"@,
                "RpcMode"@,
                spec_variant_name(self.rpc_mode),
            ],
    {
        let mut out: Vec<String> = Vec::new();
        out.push(String::from_str("gdnative"));
        out.push(String::from_str("init"));
        out.push(String::from_str("RpcMode"));
        out.push(self.rpc_mode.variant_name());
        proof {
            assert(out.deep_view() =~= seq![
                "gdnative"@,
                "init"@,
                "RpcMode"@,
                spec_variant_name(self.rpc_mode),
            ]);
        }
        out
    }
}

/// Every spelling the vocabulary resolves round-trips: the name of a mode
/// resolves back to that mode, so classification is complete and unambiguous
/// over the seven members.
pub proof fn lemma_mode_name_round_trip(mode: RpcMode)
    ensures
        spec_mode_of_name(spec_variant_name(mode)) == Some(mode),
{
    reveal_strlit("Disabled");
    reveal_strlit("Remote");
    reveal_strlit("RemoteSync");
    reveal_strlit("Master");
    reveal_strlit("Puppet");
    reveal_strlit("MasterSync");
    reveal_strlit("PuppetSync");
    assert("Disabled"@.len() == 8);
    assert("Remote"@.len() == 6);
    assert("RemoteSync"@.len() == 10);
    assert("Master"@.len() == 6);
    assert("Puppet"@.len() == 6);
    assert("MasterSync"@.len() == 10);
    assert("PuppetSync"@.len() == 10);
    assert("Remote"@[0] == 'R' && "Master"@[0] == 'M' && "Puppet"@[0] == 'P');
    assert("RemoteSync"@[0] == 'R' && "MasterSync"@[0] == 'M' && "PuppetSync"@[0] == 'P');
}

/// A name resolves to a mode exactly when it is one of the seven spellings
/// of the closed vocabulary.
pub proof fn lemma_mode_name_completeness(name: Seq<char>)
    ensures
        spec_mode_of_name(name) is Some <==> (name == "Disabled"@ || name == "Remote"@ || name
            == "RemoteSync"@ || name == "Master"@ || name == "Puppet"@ || name == "MasterSync"@
            || name == "PuppetSync"@),
{
}

} // verus!
