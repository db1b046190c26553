use vstd::prelude::*;

use crate::ast::{DiagnosticKind, GenericCounts, Param, ParamPattern, ParamView, PatView};

verus! {

/// The first host-ABI constraint an exported method violates, if any: the
/// host cannot represent type parameters, lifetime parameters, or const
/// generic parameters on a registered method.
pub open spec fn spec_validate(generics: GenericCounts) -> Option<DiagnosticKind> {
    if generics.type_params > 0 {
        Some(DiagnosticKind::TypeParameters)
    } else if generics.lifetimes > 0 {
        Some(DiagnosticKind::LifetimeParameters)
    } else if generics.const_params > 0 {
        Some(DiagnosticKind::ConstParameters)
    } else {
        None
    }
}

/// Checks an exported method's generic parameter counts against the host
/// ABI; reports the first violated constraint, if any.
pub fn validate_generics(generics: &GenericCounts) -> (r: Option<DiagnosticKind>)
    ensures
        r == spec_validate(*generics),
{
    if generics.type_params > 0 {
        Some(DiagnosticKind::TypeParameters)
    } else if generics.lifetimes > 0 {
        Some(DiagnosticKind::LifetimeParameters)
    } else if generics.const_params > 0 {
        Some(DiagnosticKind::ConstParameters)
    } else {
        None
    }
}

/// The decimal digit characters.
pub open spec fn spec_digit_char(d: nat) -> char {
    if d == 0 {
        '0'
    } else if d == 1 {
        '1'
    } else if d == 2 {
        '2'
    } else if d == 3 {
        '3'
    } else if d == 4 {
        '4'
    } else if d == 5 {
        '5'
    } else if d == 6 {
        '6'
    } else if d == 7 {
        '7'
    } else if d == 8 {
        '8'
    } else {
        '9'
    }
}

/// The decimal spelling of a number, most significant digit first, with no
/// leading zeros (a single `0` for zero).
pub open spec fn spec_decimal(n: nat) -> Seq<char>
    decreases n,
{
    if n < 10 {
        seq![spec_digit_char(n)]
    } else {
        spec_decimal(n / 10) + seq![spec_digit_char(n % 10)]
    }
}

/// The deterministic name synthesized for a wildcard parameter: a fixed
/// prefix plus the parameter's ordinal position, a pure function of the
/// position with no hidden counter.
pub open spec fn spec_synth_name(index: nat) -> Seq<char> {
    "__arg"@ + spec_decimal(index)
}

/// A parameter pattern after canonicalization: a wildcard becomes a
/// synthesized name for its position, a simple name keeps its name but loses
/// its mutability qualifier.
pub open spec fn spec_normalize_pattern(pattern: PatView, index: nat) -> PatView {
    match pattern {
        PatView::Wildcard => PatView::Named { name: spec_synth_name(index), mutable: false },
        PatView::Named { name, mutable: _ } => PatView::Named { name, mutable: false },
    }
}

/// A parameter list after canonicalization: every position keeps its type,
/// and its pattern is canonicalized against its position.
pub open spec fn spec_normalize_params(params: Seq<ParamView>) -> Seq<ParamView> {
    Seq::new(
        params.len(),
        |i: int|
            ParamView {
                pattern: spec_normalize_pattern(params[i].pattern, i as nat),
                ty: params[i].ty,
            },
    )
}

/// One decimal digit as a string slice.
fn digit_literal(d: usize) -> (r: &'static str)
    requires
        d < 10,
    ensures
        r@ == seq![spec_digit_char(d as nat)],
{
    let s: &'static str = if d == 0 {
        "0"
    } else if d == 1 {
        "1"
    } else if d == 2 {
        "2"
    } else if d == 3 {
        "3"
    } else if d == 4 {
        "4"
    } else if d == 5 {
        "5"
    } else if d == 6 {
        "6"
    } else if d == 7 {
        "7"
    } else if d == 8 {
        "8"
    } else {
        "9"
    };
    proof {
        reveal_strlit("0");
        reveal_strlit("1");
        reveal_strlit("2");
        reveal_strlit("3");
        reveal_strlit("4");
        reveal_strlit("5");
        reveal_strlit("6");
        reveal_strlit("7");
        reveal_strlit("8");
        reveal_strlit("9");
        assert(s@ =~= seq![spec_digit_char(d as nat)]);
    }
    s
}

/// Writes a number in decimal.
pub fn decimal_string(n: usize) -> (r: String)
    ensures
        r@ == spec_decimal(n as nat),
    decreases n,
{
    if n < 10 {
        let mut s = String::new();
        s.append(digit_literal(n));
        proof {
            assert(s@ =~= spec_decimal(n as nat));
        }
        s
    } else {
        let mut s = decimal_string(n / 10);
        s.append(digit_literal(n % 10));
        proof {
            assert(s@ =~= spec_decimal(n as nat));
        }
        s
    }
}

/// Synthesizes the unique, reproducible name for the wildcard parameter at
/// the given position.
pub fn synthesized_name(index: usize) -> (r: String)
    ensures
        r@ == spec_synth_name(index as nat),
{
    let mut s = String::from_str("__arg");
    let digits = decimal_string(index);
    s.append(digits.as_str());
    s
}

/// Rewrites a parameter list into its canonical form: wildcards get the
/// synthesized name of their position, named bindings lose their mutability
/// qualifier, and every type is carried through unchanged.
pub fn normalize_params(params: &Vec<Param>) -> (r: Vec<Param>)
    ensures
        r.deep_view() == spec_normalize_params(params.deep_view()),
{
    let mut out: Vec<Param> = Vec::new();
    let mut i: usize = 0;
    while i < params.len()
        invariant
            i <= params.len(),
            out@.len() == i,
            forall|k: int|
                0 <= k < i ==> out.deep_view()[k] == spec_normalize_params(params.deep_view())[k],
        decreases params.len() - i,
    {
        let pattern = match &params[i].pattern {
            ParamPattern::Wildcard => ParamPattern::Named {
                name: synthesized_name(i),
                mutable: false,
            },
            ParamPattern::Named { name, mutable: _ } => ParamPattern::Named {
                name: name.clone(),
                mutable: false,
            },
        };
        let p = Param { pattern, ty: params[i].ty.clone() };
        let ghost pv = p@;
        let ghost pre_raw = out@;
        let ghost pre_deep = out.deep_view();
        out.push(p);
        proof {
            assert(out.deep_view()[i as int] == pv);
            assert(pv == spec_normalize_params(params.deep_view())[i as int]);
            assert forall|k: int| 0 <= k < i implies out.deep_view()[k] == spec_normalize_params(
                params.deep_view(),
            )[k] by {
                assert(out@[k] == pre_raw[k]);
                assert(pre_deep[k] == spec_normalize_params(params.deep_view())[k]);
            }
        }
        i += 1;
    }
    proof {
        assert(out.deep_view() =~= spec_normalize_params(params.deep_view()));
    }
    out
}

/// The decimal spelling is never empty, and needs at least two digits from
/// ten upward.
pub proof fn lemma_decimal_len(n: nat)
    ensures
        spec_decimal(n).len() >= 1,
        n >= 10 ==> spec_decimal(n).len() >= 2,
    decreases n,
{
    if n >= 10 {
        lemma_decimal_len(n / 10);
    }
}

/// Digit characters are distinct.
pub proof fn lemma_digit_char_injective(a: nat, b: nat)
    requires
        a < 10,
        b < 10,
        spec_digit_char(a) == spec_digit_char(b),
    ensures
        a == b,
{
}

/// Two different numbers have different decimal spellings.
pub proof fn lemma_decimal_injective(a: nat, b: nat)
    requires
        spec_decimal(a) == spec_decimal(b),
    ensures
        a == b,
    decreases a + b,
{
    lemma_decimal_len(a);
    lemma_decimal_len(b);
    assert(spec_decimal(a).last() == spec_digit_char(a % 10));
    assert(spec_decimal(b).last() == spec_digit_char(b % 10));
    lemma_digit_char_injective(a % 10, b % 10);
    if a < 10 && b < 10 {
    } else if a >= 10 && b >= 10 {
        assert((spec_decimal(a / 10) + seq![spec_digit_char(a % 10)]).drop_last() =~= spec_decimal(
            a / 10,
        ));
        assert((spec_decimal(b / 10) + seq![spec_digit_char(b % 10)]).drop_last() =~= spec_decimal(
            b / 10,
        ));
        lemma_decimal_injective(a / 10, b / 10);
    } else {
        assert(false);
    }
}

/// Wildcard naming is deterministic and collision-free: the names synthesized
/// for two different parameter positions always differ.
pub proof fn lemma_synth_name_injective(i: nat, j: nat)
    requires
        spec_synth_name(i) == spec_synth_name(j),
    ensures
        i == j,
{
    reveal_strlit("__arg");
    assert("__arg"@.len() == 5);
    lemma_decimal_len(i);
    lemma_decimal_len(j);
    assert(spec_decimal(i) =~= spec_synth_name(i).subrange(5, spec_synth_name(i).len() as int));
    assert(spec_decimal(j) =~= spec_synth_name(j).subrange(5, spec_synth_name(j).len() as int));
    lemma_decimal_injective(i, j);
}

/// For a method's normalized parameter list, the names synthesized for two
/// different wildcard positions are distinct from each other.
pub proof fn lemma_wildcard_names_distinct(params: Seq<ParamView>, i: int, j: int)
    requires
        0 <= i < params.len(),
        0 <= j < params.len(),
        i != j,
        params[i].pattern is Wildcard,
        params[j].pattern is Wildcard,
    ensures
        spec_normalize_params(params)[i].pattern->Named_name != spec_normalize_params(
            params,
        )[j].pattern->Named_name,
{
    if spec_synth_name(i as nat) == spec_synth_name(j as nat) {
        lemma_synth_name_injective(i as nat, j as nat);
    }
}

} // verus!
