//! The extensible-enum core of the binding.
//!
//! The native library describes resource states, flags and command codes as
//! plain integers, and later versions of it add new codes without changing the
//! storage type.  Each enumeration the binding supports is therefore declared
//! once, as an ordered table of `(raw constant, symbolic variant)` pairs; that
//! table is the single source of truth for both conversion directions, so the
//! two can never drift apart.
//!
//! [`RawEnum`] is the per-enumeration conversion contract over such a table.
//! [`Enum`] wraps a conversion result so that a raw code the binding does not
//! recognize stays representable and round-trips unchanged, instead of being
//! coerced to a known variant or lost.

use vstd::prelude::*;
use vstd::std_specs::cmp::PartialEqSpec;
use vstd::string::StringExecFns;

use crate::util::dec_rep;
use crate::util::dec_string;

verus! {

/// No two pairs of the table share a raw constant.
pub open spec fn distinct_raws<E, I>(table: Seq<(I, E)>) -> bool {
    forall|i: int, j: int|
        #![trigger table[i], table[j]]
        0 <= i < j < table.len() ==> table[i].0 != table[j].0
}

/// No two pairs of the table share a symbolic variant.
pub open spec fn distinct_variants<E, I>(table: Seq<(I, E)>) -> bool {
    forall|i: int, j: int|
        #![trigger table[i], table[j]]
        0 <= i < j < table.len() ==> table[i].1 != table[j].1
}

/// A sound declaration table: distinct raw constants, distinct variants.
pub open spec fn table_wf<E, I>(table: Seq<(I, E)>) -> bool {
    distinct_raws(table) && distinct_variants(table)
}

/// The variant `v` appears in the table.
pub open spec fn declares<E, I>(table: Seq<(I, E)>, v: E) -> bool {
    exists|i: int| 0 <= i < table.len() && (#[trigger] table[i]).1 == v
}

/// The raw constant `raw` appears in the table.
pub open spec fn declares_raw<E, I>(table: Seq<(I, E)>, raw: I) -> bool {
    exists|i: int| 0 <= i < table.len() && (#[trigger] table[i]).0 == raw
}

/// raw -> symbolic resolution: the pairs are tried in declaration order and
/// the first raw constant equal to `raw` wins; an undeclared raw gives `None`.
pub open spec fn first_match<E, I>(table: Seq<(I, E)>, raw: I) -> Option<E>
    decreases table.len(),
{
    if table.len() == 0 {
        None
    } else if table[0].0 == raw {
        Some(table[0].1)
    } else {
        first_match(table.drop_first(), raw)
    }
}

/// symbolic -> raw conversion: the raw constant declared for `v`.
pub open spec fn raw_for<E, I>(table: Seq<(I, E)>, v: E) -> I
    decreases table.len(),
{
    if table.len() == 0 {
        arbitrary()
    } else if table[0].1 == v {
        table[0].0
    } else {
        raw_for(table.drop_first(), v)
    }
}

/// The conversion contract of one declared enumeration: a symbolic type tied
/// to its raw integer type `I` through the declaration table.
pub trait RawEnum<I>: Sized {
    /// The declaration table of this enumeration, in declaration order.
    spec fn declared() -> Seq<(I, Self)>;

    /// What every declaration guarantees by construction: the raw constants
    /// are pairwise distinct (a native-library contract), the variant names
    /// are pairwise distinct, and every variant of the type is declared.
    proof fn declared_wf()
        ensures
            table_wf(Self::declared()),
            forall|v: Self| #[trigger] declares(Self::declared(), v),
    ;

    /// Resolves a raw code to the symbolic variant declared for it, or to
    /// `None` when no pair of the table carries it.
    fn from_raw(raw: I) -> (r: Option<Self>)
        ensures
            r == first_match(Self::declared(), raw),
    ;

    /// The raw constant declared for this variant; total, always succeeds.
    fn to_raw(self) -> (r: I)
        ensures
            r == raw_for(Self::declared(), self),
    ;
}

/// The textual-rendering rule of a declared enumeration: each variant renders
/// as its identifier lower-cased, and the type has a fixed name used when an
/// unrecognized code of it is rendered.
pub trait EnumText: Sized {
    /// The name of the enumeration type.
    spec fn type_label() -> Seq<char>;

    /// The text of one variant.
    spec fn rendered(self) -> Seq<char>;

    /// The name of the enumeration type, as a string.
    fn label() -> (r: String)
        ensures
            r@ == Self::type_label(),
    ;

    /// Renders one variant: its identifier lower-cased.
    fn render(self) -> (r: String)
        ensures
            r@ == self.rendered(),
    ;
}

/// The textual rendering of a raw code, for the raw integer types the native
/// enumerations are stored in.
pub trait RawText: Sized {
    /// The text of the code.
    spec fn rendered(self) -> Seq<char>;

    /// Renders the code.
    fn render(self) -> (r: String)
        ensures
            r@ == self.rendered(),
    ;
}

impl RawText for u32 {
    open spec fn rendered(self) -> Seq<char> {
        dec_rep(self as nat)
    }

    fn render(self) -> (r: String) {
        dec_string(self)
    }
}

/// A resolved-or-preserved enumeration value: either a raw code recognized at
/// build time, or the raw code itself, kept so that it can be inspected and
/// round-tripped back into the native library.
#[derive(Clone, Copy, Debug)]
pub enum Enum<E, I> {
    /// A successfully resolved symbolic value.
    Known(E),
    /// A raw code with no symbolic variant declared for it.
    Unknown(I),
}

/// The error handed out when a caller demands a strictly-known value from an
/// [`Enum`] that holds an unrecognized raw code.  Carries exactly that code.
#[derive(Clone, Copy, Debug)]
pub struct UnknownEnumError<I> {
    raw: I,
}

impl<I> UnknownEnumError<I> {
    /// The raw code that could not be resolved.
    pub closed spec fn spec_value(self) -> I {
        self.raw
    }

    /// Consumes the error and hands out the offending raw code.
    pub fn value(self) -> (r: I)
        ensures
            r == self.spec_value(),
    {
        self.raw
    }
}

impl<E, I> Enum<E, I> {
    /// The symbolic side, as an optional value.
    pub open spec fn spec_known(self) -> Option<E> {
        match self {
            Enum::Known(e) => Some(e),
            Enum::Unknown(_) => None,
        }
    }

    /// The unresolved side, as an optional value.
    pub open spec fn spec_unknown(self) -> Option<I> {
        match self {
            Enum::Known(_) => None,
            Enum::Unknown(v) => Some(v),
        }
    }

    /// Whether a symbolic value was resolved.
    pub fn is_known(&self) -> (r: bool)
        ensures
            r == (*self is Known),
    {
        match self {
            Enum::Known(_) => true,
            Enum::Unknown(_) => false,
        }
    }

    /// Whether the raw code stayed unresolved.
    pub fn is_unknown(&self) -> (r: bool)
        ensures
            r == (*self is Unknown),
    {
        match self {
            Enum::Known(_) => false,
            Enum::Unknown(_) => true,
        }
    }

    /// The symbolic value.  Reserved for call sites that assert, by
    /// construction, that the native library cannot have produced an
    /// unrecognized code here; on an `Unknown` value the call is a
    /// non-recoverable programmer error and aborts.
    pub fn unwrap(self) -> (r: E)
        requires
            self is Known,
        ensures
            self matches Enum::Known(e) && r == e,
    {
        match self {
            Enum::Known(e) => e,
            Enum::Unknown(_) => unreached(),
        }
    }

    /// The symbolic value if one was resolved, else the caller's fallback.
    pub fn unwrap_or(self, default: E) -> (r: E)
        ensures
            self matches Enum::Known(e) ==> r == e,
            self is Unknown ==> r == default,
    {
        match self {
            Enum::Known(e) => e,
            Enum::Unknown(_) => default,
        }
    }

    /// The symbolic side, as an optional value.
    pub fn known(self) -> (r: Option<E>)
        ensures
            r == self.spec_known(),
    {
        match self {
            Enum::Known(e) => Some(e),
            Enum::Unknown(_) => None,
        }
    }

    /// The unresolved side, as an optional value.
    pub fn unknown(self) -> (r: Option<I>)
        ensures
            r == self.spec_unknown(),
    {
        match self {
            Enum::Known(_) => None,
            Enum::Unknown(v) => Some(v),
        }
    }

    /// Strict demand for a known value: success carries the symbolic value,
    /// failure carries the unrecognized raw code, so that the unresolved case
    /// can propagate through ordinary error handling.
    pub fn into_result(self) -> (r: Result<E, UnknownEnumError<I>>)
        ensures
            self matches Enum::Known(e) ==> r == Ok::<E, UnknownEnumError<I>>(e),
            self matches Enum::Unknown(v) ==> (r matches Err(err) && err.spec_value() == v),
    {
        match self {
            Enum::Known(e) => Ok(e),
            Enum::Unknown(v) => Err(UnknownEnumError { raw: v }),
        }
    }

    /// Applies `f` to the symbolic value if one was resolved; short-circuits
    /// to `false` otherwise.
    pub fn is_known_and<F: FnOnce(E) -> bool>(self, f: F) -> (r: bool)
        requires
            self matches Enum::Known(e) ==> call_requires(f, (e,)),
        ensures
            self is Unknown ==> !r,
            self matches Enum::Known(e) ==> call_ensures(f, (e,), r),
    {
        match self {
            Enum::Known(e) => f(e),
            Enum::Unknown(_) => false,
        }
    }

    /// Applies `f` to the unresolved raw code if there is one; short-circuits
    /// to `false` otherwise.
    pub fn is_unknown_and<F: FnOnce(I) -> bool>(self, f: F) -> (r: bool)
        requires
            self matches Enum::Unknown(v) ==> call_requires(f, (v,)),
        ensures
            self is Known ==> !r,
            self matches Enum::Unknown(v) ==> call_ensures(f, (v,), r),
    {
        match self {
            Enum::Known(_) => false,
            Enum::Unknown(v) => f(v),
        }
    }

    /// Whether a symbolic value was resolved and equals `candidate`.
    pub fn is(self, candidate: E) -> (r: bool) where E: PartialEqSpec
        ensures
            E::obeys_eq_spec() ==> (r <==> (self matches Enum::Known(e)
                && e.eq_spec(&candidate))),
    {
        match self {
            Enum::Known(e) => e == candidate,
            Enum::Unknown(_) => false,
        }
    }

    /// Whether a symbolic value was resolved and equals some element of
    /// `candidates`.
    pub fn is_any(self, candidates: &[E]) -> (r: bool) where E: PartialEqSpec + Copy
        ensures
            E::obeys_eq_spec() ==> (r <==> (self matches Enum::Known(e)
                && exists|k: int| 0 <= k < candidates@.len() && (#[trigger] e.eq_spec(
                &candidates@[k],
            )))),
    {
        match self {
            Enum::Unknown(_) => false,
            Enum::Known(e) => {
                let mut idx: usize = 0;
                let mut found = false;
                while idx < candidates.len()
                    invariant
                        0 <= idx <= candidates@.len(),
                        E::obeys_eq_spec() ==> (found <==> exists|k: int|
                            0 <= k < idx && (#[trigger] e.eq_spec(&candidates@[k]))),
                    decreases candidates@.len() - idx,
                {
                    if e == candidates[idx] {
                        found = true;
                    }
                    idx += 1;
                }
                found
            },
        }
    }
}

impl<E: RawEnum<I>, I> Enum<E, I> {
    /// The value construction from a raw code always produces: a hit in the
    /// declaration table wrapped as `Known`, a miss preserved as `Unknown`.
    pub open spec fn spec_from_raw(raw: I) -> Enum<E, I> {
        match first_match(E::declared(), raw) {
            Some(e) => Enum::Known(e),
            None => Enum::Unknown(raw),
        }
    }

    /// The raw code this value stands for: the declared constant of a known
    /// variant, or the preserved unrecognized code itself.
    pub open spec fn spec_to_raw(self) -> I {
        match self {
            Enum::Known(e) => raw_for(E::declared(), e),
            Enum::Unknown(v) => v,
        }
    }

    /// Total construction from a raw code; never fails.
    pub fn from_raw(raw: I) -> (r: Self) where I: Copy
        ensures
            r == Self::spec_from_raw(raw),
    {
        match E::from_raw(raw) {
            Some(e) => Enum::Known(e),
            None => Enum::Unknown(raw),
        }
    }

    /// Total conversion back to the raw code; identity-preserving for
    /// unrecognized codes.
    pub fn to_raw(self) -> (r: I)
        ensures
            r == self.spec_to_raw(),
    {
        match self {
            Enum::Known(e) => e.to_raw(),
            Enum::Unknown(v) => v,
        }
    }
}

impl<E: EnumText, I: RawText> Enum<E, I> {
    /// What rendering produces: a known variant's own text, or the
    /// enumeration type's name with the raw code in parentheses.
    pub open spec fn spec_rendered(self) -> Seq<char> {
        match self {
            Enum::Known(e) => e.rendered(),
            Enum::Unknown(v) => E::type_label() + seq!['('] + v.rendered() + seq![')'],
        }
    }

    /// Renders the value for logs and operators.
    pub fn render(self) -> (r: String)
        ensures
            r@ == self.spec_rendered(),
    {
        match self {
            Enum::Known(e) => e.render(),
            Enum::Unknown(v) => {
                let s = E::label();
                let s = s.concat("(");
                let n = v.render();
                let s = s.concat(n.as_str());
                let s = s.concat(")");
                proof {
                    reveal_strlit("(");
                    reveal_strlit(")");
                    assert("("@ =~= seq!['(']);
                    assert(")"@ =~= seq![')']);
                    assert(s@ =~= self.spec_rendered());
                }
                s
            },
        }
    }
}

impl<E, I> From<E> for Enum<E, I> {
    /// Wrapping a symbolic value always produces `Known`: the only way to
    /// build an `Enum` other than `from_raw`.
    fn from(e: E) -> (r: Self) {
        Enum::Known(e)
    }
}

impl<E, I> vstd::std_specs::convert::FromSpecImpl<E> for Enum<E, I> {
    open spec fn obeys_from_spec() -> bool {
        true
    }

    open spec fn from_spec(e: E) -> Self {
        Enum::Known(e)
    }
}

/// Dropping the first pair keeps a table sound.
proof fn lemma_wf_drop_first<E, I>(table: Seq<(I, E)>)
    requires
        table.len() > 0,
    ensures
        distinct_raws(table) ==> distinct_raws(table.drop_first()),
        distinct_variants(table) ==> distinct_variants(table.drop_first()),
{
    let rest = table.drop_first();
    assert forall|i: int, j: int|
        #![trigger rest[i], rest[j]]
        0 <= i < j < rest.len() implies rest[i] == table[i + 1] && rest[j] == table[j + 1] by {}
}

/// A successful resolution points at a pair of the table that carries the
/// resolved raw constant.
proof fn lemma_first_match_found<E, I>(table: Seq<(I, E)>, raw: I)
    requires
        first_match(table, raw) is Some,
    ensures
        exists|i: int|
            0 <= i < table.len() && (#[trigger] table[i]).0 == raw && first_match(table, raw)
                == Some(table[i].1),
    decreases table.len(),
{
    if table.len() == 0 {
    } else if table[0].0 == raw {
        assert((table[0]).0 == raw && first_match(table, raw) == Some(table[0].1));
    } else {
        let rest = table.drop_first();
        lemma_first_match_found(rest, raw);
        let j = choose|j: int|
            0 <= j < rest.len() && (#[trigger] rest[j]).0 == raw && first_match(rest, raw)
                == Some(rest[j].1);
        assert((table[j + 1]).0 == raw && first_match(table, raw) == Some(table[j + 1].1));
    }
}

/// Resolution fails exactly when no pair of the table carries the raw code.
proof fn lemma_first_match_none<E, I>(table: Seq<(I, E)>, raw: I)
    ensures
        (first_match(table, raw) is None) <==> !declares_raw(table, raw),
    decreases table.len(),
{
    if table.len() == 0 {
    } else {
        let rest = table.drop_first();
        lemma_first_match_none(rest, raw);
        if table[0].0 == raw {
            assert(declares_raw(table, raw));
        } else {
            assert forall|j: int| 0 <= j < rest.len() implies rest[j] == table[j + 1] by {}
            if declares_raw(table, raw) {
                let i = choose|i: int| 0 <= i < table.len() && (#[trigger] table[i]).0 == raw;
                assert((rest[i - 1]).0 == raw);
                assert(declares_raw(rest, raw));
            }
            if declares_raw(rest, raw) {
                let j = choose|j: int| 0 <= j < rest.len() && (#[trigger] rest[j]).0 == raw;
                assert((table[j + 1]).0 == raw);
                assert(declares_raw(table, raw));
            }
        }
    }
}

/// In a table of distinct raw constants, the pair at `i` resolves to its own
/// variant.
proof fn lemma_first_match_at<E, I>(table: Seq<(I, E)>, i: int)
    requires
        distinct_raws(table),
        0 <= i < table.len(),
    ensures
        first_match(table, table[i].0) == Some(table[i].1),
    decreases table.len(),
{
    if i == 0 {
    } else {
        assert((table[0]).0 != (table[i]).0);
        lemma_wf_drop_first(table);
        lemma_first_match_at(table.drop_first(), i - 1);
        assert(table.drop_first()[i - 1] == table[i]);
    }
}

/// A declared variant's raw constant is read off a pair of the table that
/// carries the variant.
proof fn lemma_raw_for_found<E, I>(table: Seq<(I, E)>, v: E)
    requires
        declares(table, v),
    ensures
        exists|i: int|
            0 <= i < table.len() && (#[trigger] table[i]).1 == v && raw_for(table, v)
                == table[i].0,
    decreases table.len(),
{
    if table.len() == 0 {
    } else if table[0].1 == v {
        assert((table[0]).1 == v && raw_for(table, v) == table[0].0);
    } else {
        let rest = table.drop_first();
        let i = choose|i: int| 0 <= i < table.len() && (#[trigger] table[i]).1 == v;
        assert((rest[i - 1]).1 == v);
        assert(declares(rest, v));
        lemma_raw_for_found(rest, v);
        let j = choose|j: int|
            0 <= j < rest.len() && (#[trigger] rest[j]).1 == v && raw_for(rest, v) == rest[j].0;
        assert((table[j + 1]).1 == v && raw_for(table, v) == table[j + 1].0);
    }
}

/// In a table of distinct variants, the pair at `i` gives its variant exactly
/// its own raw constant.
proof fn lemma_raw_for_at<E, I>(table: Seq<(I, E)>, i: int)
    requires
        distinct_variants(table),
        0 <= i < table.len(),
    ensures
        raw_for(table, table[i].1) == table[i].0,
    decreases table.len(),
{
    if i == 0 {
    } else {
        assert((table[0]).1 != (table[i]).1);
        lemma_wf_drop_first(table);
        lemma_raw_for_at(table.drop_first(), i - 1);
        assert(table.drop_first()[i - 1] == table[i]);
    }
}

/// The two directions of conversion are inverses on the known set: resolving
/// the raw constant declared for any symbolic variant gives back exactly that
/// variant.
pub proof fn lemma_known_round_trip<E: RawEnum<I>, I>(v: E)
    ensures
        first_match(E::declared(), raw_for(E::declared(), v)) == Some(v),
{
    E::declared_wf();
    let t = E::declared();
    lemma_raw_for_found(t, v);
    let i = choose|i: int| 0 <= i < t.len() && (#[trigger] t[i]).1 == v && raw_for(t, v) == t[i].0;
    lemma_first_match_at(t, i);
}

/// Every declared pair converts exactly as declared, in both directions: its
/// raw constant resolves to its variant, and its variant converts back to its
/// raw constant.
pub proof fn lemma_declared_pair_round_trip<E: RawEnum<I>, I>(i: int)
    requires
        0 <= i < E::declared().len(),
    ensures
        first_match(E::declared(), E::declared()[i].0) == Some(E::declared()[i].1),
        raw_for(E::declared(), E::declared()[i].1) == E::declared()[i].0,
        Enum::<E, I>::spec_from_raw(E::declared()[i].0) == Enum::<E, I>::Known(E::declared()[i].1),
{
    E::declared_wf();
    lemma_first_match_at(E::declared(), i);
    lemma_raw_for_at(E::declared(), i);
}

/// The central property of the container: for any raw code, declared or not,
/// construction followed by conversion back to raw is the identity.
pub proof fn lemma_container_round_trip<E: RawEnum<I>, I>(raw: I)
    ensures
        Enum::<E, I>::spec_from_raw(raw).spec_to_raw() == raw,
{
    E::declared_wf();
    let t = E::declared();
    if first_match(t, raw) is Some {
        lemma_first_match_found(t, raw);
        let i = choose|i: int|
            0 <= i < t.len() && (#[trigger] t[i]).0 == raw && first_match(t, raw) == Some(
                t[i].1,
            );
        lemma_raw_for_at(t, i);
    }
}

/// Construction from a raw code resolves a symbolic variant exactly when the
/// code is declared; an undeclared code is preserved as `Unknown`, unchanged.
pub proof fn lemma_from_raw_partition<E: RawEnum<I>, I>(raw: I)
    ensures
        (Enum::<E, I>::spec_from_raw(raw) is Known) <==> declares_raw(E::declared(), raw),
        !declares_raw(E::declared(), raw) ==> Enum::<E, I>::spec_from_raw(raw) == Enum::<E,
            I>::Unknown(raw),
{
    lemma_first_match_none(E::declared(), raw);
}

/// Exactly one side of the container is ever populated: a value is `Known` or
/// `Unknown`, never both and never neither, and the two optional projections
/// mirror that.
pub proof fn lemma_known_unknown_partition<E, I>(x: Enum<E, I>)
    ensures
        (x is Known) != (x is Unknown),
        (x.spec_known() is Some) != (x.spec_unknown() is Some),
        (x.spec_known() is Some) == (x is Known),
{
}

} // verus!
