//! The validity algebra: the result type of a validation run and its
//! combination law. A run starts from `Validity::valid()`, tags every
//! validator outcome with `push_blacklist`, and folds the tagged outcomes
//! together with `combine`. `combine` is the join of a semilattice whose
//! bottom element is `Valid`: once any outcome is `Invalid`, the accumulator
//! stays `Invalid` and carries the union of all failing pairs seen so far.

use vstd::prelude::*;
use vstd::seq_lib::*;

verus! {

/// A field name; the names originate from annotation text, so they live for
/// the whole process.
pub type FieldName = &'static str;

/// The validator's name; process-static for the same reason.
pub type ValidatorName = &'static str;

/// The mathematical model of a blacklist: the set of (field name,
/// validator name) pairs that failed.
pub type BlacklistModel = Set<(Seq<char>, Seq<char>)>;

/// The fields that failed validation: a set of (field, validator) pairs,
/// unique and unordered. Stored as a vector that carries no duplicate pair.
pub struct Blacklist {
    entries: Vec<(FieldName, ValidatorName)>,
}

/// The mathematical model of a `Validity`: either a pass, or a failure
/// carrying the set of (field, validator) pairs that failed.
pub enum Verdict {
    Pass,
    Fail(BlacklistModel),
}

/// Validity, returned by validators.
pub enum Validity {
    Valid,
    Invalid(Blacklist),
}

/// The verdict a boolean predicate stands for: a bare failure carries no
/// blacklist entry yet; tagging adds the (field, validator) pair afterwards.
pub open spec fn verdict_of(b: bool) -> Verdict {
    if b {
        Verdict::Pass
    } else {
        Verdict::Fail(Set::empty())
    }
}

/// What `combine` does, on models: `Pass` is the identity; a failing
/// accumulator absorbs a pass and unions with another failure.
pub open spec fn spec_combine(a: Verdict, b: Verdict) -> Verdict {
    match a {
        Verdict::Pass => b,
        Verdict::Fail(s) => match b {
            Verdict::Pass => Verdict::Fail(s),
            Verdict::Fail(t) => Verdict::Fail(s.union(t)),
        },
    }
}

/// What `push_blacklist` does, on models: a no-op on a pass, a set insertion
/// on a failure.
pub open spec fn spec_push(a: Verdict, field: Seq<char>, validator: Seq<char>) -> Verdict {
    match a {
        Verdict::Pass => Verdict::Pass,
        Verdict::Fail(s) => Verdict::Fail(s.insert((field, validator))),
    }
}

/// Content equality of two string slices.
pub(crate) fn str_eq(a: &str, b: &str) -> (r: bool)
    ensures
        r == (a@ == b@),
{
    let a_len = a.unicode_len();
    let b_len = b.unicode_len();
    if a_len != b_len {
        return false;
    }
    let mut i: usize = 0;
    while i < a_len
        invariant
            a_len == a@.len(),
            a_len == b@.len(),
            i <= a_len,
            forall|j: int| 0 <= j < i ==> a@[j] == b@[j],
        decreases a_len - i,
    {
        if a.get_char(i) != b.get_char(i) {
            return false;
        }
        i += 1;
    }
    proof {
        assert(a@ =~= b@);
    }
    true
}

proof fn lemma_to_set_push(s: Seq<(Seq<char>, Seq<char>)>, x: (Seq<char>, Seq<char>))
    ensures
        s.push(x).to_set() == s.to_set().insert(x),
{
    assert forall|y: (Seq<char>, Seq<char>)| #[trigger] s.push(x).to_set().contains(y)
        implies s.to_set().insert(x).contains(y) by {
        let k = choose|k: int| 0 <= k < s.push(x).len() && s.push(x)[k] == y;
        if k < s.len() {
            assert(s[k] == y);
        }
    };
    assert forall|y: (Seq<char>, Seq<char>)| #[trigger] s.to_set().insert(x).contains(y)
        implies s.push(x).to_set().contains(y) by {
        if y == x {
            assert(s.push(x)[s.len() as int] == y);
        } else {
            let k = choose|k: int| 0 <= k < s.len() && s[k] == y;
            assert(s.push(x)[k] == y);
        }
    };
    assert(s.push(x).to_set() =~= s.to_set().insert(x));
}

impl Blacklist {
    /// The stored pairs, as sequences of characters, in storage order.
    pub closed spec fn entry_views(self) -> Seq<(Seq<char>, Seq<char>)> {
        self.entries@.map_values(|e: (FieldName, ValidatorName)| (e.0@, e.1@))
    }

    /// The set of (field, validator) pairs this blacklist holds.
    pub open spec fn models(self) -> BlacklistModel {
        self.entry_views().to_set()
    }

    /// A pair appears at most once, so the stored length is the set's size.
    pub open spec fn wf(self) -> bool {
        self.entry_views().no_duplicates()
    }

    /// Insert a (field, validator) pair; a pair already present is kept once.
    pub fn insert(&mut self, field_name: FieldName, validator_name: ValidatorName)
        ensures
            old(self).wf() ==> final(self).wf(),
            final(self).models() == old(self).models().insert((field_name@, validator_name@)),
    {
        let ghost pair = (field_name@, validator_name@);
        let n = self.entries.len();
        let mut i: usize = 0;
        while i < n
            invariant
                *self == *old(self),
                pair == (field_name@, validator_name@),
                n == self.entries.len(),
                i <= n,
                forall|j: int| 0 <= j < i ==> self.entry_views()[j] != pair,
            decreases n - i,
        {
            let e = self.entries[i];
            proof {
                assert(self.entries@[i as int] == e);
                assert(self.entry_views()[i as int] == (e.0@, e.1@));
            }
            let same_field = str_eq(e.0, field_name);
            let same_validator = str_eq(e.1, validator_name);
            if same_field && same_validator {
                proof {
                    assert(e.0@ == field_name@);
                    assert(e.1@ == validator_name@);
                    assert(self.entry_views()[i as int] == pair);
                    assert(self.entry_views().contains(pair));
                    assert(self.models().insert(pair) =~= self.models());
                }
                return ;
            }
            proof {
                assert(self.entry_views()[i as int] != pair);
            }
            i += 1;
        }
        proof {
            assert(!self.entry_views().contains(pair));
        }
        let ghost prior = self.entry_views();
        self.entries.push((field_name, validator_name));
        proof {
            assert(self.entry_views() =~= prior.push(pair));
            lemma_to_set_push(prior, pair);
        }
    }

    /// Whether the given pair is blacklisted.
    pub fn contains(&self, field_name: FieldName, validator_name: ValidatorName) -> (r: bool)
        ensures
            r == self.models().contains((field_name@, validator_name@)),
    {
        let ghost pair = (field_name@, validator_name@);
        let n = self.entries.len();
        let mut i: usize = 0;
        while i < n
            invariant
                pair == (field_name@, validator_name@),
                n == self.entries.len(),
                i <= n,
                forall|j: int| 0 <= j < i ==> self.entry_views()[j] != pair,
            decreases n - i,
        {
            let e = self.entries[i];
            proof {
                assert(self.entries@[i as int] == e);
                assert(self.entry_views()[i as int] == (e.0@, e.1@));
            }
            let same_field = str_eq(e.0, field_name);
            let same_validator = str_eq(e.1, validator_name);
            if same_field && same_validator {
                proof {
                    assert(e.0@ == field_name@);
                    assert(e.1@ == validator_name@);
                    assert(self.entry_views()[i as int] == pair);
                    assert(self.entry_views().contains(pair));
                }
                return true;
            }
            proof {
                assert(self.entry_views()[i as int] != pair);
            }
            i += 1;
        }
        proof {
            assert(!self.entry_views().contains(pair));
        }
        false
    }

    /// How many (field, validator) pairs are blacklisted.
    pub fn len(&self) -> (r: usize)
        requires
            self.wf(),
        ensures
            r == self.models().len(),
    {
        proof {
            self.entry_views().unique_seq_to_set();
        }
        self.entries.len()
    }

    /// Merge another blacklist in: set union.
    fn extend_from(&mut self, other: Blacklist)
        ensures
            old(self).wf() ==> final(self).wf(),
            final(self).models() == old(self).models().union(other.models()),
    {
        let n = other.entries.len();
        let mut i: usize = 0;
        while i < n
            invariant
                n == other.entries.len(),
                old(self).wf() ==> self.wf(),
                i <= n,
                self.models() == old(self).models().union(
                    other.entry_views().take(i as int).to_set(),
                ),
            decreases n - i,
        {
            let e = other.entries[i];
            let ghost pair = (e.0@, e.1@);
            let ghost taken = other.entry_views().take(i as int);
            proof {
                assert(other.entries@[i as int] == e);
                assert(other.entry_views()[i as int] == (e.0@, e.1@));
            }
            self.insert(e.0, e.1);
            proof {
                assert(other.entry_views().take(i + 1 as int) =~= taken.push(pair));
                lemma_to_set_push(taken, pair);
                assert(old(self).models().union(taken.to_set().insert(pair)) =~= old(
                    self,
                ).models().union(taken.to_set()).insert(pair));
            }
            i += 1;
        }
        proof {
            assert(other.entry_views().take(n as int) =~= other.entry_views());
        }
    }
}

impl View for Validity {
    type V = Verdict;

    open spec fn view(&self) -> Verdict {
        match self {
            Validity::Valid => Verdict::Pass,
            Validity::Invalid(blacklist) => Verdict::Fail(blacklist.models()),
        }
    }
}

impl Validity {
    /// The stored blacklist, if any, carries no duplicate pair.
    pub open spec fn wf(self) -> bool {
        match self {
            Validity::Valid => true,
            Validity::Invalid(blacklist) => blacklist.wf(),
        }
    }

    /// Create new valid variant.
    pub fn valid() -> (r: Self)
        ensures
            r.wf(),
            r@ == Verdict::Pass,
    {
        Validity::Valid
    }

    /// Create new invalid variant, with an empty blacklist; a predicate that
    /// fails with no further detail returns this.
    pub fn invalid() -> (r: Self)
        ensures
            r.wf(),
            r@ == Verdict::Fail(Set::<(Seq<char>, Seq<char>)>::empty()),
    {
        let blacklist = Blacklist { entries: Vec::new() };
        proof {
            assert(blacklist.entry_views() =~= Seq::empty());
            assert(blacklist.models() =~= Set::empty());
        }
        Validity::Invalid(blacklist)
    }

    /// The adapter every boolean-returning predicate uses: `valid()` on
    /// `true`, `invalid()` on `false`.
    pub fn from_bool(b: bool) -> (r: Self)
        ensures
            r.wf(),
            r@ == verdict_of(b),
    {
        if b {
            Self::valid()
        } else {
            Self::invalid()
        }
    }

    /// Whether this is the valid variant.
    pub fn is_valid(&self) -> (r: bool)
        ensures
            r == (self@ is Pass),
    {
        match self {
            Validity::Valid => true,
            Validity::Invalid(_) => false,
        }
    }

    /// Push to blacklist if invalid: a no-op on `Valid`, a set insertion of
    /// the (field, validator) pair on `Invalid`.
    pub fn push_blacklist(self, field_name: FieldName, validator_name: ValidatorName) -> (r: Self)
        ensures
            self.wf() ==> r.wf(),
            r@ == spec_push(self@, field_name@, validator_name@),
    {
        match self {
            Validity::Valid => Validity::Valid,
            Validity::Invalid(mut blacklist) => {
                blacklist.insert(field_name, validator_name);
                Validity::Invalid(blacklist)
            },
        }
    }

    /// Combine validities: an invalid accumulator stays invalid and absorbs
    /// the other blacklist; a valid accumulator becomes exactly `other`.
    pub fn combine(&mut self, other: Self)
        ensures
            old(self).wf() && other.wf() ==> final(self).wf(),
            final(self)@ == spec_combine(old(self)@, other@),
    {
        match self {
            Validity::Valid => {
                *self = other;
            },
            Validity::Invalid(blacklist) => {
                match other {
                    Validity::Valid => {},
                    Validity::Invalid(other_blacklist) => {
                        blacklist.extend_from(other_blacklist);
                    },
                }
            },
        }
    }
}

impl From<bool> for Validity {
    /// The boolean adapter, as a conversion: `valid()` on `true`,
    /// `invalid()` on `false`.
    fn from(value: bool) -> (r: Self)
        ensures
            r.wf(),
            r@ == verdict_of(value),
    {
        Self::from_bool(value)
    }
}

impl vstd::std_specs::convert::FromSpecImpl<bool> for Validity {
    open spec fn obeys_from_spec() -> bool {
        false
    }

    open spec fn from_spec(v: bool) -> Self {
        Validity::Valid
    }
}

/// The trait used for validation: the generated contract of each annotated
/// type. Its implementations live with the annotated types; the framework
/// only calls through it.
pub trait Validate {
    /// The context type.
    type Context;

    /// Validate.
    fn validate(&self, ctx: &Self::Context) -> Validity;
}

/// `combine` is associative: folding outcomes left or right yields the same
/// verdict.
pub proof fn lemma_combine_associative(a: Verdict, b: Verdict, c: Verdict)
    ensures
        spec_combine(spec_combine(a, b), c) == spec_combine(a, spec_combine(b, c)),
{
    match (a, b, c) {
        (Verdict::Fail(s), Verdict::Fail(t), Verdict::Fail(u)) => {
            assert(s.union(t).union(u) =~= s.union(t.union(u)));
        },
        _ => {},
    }
}

/// `Valid` is the identity of `combine`, on either side.
pub proof fn lemma_combine_identity(x: Verdict)
    ensures
        spec_combine(Verdict::Pass, x) == x,
        spec_combine(x, Verdict::Pass) == x,
{
}

/// Absorption: an invalid accumulator ignores a pass entirely and unions
/// with another failure's blacklist.
pub proof fn lemma_combine_absorption(s: BlacklistModel, x: Verdict)
    ensures
        x is Pass ==> spec_combine(Verdict::Fail(s), x) == Verdict::Fail(s),
        x matches Verdict::Fail(t) ==> spec_combine(Verdict::Fail(s), x) == Verdict::Fail(
            s.union(t),
        ),
{
}

/// `combine` is monotone: once either input is a failure, the combined
/// verdict is a failure carrying at least that input's failing pairs.
pub proof fn lemma_combine_monotone(a: Verdict, b: Verdict)
    ensures
        (a is Fail || b is Fail) ==> spec_combine(a, b) is Fail,
        a matches Verdict::Fail(s) ==> (spec_combine(a, b) matches Verdict::Fail(u)
            && s.subset_of(u)),
        b matches Verdict::Fail(t) ==> (spec_combine(a, b) matches Verdict::Fail(u)
            && t.subset_of(u)),
{
}

/// Tagging is a no-op on a pass and strictly additive on a failure: the
/// prior pairs are kept and the tagged pair is present afterwards.
pub proof fn lemma_push_additive(a: Verdict, field: Seq<char>, validator: Seq<char>)
    ensures
        a is Pass ==> spec_push(a, field, validator) == Verdict::Pass,
        a matches Verdict::Fail(s) ==> spec_push(a, field, validator) == Verdict::Fail(
            s.insert((field, validator)),
        ) && s.subset_of(s.insert((field, validator))) && s.insert(
            (field, validator),
        ).contains((field, validator)),
{
}

/// Tagging the same (field, validator) pair twice yields a set with one
/// occurrence of it.
pub proof fn lemma_push_idempotent(a: Verdict, field: Seq<char>, validator: Seq<char>)
    ensures
        spec_push(spec_push(a, field, validator), field, validator) == spec_push(
            a,
            field,
            validator,
        ),
{
    match a {
        Verdict::Pass => {},
        Verdict::Fail(s) => {
            assert(s.insert((field, validator)).insert((field, validator)) =~= s.insert(
                (field, validator),
            ));
        },
    }
}

} // verus!
