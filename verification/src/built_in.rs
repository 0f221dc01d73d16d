//! Built-in validators: pure leaf predicates consumed by generated validation
//! code. Each takes the annotated field by reference as its first argument
//! and any directive-supplied arguments thereafter, and returns a `Validity`.

use vstd::prelude::*;
use vstd::string::StrSliceExecFns;
use vstd::std_specs::cmp::PartialEqSpec;
use vstd::std_specs::cmp::PartialOrdSpec;
use vstd::std_specs::convert::IntoSpec;
use core::cmp::Ordering;

use crate::validity::Validate;
use crate::validity::Validity;
use crate::validity::verdict_of;

verus! {

/// Which characters count as alphanumeric; stands for the result of
/// `char::is_alphanumeric`, whose Unicode classification this crate does not
/// restate.
pub uninterp spec fn alnum_char(c: char) -> bool;

/// Relies on char::is_alphanumeric: the result depends on the character alone.
#[verifier::external_body]
fn char_is_alphanumeric(c: char) -> (r: bool)
    ensures
        r == alnum_char(c),
{
    c.is_alphanumeric()
}

/// All characters of the string are alphanumeric.
pub open spec fn all_alnum(s: Seq<char>) -> bool {
    forall|i: int| 0 <= i < s.len() ==> alnum_char(s[i])
}

/// Validates all characters in a string are ascii.
pub fn ascii(item: &str) -> (v: Validity)
    ensures
        v.wf(),
        v@ == verdict_of(item.is_ascii()),
{
    Validity::from_bool(item.is_ascii())
}

/// Validates all characters in a string are alphanumeric.
pub fn alphanumeric(item: &str) -> (v: Validity)
    ensures
        v.wf(),
        v@ == verdict_of(all_alnum(item@)),
{
    let n = item.unicode_len();
    let mut i: usize = 0;
    while i < n
        invariant
            n == item@.len(),
            i <= n,
            forall|j: int| 0 <= j < i ==> alnum_char(item@[j]),
        decreases n - i,
    {
        if !char_is_alphanumeric(item.get_char(i)) {
            proof {
                assert(!all_alnum(item@));
            }
            return Validity::from_bool(false);
        }
        i += 1;
    }
    Validity::from_bool(true)
}

/// Validates a string is within the min and max length (in bytes).
pub fn length(item: &str, min: usize, max: usize) -> (v: Validity)
    ensures
        v.wf(),
        v@ == verdict_of(min <= item.len() && item.len() <= max),
{
    let len = item.len();
    Validity::from_bool(len >= min && len <= max)
}

/// Validates a number is within the min and max value.
pub fn range<I: Ord, C>(item: &I, min: I, max: I) -> (v: Validity)
    ensures
        v.wf(),
        I::obeys_partial_cmp_spec() ==> v@ == verdict_of(
            (item.partial_cmp_spec(&min) matches Some(Ordering::Greater | Ordering::Equal)) && (
            item.partial_cmp_spec(&max) matches Some(Ordering::Less | Ordering::Equal)),
        ),
{
    Validity::from_bool(*item >= min && *item <= max)
}

/// Validates a number is less than another value.
pub fn less_than<I: Ord, C>(item: &I, other: I) -> (v: Validity)
    ensures
        v.wf(),
        I::obeys_partial_cmp_spec() ==> v@ == verdict_of(
            item.partial_cmp_spec(&other) == Some(Ordering::Less),
        ),
{
    Validity::from_bool(*item < other)
}

/// Validates a number is greater than another value.
pub fn greater_than<I: Ord, C>(item: &I, other: I) -> (v: Validity)
    ensures
        v.wf(),
        I::obeys_partial_cmp_spec() ==> v@ == verdict_of(
            item.partial_cmp_spec(&other) == Some(Ordering::Greater),
        ),
{
    Validity::from_bool(*item > other)
}

/// Validates an option is `Some`.
pub fn some<I>(item: &Option<I>) -> (v: Validity)
    ensures
        v.wf(),
        v@ == verdict_of(item is Some),
{
    Validity::from_bool(item.is_some())
}

/// Validates an option is `None`.
pub fn none<I>(item: &Option<I>) -> (v: Validity)
    ensures
        v.wf(),
        v@ == verdict_of(item is None),
{
    Validity::from_bool(item.is_none())
}

/// Validates two items are equal.
pub fn eq<I: Eq>(item: &I, other: &I) -> (v: Validity)
    ensures
        v.wf(),
        I::obeys_eq_spec() ==> v@ == verdict_of(item.eq_spec(other)),
{
    Validity::from_bool(*item == *other)
}

/// Validates with an expression: the directive supplies, computed in the
/// field's scope, either a boolean (adapted through `From<bool>`) or a
/// `Validity`, and its conversion is the outcome.
pub fn expr<I, V: Into<Validity>>(_item: &I, value: V) -> (v: Validity)
    ensures
        V::obeys_into_spec() ==> v == value.into_spec(),
{
    value.into()
}

/// Nested validation: delegates to the nested instance's own validation
/// contract; its blacklist entries carry the nested structure's field names.
pub fn validate<I: Validate<Context = C>, C>(item: &I, ctx: &C) -> Validity {
    item.validate(ctx)
}

} // verus!
