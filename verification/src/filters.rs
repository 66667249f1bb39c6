//! The API's filter comparators, as the list filters use them: a condition
//! holds of a field when every comparator that is set holds.

use vstd::prelude::*;

verus! {

/// Conditions on a text field.
#[derive(Debug, Clone, PartialEq, Eq)]
pub struct StringComparator {
    pub eq: Option<String>,
    pub neq: Option<String>,
    /// Serialized as `in`.
    pub in_: Option<Vec<String>>,
    pub contains: Option<String>,
    pub eq_ignore_case: Option<String>,
    pub starts_with: Option<String>,
}

/// Conditions on an ID.
#[derive(Debug, Clone, PartialEq, Eq)]
pub struct IdComparator {
    pub eq: Option<String>,
    pub neq: Option<String>,
    /// Serialized as `in`.
    pub in_: Option<Vec<String>>,
}

/// Conditions on a number that may be absent. `P` is the number's type.
#[derive(Debug, Clone, PartialEq)]
pub struct NullableNumberComparator<P> {
    pub eq: Option<P>,
    pub neq: Option<P>,
    pub lt: Option<P>,
    pub lte: Option<P>,
    pub gt: Option<P>,
    pub gte: Option<P>,
    pub null: Option<bool>,
}

/// A related record chosen by its ID.
#[derive(Debug, Clone, PartialEq, Eq)]
pub struct IdFilter {
    pub id: Option<IdComparator>,
}

/// Equal to `v`, ASCII case ignored (`eqIgnoreCase`), and nothing else.
pub open spec fn ignore_case(v: String) -> StringComparator {
    StringComparator { eq: None, neq: None, in_: None, contains: None, eq_ignore_case: Some(v), starts_with: None }
}

/// Equal to `v` (`eq`), and nothing else.
pub open spec fn id_eq(v: String) -> IdComparator {
    IdComparator { eq: Some(v), neq: None, in_: None }
}

/// The record whose ID equals `v`.
pub open spec fn with_id(v: String) -> IdFilter {
    IdFilter { id: Some(id_eq(v)) }
}

/// Equal to `v` (`eq`), and nothing else.
pub open spec fn number_eq<P>(v: P) -> NullableNumberComparator<P> {
    NullableNumberComparator { eq: Some(v), neq: None, lt: None, lte: None, gt: None, gte: None, null: None }
}

/// `f` chooses the record whose ID reads `v`, and nothing else.
pub open spec fn is_with_id(f: IdFilter, v: Seq<char>) -> bool {
    &&& f.id matches Some(c)
    &&& c.eq matches Some(q)
    &&& q@ == v
    &&& c.neq is None
    &&& c.in_ is None
}

/// `c` is `eqIgnoreCase` with a text reading `v`, and nothing else.
pub open spec fn is_ignore_case(c: StringComparator, v: Seq<char>) -> bool {
    &&& c.eq_ignore_case matches Some(q)
    &&& q@ == v
    &&& c.eq is None
    &&& c.neq is None
    &&& c.in_ is None
    &&& c.contains is None
    &&& c.starts_with is None
}

pub fn ignore_case_cmp(v: String) -> (r: StringComparator)
    ensures
        r == ignore_case(v),
{
    StringComparator { eq: None, neq: None, in_: None, contains: None, eq_ignore_case: Some(v), starts_with: None }
}

pub fn id_eq_cmp(v: String) -> (r: IdComparator)
    ensures
        r == id_eq(v),
{
    IdComparator { eq: Some(v), neq: None, in_: None }
}

pub fn with_id_filter(v: String) -> (r: IdFilter)
    ensures
        r == with_id(v),
{
    IdFilter { id: Some(id_eq_cmp(v)) }
}

pub fn number_eq_cmp<P>(v: P) -> (r: NullableNumberComparator<P>)
    ensures
        r == number_eq(v),
{
    NullableNumberComparator { eq: Some(v), neq: None, lt: None, lte: None, gt: None, gte: None, null: None }
}

} // verus!
