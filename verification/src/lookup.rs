//! How the identifier in a request is turned into queries.
//!
//! A paste is addressed by its slug. Where an id is accepted too, the
//! identifier is first taken as a slug; only if no paste has that slug, and
//! the identifier is a decimal numeral that fits an id, it is taken as an id.

use vstd::prelude::*;
use vstd::utf8::*;

verus! {

/// `byte` is an ASCII digit.
pub open spec fn is_digit(byte: u8) -> bool {
    48 <= byte <= 57
}

/// `bytes` is a non-empty run of ASCII digits.
pub open spec fn is_numeral(bytes: Seq<u8>) -> bool {
    &&& bytes.len() > 0
    &&& forall|i: int| 0 <= i < bytes.len() ==> is_digit(#[trigger] bytes[i])
}

/// The number that a run of ASCII digits denotes in base ten.
pub open spec fn decimal_value(digits: Seq<u8>) -> nat
    decreases digits.len(),
{
    if digits.len() == 0 {
        0
    } else {
        decimal_value(digits.drop_last()) * 10 + (digits.last() - 48) as nat
    }
}

/// The id that an identifier denotes, if it denotes one: the identifier is a
/// decimal numeral, leading zeros allowed, and its value fits in 32 bits.
pub open spec fn id_of(identifier: Seq<char>) -> Option<u32> {
    let bytes = encode_utf8(identifier);
    if is_numeral(bytes) && decimal_value(bytes) <= u32::MAX {
        Some(decimal_value(bytes) as u32)
    } else {
        None
    }
}

/// A numeral is worth at least as much as each of its prefixes.
proof fn lemma_prefix_value(digits: Seq<u8>, k: int)
    requires
        is_numeral(digits),
        0 <= k <= digits.len(),
    ensures
        decimal_value(digits.take(k)) <= decimal_value(digits),
    decreases digits.len() - k,
{
    if k == digits.len() {
        assert(digits.take(k) =~= digits);
    } else {
        lemma_prefix_value(digits, k + 1);
        let longer = digits.take(k + 1);
        assert(longer.drop_last() =~= digits.take(k));
        assert(is_digit(digits[k]));
        assert(longer.last() == digits[k]);
    }
}

/// Reads an identifier as an id.
pub fn parse_id(identifier: &str) -> (id: Option<u32>)
    ensures
        id == id_of(identifier@),
{
    let bytes = identifier.as_bytes();
    let n = bytes.len();
    if n == 0 {
        return None;
    }
    let mut value: u64 = 0;
    let mut i: usize = 0;
    while i < n
        invariant
            i <= n,
            n == bytes@.len(),
            bytes@ == encode_utf8(identifier@),
            forall|j: int| 0 <= j < i ==> is_digit(#[trigger] bytes@[j]),
            value == decimal_value(bytes@.take(i as int)),
            value <= u32::MAX,
        decreases n - i,
    {
        let byte = bytes[i];
        if byte < 48 || byte > 57 {
            return None;
        }
        let next: u64 = value * 10 + (byte - 48) as u64;
        proof {
            let longer = bytes@.take(i + 1);
            assert(longer.drop_last() =~= bytes@.take(i as int));
            assert(longer.last() == byte);
            assert(next == decimal_value(longer));
            if is_numeral(bytes@) {
                lemma_prefix_value(bytes@, i + 1);
            }
        }
        if next > u32::MAX as u64 {
            return None;
        }
        value = next;
        i += 1;
    }
    proof {
        assert(bytes@.take(n as int) =~= bytes@);
    }
    Some(value as u32)
}

/// One question to a repository.
#[derive(Debug)]
pub enum Query {
    /// The paste with this slug.
    Slug(String),
    /// The paste with this id.
    Id(u32),
}

/// What a [`Query`] holds, as plain values.
pub enum QueryView {
    Slug(Seq<char>),
    Id(u32),
}

impl View for Query {
    type V = QueryView;

    open spec fn view(&self) -> QueryView {
        match self {
            Query::Slug(slug) => QueryView::Slug(slug@),
            Query::Id(id) => QueryView::Id(*id),
        }
    }
}

/// The queries that resolve an identifier, in the order in which they are
/// asked: the first that finds a paste settles it.
pub open spec fn plan_of(identifier: Seq<char>) -> Seq<QueryView> {
    match id_of(identifier) {
        Some(id) => seq![QueryView::Slug(identifier), QueryView::Id(id)],
        None => seq![QueryView::Slug(identifier)],
    }
}

/// What a list of queries holds, as plain values.
pub open spec fn plan_view(plan: Seq<Query>) -> Seq<QueryView> {
    Seq::new(plan.len(), |i: int| plan[i]@)
}

/// Plans the queries for an identifier that may be a slug or an id.
pub fn lookup_plan(identifier: &str) -> (plan: Vec<Query>)
    ensures
        plan_view(plan@) == plan_of(identifier@),
{
    let mut plan: Vec<Query> = Vec::new();
    plan.push(Query::Slug(identifier.to_owned()));
    match parse_id(identifier) {
        Some(id) => {
            plan.push(Query::Id(id));
        },
        None => {},
    }
    assert(plan_view(plan@) =~= plan_of(identifier@));
    plan
}

} // verus!
