//! Resolves a request's method and path to one of the five operations.
//!
//! A collection `R` answers on `/R` (list, create) and on `/R/{id}` (get,
//! update, delete), where `{id}` is one path segment holding a decimal
//! integer.
use vstd::prelude::*;

use crate::model::ResourceKind;
use crate::response::{Failure, Invalid};

verus! {

/// The ASCII code of `/`.
pub const SLASH: u8 = 47;

/// The ASCII code of `-`.
pub const MINUS: u8 = 45;

/// The ASCII code of `+`.
pub const PLUS: u8 = 43;

/// The ASCII code of `0`.
pub const ZERO: u8 = 48;

/// The ASCII code of `9`.
pub const NINE: u8 = 57;

/// The magnitude of `i64::MIN`, the largest that an id can have.
const MAGNITUDE_LIMIT: u64 = 9223372036854775808;

/// An HTTP request method, as far as routing tells them apart.
#[derive(Clone, Copy, Debug, PartialEq, Eq, Structural)]
pub enum Method {
    Get,
    Post,
    Put,
    Delete,
    Other,
}

/// The operation that a request resolves to, with the id from its path.
#[derive(Clone, Copy, Debug, PartialEq, Eq, Structural)]
pub enum Route {
    List,
    Create,
    Get(i64),
    Update(i64),
    Delete(i64),
}

pub open spec fn is_digit(b: u8) -> bool {
    ZERO <= b <= NINE
}

/// A non-empty run of decimal digits.
pub open spec fn all_digits(s: Seq<u8>) -> bool {
    s.len() > 0 && forall|i: int| 0 <= i < s.len() ==> is_digit(#[trigger] s[i])
}

/// The value of a run of decimal digits.
pub open spec fn digits_value(s: Seq<u8>) -> int
    decreases s.len(),
{
    if s.len() == 0 {
        0
    } else {
        digits_value(s.drop_last()) * 10 + (s.last() - ZERO)
    }
}

/// The integer that a text writes in decimal: digits, after an optional
/// `-` or `+`.
pub open spec fn decimal_value(s: Seq<u8>) -> Option<int> {
    if s.len() > 0 && s[0] == MINUS && all_digits(s.drop_first()) {
        Some(-digits_value(s.drop_first()))
    } else if s.len() > 0 && s[0] == PLUS && all_digits(s.drop_first()) {
        Some(digits_value(s.drop_first()))
    } else if all_digits(s) {
        Some(digits_value(s))
    } else {
        None
    }
}

/// The id that a path segment holds: its decimal value, where that fits in
/// `i64`.
pub open spec fn spec_parse_id(s: Seq<u8>) -> Option<i64> {
    match decimal_value(s) {
        Some(v) => if i64::MIN <= v <= i64::MAX {
            Some(v as i64)
        } else {
            None
        },
        None => None,
    }
}

proof fn lemma_digits_value_nonneg(s: Seq<u8>)
    requires
        forall|i: int| 0 <= i < s.len() ==> is_digit(#[trigger] s[i]),
    ensures
        digits_value(s) >= 0,
    decreases s.len(),
{
    if s.len() > 0 {
        lemma_digits_value_nonneg(s.drop_last());
    }
}

/// A run of digits is worth at least as much as any of its prefixes.
proof fn lemma_digits_value_prefix(s: Seq<u8>, k: int)
    requires
        forall|i: int| 0 <= i < s.len() ==> is_digit(#[trigger] s[i]),
        0 <= k <= s.len(),
    ensures
        digits_value(s.subrange(0, k)) <= digits_value(s),
    decreases s.len(),
{
    if k < s.len() {
        let t = s.drop_last();
        lemma_digits_value_prefix(t, k);
        lemma_digits_value_nonneg(t);
        assert(t.subrange(0, k) =~= s.subrange(0, k));
    } else {
        assert(s.subrange(0, k) =~= s);
    }
}

/// Parses the id in `s[from..]`.
fn parse_from(s: &[u8], from: usize) -> (r: Option<i64>)
    requires
        from <= s@.len(),
    ensures
        r == spec_parse_id(s@.subrange(from as int, s@.len() as int)),
{
    let ghost t = s@.subrange(from as int, s@.len() as int);
    let n = s.len();
    if from == n {
        return None;
    }
    let mut start: usize = from;
    let mut neg = false;
    if s[from] == MINUS {
        neg = true;
        start = from + 1;
    } else if s[from] == PLUS {
        start = from + 1;
    }
    let ghost digits = s@.subrange(start as int, n as int);
    assert(start > from ==> digits =~= t.drop_first());
    assert(start == from ==> digits =~= t);
    assert(start == from ==> !(t[0] == MINUS) && !(t[0] == PLUS));
    assert(start > from ==> !is_digit(t[0]));
    if start == n {
        return None;
    }
    let mut mag: u64 = 0;
    let mut i: usize = start;
    while i < n
        invariant
            from <= start < n,
            n == s@.len(),
            t == s@.subrange(from as int, n as int),
            start == from || start == from + 1,
            start > from ==> digits == t.drop_first() && !is_digit(t[0]) && (t[0] == MINUS
                || t[0] == PLUS) && (neg <==> t[0] == MINUS),
            start == from ==> digits == t && t[0] != MINUS && t[0] != PLUS && !neg,
            start <= i <= n,
            digits == s@.subrange(start as int, n as int),
            mag as int == digits_value(s@.subrange(start as int, i as int)),
            mag <= MAGNITUDE_LIMIT,
            forall|k: int| start <= k < i ==> is_digit(#[trigger] s@[k]),
        decreases n - i,
    {
        let b = s[i];
        if b < ZERO || b > NINE {
            assert(digits[i - start] == b);
            assert(!all_digits(digits));
            return None;
        }
        let d = (b - ZERO) as u64;
        let ghost prefix = s@.subrange(start as int, i as int + 1);
        assert(prefix.drop_last() =~= s@.subrange(start as int, i as int));
        assert(digits_value(prefix) == mag * 10 + d);
        if mag > (MAGNITUDE_LIMIT - d) / 10 {
            assert(mag * 10 + d > MAGNITUDE_LIMIT) by (nonlinear_arith)
                requires
                    mag > (MAGNITUDE_LIMIT - d) / 10,
                    d <= 9,
            ;
            proof {
                if all_digits(digits) {
                    assert(digits.subrange(0, i - start + 1) =~= prefix);
                    lemma_digits_value_prefix(digits, i - start + 1);
                }
            }
            return None;
        }
        assert(mag * 10 + d <= MAGNITUDE_LIMIT) by (nonlinear_arith)
            requires
                mag <= (MAGNITUDE_LIMIT - d) / 10,
                d <= 9,
        ;
        mag = mag * 10 + d;
        i = i + 1;
    }
    assert(s@.subrange(start as int, i as int) =~= digits);
    assert(all_digits(digits));
    if neg {
        if mag == MAGNITUDE_LIMIT {
            Some(i64::MIN)
        } else {
            Some(-(mag as i64))
        }
    } else if mag <= i64::MAX as u64 {
        Some(mag as i64)
    } else {
        None
    }
}

/// Parses a path segment as an id: decimal digits after an optional `-` or
/// `+`, whose value fits in `i64`.
pub fn parse_id(s: &[u8]) -> (r: Option<i64>)
    ensures
        r == spec_parse_id(s@),
{
    assert(s@.subrange(0, s@.len() as int) =~= s@);
    parse_from(s, 0)
}

/// The path of a collection: `/` and its segment.
pub open spec fn collection_path(kind: ResourceKind) -> Seq<u8> {
    seq![SLASH] + kind.spec_segment()
}

/// Whether `path` is the collection's path, `/`, and one non-empty segment.
pub open spec fn is_item_path(kind: ResourceKind, path: Seq<u8>) -> bool {
    let base = collection_path(kind);
    &&& path.len() > base.len() + 1
    &&& path.subrange(0, base.len() as int) == base
    &&& path[base.len() as int] == SLASH
    &&& forall|k: int| base.len() + 1 <= k < path.len() ==> #[trigger] path[k] != SLASH
}

/// The id segment of an item path.
pub open spec fn item_segment(kind: ResourceKind, path: Seq<u8>) -> Seq<u8> {
    path.subrange(collection_path(kind).len() + 1 as int, path.len() as int)
}

/// Where a request goes: the collection path takes `GET` (list) and `POST`
/// (create); an item path takes `GET`, `PUT` and `DELETE`, and its segment
/// must hold an id. Any other request matches no route.
pub open spec fn spec_route(kind: ResourceKind, method: Method, path: Seq<u8>) -> Result<
    Route,
    Failure,
> {
    if path == collection_path(kind) {
        match method {
            Method::Get => Ok(Route::List),
            Method::Post => Ok(Route::Create),
            _ => Err(Failure::NotFound),
        }
    } else if is_item_path(kind, path) {
        match (method, spec_parse_id(item_segment(kind, path))) {
            (Method::Get, Some(id)) => Ok(Route::Get(id)),
            (Method::Put, Some(id)) => Ok(Route::Update(id)),
            (Method::Delete, Some(id)) => Ok(Route::Delete(id)),
            (Method::Get, None) | (Method::Put, None) | (Method::Delete, None) => Err(
                Failure::Invalid(Invalid::BadId),
            ),
            _ => Err(Failure::NotFound),
        }
    } else {
        Err(Failure::NotFound)
    }
}

/// Whether `path` starts with `prefix`.
fn starts_with(path: &[u8], prefix: &Vec<u8>) -> (r: bool)
    ensures
        r == (prefix@.len() <= path@.len() && path@.subrange(0, prefix@.len() as int)
            == prefix@),
{
    if prefix.len() > path.len() {
        return false;
    }
    let mut i: usize = 0;
    while i < prefix.len()
        invariant
            prefix@.len() <= path@.len(),
            i <= prefix@.len(),
            forall|k: int| 0 <= k < i ==> path@[k] == prefix@[k],
        decreases prefix.len() - i,
    {
        if path[i] != prefix[i] {
            assert(path@.subrange(0, prefix@.len() as int)[i as int] != prefix@[i as int]);
            return false;
        }
        i = i + 1;
    }
    assert(path@.subrange(0, prefix@.len() as int) =~= prefix@);
    true
}

/// Whether no byte of `path[from..]` is a `/`.
fn slash_free(path: &[u8], from: usize) -> (r: bool)
    ensures
        r == forall|k: int| from <= k < path@.len() ==> #[trigger] path@[k] != SLASH,
{
    let mut i: usize = from;
    while i < path.len()
        invariant
            from <= i,
            forall|k: int| from <= k < i ==> #[trigger] path@[k] != SLASH,
        decreases path.len() - i,
    {
        if path[i] == SLASH {
            return false;
        }
        i = i + 1;
    }
    true
}

/// Resolves a request on a collection to its route: `NotFound` where no
/// route matches, `Invalid(BadId)` where an item route's segment is no id.
pub fn route(kind: ResourceKind, method: Method, path: &[u8]) -> (r: Result<Route, Failure>)
    ensures
        r == spec_route(kind, method, path@),
{
    let mut base = Vec::new();
    base.push(SLASH);
    let mut seg = kind.segment();
    base.append(&mut seg);
    assert(base@ =~= collection_path(kind));
    let prefixed = starts_with(path, &base);
    let n = base.len();
    if prefixed && path.len() == n {
        assert(path@ =~= path@.subrange(0, n as int));
        match method {
            Method::Get => Ok(Route::List),
            Method::Post => Ok(Route::Create),
            _ => Err(Failure::NotFound),
        }
    } else if prefixed && path.len() > n + 1 && path[n] == SLASH && slash_free(path, n + 1) {
        assert(path@ != collection_path(kind));
        assert(is_item_path(kind, path@));
        let id = parse_from(path, n + 1);
        assert(id == spec_parse_id(item_segment(kind, path@)));
        match (method, id) {
            (Method::Get, Some(id)) => Ok(Route::Get(id)),
            (Method::Put, Some(id)) => Ok(Route::Update(id)),
            (Method::Delete, Some(id)) => Ok(Route::Delete(id)),
            (Method::Get, None) | (Method::Put, None) | (Method::Delete, None) => Err(
                Failure::Invalid(Invalid::BadId),
            ),
            _ => Err(Failure::NotFound),
        }
    } else {
        proof {
            if path@ == collection_path(kind) {
                assert(path@.subrange(0, n as int) =~= path@);
            }
        }
        Err(Failure::NotFound)
    }
}

} // verus!
