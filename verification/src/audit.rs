//! Listing audit events: the query's filters and the page it asks for.
use vstd::prelude::*;

verus! {

/// Default page size for audit event listings.
pub fn default_limit() -> (r: i64)
    ensures
        r == 100,
{
    100
}

/// Query params for listing audit events (times in seconds since the Unix
/// epoch).
#[derive(Clone, Debug, PartialEq, Eq)]
pub struct ListAuditEventsQuery {
    pub tenant_id: u128,
    pub actor_user_id: Option<u128>,
    pub action_key: Option<String>,
    pub entity_kind: Option<String>,
    pub entity_id: Option<u128>,
    pub from_utc: Option<i64>,
    pub to_utc: Option<i64>,
    pub limit: i64,
    pub offset: i64,
}

/// `v` brought into `lo..=hi`.
pub open spec fn clamp(v: int, lo: int, hi: int) -> int {
    if v < lo {
        lo
    } else if v > hi {
        hi
    } else {
        v
    }
}

/// The page that the REST listing returns: a size of 1 to 1000 and an
/// offset of at least 0, whatever was asked.
pub fn rest_page(limit: i64, offset: i64) -> (r: (i64, i64))
    ensures
        r.0 == clamp(limit as int, 1, 1000),
        r.1 == (if offset < 0 {
            0
        } else {
            offset
        }),
{
    let l = if limit < 1 {
        1
    } else if limit > 1000 {
        1000
    } else {
        limit
    };
    let o = if offset < 0 {
        0
    } else {
        offset
    };
    (l, o)
}

/// A page of audit events `E`, with the number of events that match and
/// the page that was returned.
#[derive(Clone, Debug, PartialEq, Eq)]
pub struct AuditEventsResponse<E> {
    pub events: Vec<E>,
    pub total: i64,
    pub limit: i64,
    pub offset: i64,
}

impl<E> AuditEventsResponse<E> {
    /// The answer of the REST listing: the events of the page, the total,
    /// and the page as `rest_page` makes it from what was asked.
    pub fn new(events: Vec<E>, total: i64, limit: i64, offset: i64) -> (r: Self)
        ensures
            r.events@ == events@,
            r.total == total,
            (r.limit, r.offset) == rest_page_of(limit, offset),
    {
        let (l, o) = rest_page(limit, offset);
        AuditEventsResponse { events, total, limit: l, offset: o }
    }
}

/// The page that the REST listing returns for what was asked.
pub open spec fn rest_page_of(limit: i64, offset: i64) -> (i64, i64) {
    (clamp(limit as int, 1, 1000) as i64, if offset < 0 { 0 } else { offset })
}

/// The page that the RPC listing returns: a size of 1 to 100 and an offset
/// of at least 0, whatever was asked.
pub fn rpc_page(limit: i32, offset: i32) -> (r: (i64, i64))
    ensures
        r.0 == clamp(limit as int, 1, 100),
        r.1 == (if offset < 0 {
            0
        } else {
            offset as int
        }),
{
    let l: i32 = if limit < 1 {
        1
    } else if limit > 100 {
        100
    } else {
        limit
    };
    let o: i32 = if offset < 0 {
        0
    } else {
        offset
    };
    (l as i64, o as i64)
}

/// An optional id filter of an RPC request: absent, or a UUID, else the
/// refusal `message`.
pub fn optional_id(s: &Option<String>, message: &str) -> (r: Result<Option<u128>, String>)
    ensures
        match s {
            None => r == Ok::<Option<u128>, String>(None),
            Some(t) => match crate::ids::uuid_value(t@) {
                Some(v) => r == Ok::<Option<u128>, String>(Some(v)),
                None => r matches Err(m) && m@ == message@,
            },
        },
{
    match s {
        None => Ok(None),
        Some(t) => match crate::ids::parse_id(t.as_str()) {
            Some(v) => Ok(Some(v)),
            None => Err(message.to_owned()),
        },
    }
}

/// A listing never returns an empty or oversized page, nor starts before
/// the first event.
pub proof fn law_page_bounds(limit: i64, offset: i64)
    ensures
        1 <= clamp(limit as int, 1, 1000) <= 1000,
        1 <= clamp(limit as int, 1, 100) <= 100,
        clamp(clamp(limit as int, 1, 1000), 1, 1000) == clamp(limit as int, 1, 1000),
{
}

} // verus!
