//! Rules for what a listing shows: page sizes, hidden content, and the kind
//! of address an author posted from.

use vstd::prelude::*;

verus! {

/// The page size where a request names none.
pub const DEFAULT_LIMIT: i32 = 10;

/// The largest page size.
pub const MAX_LIMIT: i32 = 20;

/// The page size for a request that asks for `requested` items: the
/// default where it asks for none, and never more than `MAX_LIMIT`.
pub open spec fn limit_of(requested: Option<i32>) -> i32 {
    let wanted = match requested {
        Some(limit) => limit,
        None => DEFAULT_LIMIT,
    };
    if wanted > MAX_LIMIT {
        MAX_LIMIT
    } else {
        wanted
    }
}

/// The page size for a request that asks for `requested` items.
pub fn page_limit(requested: Option<i32>) -> (r: i32)
    ensures
        r == limit_of(requested),
        r <= MAX_LIMIT,
{
    let wanted = match requested {
        Some(limit) => limit,
        None => DEFAULT_LIMIT,
    };
    if wanted > MAX_LIMIT {
        MAX_LIMIT
    } else {
        wanted
    }
}

/// The number of items to pass over: what the request asks for, or none.
pub fn page_offset(requested: Option<i32>) -> (r: i32)
    ensures
        r == match requested {
            Some(offset) => offset,
            None => 0,
        },
{
    match requested {
        Some(offset) => offset,
        None => 0,
    }
}

/// What a reader sees of a comment's content: all of it, unless the comment
/// is hidden and the reader did not ask, as a moderator may, for hidden
/// content.
pub fn visible_content(content: &str, is_hidden: bool, show_hidden: bool) -> (r: Option<String>)
    ensures
        match r {
            Some(shown) => (show_hidden || !is_hidden) && shown@ == content@,
            None => !show_hidden && is_hidden,
        },
{
    if show_hidden || !is_hidden {
        Some(content.to_owned())
    } else {
        None
    }
}

/// Whether the stored address `ip` is an IPv6 address. An address is stored
/// in four bytes (IPv4) or sixteen; it counts as IPv6 when a byte beyond the
/// fourth is not zero.
pub open spec fn is_ipv6(ip: Seq<u8>) -> bool {
    exists|i: int| 4 <= i < ip.len() && ip[i] != 0
}

/// Whether the stored address `ip`, of four bytes at least, is an IPv6
/// address.
pub fn has_ipv6(ip: &[u8]) -> (r: bool)
    requires
        ip.len() >= 4,
    ensures
        r == is_ipv6(ip@),
{
    let mut i: usize = 4;
    while i < ip.len()
        invariant
            4 <= i <= ip.len(),
            forall|j: int| 4 <= j < i ==> ip@[j] == 0,
        decreases ip.len() - i,
    {
        if ip[i] != 0 {
            return true;
        }
        i += 1;
    }
    false
}

/// An address of four bytes is never IPv6.
pub proof fn lemma_four_bytes_are_ipv4(ip: Seq<u8>)
    requires
        ip.len() == 4,
    ensures
        !is_ipv6(ip),
{
}

} // verus!
