//! Keys under which responses are cached, and how long they stay.

use vstd::prelude::*;
use crate::decimal::{
    all_digits, decimal, is_digit, lemma_decimal_digits, lemma_decimal_injective,
    lemma_signed_decimal_injective, push_decimal, push_signed_decimal, signed_decimal,
};

verus! {

/// Seconds a cached response lives (`SETEX key 300 value`).
pub const CACHE_TTL_SECONDS: u64 = 300;

/// The key of a cached page of posts:
/// `products:paging:page={page}:pageSize={page_size}:search={search}`.
pub open spec fn paging_key(page: u64, page_size: u64, search: Seq<char>) -> Seq<char> {
    "products:paging:page="@ + decimal(page as nat) + ":pageSize="@ + decimal(page_size as nat)
        + ":search="@ + search
}

/// The key of a cached single post: `post:detail:id={id}`.
pub open spec fn detail_key(id: i32) -> Seq<char> {
    "post:detail:id="@ + signed_decimal(id as int)
}

/// Builds [`paging_key`].
pub fn paging_cache_key(page: u64, page_size: u64, search: &str) -> (key: String)
    ensures
        key@ == paging_key(page, page_size, search@),
{
    let mut key = String::new();
    key.append("products:paging:page=");
    push_decimal(&mut key, page);
    key.append(":pageSize=");
    push_decimal(&mut key, page_size);
    key.append(":search=");
    key.append(search);
    proof {
        assert(key@ =~= paging_key(page, page_size, search@));
    }
    key
}

/// Builds [`detail_key`].
pub fn detail_cache_key(id: i32) -> (key: String)
    ensures
        key@ == detail_key(id),
{
    let mut key = String::new();
    key.append("post:detail:id=");
    push_signed_decimal(&mut key, id);
    proof {
        assert(key@ =~= detail_key(id));
    }
    key
}

proof fn lemma_cancel_prefix(p: Seq<char>, x: Seq<char>, y: Seq<char>)
    requires
        p + x == p + y,
    ensures
        x == y,
{
    assert(x =~= (p + x).subrange(p.len() as int, (p + x).len() as int));
    assert(y =~= (p + y).subrange(p.len() as int, (p + y).len() as int));
}

/// A run of digits followed by a non-digit splits one way only.
proof fn lemma_split_after_digits(x1: Seq<char>, r1: Seq<char>, x2: Seq<char>, r2: Seq<char>)
    requires
        all_digits(x1),
        all_digits(x2),
        r1.len() > 0,
        r2.len() > 0,
        !is_digit(r1[0]),
        !is_digit(r2[0]),
        x1 + r1 == x2 + r2,
    ensures
        x1 == x2,
        r1 == r2,
{
    let s = x1 + r1;
    if x1.len() < x2.len() {
        assert(s[x1.len() as int] == r1[0]);
        assert((x2 + r2)[x1.len() as int] == x2[x1.len() as int]);
        assert(false);
    } else if x2.len() < x1.len() {
        assert((x2 + r2)[x2.len() as int] == r2[0]);
        assert(s[x2.len() as int] == x1[x2.len() as int]);
        assert(false);
    }
    assert(x1 =~= s.subrange(0, x1.len() as int));
    assert(x2 =~= (x2 + r2).subrange(0, x2.len() as int));
    assert(r1 =~= s.subrange(x1.len() as int, s.len() as int));
    assert(r2 =~= (x2 + r2).subrange(x2.len() as int, s.len() as int));
}

/// Law: a page key determines the page, the page size and the search text
/// it was built from, so a cached page is never served for another query.
pub proof fn lemma_paging_key_injective(
    page1: u64,
    size1: u64,
    search1: Seq<char>,
    page2: u64,
    size2: u64,
    search2: Seq<char>,
)
    requires
        paging_key(page1, size1, search1) == paging_key(page2, size2, search2),
    ensures
        page1 == page2,
        size1 == size2,
        search1 == search2,
{
    reveal_strlit("products:paging:page=");
    reveal_strlit(":pageSize=");
    reveal_strlit(":search=");
    let p = "products:paging:page="@;
    let s = ":pageSize="@;
    let q = ":search="@;
    let d1 = decimal(page1 as nat);
    let d2 = decimal(page2 as nat);
    let e1 = decimal(size1 as nat);
    let e2 = decimal(size2 as nat);
    lemma_decimal_digits(page1 as nat);
    lemma_decimal_digits(page2 as nat);
    lemma_decimal_digits(size1 as nat);
    lemma_decimal_digits(size2 as nat);
    let tail1 = q + search1;
    let tail2 = q + search2;
    let mid1 = s + (e1 + tail1);
    let mid2 = s + (e2 + tail2);
    assert(paging_key(page1, size1, search1) =~= p + (d1 + mid1));
    assert(paging_key(page2, size2, search2) =~= p + (d2 + mid2));
    lemma_cancel_prefix(p, d1 + mid1, d2 + mid2);
    assert(mid1[0] == ':');
    assert(mid2[0] == ':');
    lemma_split_after_digits(d1, mid1, d2, mid2);
    lemma_decimal_injective(page1 as nat, page2 as nat);
    lemma_cancel_prefix(s, e1 + tail1, e2 + tail2);
    assert(tail1[0] == ':');
    assert(tail2[0] == ':');
    lemma_split_after_digits(e1, tail1, e2, tail2);
    lemma_decimal_injective(size1 as nat, size2 as nat);
    lemma_cancel_prefix(q, search1, search2);
}

/// Law: a post key determines the post id.
pub proof fn lemma_detail_key_injective(id1: i32, id2: i32)
    requires
        detail_key(id1) == detail_key(id2),
    ensures
        id1 == id2,
{
    lemma_cancel_prefix("post:detail:id="@, signed_decimal(id1 as int), signed_decimal(id2 as int));
    lemma_signed_decimal_injective(id1 as int, id2 as int);
}

/// Law: page keys and post keys never collide.
pub proof fn lemma_keys_disjoint(page: u64, page_size: u64, search: Seq<char>, id: i32)
    ensures
        paging_key(page, page_size, search) != detail_key(id),
{
    reveal_strlit("products:paging:page=");
    reveal_strlit("post:detail:id=");
    let k1 = paging_key(page, page_size, search);
    let k2 = detail_key(id);
    assert(k1[1] == 'r');
    assert(k2[1] == 'o');
}

} // verus!
