//! The query machinery shared by all record kinds.
//!
//! Tables are sequences of records in insertion order. Lookups, deletions,
//! range filters, the descending order by creation timestamp, and the page
//! slice are each defined as a spec function here, and each executable
//! function is proved to return exactly that definition's value.

use vstd::prelude::*;

use crate::envelope::ApiPagedResult;
use crate::order::lex_le;
use crate::order::lex_lt;
use crate::order::str_eq;
use crate::order::str_le;
use crate::order::str_lt;
use crate::records::StoreRecord;

verus! {

/// Some record in `s` carries the id.
pub open spec fn contains_key<R: StoreRecord>(s: Seq<R>, id: Seq<char>) -> bool {
    exists|i: int| 0 <= i < s.len() && s[i].key() == id
}

/// No two records in `s` share an id.
pub open spec fn unique_keys<R: StoreRecord>(s: Seq<R>) -> bool {
    forall|i: int, j: int| 0 <= i < j < s.len() ==> s[i].key() != s[j].key()
}

/// The first record in `s` carrying the id, if any.
pub open spec fn find_by_key<R: StoreRecord>(s: Seq<R>, id: Seq<char>) -> Option<R>
    decreases s.len(),
{
    if s.len() == 0 {
        None
    } else if s[0].key() == id {
        Some(s[0])
    } else {
        find_by_key(s.skip(1), id)
    }
}

/// `s` without the records carrying the id (at most one under `unique_keys`),
/// remaining order kept.
pub open spec fn remove_key<R: StoreRecord>(s: Seq<R>, id: Seq<char>) -> Seq<R>
    decreases s.len(),
{
    if s.len() == 0 {
        Seq::empty()
    } else {
        let rest = remove_key(s.drop_last(), id);
        if s.last().key() == id {
            rest
        } else {
            rest.push(s.last())
        }
    }
}

/// The half-open range check on timestamps: the start bound is included, the
/// end bound is excluded.
pub open spec fn in_range(stamp: Seq<char>, lo: Seq<char>, hi: Seq<char>) -> bool {
    lex_le(lo, stamp) && lex_lt(stamp, hi)
}

/// The filter predicate every range query uses, for both the page rows and
/// the total count.
pub open spec fn row_matches<R: StoreRecord>(
    r: R,
    uid: Seq<char>,
    lo: Seq<char>,
    hi: Seq<char>,
) -> bool {
    r.owner() == uid && in_range(r.stamp(), lo, hi)
}

/// The records of `s` owned by `uid` with a timestamp in `[lo, hi)`, in table
/// order.
pub open spec fn filter_range<R: StoreRecord>(
    s: Seq<R>,
    uid: Seq<char>,
    lo: Seq<char>,
    hi: Seq<char>,
) -> Seq<R>
    decreases s.len(),
{
    if s.len() == 0 {
        Seq::empty()
    } else {
        let rest = filter_range(s.drop_last(), uid, lo, hi);
        if row_matches(s.last(), uid, lo, hi) {
            rest.push(s.last())
        } else {
            rest
        }
    }
}

/// The records of `s` owned by `uid`, in table order.
pub open spec fn filter_owner<R: StoreRecord>(s: Seq<R>, uid: Seq<char>) -> Seq<R>
    decreases s.len(),
{
    if s.len() == 0 {
        Seq::empty()
    } else {
        let rest = filter_owner(s.drop_last(), uid);
        if s.last().owner() == uid {
            rest.push(s.last())
        } else {
            rest
        }
    }
}

/// Insertion into a sequence sorted by descending timestamp: `x` goes after
/// every record whose timestamp is at least its own, so earlier-inserted
/// records with an equal timestamp stay in front.
pub open spec fn insert_desc<R: StoreRecord>(x: R, s: Seq<R>) -> Seq<R>
    decreases s.len(),
{
    if s.len() == 0 {
        seq![x]
    } else if lex_le(x.stamp(), s[0].stamp()) {
        seq![s[0]] + insert_desc(x, s.skip(1))
    } else {
        seq![x] + s
    }
}

/// `s` reordered by descending timestamp (stable insertion sort).
pub open spec fn sort_desc<R: StoreRecord>(s: Seq<R>) -> Seq<R>
    decreases s.len(),
{
    if s.len() == 0 {
        Seq::empty()
    } else {
        insert_desc(s.last(), sort_desc(s.drop_last()))
    }
}

/// Timestamps never increase along `s`.
pub open spec fn sorted_desc<R: StoreRecord>(s: Seq<R>) -> bool {
    forall|i: int, j: int| 0 <= i < j < s.len() ==> lex_le(s[j].stamp(), s[i].stamp())
}

/// The slice of `s` belonging to the 1-based page `page` of size `page_size`:
/// rows at offsets `(page-1)*page_size` up to but excluding
/// `page*page_size`, clipped to the length of `s`.
pub open spec fn page_of<R>(s: Seq<R>, page: int, page_size: int) -> Seq<R>
    recommends
        page >= 1,
        page_size >= 1,
{
    let off = (page - 1) * page_size;
    s.subrange(
        vstd::math::min(off, s.len() as int),
        vstd::math::min(off + page_size, s.len() as int),
    )
}

/// The first `n` records of `s`, or all of them if `s` is shorter.
pub open spec fn prefix_of<R>(s: Seq<R>, n: int) -> Seq<R>
    recommends
        n >= 0,
{
    s.subrange(0, vstd::math::min(n, s.len() as int))
}

pub proof fn lemma_insert_desc_len<R: StoreRecord>(x: R, s: Seq<R>)
    ensures
        insert_desc(x, s).len() == s.len() + 1,
    decreases s.len(),
{
    if s.len() > 0 && lex_le(x.stamp(), s[0].stamp()) {
        lemma_insert_desc_len(x, s.skip(1));
    }
}

pub proof fn lemma_sort_desc_len<R: StoreRecord>(s: Seq<R>)
    ensures
        sort_desc(s).len() == s.len(),
    decreases s.len(),
{
    if s.len() > 0 {
        lemma_sort_desc_len(s.drop_last());
        lemma_insert_desc_len(s.last(), sort_desc(s.drop_last()));
    }
}

/// Where `x` lands: if the first `j` records have timestamps at least
/// `x.stamp()` and the one at `j` (if any) does not, inserting puts `x`
/// exactly at offset `j`.
proof fn lemma_insert_desc_at<R: StoreRecord>(x: R, s: Seq<R>, j: int)
    requires
        0 <= j <= s.len(),
        forall|k: int| 0 <= k < j ==> lex_le(x.stamp(), #[trigger] s[k].stamp()),
        j < s.len() ==> !lex_le(x.stamp(), s[j].stamp()),
    ensures
        insert_desc(x, s) == s.subrange(0, j) + seq![x] + s.subrange(j, s.len() as int),
    decreases j,
{
    if j == 0 {
        if s.len() == 0 {
            assert(insert_desc(x, s) =~= s.subrange(0, 0) + seq![x] + s.subrange(0, 0));
        } else {
            assert(insert_desc(x, s) =~= s.subrange(0, 0) + seq![x] + s.subrange(0, s.len() as int));
        }
    } else {
        assert(lex_le(x.stamp(), s[0].stamp()));
        lemma_insert_desc_at(x, s.skip(1), j - 1);
        assert(s.subrange(0, j) =~= seq![s[0]] + s.skip(1).subrange(0, j - 1));
        assert(s.subrange(j, s.len() as int) =~= s.skip(1).subrange(j - 1, s.skip(1).len() as int));
        assert(seq![s[0]] + insert_desc(x, s.skip(1)) =~= s.subrange(0, j) + seq![x] + s.subrange(
            j,
            s.len() as int,
        ));
    }
}

/// Whether some record of `v` carries the id.
pub fn vec_contains_key<R: StoreRecord>(v: &Vec<R>, id: &str) -> (r: bool)
    ensures
        r == contains_key(v@, id@),
{
    let mut i: usize = 0;
    while i < v.len()
        invariant
            i <= v@.len(),
            forall|j: int| 0 <= j < i ==> #[trigger] v@[j].key() != id@,
        decreases v@.len() - i,
    {
        if str_eq(v[i].key_ref(), id) {
            return true;
        }
        i = i + 1;
    }
    false
}

/// A copy of the first record of `v` carrying the id, if any.
pub fn vec_find_by_key<R: StoreRecord>(v: &Vec<R>, id: &str) -> (r: Option<R>)
    ensures
        r == find_by_key(v@, id@),
{
    let mut i: usize = 0;
    proof {
        assert(v@.skip(0) =~= v@);
    }
    while i < v.len()
        invariant
            i <= v@.len(),
            find_by_key(v@, id@) == find_by_key(v@.skip(i as int), id@),
        decreases v@.len() - i,
    {
        proof {
            assert(v@.skip(i as int)[0] == v@[i as int]);
        }
        if str_eq(v[i].key_ref(), id) {
            return Some(v[i].duplicate());
        }
        proof {
            assert(v@.skip(i as int).skip(1) =~= v@.skip(i + 1));
        }
        i = i + 1;
    }
    proof {
        assert(v@.skip(v@.len() as int).len() == 0);
    }
    None
}

/// A copy of `v` without the records carrying the id.
pub fn vec_remove_key<R: StoreRecord>(v: &Vec<R>, id: &str) -> (r: Vec<R>)
    ensures
        r@ == remove_key(v@, id@),
{
    let mut out: Vec<R> = Vec::new();
    let mut i: usize = 0;
    proof {
        assert(v@.take(0) =~= Seq::<R>::empty());
    }
    while i < v.len()
        invariant
            i <= v@.len(),
            out@ == remove_key(v@.take(i as int), id@),
        decreases v@.len() - i,
    {
        proof {
            assert(v@.take(i + 1).drop_last() =~= v@.take(i as int));
            assert(v@.take(i + 1).last() == v@[i as int]);
        }
        if !str_eq(v[i].key_ref(), id) {
            out.push(v[i].duplicate());
        }
        i = i + 1;
    }
    proof {
        assert(v@.take(v@.len() as int) =~= v@);
    }
    out
}

/// Copies of the records of `v` owned by `uid` with a timestamp in
/// `[lo, hi)`, in table order.
pub fn vec_filter_range<R: StoreRecord>(v: &Vec<R>, uid: &str, lo: &str, hi: &str) -> (r: Vec<R>)
    ensures
        r@ == filter_range(v@, uid@, lo@, hi@),
{
    let mut out: Vec<R> = Vec::new();
    let mut i: usize = 0;
    proof {
        assert(v@.take(0) =~= Seq::<R>::empty());
    }
    while i < v.len()
        invariant
            i <= v@.len(),
            out@ == filter_range(v@.take(i as int), uid@, lo@, hi@),
        decreases v@.len() - i,
    {
        proof {
            assert(v@.take(i + 1).drop_last() =~= v@.take(i as int));
            assert(v@.take(i + 1).last() == v@[i as int]);
        }
        if str_eq(v[i].owner_ref(), uid) && str_le(lo, v[i].stamp_ref()) && str_lt(
            v[i].stamp_ref(),
            hi,
        ) {
            out.push(v[i].duplicate());
        }
        i = i + 1;
    }
    proof {
        assert(v@.take(v@.len() as int) =~= v@);
    }
    out
}

/// Copies of the records of `v` owned by `uid`, in table order.
pub fn vec_filter_owner<R: StoreRecord>(v: &Vec<R>, uid: &str) -> (r: Vec<R>)
    ensures
        r@ == filter_owner(v@, uid@),
{
    let mut out: Vec<R> = Vec::new();
    let mut i: usize = 0;
    proof {
        assert(v@.take(0) =~= Seq::<R>::empty());
    }
    while i < v.len()
        invariant
            i <= v@.len(),
            out@ == filter_owner(v@.take(i as int), uid@),
        decreases v@.len() - i,
    {
        proof {
            assert(v@.take(i + 1).drop_last() =~= v@.take(i as int));
            assert(v@.take(i + 1).last() == v@[i as int]);
        }
        if str_eq(v[i].owner_ref(), uid) {
            out.push(v[i].duplicate());
        }
        i = i + 1;
    }
    proof {
        assert(v@.take(v@.len() as int) =~= v@);
    }
    out
}

/// The offset at which `insert_desc` would place `x` in `v`.
fn insert_pos<R: StoreRecord>(v: &Vec<R>, x: &R) -> (j: usize)
    ensures
        j <= v@.len(),
        forall|k: int| 0 <= k < j ==> lex_le(x.stamp(), #[trigger] v@[k].stamp()),
        j < v@.len() ==> !lex_le(x.stamp(), v@[j as int].stamp()),
{
    let mut j: usize = 0;
    while j < v.len()
        invariant
            j <= v@.len(),
            forall|k: int| 0 <= k < j ==> lex_le(x.stamp(), #[trigger] v@[k].stamp()),
        decreases v@.len() - j,
    {
        if !str_le(x.stamp_ref(), v[j].stamp_ref()) {
            return j;
        }
        j = j + 1;
    }
    j
}

/// In-place insertion keeping the descending order, proved equal to
/// `insert_desc`.
pub fn vec_insert_desc<R: StoreRecord>(v: &mut Vec<R>, x: R)
    ensures
        final(v)@ == insert_desc(x, old(v)@),
{
    let j = insert_pos(v, &x);
    proof {
        lemma_insert_desc_at(x, v@, j as int);
    }
    let ghost pre = v@;
    v.insert(j, x);
    proof {
        assert(pre.insert(j as int, x) =~= pre.subrange(0, j as int) + seq![x] + pre.subrange(
            j as int,
            pre.len() as int,
        ));
    }
}

/// A copy of `v` reordered by descending timestamp, proved equal to
/// `sort_desc`.
pub fn vec_sort_desc<R: StoreRecord>(v: &Vec<R>) -> (r: Vec<R>)
    ensures
        r@ == sort_desc(v@),
{
    let mut out: Vec<R> = Vec::new();
    let mut i: usize = 0;
    proof {
        assert(v@.take(0) =~= Seq::<R>::empty());
    }
    while i < v.len()
        invariant
            i <= v@.len(),
            out@ == sort_desc(v@.take(i as int)),
        decreases v@.len() - i,
    {
        proof {
            assert(v@.take(i + 1).drop_last() =~= v@.take(i as int));
            assert(v@.take(i + 1).last() == v@[i as int]);
        }
        vec_insert_desc(&mut out, v[i].duplicate());
        i = i + 1;
    }
    proof {
        assert(v@.take(v@.len() as int) =~= v@);
    }
    out
}

/// The full range query: filter, order descending, count, slice one page.
/// The page rows and the total are computed over the same filter.
pub fn paged_query<R: StoreRecord>(
    table: &Vec<R>,
    user_id: &str,
    start_date: &str,
    end_date: &str,
    page: usize,
    page_size: usize,
) -> (r: ApiPagedResult<R>)
    requires
        page >= 1,
        page_size >= 1,
    ensures
        r.items@ == page_of(
            sort_desc(filter_range(table@, user_id@, start_date@, end_date@)),
            page as int,
            page_size as int,
        ),
        r.total == filter_range(table@, user_id@, start_date@, end_date@).len(),
        r.page == page,
        r.page_size == page_size,
{
    let filtered = vec_filter_range(table, user_id, start_date, end_date);
    let total = filtered.len();
    let sorted = vec_sort_desc(&filtered);
    proof {
        lemma_sort_desc_len(filtered@);
    }
    // an offset past the largest usize lies past every table, so saturating
    // arithmetic clips to the same empty slice the exact offset would
    let offset = match (page - 1).checked_mul(page_size) {
        Some(o) => o,
        None => usize::MAX,
    };
    let lo = if offset <= sorted.len() {
        offset
    } else {
        sorted.len()
    };
    let cap = offset.saturating_add(page_size);
    let hi = if cap <= sorted.len() {
        cap
    } else {
        sorted.len()
    };
    proof {
        let n = sorted@.len() as int;
        let off_exact = (page - 1) * page_size;
        assert(lo == vstd::math::min(off_exact, n));
        assert(hi == vstd::math::min(off_exact + page_size, n));
    }
    let items = vec_slice_copy(&sorted, lo, hi);
    ApiPagedResult { items, total, page, page_size }
}

/// The most recent `limit` records of `v` owned by `uid`, newest first.
pub fn recent_by_owner<R: StoreRecord>(v: &Vec<R>, uid: &str, limit: usize) -> (r: Vec<R>)
    ensures
        r@ == prefix_of(sort_desc(filter_owner(v@, uid@)), limit as int),
{
    let filtered = vec_filter_owner(v, uid);
    let sorted = vec_sort_desc(&filtered);
    proof {
        lemma_sort_desc_len(filtered@);
    }
    let hi = if limit <= sorted.len() {
        limit
    } else {
        sorted.len()
    };
    vec_slice_copy(&sorted, 0, hi)
}

/// Copies of the records of `v` at offsets `[lo, hi)`.
fn vec_slice_copy<R: StoreRecord>(v: &Vec<R>, lo: usize, hi: usize) -> (r: Vec<R>)
    requires
        lo <= hi <= v@.len(),
    ensures
        r@ == v@.subrange(lo as int, hi as int),
{
    let mut out: Vec<R> = Vec::new();
    let mut i: usize = lo;
    proof {
        assert(v@.subrange(lo as int, lo as int) =~= Seq::<R>::empty());
    }
    while i < hi
        invariant
            lo <= i <= hi <= v@.len(),
            out@ == v@.subrange(lo as int, i as int),
        decreases hi - i,
    {
        out.push(v[i].duplicate());
        proof {
            assert(v@.subrange(lo as int, i + 1) =~= v@.subrange(lo as int, i as int).push(
                v@[i as int],
            ));
        }
        i = i + 1;
    }
    out
}

} // verus!
