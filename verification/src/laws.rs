//! The store's laws, stated once over the spec-level model that every
//! operation's contract speaks of, and proved for all inputs.

use vstd::prelude::*;

use crate::order::lemma_lex_le_total;
use crate::order::lemma_lex_le_trans;
use crate::order::lex_le;
use crate::query::contains_key;
use crate::query::filter_range;
use crate::query::find_by_key;
use crate::query::insert_desc;
use crate::query::page_of;
use crate::query::remove_key;
use crate::query::row_matches;
use crate::query::sort_desc;
use crate::query::sorted_desc;
use crate::records::StoreRecord;
use crate::store::HealthRecordStore;

verus! {

/// Round trip by id: a record created under a fresh id is exactly what a
/// lookup of that id finds afterwards.
pub proof fn lemma_create_then_find<R: StoreRecord>(s: Seq<R>, x: R)
    requires
        !contains_key(s, x.key()),
    ensures
        find_by_key(s.push(x), x.key()) == Some(x),
    decreases s.len(),
{
    if s.len() == 0 {
        assert(s.push(x)[0] == x);
    } else {
        assert(s.push(x)[0] == s[0]);
        assert(s[0].key() != x.key());
        assert(s.push(x).skip(1) =~= s.skip(1).push(x));
        assert(!contains_key(s.skip(1), x.key())) by {
            assert(forall|i: int| 0 <= i < s.skip(1).len() ==> s.skip(1)[i] == s[i + 1]);
        }
        lemma_create_then_find(s.skip(1), x);
    }
}

/// Round trip by range: a record matching a query's owner and range appears
/// in that query's filtered rows, exactly once appended at the end.
pub proof fn lemma_create_then_filter<R: StoreRecord>(
    s: Seq<R>,
    x: R,
    uid: Seq<char>,
    lo: Seq<char>,
    hi: Seq<char>,
)
    requires
        row_matches(x, uid, lo, hi),
    ensures
        filter_range(s.push(x), uid, lo, hi) == filter_range(s, uid, lo, hi).push(x),
{
    assert(s.push(x).drop_last() =~= s);
    assert(s.push(x).last() == x);
}

/// Insertion adds exactly one row to the ordered view, as multisets.
pub proof fn lemma_insert_desc_multiset<R: StoreRecord>(x: R, s: Seq<R>)
    ensures
        insert_desc(x, s).to_multiset() =~= s.to_multiset().insert(x),
    decreases s.len(),
{
    broadcast use vstd::seq_lib::group_to_multiset_ensures;
    broadcast use vstd::seq_lib::lemma_multiset_commutative;
    broadcast use vstd::multiset::group_multiset_axioms;

    if s.len() == 0 {
        assert(seq![x] =~= Seq::<R>::empty().push(x));
    } else if lex_le(x.stamp(), s[0].stamp()) {
        lemma_insert_desc_multiset(x, s.skip(1));
        assert((seq![s[0]] + insert_desc(x, s.skip(1))).to_multiset() =~= seq![
            s[0],
        ].to_multiset().add(insert_desc(x, s.skip(1)).to_multiset()));
        assert((seq![s[0]] + s.skip(1)).to_multiset() =~= seq![s[0]].to_multiset().add(
            s.skip(1).to_multiset(),
        ));
        assert(seq![s[0]] + s.skip(1) =~= s);
    } else {
        assert(seq![x] + s =~= Seq::<R>::empty().push(x) + s);
        assert((Seq::<R>::empty().push(x) + s).to_multiset() =~= Seq::<R>::empty().push(
            x,
        ).to_multiset().add(s.to_multiset()));
    }
}

/// Ordering is a permutation: the ordered view holds exactly the filtered
/// rows, as multisets.
pub proof fn lemma_sort_desc_multiset<R: StoreRecord>(s: Seq<R>)
    ensures
        sort_desc(s).to_multiset() =~= s.to_multiset(),
    decreases s.len(),
{
    broadcast use vstd::seq_lib::group_to_multiset_ensures;

    if s.len() > 0 {
        lemma_sort_desc_multiset(s.drop_last());
        lemma_insert_desc_multiset(s.last(), sort_desc(s.drop_last()));
        assert(s.drop_last().push(s.last()) =~= s);
    }
}

/// Insertion keeps the descending order.
proof fn lemma_insert_desc_sorted<R: StoreRecord>(x: R, s: Seq<R>)
    requires
        sorted_desc(s),
    ensures
        sorted_desc(insert_desc(x, s)),
    decreases s.len(),
{
    broadcast use vstd::seq_lib::group_to_multiset_ensures;
    broadcast use vstd::multiset::group_multiset_axioms;

    if s.len() == 0 {
    } else if lex_le(x.stamp(), s[0].stamp()) {
        let tail = s.skip(1);
        assert(sorted_desc(tail)) by {
            assert(forall|i: int| 0 <= i < tail.len() ==> tail[i] == s[i + 1]);
        }
        lemma_insert_desc_sorted(x, tail);
        let ins = insert_desc(x, tail);
        lemma_insert_desc_multiset(x, tail);
        assert forall|j: int| 0 <= j < ins.len() implies lex_le(
            (#[trigger] ins[j]).stamp(),
            s[0].stamp(),
        ) by {
            assert(ins.contains(ins[j]));
            assert(ins.to_multiset().count(ins[j]) > 0);
            if ins[j] == x {
            } else {
                assert(tail.to_multiset().count(ins[j]) > 0);
                assert(tail.contains(ins[j]));
                let k = choose|k: int| 0 <= k < tail.len() && tail[k] == ins[j];
                assert(tail[k] == s[k + 1]);
            }
        }
        let t = seq![s[0]] + ins;
        assert forall|i: int, j: int| 0 <= i < j < t.len() implies lex_le(
            t[j].stamp(),
            t[i].stamp(),
        ) by {
            if i == 0 {
                assert(t[j] == ins[j - 1]);
            } else {
                assert(t[i] == ins[i - 1]);
                assert(t[j] == ins[j - 1]);
            }
        }
    } else {
        lemma_lex_le_total(x.stamp(), s[0].stamp());
        let t = seq![x] + s;
        assert forall|i: int, j: int| 0 <= i < j < t.len() implies lex_le(
            t[j].stamp(),
            t[i].stamp(),
        ) by {
            if i == 0 {
                assert(t[j] == s[j - 1]);
                if j == 1 {
                    crate::order::lemma_lex_le_refl(s[0].stamp());
                } else {
                    assert(lex_le(s[j - 1].stamp(), s[0].stamp()));
                }
                lemma_lex_le_trans(s[j - 1].stamp(), s[0].stamp(), x.stamp());
            } else {
                assert(t[i] == s[i - 1]);
                assert(t[j] == s[j - 1]);
            }
        }
    }
}

/// What every range query returns its page from: the filtered rows in
/// descending timestamp order.
pub proof fn lemma_sort_desc_sorted<R: StoreRecord>(s: Seq<R>)
    ensures
        sorted_desc(sort_desc(s)),
    decreases s.len(),
{
    if s.len() > 0 {
        lemma_sort_desc_sorted(s.drop_last());
        lemma_insert_desc_sorted(s.last(), sort_desc(s.drop_last()));
    }
}

/// Every page a range query returns is itself in descending order: a page
/// is a slice of the ordered listing.
pub proof fn lemma_page_sorted<R: StoreRecord>(s: Seq<R>, page: int, page_size: int)
    requires
        page >= 1,
        page_size >= 1,
    ensures
        sorted_desc(page_of(sort_desc(s), page, page_size)),
{
    lemma_sort_desc_sorted(s);
    let t = sort_desc(s);
    let p = page_of(t, page, page_size);
    let lo = vstd::math::min((page - 1) * page_size, t.len() as int);
    assert forall|i: int, j: int| 0 <= i < j < p.len() implies lex_le(
        p[j].stamp(),
        p[i].stamp(),
    ) by {
        assert(p[i] == t[lo + i]);
        assert(p[j] == t[lo + j]);
    }
}

/// A record created inside a query's owner and range shows up in that
/// query's ordered listing.
pub proof fn lemma_create_then_listed<R: StoreRecord>(
    s: Seq<R>,
    x: R,
    uid: Seq<char>,
    lo: Seq<char>,
    hi: Seq<char>,
)
    requires
        row_matches(x, uid, lo, hi),
    ensures
        sort_desc(filter_range(s.push(x), uid, lo, hi)).contains(x),
{
    broadcast use vstd::seq_lib::group_to_multiset_ensures;
    broadcast use vstd::multiset::group_multiset_axioms;

    lemma_create_then_filter(s, x, uid, lo, hi);
    let f = filter_range(s, uid, lo, hi);
    lemma_sort_desc_multiset(f.push(x));
    assert(f.push(x).to_multiset().count(x) > 0) by {
        assert(f.push(x).contains(x)) by {
            assert(f.push(x)[f.len() as int] == x);
        }
    }
    assert(sort_desc(f.push(x)).to_multiset().count(x) > 0);
}

/// Deletion leaves no row under the id behind.
pub proof fn lemma_delete_removes<R: StoreRecord>(s: Seq<R>, id: Seq<char>)
    ensures
        !contains_key(remove_key(s, id), id),
        forall|i: int| 0 <= i < remove_key(s, id).len() ==> (#[trigger] remove_key(s, id)[i]).key()
            != id,
    decreases s.len(),
{
    if s.len() > 0 {
        lemma_delete_removes(s.drop_last(), id);
        let rest = remove_key(s.drop_last(), id);
        if s.last().key() != id {
            assert forall|i: int| 0 <= i < rest.push(s.last()).len() implies (#[trigger] rest.push(
                s.last(),
            )[i]).key() != id by {
                if i < rest.len() {
                    assert(rest.push(s.last())[i] == rest[i]);
                } else {
                    assert(rest.push(s.last())[i] == s.last());
                }
            }
        }
    }
}

/// Deleting under an id a table already free of it changes nothing.
proof fn lemma_remove_key_absent<R: StoreRecord>(s: Seq<R>, id: Seq<char>)
    requires
        forall|i: int| 0 <= i < s.len() ==> (#[trigger] s[i]).key() != id,
    ensures
        remove_key(s, id) == s,
    decreases s.len(),
{
    if s.len() > 0 {
        assert(forall|i: int| 0 <= i < s.drop_last().len() ==> s.drop_last()[i] == s[i]);
        lemma_remove_key_absent(s.drop_last(), id);
        assert(s.last().key() != id) by {
            assert(s[s.len() - 1].key() != id);
        }
        assert(s.drop_last().push(s.last()) =~= s);
    }
}

/// Idempotent delete: a second deletion under the same id is a no-op, and
/// the deletions themselves always succeed, matched row or not.
pub proof fn lemma_delete_idempotent<R: StoreRecord>(s: Seq<R>, id: Seq<char>)
    ensures
        remove_key(remove_key(s, id), id) == remove_key(s, id),
{
    lemma_delete_removes(s, id);
    lemma_remove_key_absent(remove_key(s, id), id);
}

/// Idempotent initialization: initializing an initialized store is the
/// identity, so a second call produces no error and no new schema state.
pub proof fn lemma_initialize_idempotent(s: HealthRecordStore)
    ensures
        s.initialized().initialized() == s.initialized(),
{
}

} // verus!
