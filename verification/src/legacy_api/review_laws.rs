use vstd::prelude::*;

use crate::legacy_api::school_comments::{
    filter_outcome, is_latest, latest_per_user, latest_prefix, lemma_latest_prefix_len,
    page_count, reviews_of, strictly_increasing, user_ids, ReviewItem, ReviewResponse,
};
use crate::text_order::{
    lemma_text_lt_asymmetric, lemma_text_lt_irreflexive, lemma_text_lt_total,
    lemma_text_lt_transitive, text_lt,
};

verus! {

/// Whether no two reviews of `t` have the same author.
pub open spec fn distinct_users(t: Seq<ReviewItem>) -> bool {
    forall|i: int, j: int| 0 <= i < j < t.len() ==> t[i].user_id != t[j].user_id
}

/// What `latest_prefix` holds: each entry is a kept review of the prefix, and each
/// kept review of the prefix is an entry.
proof fn lemma_latest_prefix_members(s: Seq<ReviewItem>, n: nat)
    requires
        n <= s.len(),
    ensures
        forall|i: int|
            0 <= i < latest_prefix(s, n).len() ==> exists|k: int|
                0 <= k < n && is_latest(s, k) && #[trigger] latest_prefix(s, n)[i] == s[k],
        forall|k: int|
            0 <= k < n && #[trigger] is_latest(s, k) ==> exists|i: int|
                0 <= i < latest_prefix(s, n).len() && latest_prefix(s, n)[i] == s[k],
    decreases n,
{
    if n > 0 {
        let m = (n - 1) as nat;
        lemma_latest_prefix_members(s, m);
        let p = latest_prefix(s, m);
        let q = latest_prefix(s, n);
        assert forall|i: int| 0 <= i < q.len() implies exists|k: int|
            0 <= k < n && is_latest(s, k) && #[trigger] q[i] == s[k] by {
            if i < p.len() {
                assert(q[i] == p[i]);
                let k = choose|k: int| 0 <= k < m && is_latest(s, k) && p[i] == s[k];
                assert(q[i] == s[k]);
            } else {
                assert(q[i] == s[n - 1]);
            }
        }
        assert forall|k: int| 0 <= k < n && #[trigger] is_latest(s, k) implies exists|i: int|
            0 <= i < q.len() && q[i] == s[k] by {
            if k < m {
                let i = choose|i: int| 0 <= i < p.len() && p[i] == s[k];
                assert(q[i] == p[i]);
            } else {
                assert(q[p.len() as int] == s[k]);
            }
        }
    }
}

/// The authors of the kept reviews of a prefix are all different.
proof fn lemma_latest_prefix_distinct(s: Seq<ReviewItem>, n: nat)
    requires
        n <= s.len(),
    ensures
        distinct_users(latest_prefix(s, n)),
    decreases n,
{
    if n > 0 {
        let m = (n - 1) as nat;
        lemma_latest_prefix_distinct(s, m);
        lemma_latest_prefix_members(s, m);
        let p = latest_prefix(s, m);
        if is_latest(s, m as int) {
            let q = latest_prefix(s, n);
            assert forall|i: int, j: int| 0 <= i < j < q.len() implies q[i].user_id
                != q[j].user_id by {
                if j == p.len() {
                    assert(q[i] == p[i]);
                    let k = choose|k: int| 0 <= k < m && is_latest(s, k) && p[i] == s[k];
                    if s[k].user_id == s[m as int].user_id {
                        assert(s[m as int] == s[m as int]);
                        assert(text_lt(s[k].created_at@, s[m as int].created_at@));
                        assert(s[k] == s[k]);
                        assert(!text_lt(s[k].created_at@, s[m as int].created_at@));
                    }
                } else {
                    assert(q[i] == p[i] && q[j] == p[j]);
                }
            }
        }
    }
}

/// Among the first `n` reviews, some review of the author `u` is newer than or as
/// new as all other reviews of `u`, and strictly newer than those before it.
proof fn lemma_newest_index(s: Seq<ReviewItem>, u: i64, n: int, k0: int) -> (m: int)
    requires
        0 <= k0 < n <= s.len(),
        s[k0].user_id == u,
    ensures
        0 <= m < n,
        s[m].user_id == u,
        forall|j: int|
            #![trigger s[j]]
            0 <= j < n && j != m && s[j].user_id == u ==> if j < m {
                text_lt(s[j].created_at@, s[m].created_at@)
            } else {
                !text_lt(s[m].created_at@, s[j].created_at@)
            },
    decreases n,
{
    if k0 == n - 1 && !(exists|k: int| 0 <= k < n - 1 && #[trigger] s[k].user_id == u) {
        n - 1
    } else {
        let k1 = if k0 < n - 1 {
            k0
        } else {
            choose|k: int| 0 <= k < n - 1 && #[trigger] s[k].user_id == u
        };
        let p = lemma_newest_index(s, u, n - 1, k1);
        let last = n - 1;
        if s[last].user_id != u {
            p
        } else if text_lt(s[p].created_at@, s[last].created_at@) {
            assert forall|j: int|
                #![trigger s[j]]
                0 <= j < n && j != last && s[j].user_id == u implies text_lt(
                s[j].created_at@,
                s[last].created_at@,
            ) by {
                if j < p {
                    lemma_text_lt_transitive(s[j].created_at@, s[p].created_at@, s[last].created_at@);
                } else if j > p {
                    assert(!text_lt(s[p].created_at@, s[j].created_at@));
                    if s[j].created_at@ != s[p].created_at@ {
                        lemma_text_lt_total(s[j].created_at@, s[p].created_at@);
                        lemma_text_lt_transitive(
                            s[j].created_at@,
                            s[p].created_at@,
                            s[last].created_at@,
                        );
                    }
                }
            }
            last
        } else {
            p
        }
    }
}

/// `filter_unique_users` never adds reviews: the output is no longer than the input.
pub proof fn law_latest_per_user_no_longer(s: Seq<ReviewItem>)
    ensures
        latest_per_user(s).len() <= s.len(),
{
    lemma_latest_prefix_len(s, s.len());
}

/// The page count is the least number of pages of `page_size` records that hold
/// `total` records.
pub proof fn law_page_count_is_ceiling(total: int, page_size: int)
    requires
        total >= 0,
        page_size > 0,
    ensures
        page_count(total, page_size) * page_size >= total,
        (page_count(total, page_size) - 1) * page_size < total,
        page_count(total, page_size) >= 0,
{
    let c = page_count(total, page_size);
    assert(c == (total + page_size - 1) / page_size);
    assert(c * page_size >= total && ((c - 1) * page_size < total) && c >= 0)
        by (nonlinear_arith)
        requires
            c == (total + page_size - 1) / page_size,
            total >= 0,
            page_size > 0,
    ;
}

/// No two reviews that `filter_unique_users` keeps have the same author.
pub proof fn law_latest_per_user_distinct(s: Seq<ReviewItem>)
    ensures
        distinct_users(latest_per_user(s)),
{
    lemma_latest_prefix_distinct(s, s.len());
}

/// Every author of the input keeps a review: for each review in the input, the
/// output holds a review by the same author.
pub proof fn law_latest_per_user_covers(s: Seq<ReviewItem>)
    ensures
        forall|k: int|
            #![trigger s[k]]
            0 <= k < s.len() ==> exists|i: int|
                0 <= i < latest_per_user(s).len() && #[trigger] latest_per_user(s)[i].user_id
                    == s[k].user_id,
{
    lemma_latest_prefix_members(s, s.len());
    assert forall|k: int|
        #![trigger s[k]]
        0 <= k < s.len() implies exists|i: int|
        0 <= i < latest_per_user(s).len() && #[trigger] latest_per_user(s)[i].user_id
            == s[k].user_id by {
        let m = lemma_newest_index(s, s[k].user_id, s.len() as int, k);
        assert(is_latest(s, m));
        let i = choose|i: int|
            0 <= i < latest_prefix(s, s.len()).len() && latest_prefix(s, s.len())[i] == s[m];
        assert(latest_per_user(s)[i].user_id == s[k].user_id);
    }
}

/// Each kept review comes from the input, and no review of the same author in the
/// input is strictly newer than it.
pub proof fn law_latest_per_user_newest(s: Seq<ReviewItem>)
    ensures
        forall|i: int|
            0 <= i < latest_per_user(s).len() ==> s.contains(#[trigger] latest_per_user(s)[i]),
        forall|i: int, k: int|
            0 <= i < latest_per_user(s).len() && 0 <= k < s.len() && s[k].user_id
                == #[trigger] latest_per_user(s)[i].user_id ==> !text_lt(
                latest_per_user(s)[i].created_at@,
                #[trigger] s[k].created_at@,
            ),
{
    lemma_latest_prefix_members(s, s.len());
    let r = latest_per_user(s);
    assert forall|i: int| 0 <= i < r.len() implies s.contains(#[trigger] r[i]) by {
        let k = choose|k: int| 0 <= k < s.len() && is_latest(s, k) && r[i] == s[k];
        assert(s[k] == r[i]);
    }
    assert forall|i: int, k: int|
        0 <= i < r.len() && 0 <= k < s.len() && s[k].user_id == #[trigger] r[i].user_id implies !text_lt(
        r[i].created_at@,
        #[trigger] s[k].created_at@,
    ) by {
        let m = choose|m: int| 0 <= m < s.len() && is_latest(s, m) && r[i] == s[m];
        assert(s[k] == s[k]);
        if k < m {
            assert(text_lt(s[k].created_at@, s[m].created_at@));
            lemma_text_lt_asymmetric(s[k].created_at@, s[m].created_at@);
        } else if k == m {
            lemma_text_lt_irreflexive(s[m].created_at@);
        }
    }
}

proof fn lemma_distinct_all_latest(t: Seq<ReviewItem>, n: nat)
    requires
        distinct_users(t),
        n <= t.len(),
    ensures
        latest_prefix(t, n) == t.take(n as int),
    decreases n,
{
    if n > 0 {
        lemma_distinct_all_latest(t, (n - 1) as nat);
        assert(is_latest(t, n - 1)) by {
            assert forall|j: int| 0 <= j < t.len() && j != n - 1 implies #[trigger] t[j].user_id
                != t[n - 1].user_id by {
                if j < n - 1 {
                    assert(t[j].user_id != t[n - 1].user_id);
                } else {
                    assert(t[n - 1].user_id != t[j].user_id);
                }
            }
        }
        assert(t.take(n as int) =~= t.take(n - 1).push(t[n - 1]));
    }
}

/// Filtering once more changes nothing: the output of `filter_unique_users` is
/// its own output.
pub proof fn law_latest_per_user_idempotent(s: Seq<ReviewItem>)
    ensures
        latest_per_user(latest_per_user(s)) == latest_per_user(s),
{
    let r = latest_per_user(s);
    law_latest_per_user_distinct(s);
    lemma_distinct_all_latest(r, r.len());
    assert(r.take(r.len() as int) =~= r);
}

proof fn lemma_distinct_user_ids_no_duplicates(t: Seq<ReviewItem>)
    requires
        distinct_users(t),
    ensures
        user_ids(t).no_duplicates(),
{
    assert forall|i: int, j: int|
        0 <= i < user_ids(t).len() && 0 <= j < user_ids(t).len() && i != j implies user_ids(t)[i]
        != user_ids(t)[j] by {
        if i < j {
            assert(t[i].user_id != t[j].user_id);
        } else {
            assert(t[j].user_id != t[i].user_id);
        }
    }
}

/// After `filter_unique_users`, the list that `unique_user_ids` returns (a strictly
/// increasing list of exactly the authors) is as long as the list of reviews.
pub proof fn law_unique_ids_count_after_filter(s: Seq<ReviewItem>, ids: Seq<i64>)
    requires
        strictly_increasing(ids),
        ids.to_set() == user_ids(latest_per_user(s)).to_set(),
    ensures
        ids.len() == latest_per_user(s).len(),
{
    let r = latest_per_user(s);
    law_latest_per_user_distinct(s);
    lemma_distinct_user_ids_no_duplicates(r);
    user_ids(r).unique_seq_to_set();
    assert(ids.no_duplicates());
    ids.unique_seq_to_set();
}

proof fn lemma_reviews_of_distinct(t: Seq<ReviewItem>, u: i64)
    requires
        distinct_users(t),
    ensures
        reviews_of(t, u).len() == (if exists|k: int| 0 <= k < t.len() && #[trigger] t[k].user_id == u {
            1int
        } else {
            0int
        }),
    decreases t.len(),
{
    reveal(Seq::filter);
    if t.len() > 0 {
        let t2 = t.drop_last();
        assert(distinct_users(t2)) by {
            assert forall|i: int, j: int| 0 <= i < j < t2.len() implies t2[i].user_id
                != t2[j].user_id by {
                assert(t2[i] == t[i] && t2[j] == t[j]);
            }
        }
        lemma_reviews_of_distinct(t2, u);
        let last = t.len() - 1;
        if t[last].user_id == u {
            assert(!(exists|k: int| 0 <= k < t2.len() && #[trigger] t2[k].user_id == u)) by {
                if exists|k: int| 0 <= k < t2.len() && #[trigger] t2[k].user_id == u {
                    let k = choose|k: int| 0 <= k < t2.len() && #[trigger] t2[k].user_id == u;
                    assert(t[k].user_id != t[last].user_id);
                }
            }
            assert(t[last].user_id == u);
        } else {
            if exists|k: int| 0 <= k < t.len() && #[trigger] t[k].user_id == u {
                let k = choose|k: int| 0 <= k < t.len() && #[trigger] t[k].user_id == u;
                assert(t2[k].user_id == u);
            }
            if exists|k: int| 0 <= k < t2.len() && #[trigger] t2[k].user_id == u {
                let k = choose|k: int| 0 <= k < t2.len() && #[trigger] t2[k].user_id == u;
                assert(t[k].user_id == u);
            }
        }
    }
}

/// After `filter_unique_users`, `get_user_comments(u)` returns one review where the
/// input held a review by `u`, and none otherwise; so never more than before.
pub proof fn law_user_comments_after_filter(s: Seq<ReviewItem>, u: i64)
    ensures
        reviews_of(latest_per_user(s), u).len() == (if exists|k: int|
            0 <= k < s.len() && #[trigger] s[k].user_id == u {
            1int
        } else {
            0int
        }),
        reviews_of(latest_per_user(s), u).len() <= reviews_of(s, u).len(),
{
    if exists|k: int| 0 <= k < s.len() && #[trigger] s[k].user_id == u {
        let k = choose|k: int| 0 <= k < s.len() && #[trigger] s[k].user_id == u;
        s.lemma_filter_contains(|x: ReviewItem| x.user_id == u, k);
        assert(reviews_of(s, u).contains(s[k]));
    }
    let r = latest_per_user(s);
    law_latest_per_user_distinct(s);
    lemma_reviews_of_distinct(r, u);
    if exists|k: int| 0 <= k < s.len() && #[trigger] s[k].user_id == u {
        law_latest_per_user_covers(s);
        let k = choose|k: int| 0 <= k < s.len() && #[trigger] s[k].user_id == u;
        let i = choose|i: int| 0 <= i < r.len() && #[trigger] r[i].user_id == s[k].user_id;
        assert(r[i].user_id == u);
    }
    if exists|i: int| 0 <= i < r.len() && #[trigger] r[i].user_id == u {
        lemma_latest_prefix_members(s, s.len());
        let i = choose|i: int| 0 <= i < r.len() && #[trigger] r[i].user_id == u;
        let k = choose|k: int| 0 <= k < s.len() && is_latest(s, k) && r[i] == s[k];
        assert(s[k].user_id == u);
    }
}


/// Filtering a page twice gives exactly what filtering it once gave: the same
/// reviews in the same order and the same paging.
pub proof fn law_filter_unique_users_twice(r: ReviewResponse, f1: ReviewResponse, f2: ReviewResponse)
    requires
        filter_outcome(r, f1),
        filter_outcome(f1, f2),
    ensures
        f2.data@ == f1.data@,
        f2.total == f1.total,
        f2.total_pages == f1.total_pages,
        f2.page == f1.page,
        f2.page_size == f1.page_size,
        f2.campuses == f1.campuses,
        f2.active_campus == f1.active_campus,
{
    law_latest_per_user_idempotent(r.data@);
}

proof fn lemma_increasing_drop_first_set(a: Seq<i64>)
    requires
        strictly_increasing(a),
        a.len() > 0,
    ensures
        a.drop_first().to_set() == a.to_set().remove(a[0]),
        strictly_increasing(a.drop_first()),
{
    let t = a.drop_first();
    assert forall|x: i64| t.to_set().contains(x) <==> a.to_set().remove(a[0]).contains(x) by {
        if t.to_set().contains(x) {
            let k = choose|k: int| 0 <= k < t.len() && t[k] == x;
            assert(a[k + 1] == x);
            assert(a[0] < a[k + 1]);
        }
        if a.to_set().remove(a[0]).contains(x) {
            let k = choose|k: int| 0 <= k < a.len() && a[k] == x;
            assert(k != 0);
            assert(t[k - 1] == x);
        }
    }
    assert(t.to_set() =~= a.to_set().remove(a[0]));
}

/// Two strictly increasing lists of the same numbers are the same list.
proof fn lemma_increasing_same_set_equal(a: Seq<i64>, b: Seq<i64>)
    requires
        strictly_increasing(a),
        strictly_increasing(b),
        a.to_set() == b.to_set(),
    ensures
        a == b,
    decreases a.len(),
{
    if a.len() == 0 {
        if b.len() > 0 {
            assert(b.to_set().contains(b[0]));
        }
        assert(a =~= b);
    } else if b.len() == 0 {
        assert(a.to_set().contains(a[0]));
    } else {
        assert(a.to_set().contains(a[0]));
        assert(b.to_set().contains(b[0]));
        let j = choose|j: int| 0 <= j < b.len() && b[j] == a[0];
        let k = choose|k: int| 0 <= k < a.len() && a[k] == b[0];
        if j > 0 {
            assert(b[0] < b[j]);
        }
        if k > 0 {
            assert(a[0] < a[k]);
        }
        assert(a[0] == b[0]);
        lemma_increasing_drop_first_set(a);
        lemma_increasing_drop_first_set(b);
        lemma_increasing_same_set_equal(a.drop_first(), b.drop_first());
        assert(a =~= seq![a[0]] + a.drop_first());
        assert(b =~= seq![b[0]] + b.drop_first());
    }
}

/// Filtering keeps the set of authors: the authors of the kept reviews are the
/// authors of the input.
pub proof fn law_latest_per_user_same_authors(s: Seq<ReviewItem>)
    ensures
        user_ids(latest_per_user(s)).to_set() == user_ids(s).to_set(),
{
    let r = latest_per_user(s);
    law_latest_per_user_covers(s);
    law_latest_per_user_newest(s);
    assert forall|x: i64| user_ids(r).to_set().contains(x) <==> user_ids(s).to_set().contains(x) by {
        if user_ids(r).to_set().contains(x) {
            let i = choose|i: int| 0 <= i < user_ids(r).len() && user_ids(r)[i] == x;
            assert(s.contains(r[i]));
            let k = choose|k: int| 0 <= k < s.len() && s[k] == r[i];
            assert(user_ids(s)[k] == x);
        }
        if user_ids(s).to_set().contains(x) {
            let k = choose|k: int| 0 <= k < user_ids(s).len() && user_ids(s)[k] == x;
            assert(s[k].user_id == x);
            let i = choose|i: int| 0 <= i < r.len() && #[trigger] r[i].user_id == s[k].user_id;
            assert(user_ids(r)[i] == x);
        }
    }
    assert(user_ids(r).to_set() =~= user_ids(s).to_set());
}

/// `unique_user_ids` gives the same list before and after `filter_unique_users`,
/// and after filtering that list is as long as the list of reviews. `before` and
/// `after` are lists that meet the contract of `unique_user_ids` on the page
/// before and after filtering.
pub proof fn law_unique_ids_unchanged_by_filter(
    s: Seq<ReviewItem>,
    before: Seq<i64>,
    after: Seq<i64>,
)
    requires
        strictly_increasing(before),
        before.to_set() == user_ids(s).to_set(),
        strictly_increasing(after),
        after.to_set() == user_ids(latest_per_user(s)).to_set(),
    ensures
        after == before,
        after.len() == latest_per_user(s).len(),
{
    law_latest_per_user_same_authors(s);
    lemma_increasing_same_set_equal(after, before);
    law_unique_ids_count_after_filter(s, after);
}

} // verus!
