use vstd::prelude::*;
use serde_json::Value;

use crate::text_order::{text_greater, text_lt};

verus! {

/// A campus of a school.
#[derive(Debug, Clone, PartialEq, Eq)]
pub struct Campus {
    /// Campus id.
    pub id: i64,
    /// Campus name.
    pub name: String,
}

/// The ratings that a review gives, each from 1 to 5 where present.
#[derive(Debug, Clone, PartialEq, Eq)]
pub struct Rating {
    /// Rating id.
    pub id: i64,
    /// The review that the rating belongs to.
    pub review_id: i64,
    /// Dormitory rating.
    pub dormitory: Option<i64>,
    /// Cafeteria rating.
    pub cafeteria: Option<i64>,
    /// Faculty rating.
    pub faculty: Option<i64>,
    /// Environment rating.
    pub environment: Option<i64>,
    /// Culture rating.
    pub culture: Option<i64>,
    /// Employment rating.
    pub employment: Option<i64>,
    /// Safety rating.
    pub safety: Option<i64>,
}

/// One review of a school, with its author, content and counters.
#[derive(Debug, Clone)]
pub struct ReviewItem {
    /// Review id.
    pub id: i64,
    /// The author's user id.
    pub user_id: i64,
    /// The school reviewed.
    pub school_id: i64,
    /// Review status.
    pub status: String,
    /// Why the review was rejected, where it was.
    pub reject_reason: Option<Value>,
    /// The review text.
    pub content: String,
    /// Attached images (a JSON value).
    pub images: Option<Value>,
    /// The name shown for the author.
    pub display_name: String,
    /// Creation time, as the service writes it ("2026-04-22 09:20:50").
    pub created_at: String,
    /// Time of the last change.
    pub updated_at: String,
    /// How often the review was viewed.
    pub view_count: i64,
    /// Submission id, where there is one.
    pub submission_id: Option<Value>,
    /// Moderation task id.
    pub mod_task_id: String,
    /// Moderation suggestion.
    pub mod_suggestion: String,
    /// Campus id, where there is one.
    pub campus_id: Option<Value>,
    /// Number of likes.
    pub like_count: i64,
    /// Number of replies.
    pub reply_count: i64,
    /// The review's weight in ordering, as the bit pattern of an IEEE-754 double
    /// (`f64::to_bits`).
    pub review_weight_bits: u64,
    /// The author's nickname.
    pub nickname: String,
    /// The school at which the author is verified, where there is one.
    pub verified_school_id: Option<Value>,
    /// The author's avatar, where there is one.
    pub avatar_path: Option<Value>,
    /// The author's level, where there is one.
    pub level: Option<Value>,
    /// The author's title, where there is one.
    pub title: Option<Value>,
    /// Campus name, where there is one.
    pub campus_name: Option<String>,
    /// Whether the review is anonymous.
    pub is_anonymous: bool,
    /// Whether the author is verified.
    pub is_verified: bool,
    /// Whether the current user liked the review.
    pub user_liked: bool,
    /// The ratings, where there are any.
    pub rating: Option<Rating>,
}

/// A page of reviews of a school, with paging information and campuses.
#[derive(Debug, Clone)]
pub struct ReviewResponse {
    /// Number of records.
    pub total: i64,
    /// Current page number.
    pub page: i64,
    /// Records per page.
    pub page_size: i64,
    /// Number of pages.
    pub total_pages: i64,
    /// The school's campuses.
    pub campuses: Vec<Campus>,
    /// The campus selected, where there is one.
    pub active_campus: Option<Value>,
    /// The reviews.
    pub data: Vec<ReviewItem>,
}

/// Whether the review at index `i` of `s` is the one kept for its author:
/// every earlier review of that author is strictly older, and no later one is
/// strictly newer (so among equally new reviews the first one is kept).
pub open spec fn is_latest(s: Seq<ReviewItem>, i: int) -> bool {
    forall|j: int|
        #![trigger s[j]]
        0 <= j < s.len() && j != i && s[j].user_id == s[i].user_id ==> if j < i {
            text_lt(s[j].created_at@, s[i].created_at@)
        } else {
            !text_lt(s[i].created_at@, s[j].created_at@)
        }
}

/// The reviews kept among the first `n` of `s`, in their order.
pub open spec fn latest_prefix(s: Seq<ReviewItem>, n: nat) -> Seq<ReviewItem>
    decreases n,
{
    if n == 0 {
        Seq::empty()
    } else {
        let p = latest_prefix(s, (n - 1) as nat);
        if is_latest(s, n - 1) {
            p.push(s[n - 1])
        } else {
            p
        }
    }
}

/// The newest review of each author in `s`, in the order in which they occur.
pub open spec fn latest_per_user(s: Seq<ReviewItem>) -> Seq<ReviewItem> {
    latest_prefix(s, s.len())
}

/// The number of pages that `total` records fill at `page_size` per page.
pub open spec fn page_count(total: int, page_size: int) -> int {
    (total + page_size - 1) / page_size
}

/// What `filter_unique_users` makes of `before`: the newest review of each author,
/// `total` set to their number, `total_pages` to the pages they fill where
/// `page_size` is positive (and left as it was otherwise), the rest unchanged.
pub open spec fn filter_outcome(before: ReviewResponse, after: ReviewResponse) -> bool {
    &&& after.data@ == latest_per_user(before.data@)
    &&& after.total == after.data@.len()
    &&& before.page_size > 0 ==> after.total_pages == page_count(
        after.total as int,
        before.page_size as int,
    )
    &&& before.page_size <= 0 ==> after.total_pages == before.total_pages
    &&& after.page == before.page
    &&& after.page_size == before.page_size
    &&& after.campuses == before.campuses
    &&& after.active_campus == before.active_campus
}

/// The authors of the reviews, in order.
pub open spec fn user_ids(s: Seq<ReviewItem>) -> Seq<i64> {
    s.map_values(|x: ReviewItem| x.user_id)
}

/// Whether the sequence is strictly increasing.
pub open spec fn strictly_increasing(s: Seq<i64>) -> bool {
    forall|i: int, j: int| 0 <= i < j < s.len() ==> s[i] < s[j]
}

/// The reviews of `s` written by `user_id`, in order.
pub open spec fn reviews_of(s: Seq<ReviewItem>, user_id: i64) -> Seq<ReviewItem> {
    s.filter(|x: ReviewItem| x.user_id == user_id)
}

/// The reviews kept among the first `n` are at most `n`.
pub proof fn lemma_latest_prefix_len(s: Seq<ReviewItem>, n: nat)
    ensures
        latest_prefix(s, n).len() <= n,
    decreases n,
{
    if n > 0 {
        lemma_latest_prefix_len(s, (n - 1) as nat);
    }
}

fn is_latest_at(items: &Vec<ReviewItem>, i: usize) -> (r: bool)
    requires
        i < items@.len(),
    ensures
        r == is_latest(items@, i as int),
{
    let n = items.len();
    let uid = items[i].user_id;
    let mut j: usize = 0;
    while j < n
        invariant
            n == items@.len(),
            i < n,
            uid == items@[i as int].user_id,
            j <= n,
            forall|k: int|
                #![trigger items@[k]]
                0 <= k < j && k != i && items@[k].user_id == uid ==> if k < i {
                    text_lt(items@[k].created_at@, items@[i as int].created_at@)
                } else {
                    !text_lt(items@[i as int].created_at@, items@[k].created_at@)
                },
        decreases n - j,
    {
        if j != i && items[j].user_id == uid {
            if j < i {
                if !text_greater(items[i].created_at.as_str(), items[j].created_at.as_str()) {
                    assert(!is_latest(items@, i as int)) by {
                        assert(items@[j as int].user_id == items@[i as int].user_id);
                    }
                    return false;
                }
            } else {
                if text_greater(items[j].created_at.as_str(), items[i].created_at.as_str()) {
                    assert(!is_latest(items@, i as int)) by {
                        assert(items@[j as int].user_id == items@[i as int].user_id);
                    }
                    return false;
                }
            }
        }
        j = j + 1;
    }
    true
}

/// The ceiling of `total / page_size`, computed without overflow.
fn pages_needed(total: i64, page_size: i64) -> (r: i64)
    requires
        total >= 0,
        page_size > 0,
    ensures
        r == page_count(total as int, page_size as int),
{
    let q = total / page_size;
    let rem = total % page_size;
    assert(total == q * page_size + rem && 0 <= rem < page_size) by (nonlinear_arith)
        requires
            total >= 0,
            page_size > 0,
            q == total / page_size,
            rem == total % page_size,
    ;
    if rem > 0 {
        assert(page_count(total as int, page_size as int) == q + 1) by (nonlinear_arith)
            requires
                total == q * page_size + rem,
                0 < rem < page_size,
                q >= 0,
        ;
        assert(q < i64::MAX) by (nonlinear_arith)
            requires
                total == q * page_size + rem,
                0 < rem,
                q >= 0,
                page_size > 0,
                total <= i64::MAX,
        ;
        q + 1
    } else {
        assert(page_count(total as int, page_size as int) == q) by (nonlinear_arith)
            requires
                total == q * page_size,
                q >= 0,
                page_size > 0,
        ;
        q
    }
}

impl ReviewResponse {
    /// Keeps only the newest review of each author, judged by `created_at`
    /// (among equally new reviews, the first), and updates `total` to the number
    /// kept and, where `page_size` is positive, `total_pages` to the pages they fill.
    /// The other fields are kept as they are.
    pub fn filter_unique_users(self) -> (r: Self)
        requires
            self.data@.len() <= i64::MAX,
        ensures
            filter_outcome(self, r),
    {
        let n = self.data.len();
        let mut keep: Vec<bool> = Vec::new();
        let mut i: usize = 0;
        while i < n
            invariant
                n == self.data@.len(),
                i <= n,
                keep@.len() == i,
                forall|k: int| 0 <= k < i ==> keep@[k] == is_latest(self.data@, k),
            decreases n - i,
        {
            let b = is_latest_at(&self.data, i);
            keep.push(b);
            i = i + 1;
        }
        let ReviewResponse { total, page, page_size, total_pages, campuses, active_campus, data } =
            self;
        let ghost all = data@;
        let mut kept: Vec<ReviewItem> = Vec::new();
        let mut idx: usize = 0;
        for item in it: data
            invariant
                all.len() == n,
                keep@.len() == n,
                forall|k: int| 0 <= k < n ==> keep@[k] == is_latest(all, k),
                it.seq() == all,
                idx == it.index(),
                kept@ == latest_prefix(all, idx as nat),
        {
            assert(item == all[idx as int]);
            if keep[idx] {
                kept.push(item);
            }
            idx = idx + 1;
        }
        proof {
            lemma_latest_prefix_len(all, n as nat);
        }
        let count = kept.len() as i64;
        let pages = if page_size > 0 {
            pages_needed(count, page_size)
        } else {
            total_pages
        };
        ReviewResponse {
            total: count,
            page,
            page_size,
            total_pages: pages,
            campuses,
            active_campus,
            data: kept,
        }
    }

    /// All reviews written by `user_id`, in their order.
    pub fn get_user_comments(&self, user_id: i64) -> (r: Vec<&ReviewItem>)
        ensures
            r@.map_values(|x: &ReviewItem| *x) == reviews_of(self.data@, user_id),
    {
        let n = self.data.len();
        let mut r: Vec<&ReviewItem> = Vec::new();
        let mut i: usize = 0;
        while i < n
            invariant
                n == self.data@.len(),
                i <= n,
                r@.map_values(|x: &ReviewItem| *x) == reviews_of(self.data@.take(i as int), user_id),
            decreases n - i,
        {
            proof {
                assert(self.data@.take(i + 1) =~= self.data@.take(i as int).push(self.data@[i as int]));
                self.data@.take(i as int).lemma_filter_push(
                    self.data@[i as int],
                    |x: ReviewItem| x.user_id == user_id,
                );
            }
            let item = &self.data[i];
            if item.user_id == user_id {
                let ghost before = r@;
                r.push(item);
                assert(r@.map_values(|x: &ReviewItem| *x) =~= before.map_values(|x: &ReviewItem| *x).push(*item));
            }
            i = i + 1;
        }
        assert(self.data@.take(n as int) =~= self.data@);
        r
    }

    /// The distinct authors of the reviews, in increasing order.
    pub fn unique_user_ids(&self) -> (r: Vec<i64>)
        ensures
            strictly_increasing(r@),
            r@.to_set() == user_ids(self.data@).to_set(),
    {
        let n = self.data.len();
        let mut r: Vec<i64> = Vec::new();
        let mut i: usize = 0;
        while i < n
            invariant
                n == self.data@.len(),
                i <= n,
                strictly_increasing(r@),
                r@.to_set() == user_ids(self.data@.take(i as int)).to_set(),
            decreases n - i,
        {
            let id = self.data[i].user_id;
            let ghost before = r@;
            insert_sorted(&mut r, id);
            proof {
                assert(user_ids(self.data@.take(i + 1)) =~= user_ids(self.data@.take(i as int)).push(id));
                Seq::<i64>::lemma_to_set_insert_commutes(user_ids(self.data@.take(i as int)), id);
                assert(user_ids(self.data@.take(i as int)).push(id) =~= user_ids(self.data@.take(i as int)) + seq![id]);
            }
            i = i + 1;
        }
        assert(self.data@.take(n as int) =~= self.data@);
        r
    }
}

/// Adds `x` to a strictly increasing vector, keeping it strictly increasing;
/// nothing changes where `x` is there already.
fn insert_sorted(v: &mut Vec<i64>, x: i64)
    requires
        strictly_increasing(old(v)@),
    ensures
        strictly_increasing(final(v)@),
        final(v)@.to_set() == old(v)@.to_set().insert(x),
{
    let n = v.len();
    let mut p: usize = 0;
    while p < n && v[p] < x
        invariant
            n == v@.len(),
            p <= n,
            forall|k: int| 0 <= k < p ==> v@[k] < x,
        decreases n - p,
    {
        p = p + 1;
    }
    if p < n && v[p] == x {
        assert(v@.to_set().insert(x) =~= v@.to_set());
        return;
    }
    let ghost before = v@;
    v.insert(p, x);
    assert(v@ =~= before.take(p as int) + seq![x] + before.skip(p as int));
    assert forall|e: i64| v@.to_set().contains(e) <==> before.to_set().insert(x).contains(e) by {
        if v@.to_set().contains(e) {
            let k = choose|k: int| 0 <= k < v@.len() && v@[k] == e;
            if k < p {
                assert(before[k] == e);
            } else if k > p {
                assert(before[k - 1] == e);
            }
        }
        if before.to_set().contains(e) && e != x {
            let k = choose|k: int| 0 <= k < before.len() && before[k] == e;
            if k < p {
                assert(v@[k] == e);
            } else {
                assert(v@[k + 1] == e);
            }
        }
        if e == x {
            assert(v@[p as int] == x);
        }
    }
    assert(v@.to_set() =~= before.to_set().insert(x));
}

} // verus!
