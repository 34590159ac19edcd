use lib_srgx::legacy_api::school_comments::{Campus, Rating, ReviewItem, ReviewResponse};
use serde_json::Value;

fn text(v: &Value, key: &str) -> String {
    v.get(key).and_then(|x| x.as_str()).unwrap().to_string()
}

fn int_field(v: &Value, key: &str) -> i64 {
    v.get(key).and_then(|x| x.as_i64()).unwrap()
}

fn flag(v: &Value, key: &str) -> bool {
    v.get(key).and_then(|x| x.as_bool()).unwrap()
}

fn any(v: &Value, key: &str) -> Option<Value> {
    match v.get(key) {
        None | Some(Value::Null) => None,
        Some(x) => Some(x.clone()),
    }
}

fn opt_int(v: &Value, key: &str) -> Option<i64> {
    v.get(key).and_then(|x| x.as_i64())
}

fn rating_from(v: &Value) -> Option<Rating> {
    match v {
        Value::Null => None,
        r => Some(Rating {
            id: int_field(r, "id"),
            review_id: int_field(r, "review_id"),
            dormitory: opt_int(r, "dormitory"),
            cafeteria: opt_int(r, "cafeteria"),
            faculty: opt_int(r, "faculty"),
            environment: opt_int(r, "environment"),
            culture: opt_int(r, "culture"),
            employment: opt_int(r, "employment"),
            safety: opt_int(r, "safety"),
        }),
    }
}

fn item_from(v: &Value) -> ReviewItem {
    ReviewItem {
        id: int_field(v, "id"),
        user_id: int_field(v, "user_id"),
        school_id: int_field(v, "school_id"),
        status: text(v, "status"),
        reject_reason: any(v, "reject_reason"),
        content: text(v, "content"),
        images: any(v, "images"),
        display_name: text(v, "display_name"),
        created_at: text(v, "created_at"),
        updated_at: text(v, "updated_at"),
        view_count: int_field(v, "view_count"),
        submission_id: any(v, "submission_id"),
        mod_task_id: text(v, "mod_task_id"),
        mod_suggestion: text(v, "mod_suggestion"),
        campus_id: any(v, "campus_id"),
        like_count: int_field(v, "like_count"),
        reply_count: int_field(v, "reply_count"),
        review_weight_bits: v.get("review_weight").and_then(|x| x.as_f64()).unwrap().to_bits(),
        nickname: text(v, "nickname"),
        verified_school_id: any(v, "verified_school_id"),
        avatar_path: any(v, "avatar_path"),
        level: any(v, "level"),
        title: any(v, "title"),
        campus_name: v.get("campus_name").and_then(|x| x.as_str()).map(|s| s.to_string()),
        is_anonymous: flag(v, "isAnonymous"),
        is_verified: flag(v, "isVerified"),
        user_liked: flag(v, "user_liked"),
        rating: rating_from(v.get("rating").unwrap()),
    }
}

fn response_from_json(json: &str) -> ReviewResponse {
    let v: Value = serde_json::from_str(json).unwrap();
    ReviewResponse {
        total: int_field(&v, "total"),
        page: int_field(&v, "page"),
        page_size: int_field(&v, "pageSize"),
        total_pages: int_field(&v, "totalPages"),
        campuses: v
            .get("campuses")
            .and_then(|c| c.as_array())
            .unwrap()
            .iter()
            .map(|c| Campus { id: int_field(c, "id"), name: text(c, "name") })
            .collect(),
        active_campus: any(&v, "activeCampus"),
        data: v.get("data").and_then(|d| d.as_array()).unwrap().iter().map(item_from).collect(),
    }
}

const JSON: &str = r#"{
    "total": 14,
    "page": 1,
    "pageSize": 10,
    "totalPages": 2,
    "campuses": [
        {"id": 1131, "name": "东校区"},
        {"id": 1132, "name": "师范分院校区"},
        {"id": 1133, "name": "南校区"},
        {"id": 1134, "name": "北校区"}
    ],
    "activeCampus": null,
    "data": [
        {
            "id": 2114,
            "user_id": 3275,
            "school_id": 457,
            "is_anonymous": 1,
            "status": "approved",
            "reject_reason": null,
            "content": "此城市一个月有半个月中度污染及以上，空气质量及其差劲...",
            "images": null,
            "display_name": "匿名用户",
            "created_at": "2026-04-22 09:20:50",
            "updated_at": "2026-04-22 09:20:50",
            "view_count": 0,
            "submission_id": null,
            "mod_task_id": "51ce1ab5-f3f0-4f65-b247-fcae3b335f22",
            "mod_suggestion": "pass",
            "campus_id": null,
            "like_count": 4,
            "reply_count": 2,
            "review_weight": 0.08,
            "is_question": 0,
            "nickname": "匿名用户3",
            "is_verified": 0,
            "verified_school_id": null,
            "avatar_path": null,
            "level": null,
            "title": null,
            "campus_name": null,
            "isAnonymous": true,
            "isVerified": false,
            "user_liked": false,
            "rating": null
        },
        {
            "id": 2113,
            "user_id": 3275,
            "school_id": 457,
            "is_anonymous": 1,
            "status": "approved",
            "reject_reason": null,
            "content": "此城市一个月有半个月中度污染及以上，空气质量及其差劲...",
            "images": null,
            "display_name": "匿名用户",
            "created_at": "2026-04-22 09:20:21",
            "updated_at": "2026-04-22 09:20:21",
            "view_count": 0,
            "submission_id": null,
            "mod_task_id": "3b60ca37-2a66-49a1-b35f-dc834dafea7a",
            "mod_suggestion": "pass",
            "campus_id": null,
            "like_count": 3,
            "reply_count": 0,
            "review_weight": 0.08,
            "is_question": 0,
            "nickname": "匿名用户3",
            "is_verified": 0,
            "verified_school_id": null,
            "avatar_path": null,
            "level": null,
            "title": null,
            "campus_name": null,
            "isAnonymous": true,
            "isVerified": false,
            "user_liked": false,
            "rating": null
        },
        {
            "id": 4367,
            "user_id": 8655,
            "school_id": 457,
            "is_anonymous": 1,
            "status": "approved",
            "reject_reason": null,
            "content": "我仅代表我个人体验观点...",
            "images": null,
            "display_name": "匿名用户",
            "created_at": "2026-05-03 07:58:29",
            "updated_at": "2026-05-03 07:58:29",
            "view_count": 0,
            "submission_id": null,
            "mod_task_id": "d46c4b1e-6799-424e-bc6e-e04b8c0ac9f7",
            "mod_suggestion": "pass",
            "campus_id": null,
            "like_count": 1,
            "reply_count": 1,
            "review_weight": 0.08,
            "is_question": 0,
            "nickname": "匿名用户5",
            "is_verified": 0,
            "verified_school_id": null,
            "avatar_path": null,
            "level": null,
            "title": null,
            "campus_name": null,
            "isAnonymous": true,
            "isVerified": false,
            "user_liked": false,
            "rating": null
        },
        {
            "id": 2112,
            "user_id": 3275,
            "school_id": 457,
            "is_anonymous": 1,
            "status": "approved",
            "reject_reason": null,
            "content": "此城市一个月有半个月中度污染及以上，空气质量及其差劲...",
            "images": null,
            "display_name": "匿名用户",
            "created_at": "2026-04-22 09:20:15",
            "updated_at": "2026-04-22 09:20:15",
            "view_count": 0,
            "submission_id": null,
            "mod_task_id": "70ac8427-daa3-4366-a876-749807b00e55",
            "mod_suggestion": "pass",
            "campus_id": null,
            "like_count": 1,
            "reply_count": 0,
            "review_weight": 0.08,
            "is_question": 0,
            "nickname": "匿名用户3",
            "is_verified": 0,
            "verified_school_id": null,
            "avatar_path": null,
            "level": null,
            "title": null,
            "campus_name": null,
            "isAnonymous": true,
            "isVerified": false,
            "user_liked": false,
            "rating": null
        },
        {
            "id": 6408,
            "user_id": 14318,
            "school_id": 457,
            "is_anonymous": 1,
            "status": "approved",
            "reject_reason": null,
            "content": "来这上学真是当m了...",
            "images": null,
            "display_name": "匿名用户",
            "created_at": "2026-06-05 22:44:36",
            "updated_at": "2026-06-13 11:14:27",
            "view_count": 0,
            "submission_id": null,
            "mod_task_id": "baca22f0-fd3b-4039-aeb1-6afa242972c5",
            "mod_suggestion": "block",
            "campus_id": 1131,
            "like_count": 0,
            "reply_count": 0,
            "review_weight": 0.08,
            "is_question": 0,
            "nickname": "匿名用户8",
            "is_verified": 0,
            "verified_school_id": null,
            "avatar_path": null,
            "level": null,
            "title": null,
            "campus_name": "东校区",
            "isAnonymous": true,
            "isVerified": false,
            "user_liked": false,
            "rating": null
        },
        {
            "id": 5544,
            "user_id": 11706,
            "school_id": 457,
            "is_anonymous": 1,
            "status": "approved",
            "reject_reason": null,
            "content": "纯纯的逆天学校...",
            "images": null,
            "display_name": "匿名用户",
            "created_at": "2026-05-14 08:40:48",
            "updated_at": "2026-05-14 08:40:48",
            "view_count": 0,
            "submission_id": null,
            "mod_task_id": "c26b8a60-c25b-44be-9383-78c8ee2fa1e3",
            "mod_suggestion": "pass",
            "campus_id": null,
            "like_count": 0,
            "reply_count": 0,
            "review_weight": 0.08,
            "is_question": 0,
            "nickname": "匿名用户7",
            "is_verified": 0,
            "verified_school_id": null,
            "avatar_path": null,
            "level": null,
            "title": null,
            "campus_name": null,
            "isAnonymous": true,
            "isVerified": false,
            "user_liked": false,
            "rating": {
                "id": 3685,
                "review_id": 5544,
                "dormitory": 1,
                "cafeteria": 3,
                "faculty": 2,
                "environment": 1,
                "culture": 3,
                "employment": 2,
                "safety": 4
            }
        },
        {
            "id": 5477,
            "user_id": 4057,
            "school_id": 457,
            "is_anonymous": 1,
            "status": "approved",
            "reject_reason": null,
            "content": "首先，要声明的是北华大学师范分院和北华大学只有大层面的关系...",
            "images": null,
            "display_name": "匿名用户",
            "created_at": "2026-05-13 05:52:08",
            "updated_at": "2026-05-13 05:52:08",
            "view_count": 0,
            "submission_id": null,
            "mod_task_id": "401eef83-bff4-40f9-8e67-e08ff2edcdf0",
            "mod_suggestion": "pass",
            "campus_id": null,
            "like_count": 0,
            "reply_count": 0,
            "review_weight": 5,
            "is_question": 0,
            "nickname": "匿名用户6",
            "is_verified": 1,
            "verified_school_id": 457,
            "avatar_path": null,
            "level": null,
            "title": null,
            "campus_name": null,
            "isAnonymous": true,
            "isVerified": true,
            "user_liked": false,
            "rating": {
                "id": 3627,
                "review_id": 5477,
                "dormitory": 1,
                "cafeteria": 4,
                "faculty": 4,
                "environment": 1,
                "culture": 2,
                "employment": 4,
                "safety": 3
            }
        },
        {
            "id": 2790,
            "user_id": 4673,
            "school_id": 457,
            "is_anonymous": 1,
            "status": "approved",
            "reject_reason": null,
            "content": "寝室的话 我这边可能是中奖了...",
            "images": "/uploads/f08bdeef-2f0a-40c2-a620-9a80836ce270.jpg",
            "display_name": "匿名用户",
            "created_at": "2026-04-26 15:45:54",
            "updated_at": "2026-04-26 15:45:54",
            "view_count": 0,
            "submission_id": null,
            "mod_task_id": "2cf6d0cf-7173-4c6c-b2e2-6d439f5323e1",
            "mod_suggestion": "pass",
            "campus_id": null,
            "like_count": 0,
            "reply_count": 0,
            "review_weight": 0.08,
            "is_question": 0,
            "nickname": "匿名用户4",
            "is_verified": 0,
            "verified_school_id": null,
            "avatar_path": null,
            "level": null,
            "title": null,
            "campus_name": null,
            "isAnonymous": true,
            "isVerified": false,
            "user_liked": false,
            "rating": null
        },
        {
            "id": 1738,
            "user_id": 2702,
            "school_id": 457,
            "is_anonymous": 1,
            "status": "approved",
            "reject_reason": null,
            "content": "早上六点整起床上早操...",
            "images": null,
            "display_name": "匿名用户",
            "created_at": "2026-04-21 11:28:58",
            "updated_at": "2026-04-21 11:28:58",
            "view_count": 0,
            "submission_id": null,
            "mod_task_id": "61178421-faf6-4b3b-8d53-c8410627daf6",
            "mod_suggestion": "pass",
            "campus_id": null,
            "like_count": 0,
            "reply_count": 0,
            "review_weight": 0.08,
            "is_question": 0,
            "nickname": "匿名用户2",
            "is_verified": 0,
            "verified_school_id": null,
            "avatar_path": null,
            "level": null,
            "title": null,
            "campus_name": null,
            "isAnonymous": true,
            "isVerified": false,
            "user_liked": false,
            "rating": {
                "id": 818,
                "review_id": 1738,
                "dormitory": 1,
                "cafeteria": 1,
                "faculty": 2,
                "environment": 3,
                "culture": 1,
                "employment": null,
                "safety": 4
            }
        },
        {
            "id": 598,
            "user_id": 1082,
            "school_id": 457,
            "is_anonymous": 1,
            "status": "approved",
            "reject_reason": null,
            "content": "南校，校区老破小...",
            "images": null,
            "display_name": "匿名用户",
            "created_at": "2026-04-19 19:45:49",
            "updated_at": "2026-04-19 19:45:49",
            "view_count": 0,
            "submission_id": null,
            "mod_task_id": "a90be8e5-e193-417a-a0cb-75a0fd51da41",
            "mod_suggestion": "pass",
            "campus_id": null,
            "like_count": 0,
            "reply_count": 0,
            "review_weight": 0.08,
            "is_question": 0,
            "nickname": "匿名用户1",
            "is_verified": 0,
            "verified_school_id": null,
            "avatar_path": null,
            "level": null,
            "title": null,
            "campus_name": null,
            "isAnonymous": true,
            "isVerified": false,
            "user_liked": false,
            "rating": null
        }
    ]
}"#;

#[test]
fn school_comments_test_reply_deserde() {
    let json = JSON;
    let resp: ReviewResponse = response_from_json(json);

    assert_eq!(resp.data.len(), 10);

    let filtered = resp.filter_unique_users();

    assert_eq!(filtered.data.len(), 8);

    let user_3275: Vec<&ReviewItem> = filtered
        .data
        .iter()
        .filter(|item| item.user_id == 3275)
        .collect();
    assert_eq!(user_3275.len(), 1);
    assert_eq!(user_3275[0].id, 2114);

    let comments = filtered.get_user_comments(3275);
    assert_eq!(comments.len(), 1);

    let unique_ids = filtered.unique_user_ids();
    assert_eq!(unique_ids.len(), 8);
    assert!(unique_ids.contains(&3275));
    assert!(unique_ids.contains(&8655));
    assert!(unique_ids.contains(&14318));

    let resp2: ReviewResponse = response_from_json(json);
    assert_eq!(resp2.data.len(), 10);
}

#[test]
fn filter_updates_paging_and_keeps_the_rest() {
    let resp = response_from_json(JSON);
    let filtered = resp.filter_unique_users();
    assert_eq!(filtered.total, 8);
    assert_eq!(filtered.page, 1);
    assert_eq!(filtered.page_size, 10);
    assert_eq!(filtered.total_pages, 1);
    assert_eq!(filtered.campuses.len(), 4);
    assert_eq!(filtered.campuses[3].name, "北校区");
    assert!(filtered.active_campus.is_none());
    let ids: Vec<i64> = filtered.data.iter().map(|i| i.id).collect();
    assert_eq!(ids, vec![2114, 4367, 6408, 5544, 5477, 2790, 1738, 598]);
}

fn item(id: i64, user_id: i64, created_at: &str) -> ReviewItem {
    ReviewItem {
        id,
        user_id,
        school_id: 1,
        status: "approved".to_string(),
        reject_reason: None,
        content: String::new(),
        images: None,
        display_name: String::new(),
        created_at: created_at.to_string(),
        updated_at: created_at.to_string(),
        view_count: 0,
        submission_id: None,
        mod_task_id: String::new(),
        mod_suggestion: String::new(),
        campus_id: None,
        like_count: 0,
        reply_count: 0,
        review_weight_bits: 0.5f64.to_bits(),
        nickname: String::new(),
        verified_school_id: None,
        avatar_path: None,
        level: None,
        title: None,
        campus_name: None,
        is_anonymous: false,
        is_verified: false,
        user_liked: false,
        rating: None,
    }
}

fn response(items: Vec<ReviewItem>, page_size: i64, total_pages: i64) -> ReviewResponse {
    ReviewResponse {
        total: items.len() as i64,
        page: 3,
        page_size,
        total_pages,
        campuses: vec![],
        active_campus: None,
        data: items,
    }
}

#[test]
fn filter_keeps_first_of_equally_new_reviews() {
    let r = response(
        vec![item(1, 7, "2026-01-01"), item(2, 7, "2026-01-02"), item(3, 7, "2026-01-02")],
        2,
        9,
    );
    let f = r.filter_unique_users();
    assert_eq!(f.data.len(), 1);
    assert_eq!(f.data[0].id, 2);
    assert_eq!(f.total, 1);
    assert_eq!(f.total_pages, 1);
}

#[test]
fn filter_page_count_rounds_up() {
    let items = (0..7).map(|k| item(k, k, "t")).collect();
    let f = response(items, 3, 0).filter_unique_users();
    assert_eq!(f.total, 7);
    assert_eq!(f.total_pages, 3);
    let items = (0..6).map(|k| item(k, k, "t")).collect();
    let f = response(items, 3, 0).filter_unique_users();
    assert_eq!(f.total_pages, 2);
}

#[test]
fn filter_without_page_size_keeps_page_count() {
    let f = response(vec![item(1, 1, "a"), item(2, 1, "b")], 0, 42).filter_unique_users();
    assert_eq!(f.total, 1);
    assert_eq!(f.total_pages, 42);
    assert_eq!(f.data[0].id, 2);
    let f = response(vec![], -5, 4).filter_unique_users();
    assert_eq!(f.total, 0);
    assert_eq!(f.total_pages, 4);
    let f = response(vec![], 5, 4).filter_unique_users();
    assert_eq!(f.total_pages, 0);
}

#[test]
fn filter_twice_is_filter_once() {
    let once = response_from_json(JSON).filter_unique_users();
    let ids_once: Vec<i64> = once.data.iter().map(|i| i.id).collect();
    let twice = once.filter_unique_users();
    let ids_twice: Vec<i64> = twice.data.iter().map(|i| i.id).collect();
    assert_eq!(ids_once, ids_twice);
}

#[test]
fn user_comments_and_unique_ids_before_filtering() {
    let resp = response_from_json(JSON);
    let ids: Vec<i64> = resp.get_user_comments(3275).iter().map(|i| i.id).collect();
    assert_eq!(ids, vec![2114, 2113, 2112]);
    assert!(resp.get_user_comments(1).is_empty());
    assert_eq!(
        resp.unique_user_ids(),
        vec![1082, 2702, 3275, 4057, 4673, 8655, 11706, 14318]
    );
    let empty = response(vec![], 10, 0);
    assert!(empty.unique_user_ids().is_empty());
}

#[test]
fn unique_ids_with_negative_ids() {
    let r = response(vec![item(1, 5, "a"), item(2, -3, "a"), item(3, 5, "b"), item(4, 0, "c")], 1, 1);
    assert_eq!(r.unique_user_ids(), vec![-3, 0, 5]);
}

#[test]
fn unique_ids_same_before_and_after_filter() {
    let before = response_from_json(JSON).unique_user_ids();
    let filtered = response_from_json(JSON).filter_unique_users();
    assert_eq!(filtered.unique_user_ids(), before);
    assert_eq!(before.len(), filtered.data.len());
    for u in [3275, 8655, 1, 14318] {
        let n_before = response_from_json(JSON).get_user_comments(u).len();
        let n_after = filtered.get_user_comments(u).len();
        assert!(n_after <= n_before);
        assert_eq!(n_after, if n_before > 0 { 1 } else { 0 });
    }
}

#[test]
fn filter_twice_keeps_paging() {
    let once = response_from_json(JSON).filter_unique_users();
    let twice = once.clone().filter_unique_users();
    assert_eq!(twice.total, once.total);
    assert_eq!(twice.total_pages, once.total_pages);
    assert_eq!(twice.page, once.page);
    assert_eq!(twice.page_size, once.page_size);
}
