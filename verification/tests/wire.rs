use kasane::json::{parse_json, Json};
use kasane::types::tet::{RatePost, Rating, Tet, Thread};
use kasane::types::tetification::Tetification;
use kasane::types::user::{Role, User};
use kasane::types::TetterError;

fn sample_user() -> User {
    User {
        id: "uid-1".to_string(),
        username: "kasane".to_string(),
        created_at: Some(1700000000000),
        avatar_url: Some("https://example.invalid/a.png".to_string()),
        role: Some(Role::Member),
        friends_count: Some(2),
        posts_count: None,
    }
}

fn sample_tet() -> Tet {
    Tet {
        id: "6f67def6-a63c-45e9-81f9-a49726a1f87d".to_string(),
        content: "Hello from kasane".to_string(),
        created_at: 1700000000123,
        likes_count: 4,
        dislikes_count: 1,
        rating: 3,
        replies_count: 0,
        saves_count: 2,
        my_rating: Some(Rating::Yeah),
        author: Some(sample_user()),
        parent: None,
        quoting: None,
    }
}

#[test]
fn parse_example_post() {
    let post_str = r#"{
        "id": "6f67def6-a63c-45e9-81f9-a49726a1f87d",
        "content": "example post",
        "createdAt": 1690000000000,
        "likesCount": 10,
        "dislikesCount": 2,
        "rating": 8,
        "repliesCount": 1,
        "savesCount": 0,
        "myRating": null,
        "author": {"id": "u0", "username": "ucrash", "role": "owner"},
        "parent": null,
        "quoting": null
    }"#;
    let j = parse_json(post_str).expect("the example post is valid JSON");
    let tet = Tet::from_json(&j).expect("the example post must decode");
    assert_eq!(tet.content, "example post");
    assert_eq!(tet.likes_count, 10);
    let author = tet.author.expect("the example post has an author");
    assert_eq!(author.username, "ucrash");
    assert_eq!(author.role, Some(Role::Owner));
    assert_eq!(author.created_at, None);
}

#[test]
fn parse_example_thread() {
    let thread_str = r#"[
        {
            "post": {"id": "11111111-1111-1111-1111-111111111111", "content": "root",
                     "createdAt": 1, "likesCount": 0,
                     "dislikesCount": 0, "rating": 0, "repliesCount": 1, "savesCount": 0,
                     "myRating": null, "author": null, "parent": null, "quoting": null},
            "replies": [
                {
                    "post": {"id": "22222222-2222-2222-2222-222222222222", "content": "child",
                             "createdAt": 2, "likesCount": 0,
                             "dislikesCount": 0, "rating": 0, "repliesCount": 0, "savesCount": 0,
                             "myRating": 1, "author": null,
                             "parent": "11111111-1111-1111-1111-111111111111", "quoting": null},
                    "replies": []
                }
            ]
        }
    ]"#;
    let j = parse_json(thread_str).expect("the example thread is valid JSON");
    let threads = Thread::vec_from_json(&j).expect("the example thread must decode");
    assert_eq!(threads.len(), 1);
    assert_eq!(threads[0].post.content, "root");
    assert_eq!(threads[0].replies.len(), 1);
    let child = &threads[0].replies[0];
    assert_eq!(child.post.content, "child");
    assert_eq!(child.post.my_rating, Some(Rating::Yeah));
    assert_eq!(
        child.post.parent,
        Some("11111111-1111-1111-1111-111111111111".to_string())
    );
    assert_eq!(child.replies.len(), 0);
}

#[test]
fn parse_tetifications() {
    let notif_str = r#"[
        {
            "id": 1,
            "createdAt": 1690001112223,
            "type": "postLike",
            "isRead": false,
            "authors": [{"id": "u1", "username": "a"}, {"id": "u2", "username": "b"}]
        },
        {
            "id": 2,
            "createdAt": null,
            "type": "profileShout",
            "isRead": true,
            "targetPost": null,
            "authors": [],
            "reply": null
        }
    ]"#;
    let j = parse_json(notif_str).expect("the example notifications are valid JSON");
    let notifs = Tetification::vec_from_json(&j).expect("the example notifications must decode");
    assert_eq!(notifs.len(), 2);
    assert_eq!(notifs[0].is_read, false);
    assert_eq!(notifs[0].created_at, Some(1690001112223));
    assert_eq!(notifs[0].authors.len(), 2);
    assert_eq!(notifs[0].authors[1].username, "b");
    assert_eq!(notifs[1].is_read, true);
    assert_eq!(notifs[1].created_at, None);
    assert_eq!(notifs[1].authors.len(), 0);
}

#[test]
fn tetification_requires_created_at_member() {
    let notif_str = r#"{"id": 1, "type": "postLike", "isRead": false, "authors": []}"#;
    let j = parse_json(notif_str).expect("valid JSON");
    assert_eq!(Tetification::from_json(&j), None);
}

#[test]
fn tetter_error_round_trips() {
    let e = TetterError {
        error: "forbidden".to_string(),
        message: "no credential".to_string(),
        status_code: 403,
    };
    assert_eq!(TetterError::from_json(&e.to_json()), Some(e.clone()));
}

#[test]
fn user_round_trips() {
    let u = sample_user();
    assert_eq!(User::from_json(&u.to_json()), Some(u));
    let bare = User {
        id: String::new(),
        username: String::new(),
        created_at: None,
        avatar_url: None,
        role: None,
        friends_count: None,
        posts_count: None,
    };
    assert_eq!(User::from_json(&bare.to_json()), Some(bare));
}

#[test]
fn tet_round_trips_with_quoting() {
    let inner = sample_tet();
    let outer = Tet {
        id: "33333333-3333-3333-3333-333333333333".to_string(),
        content: "quoting".to_string(),
        created_at: 5,
        likes_count: 0,
        dislikes_count: 0,
        rating: 0,
        replies_count: 0,
        saves_count: 0,
        my_rating: Some(Rating::Tomato),
        author: None,
        parent: Some("11111111-1111-1111-1111-111111111111".to_string()),
        quoting: Some(Box::new(inner)),
    };
    assert_eq!(Tet::from_json(&outer.to_json()), Some(outer));
}

#[test]
fn thread_round_trips() {
    let t = Thread {
        post: sample_tet(),
        replies: vec![Thread {
            post: sample_tet(),
            replies: vec![],
        }],
    };
    assert_eq!(Thread::from_json(&t.to_json()), Some(t));
}

#[test]
fn rate_post_round_trips() {
    for rating in [Rating::Neutral, Rating::Yeah, Rating::Tomato] {
        let p = RatePost {
            post_id: "6f67def6-a63c-45e9-81f9-a49726a1f87d".to_string(),
            rating,
        };
        assert_eq!(RatePost::from_json(&p.to_json()), Some(p));
    }
}

#[test]
fn tetification_round_trips() {
    let notif_str = r#"{
        "id": 7,
        "createdAt": 1690001112223,
        "type": "postReply",
        "isRead": false,
        "targetPost": null,
        "authors": [{"id": "u1", "username": "a"}],
        "reply": null
    }"#;
    let j = parse_json(notif_str).expect("valid JSON");
    let n = Tetification::from_json(&j).expect("must decode");
    let n2 = Tetification::from_json(&n.to_json()).expect("re-encoded form must decode");
    assert_eq!(n, n2);
}

#[test]
fn rating_codes_follow_the_wire() {
    assert_eq!(Rating::Neutral.as_code(), 0);
    assert_eq!(Rating::Yeah.as_code(), 1);
    assert_eq!(Rating::Tomato.as_code(), -1);
    assert_eq!(Rating::from_code(-1), Some(Rating::Tomato));
    assert_eq!(Rating::from_code(2), None);
}

#[test]
fn unknown_role_or_rating_fails_to_decode() {
    let j = parse_json(r#"{"id": "u", "username": "n", "role": "king"}"#).unwrap();
    assert_eq!(User::from_json(&j), None);
    let j = parse_json(r#"{"postId": "x", "rating": 5}"#).unwrap();
    assert_eq!(RatePost::from_json(&j), None);
}

#[test]
fn parse_json_reads_the_text() {
    assert_eq!(parse_json("17"), Some(Json::Int(17)));
    assert_eq!(parse_json("\"ab\""), Some(Json::Str("ab".to_string())));
    assert_eq!(parse_json("true"), Some(Json::Bool(true)));
    assert_eq!(parse_json("null"), Some(Json::Null));
    assert_eq!(
        parse_json("[1,2]"),
        Some(Json::Arr(vec![Json::Int(1), Json::Int(2)]))
    );
    assert_eq!(parse_json("{"), None);
    assert_eq!(parse_json("1.5"), None);
}

#[test]
fn post_identifiers_must_spell_uuids() {
    let good = r#"{"id": "6f67def6-a63c-45e9-81f9-a49726a1f87d", "content": "c", "createdAt": 0,
        "likesCount": 0, "dislikesCount": 0, "rating": 0, "repliesCount": 0, "savesCount": 0,
        "myRating": null, "author": null, "parent": null, "quoting": null}"#;
    let j = parse_json(good).unwrap();
    assert!(Tet::from_json(&j).is_some());
    let bad = good.replace("6f67def6-a63c-45e9-81f9-a49726a1f87d", "not-a-uuid");
    let j = parse_json(&bad).unwrap();
    assert_eq!(Tet::from_json(&j), None);
    let simple = good.replace(
        "6f67def6-a63c-45e9-81f9-a49726a1f87d",
        "6f67def6a63c45e981f9a49726a1f87d",
    );
    let j = parse_json(&simple).unwrap();
    assert!(Tet::from_json(&j).is_some());
    let urn = good.replace(
        "6f67def6-a63c-45e9-81f9-a49726a1f87d",
        "urn:uuid:6f67def6-a63c-45e9-81f9-a49726a1f87d",
    );
    let j = parse_json(&urn).unwrap();
    assert!(Tet::from_json(&j).is_some());
    let braced = good.replace(
        "6f67def6-a63c-45e9-81f9-a49726a1f87d",
        "{6f67def6-a63c-45e9-81f9-a49726a1f87d}",
    );
    let j = parse_json(&braced).unwrap();
    assert!(Tet::from_json(&j).is_some());
    let j = parse_json(r#"{"postId": "short", "rating": 1}"#).unwrap();
    assert_eq!(RatePost::from_json(&j), None);
}

#[test]
fn counters_out_of_range_fail_to_decode() {
    let j = parse_json(r#"{"id": "u", "username": "n", "friendsCount": 4294967296}"#).unwrap();
    assert_eq!(User::from_json(&j), None);
}
