use kasane::api::{classify_response, request_url, unit_from_response, HttpOutcome, Method, RequestBody};
use kasane::types::tet::{ComposePost, RatePost, Rating, Tet, Thread};
use kasane::types::tetification::Tetification;
use kasane::types::user::User;
use kasane::types::Error;

#[test]
fn success_status_passes_body_through() {
    let r = classify_response(HttpOutcome::Response(200, "{\"a\":1}".to_string()));
    assert_eq!(r, Ok("{\"a\":1}".to_string()));
    let r = classify_response(HttpOutcome::Response(299, "raw".to_string()));
    assert_eq!(r, Ok("raw".to_string()));
}

#[test]
fn structured_error_body_is_surfaced_exactly() {
    let body = r#"{"error":"X","message":"Y","statusCode":404}"#;
    let r = classify_response(HttpOutcome::Response(404, body.to_string()));
    match r {
        Err(Error::Tetter(te)) => {
            assert_eq!(te.error, "X");
            assert_eq!(te.message, "Y");
            assert_eq!(te.status_code, 404);
        }
        other => panic!("expected a server error, got {:?}", other),
    }
}

#[test]
fn unintelligible_error_body_is_a_decode_fault() {
    let r = classify_response(HttpOutcome::Response(500, "not json at all".to_string()));
    assert_eq!(r, Err(Error::Decode));
}

#[test]
fn error_body_missing_fields_is_a_decode_fault() {
    let body = r#"{"error":"X","statusCode":404}"#;
    let r = classify_response(HttpOutcome::Response(404, body.to_string()));
    assert_eq!(r, Err(Error::Decode));
    let body = r#"{"error":"X","message":"Y","statusCode":"not a number"}"#;
    let r = classify_response(HttpOutcome::Response(404, body.to_string()));
    assert_eq!(r, Err(Error::Decode));
}

#[test]
fn transport_fault_is_surfaced_without_status() {
    let r = classify_response(HttpOutcome::Transport("connection refused".to_string()));
    assert_eq!(r, Err(Error::Transport("connection refused".to_string())));
    let r = unit_from_response(HttpOutcome::Transport("dns failure".to_string()));
    assert_eq!(r, Err(Error::Transport("dns failure".to_string())));
}

#[test]
fn unit_operations_acknowledge_success() {
    let r = unit_from_response(HttpOutcome::Response(204, String::new()));
    assert_eq!(r, Ok(()));
    let body = r#"{"error":"E","message":"M","statusCode":401}"#;
    let r = unit_from_response(HttpOutcome::Response(401, body.to_string()));
    match r {
        Err(Error::Tetter(te)) => assert_eq!(te.status_code, 401),
        other => panic!("expected a server error, got {:?}", other),
    }
}

#[test]
fn errors_print_their_cause() {
    let body = r#"{"error":"X","message":"Y","statusCode":404}"#;
    let r = classify_response(HttpOutcome::Response(404, body.to_string()));
    match r {
        Err(e) => assert_eq!(e.to_message(), "Tetter error: X: Y"),
        other => panic!("expected a server error, got {:?}", other),
    }
    assert_eq!(
        Error::Transport("timeout".to_string()).to_message(),
        "Transport error: timeout"
    );
    assert_eq!(Error::Decode.to_message(), "Decode error");
}

#[test]
fn urls_join_the_fixed_origin() {
    assert_eq!(
        request_url("posts/post/123"),
        "https://tetter-server.vercel.app/posts/post/123"
    );
}

#[test]
fn request_paths_match_the_api() {
    let r = Tet::get_request("abc");
    assert_eq!(r.method, Method::Get);
    assert_eq!(r.path, "posts/post/abc");
    let r = Thread::get_request("abc");
    assert_eq!(r.path, "posts/thread/abc");
    let r = User::get_by_username_request("kasane");
    assert_eq!(r.path, "users/byUsername/kasane");
    let r = User::get_by_id_request("uid1");
    assert_eq!(r.path, "users/byId/uid1");
    let r = User::get_current_user_request();
    assert_eq!(r.path, "accounts/me");
    let r = Tetification::get_request();
    assert_eq!(r.path, "accounts/me/notifications");
    let r = Tetification::mark_all_read_request();
    assert_eq!(r.method, Method::Post);
    assert_eq!(r.path, "accounts/me/notifications/markAllRead");
}

#[test]
fn compose_request_carries_the_payload() {
    let r = ComposePost::compose_request("Hello", None);
    assert_eq!(r.method, Method::Post);
    assert_eq!(r.path, "accounts/composePost");
    match r.body {
        RequestBody::Json(j) => {
            let expected = ComposePost {
                content: "Hello".to_string(),
                parent: None,
            }
            .to_json();
            assert_eq!(j, expected);
        }
        _ => panic!("expected a JSON body"),
    }
}

#[test]
fn rate_request_carries_the_payload() {
    let r = RatePost::rate_request("id9", Rating::Yeah);
    assert_eq!(r.method, Method::Post);
    assert_eq!(r.path, "accounts/ratePost");
    match r.body {
        RequestBody::Json(j) => {
            let expected = RatePost {
                post_id: "id9".to_string(),
                rating: Rating::Yeah,
            }
            .to_json();
            assert_eq!(j, expected);
        }
        _ => panic!("expected a JSON body"),
    }
}

#[test]
fn composed_post_round_trips_through_a_stub_echo() {
    let echo = r#"{"id":"00000000-0000-0000-0000-000000000000","content":"Hello","createdAt":0,"likesCount":0,"dislikesCount":0,"rating":0,"repliesCount":0,"savesCount":0,"myRating":null,"author":null,"parent":null,"quoting":null}"#;
    let r = Tet::from_response(HttpOutcome::Response(200, echo.to_string()));
    let tet = r.expect("the echoed body must decode");
    assert_eq!(tet.content, "Hello");
    assert_eq!(tet.id, "00000000-0000-0000-0000-000000000000");
    assert_eq!(tet.created_at, 0);
    assert_eq!(tet.my_rating, None);
    assert_eq!(tet.author, None);
}

#[test]
fn entity_operation_decodes_a_canned_success() {
    let body = r#"{"id":"u1","username":"kasane","createdAt":1700000000000,"avatarUrl":null,"role":"member","friendsCount":3,"postsCount":7}"#;
    let r = User::from_response(HttpOutcome::Response(200, body.to_string()));
    let u = r.expect("the canned body must decode");
    assert_eq!(u.id, "u1");
    assert_eq!(u.username, "kasane");
    assert_eq!(u.created_at, Some(1700000000000));
    assert_eq!(u.friends_count, Some(3));
    assert_eq!(u.posts_count, Some(7));
}

#[test]
fn entity_operation_rejects_a_malformed_success_body() {
    let r = User::from_response(HttpOutcome::Response(200, "][".to_string()));
    assert_eq!(r, Err(Error::Decode));
    let r = Tet::from_response(HttpOutcome::Response(200, "{}".to_string()));
    assert_eq!(r, Err(Error::Decode));
}

#[test]
fn entity_operation_passes_server_errors_on() {
    let body = r#"{"error":"notFound","message":"no such post","statusCode":404}"#;
    let r = Tet::from_response(HttpOutcome::Response(404, body.to_string()));
    match r {
        Err(Error::Tetter(te)) => {
            assert_eq!(te.error, "notFound");
            assert_eq!(te.message, "no such post");
            assert_eq!(te.status_code, 404);
        }
        other => panic!("expected a server error, got {:?}", other),
    }
}
