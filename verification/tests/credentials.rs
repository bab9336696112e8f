use kasane::{sanitize_token, Client};

#[test]
fn sanitize_plain_token() {
    assert_eq!(
        sanitize_token(Some("abc123".to_string())),
        Some("abc123".to_string())
    );
}

#[test]
fn sanitize_trims_whitespace() {
    assert_eq!(
        sanitize_token(Some("  \t abc123 \n ".to_string())),
        Some("abc123".to_string())
    );
}

#[test]
fn sanitize_trims_unicode_whitespace() {
    assert_eq!(
        sanitize_token(Some("\u{b}tok".to_string())),
        Some("tok".to_string())
    );
    assert_eq!(
        sanitize_token(Some("\u{a0}\u{2003}tok\u{2028}\u{3000}".to_string())),
        Some("tok".to_string())
    );
    assert_eq!(
        sanitize_token(Some("\u{85}Bearer tok\u{205f}".to_string())),
        Some("tok".to_string())
    );
}

#[test]
fn sanitize_strips_bearer_prefix() {
    assert_eq!(
        sanitize_token(Some("Bearer abc123".to_string())),
        Some("abc123".to_string())
    );
}

#[test]
fn sanitize_padded_and_prefixed_agree() {
    let plain = sanitize_token(Some("abc123".to_string()));
    let padded = sanitize_token(Some("   abc123\t".to_string()));
    let prefixed = sanitize_token(Some("Bearer abc123".to_string()));
    let both = sanitize_token(Some(" \n Bearer abc123  ".to_string()));
    assert_eq!(plain, padded);
    assert_eq!(plain, prefixed);
    assert_eq!(plain, both);
}

#[test]
fn sanitize_is_idempotent_on_its_results() {
    for raw in ["abc", " x y ", "Bearer tok", "  Bearer tok  ", "tok  "] {
        let once = sanitize_token(Some(raw.to_string()));
        let twice = sanitize_token(once.clone());
        assert_eq!(once, twice);
    }
}

#[test]
fn sanitize_strips_one_bearer_only() {
    assert_eq!(
        sanitize_token(Some("Bearer Bearer x".to_string())),
        Some("Bearer x".to_string())
    );
}

#[test]
fn client_attaches_canonical_header() {
    let c = Client::new(Some("  Bearer abc123 ".to_string()));
    assert_eq!(c.authorization, Some("Bearer abc123".to_string()));
    let d = Client::new(Some("abc123".to_string()));
    assert_eq!(d.authorization, Some("Bearer abc123".to_string()));
}

#[test]
fn blank_credential_attaches_no_header() {
    assert_eq!(Client::new(None).authorization, None);
    assert_eq!(Client::new(Some(String::new())).authorization, None);
    assert_eq!(Client::new(Some("   \t\n  ".to_string())).authorization, None);
    assert_eq!(Client::new(Some("\u{b}".to_string())).authorization, None);
    assert_eq!(
        Client::new(Some("\u{a0}\u{2000}\u{1680}".to_string())).authorization,
        None
    );
}

#[test]
fn bearer_alone_is_kept_as_token() {
    let c = Client::new(Some("Bearer".to_string()));
    assert_eq!(c.authorization, Some("Bearer Bearer".to_string()));
}

#[test]
fn user_agent_is_fixed() {
    assert_eq!(Client::user_agent(), "Kasane/0.1");
}
