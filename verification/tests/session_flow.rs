use authcore::dto::{LoginRequest, LogoutRequest, RefreshRequest, RegisterRequest};
use authcore::error::ApiError;
use authcore::gate::authorize;
use authcore::session::AuthCore;

const NOW: i64 = 1_700_000_000;

fn secret() -> Vec<u8> {
    b"test-signing-secret".to_vec()
}

fn register_and_login(core: &mut AuthCore, email: &str, password: &str) -> (String, String) {
    let reg = core
        .register(RegisterRequest { email: email.to_string(), password: password.to_string() })
        .expect("registration should succeed");
    assert_eq!(reg.email, email.trim());
    let out = core
        .login(
            LoginRequest { email: email.to_string(), password: password.to_string() },
            NOW,
        )
        .expect("login should succeed");
    assert_eq!(out.token_type, "Bearer");
    (out.access_token, out.refresh_token)
}

#[test]
fn end_to_end_register_login_me_refresh() {
    let mut core = AuthCore::new(secret());
    let reg = core
        .register(RegisterRequest { email: "a@x.test".to_string(), password: "pw".to_string() })
        .expect("registration should succeed");
    assert_eq!(reg.email, "a@x.test");

    let login = core
        .login(
            LoginRequest { email: "a@x.test".to_string(), password: "pw".to_string() },
            NOW,
        )
        .expect("login should succeed");
    assert!(!login.access_token.is_empty());
    assert!(!login.refresh_token.is_empty());

    let header = format!("Bearer {}", login.access_token);
    let auth = authorize(Some(header.as_str()), &core.jwt_secret, NOW + 60)
        .expect("the issued access token should authenticate");
    assert_eq!(auth.id, reg.id);

    let me = core.me(auth.id).expect("the profile should exist");
    assert_eq!(me.id, reg.id);
    assert_eq!(me.email, "a@x.test");

    let refreshed = core
        .refresh(RefreshRequest { refresh_token: login.refresh_token.clone() }, NOW + 100)
        .expect("refresh with a live token should succeed");
    assert!(!refreshed.access_token.is_empty());
    assert_ne!(refreshed.refresh_token, login.refresh_token);

    let old_again = core.refresh(
        RefreshRequest { refresh_token: login.refresh_token.clone() },
        NOW + 200,
    );
    assert!(matches!(old_again, Err(ApiError::Unauthorized)));
}

#[test]
fn register_with_same_email_is_conflict() {
    let mut core = AuthCore::new(secret());
    register_and_login(&mut core, "same@x.test", "password-123");
    let second = core.register(RegisterRequest {
        email: "same@x.test".to_string(),
        password: "password-123".to_string(),
    });
    assert!(matches!(second, Err(ApiError::EmailTaken)));
    let trimmed = core.register(RegisterRequest {
        email: "  same@x.test  ".to_string(),
        password: "other".to_string(),
    });
    assert!(matches!(trimmed, Err(ApiError::EmailTaken)));
}

#[test]
fn rotation_chain_old_link_dead_new_link_alive() {
    let mut core = AuthCore::new(secret());
    let (_at, rt0) = register_and_login(&mut core, "chain@x.test", "pw");
    let r1 = core
        .refresh(RefreshRequest { refresh_token: rt0.clone() }, NOW + 10)
        .expect("first rotation should succeed");
    let rt1 = r1.refresh_token;

    let reuse = core.refresh(RefreshRequest { refresh_token: rt0 }, NOW + 20);
    assert!(matches!(reuse, Err(ApiError::Unauthorized)));

    let r2 = core
        .refresh(RefreshRequest { refresh_token: rt1 }, NOW + 30)
        .expect("the live leaf should still rotate");
    assert_ne!(r2.refresh_token, "");
}

#[test]
fn racing_rotations_have_one_winner() {
    // The storage layer serializes racing rotations; both orders are the
    // two sequential schedules, so replay one: the winner rotates, the
    // loser presents the same secret and must lose.
    let mut core = AuthCore::new(secret());
    let (_at, rt0) = register_and_login(&mut core, "race@x.test", "pw");
    let rows_before = core.tokens.len();

    let winner = core.refresh(RefreshRequest { refresh_token: rt0.clone() }, NOW + 10);
    let loser = core.refresh(RefreshRequest { refresh_token: rt0 }, NOW + 10);

    assert!(winner.is_ok());
    assert!(matches!(loser, Err(ApiError::Unauthorized)));
    // exactly one successor row was created
    assert_eq!(core.tokens.len(), rows_before + 1);
    let successors: Vec<usize> =
        core.tokens.iter().filter_map(|t| t.replaced_by).collect();
    assert_eq!(successors, vec![rows_before]);
}

#[test]
fn logout_revokes_refresh_token() {
    let mut core = AuthCore::new(secret());
    let (_at, rt) = register_and_login(&mut core, "bye@x.test", "pw");
    core.logout(LogoutRequest { refresh_token: rt.clone() }, NOW + 5);
    let after = core.refresh(RefreshRequest { refresh_token: rt }, NOW + 10);
    assert!(matches!(after, Err(ApiError::Unauthorized)));
}

#[test]
fn logout_is_idempotent_and_ignores_unknown_tokens() {
    let mut core = AuthCore::new(secret());
    let (_at, rt) = register_and_login(&mut core, "idem@x.test", "pw");
    let rows = core.tokens.len();

    core.logout(LogoutRequest { refresh_token: "no-such-token".to_string() }, NOW + 1);
    assert_eq!(core.tokens.len(), rows);

    core.logout(LogoutRequest { refresh_token: rt.clone() }, NOW + 2);
    let revoked_at = core.tokens[0].revoked_at;
    assert_eq!(revoked_at, Some(NOW + 2));

    // revoking again is a no-op: the first timestamp stays
    core.logout(LogoutRequest { refresh_token: rt }, NOW + 3);
    assert_eq!(core.tokens[0].revoked_at, revoked_at);
    assert_eq!(core.tokens.len(), rows);
}

#[test]
fn expired_refresh_token_is_rejected() {
    let mut core = AuthCore::new(secret());
    let (_at, rt) = register_and_login(&mut core, "old@x.test", "pw");
    let at_expiry = NOW + authcore::REFRESH_TTL_SECS;
    let res = core.refresh(RefreshRequest { refresh_token: rt }, at_expiry);
    assert!(matches!(res, Err(ApiError::Unauthorized)));
}

#[test]
fn me_with_unknown_identity_is_unauthorized() {
    let core = AuthCore::new(secret());
    let ghost_id = authcore::ids::UserId { value: 42 };
    assert!(matches!(core.me(ghost_id), Err(ApiError::Unauthorized)));
}
