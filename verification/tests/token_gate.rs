use authcore::error::ApiError;
use authcore::gate::authorize;
use authcore::ids::UserId;
use authcore::token::{issue_access_token, verify_access_token};

const NOW: i64 = 1_700_000_000;

fn secret() -> Vec<u8> {
    b"gate-secret".to_vec()
}

#[test]
fn issued_token_verifies_until_expiry() {
    let sec = secret();
    let token = issue_access_token("subject-1", NOW, 900, &sec);
    let claims = verify_access_token(token.as_str(), &sec, NOW + 899)
        .expect("the token should verify inside its window");
    assert_eq!(claims.sub, "subject-1");
    assert_eq!(claims.iat, NOW);
    assert_eq!(claims.exp, NOW + 900);
    // rejected exactly at the expiry instant, and after it
    assert!(verify_access_token(token.as_str(), &sec, NOW + 900).is_none());
    assert!(verify_access_token(token.as_str(), &sec, NOW + 901).is_none());
}

#[test]
fn token_under_wrong_secret_is_rejected() {
    let token = issue_access_token("subject-1", NOW, 900, &secret());
    let other = b"another-secret".to_vec();
    assert!(verify_access_token(token.as_str(), &other, NOW).is_none());
}

#[test]
fn garbage_token_is_rejected() {
    assert!(verify_access_token("not-a-token", &secret(), NOW).is_none());
}

#[test]
fn gate_resolves_subject_to_issued_identity() {
    let sec = secret();
    let id = UserId { value: 0x1234_5678_9abc_def0_1122_3344_5566_7788 };
    let sub = id.to_hyphenated();
    let token = issue_access_token(sub.as_str(), NOW, 1800, &sec);
    let header = format!("Bearer {}", token);
    let user = authorize(Some(header.as_str()), &sec, NOW + 1)
        .expect("a live token should authenticate");
    assert_eq!(user.id, id);
    // and at expiry the very same request is turned away
    let expired = authorize(Some(header.as_str()), &sec, NOW + 1800);
    assert!(matches!(expired, Err(ApiError::Unauthorized)));
}

#[test]
fn gate_requires_bearer_prefix() {
    let sec = secret();
    let id = UserId { value: 7 };
    let sub = id.to_hyphenated();
    let token = issue_access_token(sub.as_str(), NOW, 1800, &sec);

    assert!(matches!(authorize(None, &sec, NOW), Err(ApiError::Unauthorized)));
    assert!(matches!(authorize(Some(token.as_str()), &sec, NOW), Err(ApiError::Unauthorized)));
    let lowercase = format!("bearer {}", token);
    assert!(matches!(
        authorize(Some(lowercase.as_str()), &sec, NOW),
        Err(ApiError::Unauthorized)
    ));
}

#[test]
fn gate_rejects_unparsable_subject() {
    let sec = secret();
    let token = issue_access_token("not-a-user-id", NOW, 1800, &sec);
    let header = format!("Bearer {}", token);
    assert!(matches!(
        authorize(Some(header.as_str()), &sec, NOW),
        Err(ApiError::Unauthorized)
    ));
}
