use authcore::dto::{LoginRequest, RegisterRequest};
use authcore::error::ApiError;
use authcore::password::{PasswordCheck, hash_password, verify_password};
use authcore::session::AuthCore;

const NOW: i64 = 1_700_000_000;

#[test]
fn stored_credential_is_salted_and_never_plaintext() {
    let mut core = AuthCore::new(b"s".to_vec());
    core.register(RegisterRequest { email: "one@x.test".to_string(), password: "pw".to_string() })
        .expect("registration should succeed");
    core.register(RegisterRequest { email: "two@x.test".to_string(), password: "pw".to_string() })
        .expect("registration should succeed");
    let c1 = core.users[0].credential.clone();
    let c2 = core.users[1].credential.clone();
    assert_ne!(c1, "pw");
    assert_ne!(c2, "pw");
    // same plaintext, distinct salts: distinct stored credentials
    assert_ne!(c1, c2);
}

#[test]
fn hash_then_verify_round_trips() {
    let cred = hash_password("hunter2").expect("an in-range password always hashes");
    assert_eq!(verify_password("hunter2", cred.as_str()), PasswordCheck::Match);
    assert_eq!(verify_password("hunter3", cred.as_str()), PasswordCheck::Mismatch);
}

#[test]
fn malformed_credential_is_distinct_from_mismatch() {
    assert_eq!(verify_password("pw", "not-a-phc-string"), PasswordCheck::Malformed);
}

#[test]
fn wrong_password_and_unknown_email_are_indistinguishable() {
    let mut core = AuthCore::new(b"s".to_vec());
    core.register(RegisterRequest {
        email: "real@x.test".to_string(),
        password: "correct-password".to_string(),
    })
    .expect("registration should succeed");

    let wrong_password = core.login(
        LoginRequest {
            email: "real@x.test".to_string(),
            password: "wrong-password".to_string(),
        },
        NOW,
    );
    let unknown_email = core.login(
        LoginRequest {
            email: "ghost@x.test".to_string(),
            password: "correct-password".to_string(),
        },
        NOW,
    );
    assert!(matches!(wrong_password, Err(ApiError::Unauthorized)));
    assert!(matches!(unknown_email, Err(ApiError::Unauthorized)));
}

#[test]
fn login_trims_email_before_lookup() {
    let mut core = AuthCore::new(b"s".to_vec());
    core.register(RegisterRequest {
        email: " padded@x.test ".to_string(),
        password: "pw".to_string(),
    })
    .expect("registration should succeed");
    let ok = core.login(
        LoginRequest { email: "padded@x.test".to_string(), password: "pw".to_string() },
        NOW,
    );
    assert!(ok.is_ok());
}
