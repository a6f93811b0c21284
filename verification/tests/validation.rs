use authcore::error::ApiError;
use authcore::groups::validate_group_id;
use authcore::notes::{CreateNoteRequest, validate_note};
use authcore::paging::page_params;
use authcore::user_settings::{UpdateUserSettingsRequest, validate_search_interval};
use authcore::vk_tokens::{normalize_tokens, plan_vk_token_insert, vk_token_hashes};

fn bad_request_message(e: ApiError) -> String {
    match e {
        ApiError::BadRequest(m) => m,
        other => panic!("expected a validation failure, got {:?}", other),
    }
}

#[test]
fn group_id_must_be_positive() {
    assert!(validate_group_id(1).is_ok());
    assert!(validate_group_id(12345).is_ok());
    let e = validate_group_id(0).unwrap_err();
    assert_eq!(bad_request_message(e), "group_id must be greater than 0");
    assert!(validate_group_id(-3).is_err());
}

#[test]
fn note_needs_title_and_body() {
    let ok = CreateNoteRequest { title: "t".to_string(), body: "b".to_string() };
    assert!(validate_note(&ok).is_ok());
    let no_title = CreateNoteRequest { title: "  ".to_string(), body: "b".to_string() };
    assert_eq!(
        bad_request_message(validate_note(&no_title).unwrap_err()),
        "title is required"
    );
    let no_body = CreateNoteRequest { title: "t".to_string(), body: " \n".to_string() };
    assert_eq!(bad_request_message(validate_note(&no_body).unwrap_err()), "body is required");
}

#[test]
fn search_interval_is_bounded_below() {
    let ok = UpdateUserSettingsRequest { search_interval_minutes: Some(90) };
    assert_eq!(validate_search_interval(&ok).unwrap(), 90);
    let low = UpdateUserSettingsRequest { search_interval_minutes: Some(29) };
    assert_eq!(
        bad_request_message(validate_search_interval(&low).unwrap_err()),
        "search_interval_minutes must be at least 30"
    );
    let missing = UpdateUserSettingsRequest { search_interval_minutes: None };
    assert_eq!(
        bad_request_message(validate_search_interval(&missing).unwrap_err()),
        "search_interval_minutes is required"
    );
    let boundary = UpdateUserSettingsRequest { search_interval_minutes: Some(30) };
    assert_eq!(validate_search_interval(&boundary).unwrap(), 30);
}

#[test]
fn paging_defaults_and_clamps() {
    assert_eq!(page_params(None, None), (50, 0));
    assert_eq!(page_params(Some(1), Some(1)), (1, 1));
    assert_eq!(page_params(Some(0), None), (1, 0));
    assert_eq!(page_params(Some(1000), Some(-5)), (100, 0));
    assert_eq!(page_params(Some(100), Some(7)), (100, 7));
}

#[test]
fn token_batch_must_be_small_and_non_empty() {
    let empty: Vec<String> = Vec::new();
    assert_eq!(
        bad_request_message(normalize_tokens(&empty).unwrap_err()),
        "tokens must contain at least one value"
    );
    let too_many: Vec<String> = (0..101).map(|i| format!("t{}", i)).collect();
    assert_eq!(
        bad_request_message(normalize_tokens(&too_many).unwrap_err()),
        "tokens can contain up to 100 values"
    );
    let blank = vec!["vk_token_1".to_string(), "   ".to_string()];
    assert_eq!(
        bad_request_message(normalize_tokens(&blank).unwrap_err()),
        "token value cannot be empty"
    );
}

#[test]
fn token_batch_comes_back_trimmed() {
    let raw = vec![" vk_token_1 ".to_string(), "vk_token_2".to_string()];
    let out = normalize_tokens(&raw).expect("a clean batch should pass");
    assert_eq!(out, vec!["vk_token_1".to_string(), "vk_token_2".to_string()]);
}

#[test]
fn batch_insert_counts_new_and_duplicate_tokens() {
    let none: Vec<String> = Vec::new();
    let batch = vec!["a".to_string(), "b".to_string(), "a".to_string()];
    let plan = plan_vk_token_insert(&none, &batch);
    assert_eq!(plan.inserted, 2);
    assert_eq!(plan.skipped, 1);

    // a token whose hash the store already holds is skipped
    let existing = vk_token_hashes(&vec!["a".to_string()]);
    let plan2 = plan_vk_token_insert(&existing, &batch);
    assert_eq!(plan2.inserted, 1);
    assert_eq!(plan2.skipped, 2);

    let empty_batch: Vec<String> = Vec::new();
    let plan3 = plan_vk_token_insert(&existing, &empty_batch);
    assert_eq!(plan3.inserted, 0);
    assert_eq!(plan3.skipped, 0);
}

#[test]
fn token_hashes_match_the_storage_hash() {
    let hs = vk_token_hashes(&vec!["abc".to_string()]);
    assert_eq!(
        hs,
        vec!["ba7816bf8f01cfea414140de5dae2223b00361a396177a9cb410ff61f20015ad".to_string()]
    );
}
