use authcore::error::ApiError;

#[test]
fn email_taken_maps_to_conflict() {
    let e = ApiError::EmailTaken;
    assert_eq!(e.status_code(), 409);
    let body = e.body();
    assert_eq!(body.error, "EMAIL_TAKEN");
    assert_eq!(body.message, "Email already exists");
}

#[test]
fn bad_request_keeps_its_message() {
    let e = ApiError::BadRequest("group_id must be greater than 0".to_string());
    assert_eq!(e.status_code(), 400);
    let body = e.body();
    assert_eq!(body.error, "BAD_REQUEST");
    assert_eq!(body.message, "group_id must be greater than 0");
}

#[test]
fn internal_detail_is_never_echoed() {
    let db = ApiError::Db("connection reset by peer".to_string());
    assert_eq!(db.status_code(), 500);
    assert_eq!(db.body().error, "INTERNAL");
    assert_eq!(db.body().message, "Internal server error");

    let hash = ApiError::Hash("argon2 parameter error".to_string());
    assert_eq!(hash.status_code(), 500);
    assert_eq!(hash.body().error, "INTERNAL");
    assert_eq!(hash.body().message, "Internal server error");
}

#[test]
fn unauthorized_and_not_found_map_to_their_codes() {
    let ua = ApiError::Unauthorized;
    assert_eq!(ua.status_code(), 401);
    assert_eq!(ua.body().error, "UNAUTHORIZED");
    assert_eq!(ua.body().message, "Invalid credentials");

    let nf = ApiError::NotFound;
    assert_eq!(nf.status_code(), 404);
    assert_eq!(nf.body().error, "NOT FOUND");
    assert_eq!(nf.body().message, "Resource not found");
}
