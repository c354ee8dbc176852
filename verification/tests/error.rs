use cwsite_server::{Error, StorageError};

fn conflict() -> Error {
    Error::PlayerAlreadyExists { id: String::from("p1"), name: String::from("Bob") }
}

#[test]
fn status_codes() {
    assert_eq!(conflict().status_code(), 400);
    assert_eq!(Error::NotExist.status_code(), 404);
    assert_eq!(Error::SQLX(StorageError::UniqueViolation).status_code(), 500);
    assert_eq!(Error::SQLX(StorageError::ForeignKeyViolation).status_code(), 500);
    assert_eq!(Error::SQLX(StorageError::Other(String::from("gone"))).status_code(), 500);
    assert_eq!(Error::Reqwest(String::from("timeout")).status_code(), 500);
    assert_eq!(Error::Any(String::from("bad code")).status_code(), 500);
    assert_eq!(Error::Entropy.status_code(), 500);
}

#[test]
fn messages() {
    assert_eq!(conflict().message(), "Player with id p1 or name Bob already exists");
    assert_eq!(Error::NotExist.message(), "Entity is not exist");
    assert_eq!(
        Error::SQLX(StorageError::UniqueViolation).message(),
        "Sqlx error: unique constraint violated"
    );
    assert_eq!(
        Error::SQLX(StorageError::ForeignKeyViolation).message(),
        "Sqlx error: foreign key constraint violated"
    );
    assert_eq!(
        Error::SQLX(StorageError::Other(String::from("pool closed"))).message(),
        "Sqlx error: pool closed"
    );
    assert_eq!(Error::Reqwest(String::from("timeout")).message(), "Reqwest error: timeout");
    assert_eq!(Error::Any(String::from("bad code")).message(), "Unknown error: bad code");
    assert_eq!(Error::Entropy.message(), "Entropy source is unavailable");
}

#[test]
fn conflict_response_names_both_fields() {
    let response = conflict().error_response();
    assert_eq!(response.status, 400);
    assert_eq!(
        response.body.as_deref(),
        Some("{\"error\":\"Player with id p1 or name Bob already exists\"}")
    );
}

#[test]
fn missing_record_response() {
    let response = Error::NotExist.error_response();
    assert_eq!(response.status, 404);
    assert_eq!(response.body.as_deref(), Some("{\"error\":\"Entity is not exist\"}"));
}

#[test]
fn server_side_responses_have_no_body() {
    let errors = vec![
        Error::SQLX(StorageError::UniqueViolation),
        Error::SQLX(StorageError::Other(String::from("secret detail"))),
        Error::Reqwest(String::from("secret detail")),
        Error::Any(String::from("secret detail")),
        Error::Entropy,
    ];
    for error in errors {
        let response = error.error_response();
        assert_eq!(response.status, 500);
        assert!(response.body.is_none());
    }
}
