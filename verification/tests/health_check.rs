use zero2prod::error::{PersistenceError, SubscribeError};
use zero2prod::routes::{health_check, receive, respond, Step};

#[test]
fn health_check_works() {
    let response = health_check();

    assert!((200..300).contains(&response.status));
    assert_eq!(Some(response.body.len() as u64), Some(0));
}

#[test]
fn health_check_is_a_bare_200() {
    let response = health_check();

    assert_eq!(response.status, 200);
    assert!(response.body.is_empty());
    assert_eq!(response.log, None);
}

#[test]
fn subscribe_returns_a_400_when_data_is_missing() {
    let test_cases = vec![
        ("name=le%20guin", "missing the email"),
        ("email=ursula_le_guin%40gmail.com", "missing the name"),
        ("", "missing both name and email"),
    ];
    for (invalid_body, error_message) in test_cases {
        let response = match receive(invalid_body.as_bytes()) {
            Step::Reply(response) => response,
            Step::Insert(record) => panic!(
                "A record was made for {} when the payload was {}.",
                record.email(),
                error_message
            ),
        };

        assert_eq!(
            400, response.status,
            "The API did not fail with 400 Bad Request when the payload was {}.",
            error_message
        );
        assert!(response.body.is_empty());
        assert_eq!(response.log, None);
    }
}

#[test]
fn subscribe_returns_a_200_for_valid_form_data() {
    let body = "name=le%20guin&email=ursula_le_guin%40gmail.com";

    let saved = match receive(body.as_bytes()) {
        Step::Insert(record) => record,
        Step::Reply(response) => panic!("Failed to execute request: status {}.", response.status),
    };
    let response = respond(Ok(()));

    assert_eq!(200, response.status);
    assert!(response.body.is_empty());
    assert_eq!(response.log, None);

    assert_eq!(saved.email(), "ursula_le_guin@gmail.com");
    assert_eq!(saved.name(), "le guin");
}

#[test]
fn subscribe_returns_a_500_when_the_store_fails() {
    let body = "name=le%20guin&email=ursula_le_guin%40gmail.com";
    assert!(matches!(receive(body.as_bytes()), Step::Insert(_)));

    let failure = PersistenceError { detail: String::from("pool timed out while waiting for an open connection") };
    let response = respond(Err(SubscribeError::Persistence(failure)));

    assert_eq!(500, response.status);
    assert!(response.body.is_empty());
    assert_eq!(
        response.log,
        Some(String::from(
            "Failed to execute query: pool timed out while waiting for an open connection"
        ))
    );
}
