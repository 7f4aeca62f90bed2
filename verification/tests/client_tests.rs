//! Tests of the convenience-helper decision logic, the error taxonomy and
//! the numeric formatting.

use twitch_api::client_ext::{games_by_id, limit_game_ids, require_user_id, Game};
use twitch_api::errors::{ClientExtError, ClientRequestError};
use twitch_api::numfmt::{bool_to_text, usize_to_dec};
use twitch_api::response::Response;

#[test]
fn require_user_id_passes_identity_through() {
    let r = require_user_id(Some("1234".to_string()));
    assert_eq!(r, Ok("1234".to_string()));
}

#[test]
fn require_user_id_rejects_missing_identity_without_a_call() {
    let r = require_user_id(None);
    match r {
        Err(ClientRequestError::Custom(m)) => assert_eq!(m, "no user_id found on token"),
        other => panic!("expected the precondition error, got {:?}", other),
    }
}

#[test]
fn limit_game_ids_accepts_up_to_one_hundred() {
    let ids: Vec<String> = (0..100).map(|i| i.to_string()).collect();
    let r = limit_game_ids(ids.clone());
    assert_eq!(r, Ok(ids));
}

#[test]
fn limit_game_ids_rejects_one_hundred_one() {
    let ids: Vec<String> = (0..101).map(|i| i.to_string()).collect();
    match limit_game_ids(ids) {
        Err(ClientRequestError::Custom(m)) => assert_eq!(m, "too many IDs, max 100"),
        other => panic!("expected the batch-size error, got {:?}", other),
    }
}

#[test]
fn games_by_id_keys_each_game_in_order() {
    let games = vec![
        Game { id: "509670".to_string(), name: "Science & Technology".to_string() },
        Game { id: "506442".to_string(), name: "DOOM Eternal".to_string() },
    ];
    let keyed = games_by_id(games.clone());
    assert_eq!(keyed.len(), 2);
    assert_eq!(keyed[0].0, "509670");
    assert_eq!(keyed[0].1, games[0]);
    assert_eq!(keyed[1].0, "506442");
    assert_eq!(keyed[1].1, games[1]);
}

#[test]
fn response_first_takes_the_head_of_a_list_payload() {
    let empty: Response<u8, Vec<String>> =
        Response { data: vec![], pagination: None, request: None, total: None };
    assert_eq!(empty.first(), None);

    let full: Response<u8, Vec<String>> = Response {
        data: vec!["a".to_string(), "b".to_string()],
        pagination: Some("cur".to_string()),
        request: None,
        total: Some(2),
    };
    assert_eq!(full.first(), Some("a".to_string()));
}

#[test]
fn error_messages_are_preserved_for_inspection() {
    let e = ClientRequestError::ServerError { status: 403, message: "missing scope".to_string() };
    assert_eq!(e.message().as_str(), "missing scope");
    let e = ClientRequestError::Transport("connection reset".to_string());
    assert_eq!(e.message().as_str(), "connection reset");
    let e = ClientRequestError::Authorization("token expired".to_string());
    assert_eq!(e.message().as_str(), "token expired");
    let e = ClientRequestError::Decode("missing field".to_string());
    assert_eq!(e.message().as_str(), "missing field");
    let e = ClientRequestError::Custom("no user_id found on token".to_string());
    assert_eq!(e.message().as_str(), "no user_id found on token");

    let wrapped: ClientExtError<u8> = ClientExtError::ClientError(e);
    assert!(matches!(wrapped, ClientExtError::ClientError(_)));
    let other: ClientExtError<u8> = ClientExtError::Other(7);
    assert_eq!(other, ClientExtError::Other(7));
}

#[test]
fn decimal_rendering_matches_expected_text() {
    assert_eq!(usize_to_dec(0), "0");
    assert_eq!(usize_to_dec(7), "7");
    assert_eq!(usize_to_dec(10), "10");
    assert_eq!(usize_to_dec(100), "100");
    assert_eq!(usize_to_dec(204), "204");
    assert_eq!(usize_to_dec(141981764), "141981764");
    assert_eq!(bool_to_text(true), "true");
    assert_eq!(bool_to_text(false), "false");
}
