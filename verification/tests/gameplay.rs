use charades::coordinator::add_word_to_session;
use charades::coordinator::distribute_error;
use charades::coordinator::distribute_message;
use charades::coordinator::handle_incoming_client_message;
use charades::coordinator::on_connect;
use charades::coordinator::session_users_key;
use charades::coordinator::ClientMessageDisposition;
use charades::coordinator::WordInsertOutcome;
use charades::errors::ServerError;
use charades::messages::ClientMessage;
use charades::messages::ServerMessage;
use charades::models::Word;
use charades::registry::ConnectionRegistry;

fn word(w: &str, room: &str, by: &str) -> Word {
    Word {
        word: w.to_string(),
        created_at: 1_700_000_000,
        session_id: room.to_string(),
        user_id: by.to_string(),
    }
}

fn connect(registry: &mut ConnectionRegistry, id: &str, room: &str) {
    on_connect(registry, &id.to_string(), &room.to_string(), 0);
}

#[test]
fn first_word_reaches_room_and_submitter_differently() {
    let mut registry = ConnectionRegistry::new();
    connect(&mut registry, "a", "R1");
    connect(&mut registry, "b", "R1");
    let members = vec!["a".to_string(), "b".to_string()];

    let outcome = WordInsertOutcome::Inserted { words: vec![word("apple", "R1", "a")] };
    let plan = add_word_to_session(
        &"R1".to_string(),
        &"apple".to_string(),
        &"a".to_string(),
        outcome,
    )
    .unwrap();
    distribute_message(&plan, &mut registry, &members);

    let to_a = registry.drain_outbox(&"a".to_string());
    assert_eq!(
        to_a,
        vec![ServerMessage::AddWordPersonal {
            number_of_words: 1,
            my_words: vec!["apple".to_string()],
        }]
    );
    let to_b = registry.drain_outbox(&"b".to_string());
    assert_eq!(to_b, vec![ServerMessage::AddWord { number_of_words: 1 }]);
}

#[test]
fn duplicate_word_errs_privately_and_broadcasts_nothing() {
    let mut registry = ConnectionRegistry::new();
    connect(&mut registry, "a", "R1");
    connect(&mut registry, "b", "R1");
    let members = vec!["a".to_string(), "b".to_string()];

    let err = add_word_to_session(
        &"R1".to_string(),
        &"apple".to_string(),
        &"b".to_string(),
        WordInsertOutcome::DuplicateWord,
    )
    .unwrap_err();
    assert_eq!(
        err,
        ServerError::Private {
            id: "b".to_string(),
            error: "Word 'apple' already in session".to_string(),
        }
    );

    distribute_error(&err, &mut registry, &members);
    let to_b = registry.drain_outbox(&"b".to_string());
    assert_eq!(
        to_b,
        vec![ServerMessage::Error { error: "Word 'apple' already in session".to_string() }]
    );
    let to_a = registry.drain_outbox(&"a".to_string());
    assert!(to_a.is_empty());
}

#[test]
fn personal_list_holds_only_the_submitters_words() {
    let words = vec![
        word("apple", "R1", "a"),
        word("pear", "R1", "b"),
        word("plum", "R1", "a"),
    ];
    let plan = add_word_to_session(
        &"R1".to_string(),
        &"plum".to_string(),
        &"a".to_string(),
        WordInsertOutcome::Inserted { words },
    )
    .unwrap();

    let mut registry = ConnectionRegistry::new();
    connect(&mut registry, "a", "R1");
    distribute_message(&plan, &mut registry, &vec!["a".to_string()]);
    let to_a = registry.drain_outbox(&"a".to_string());
    assert_eq!(
        to_a,
        vec![ServerMessage::AddWordPersonal {
            number_of_words: 3,
            my_words: vec!["apple".to_string(), "plum".to_string()],
        }]
    );
}

#[test]
fn store_failure_on_insert_errs_privately() {
    let err = add_word_to_session(
        &"R1".to_string(),
        &"apple".to_string(),
        &"a".to_string(),
        WordInsertOutcome::StoreUnavailable,
    )
    .unwrap_err();
    assert_eq!(
        err,
        ServerError::Private {
            id: "a".to_string(),
            error: "Could not add word to session".to_string(),
        }
    );
}

#[test]
fn read_failure_after_insert_degrades_to_private_error() {
    let err = add_word_to_session(
        &"R1".to_string(),
        &"apple".to_string(),
        &"a".to_string(),
        WordInsertOutcome::InsertedReadFailed,
    )
    .unwrap_err();
    assert_eq!(
        err,
        ServerError::Private {
            id: "a".to_string(),
            error: "Could not add word to session".to_string(),
        }
    );
}

#[test]
fn broadcast_to_empty_room_is_a_no_op() {
    let mut registry = ConnectionRegistry::new();
    let plan = add_word_to_session(
        &"R1".to_string(),
        &"apple".to_string(),
        &"a".to_string(),
        WordInsertOutcome::Inserted { words: vec![word("apple", "R1", "a")] },
    )
    .unwrap();
    distribute_message(&plan, &mut registry, &vec!["a".to_string(), "b".to_string()]);
    assert!(registry.drain_outbox(&"a".to_string()).is_empty());
}

#[test]
fn start_session_is_a_protocol_no_op() {
    let disposition = handle_incoming_client_message(ClientMessage::StartSession {
        session_id: "R1".to_string(),
    });
    assert_eq!(disposition, ClientMessageDisposition::NoAction);
}

#[test]
fn add_word_routes_to_submission() {
    let disposition =
        handle_incoming_client_message(ClientMessage::AddWord { word: "apple".to_string() });
    assert_eq!(
        disposition,
        ClientMessageDisposition::SubmitWord { word: "apple".to_string() }
    );
}

#[test]
fn session_users_key_shape() {
    assert_eq!(session_users_key("R1"), "session:R1:users".to_string());
}
