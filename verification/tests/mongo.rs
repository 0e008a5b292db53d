use boards_back::db::mongo::{
    found_or_missing, object_id, owned_by, subscribe_on_board_updates, BOARDS_COLLECTION, DATABASE,
    TASKS_COLLECTION,
};
use boards_back::errors::CustomError;
use boards_back::models::{Board, Record, Task, TaskStage};
use mongodb::bson::oid::ObjectId;

const BOARD_ID: &str = "60f7d4c51a2b3c4d5e6f7a8b";

#[test]
fn names_of_database_and_collections() {
    assert_eq!(DATABASE, "boards_back");
    assert_eq!(BOARDS_COLLECTION, "boards");
    assert_eq!(TASKS_COLLECTION, "tasks");
}

#[test]
fn twenty_four_hex_digits_are_an_object_id() {
    assert_eq!(object_id(BOARD_ID).unwrap().to_hex(), BOARD_ID);
    assert_eq!(
        object_id("60F7D4C51A2B3C4D5E6F7A8B").unwrap(),
        ObjectId::parse_str(BOARD_ID).unwrap()
    );
    assert!(object_id("000000000000000000000000").is_ok());
}

#[test]
fn anything_else_is_not_found() {
    for text in [
        "",
        "60f7d4c51a2b3c4d5e6f7a8",
        "60f7d4c51a2b3c4d5e6f7a8b0",
        "60f7d4c51a2b3c4d5e6f7a8g",
        "60f7d4c51a2b3c4d5e6f7a 8",
        "60f7d4c51a2b3c4d5e6f7é",
        "60f7d4c51a2b3c4d5e6f7a8b60f7d4c51a2b3c4d5e6f7a8b",
    ] {
        match object_id(text) {
            Err(error) => {
                assert!(matches!(&error, CustomError::NotFound(_)), "{:?}", text);
                assert_eq!(error.status_code(), 404);
            }
            Ok(id) => panic!("{:?} gave {}", text, id),
        }
    }
}

#[test]
fn missing_document_is_reported_with_its_id() {
    match found_or_missing(None, "7") {
        Err(error) => assert_eq!(error.to_string(), "Endpoint is not found: board with id: 7"),
        Ok(record) => panic!("{:?}", record),
    }
    let board = Board { id: None, name: "plans".to_string(), description: String::new() };
    assert!(matches!(found_or_missing(Some(Record::Board(board)), "7"),
        Ok(Record::Board(found)) if found.name == "plans"));
}

#[test]
fn stored_task_belongs_to_the_board_it_is_stored_for() {
    let other = ObjectId::parse_str("000000000000000000000001").unwrap();
    let task = Task {
        id: None,
        board_id: other,
        name: "draft".to_string(),
        description: "first".to_string(),
        stage: TaskStage::InProgress,
    };
    let owned = owned_by(task, BOARD_ID).unwrap();
    assert_eq!(owned.board_id.to_hex(), BOARD_ID);
    assert_eq!(owned.id, None);
    assert_eq!(owned.name, "draft");
    assert_eq!(owned.description, "first");
    assert_eq!(owned.stage, TaskStage::InProgress);
    let task = Task {
        id: None,
        board_id: other,
        name: "draft".to_string(),
        description: String::new(),
        stage: TaskStage::Backlog,
    };
    assert!(matches!(owned_by(task, "nowhere"), Err(CustomError::NotFound(_))));
}

#[test]
fn the_store_itself_has_no_subscriptions() {
    assert_eq!(
        subscribe_on_board_updates().to_string(),
        "Internal error: Subscription isn't implemented for mongo"
    );
}
