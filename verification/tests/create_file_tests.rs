use lockbook_workspace::create_file::{
    index_error_response, CreateFileAction, CreateFileError, CreateFileEvent, CreateFileHandler,
    CreateFileRequest, CreateFileResponse, CreateFileStage, FileLookup, IndexInsertError,
};

fn request() -> CreateFileRequest {
    CreateFileRequest {
        file_id: "f-1".to_string(),
        username: "alice".to_string(),
        file_name: "notes.svg".to_string(),
        file_path: "alice/notes.svg".to_string(),
        file_content: "<svg/>".to_string(),
    }
}

struct Answers {
    transaction_ok: bool,
    lookup: FileLookup,
    index: Result<i64, IndexInsertError>,
    content_ok: bool,
    commit_ok: bool,
}

fn all_well(version: i64) -> Answers {
    Answers {
        transaction_ok: true,
        lookup: FileLookup::NoSuchFile,
        index: Ok(version),
        content_ok: true,
        commit_ok: true,
    }
}

fn drive(a: &Answers) -> Vec<CreateFileAction> {
    let (mut handler, first) = CreateFileHandler::begin(request());
    let mut actions = vec![first];
    while !handler.is_finished() {
        let event = match handler.stage {
            CreateFileStage::BeginningTransaction => CreateFileEvent::TransactionBegun { ok: a.transaction_ok },
            CreateFileStage::LookingUpFile => CreateFileEvent::FileLookedUp(a.lookup),
            CreateFileStage::CreatingIndexEntry => CreateFileEvent::IndexEntryCreated(a.index),
            CreateFileStage::StoringContent { .. } => CreateFileEvent::ContentStored { ok: a.content_ok },
            CreateFileStage::Committing { .. } => CreateFileEvent::Committed { ok: a.commit_ok },
            CreateFileStage::Finished => unreachable!(),
        };
        assert!(handler.accepts(&event));
        actions.push(handler.step(event));
        assert!(actions.len() <= 6);
    }
    actions
}

fn last_result(actions: &[CreateFileAction]) -> Result<CreateFileResponse, CreateFileError> {
    match actions.last() {
        Some(CreateFileAction::Respond(r)) => *r,
        other => panic!("no answer at the end: {:?}", other),
    }
}

#[test]
fn successful_creation_walks_every_step() {
    let actions = drive(&all_well(42));
    assert_eq!(
        actions,
        vec![
            CreateFileAction::BeginTransaction,
            CreateFileAction::LookUpFile { file_id: "f-1".to_string() },
            CreateFileAction::CreateIndexEntry {
                file_id: "f-1".to_string(),
                username: "alice".to_string(),
                file_name: "notes.svg".to_string(),
                file_path: "alice/notes.svg".to_string(),
            },
            CreateFileAction::StoreContent {
                file_id: "f-1".to_string(),
                file_content: "<svg/>".to_string(),
                version: 42,
            },
            CreateFileAction::Commit,
            CreateFileAction::Respond(Ok(CreateFileResponse { current_metadata_and_content_version: 42 })),
        ]
    );
}

#[test]
fn failed_transaction_is_internal_error() {
    let mut a = all_well(1);
    a.transaction_ok = false;
    let actions = drive(&a);
    assert_eq!(actions.len(), 2);
    assert_eq!(last_result(&actions), Err(CreateFileError::InternalError));
}

#[test]
fn existing_file_id_is_taken() {
    let mut a = all_well(1);
    a.lookup = FileLookup::Found;
    let actions = drive(&a);
    assert_eq!(actions.len(), 3);
    assert_eq!(last_result(&actions), Err(CreateFileError::FileIdTaken));
    assert!(!actions.iter().any(|x| matches!(x, CreateFileAction::CreateIndexEntry { .. })));
}

#[test]
fn failed_lookup_is_internal_error() {
    let mut a = all_well(1);
    a.lookup = FileLookup::Failed;
    assert_eq!(last_result(&drive(&a)), Err(CreateFileError::InternalError));
}

#[test]
fn index_refusals_map_to_client_errors() {
    let cases = [
        (IndexInsertError::FileIdTaken, CreateFileError::FileIdTaken),
        (IndexInsertError::FilePathTaken, CreateFileError::FilePathTaken),
        (IndexInsertError::Uninterpreted, CreateFileError::InternalError),
        (IndexInsertError::VersionGeneration, CreateFileError::InternalError),
    ];
    for (refusal, expected) in cases {
        let mut a = all_well(1);
        a.index = Err(refusal);
        let actions = drive(&a);
        assert_eq!(actions.len(), 4);
        assert_eq!(last_result(&actions), Err(expected));
        assert_eq!(index_error_response(refusal), expected);
    }
}

#[test]
fn failed_content_store_is_internal_error_without_commit() {
    let mut a = all_well(9);
    a.content_ok = false;
    let actions = drive(&a);
    assert_eq!(last_result(&actions), Err(CreateFileError::InternalError));
    assert!(!actions.contains(&CreateFileAction::Commit));
    assert!(actions.contains(&CreateFileAction::StoreContent {
        file_id: "f-1".to_string(),
        file_content: "<svg/>".to_string(),
        version: 9,
    }));
}

#[test]
fn failed_commit_is_internal_error() {
    let mut a = all_well(9);
    a.commit_ok = false;
    let actions = drive(&a);
    assert_eq!(actions.len(), 6);
    assert_eq!(last_result(&actions), Err(CreateFileError::InternalError));
}

#[test]
fn negative_index_version_is_cast_to_unsigned() {
    let actions = drive(&all_well(-1));
    assert!(matches!(actions[3], CreateFileAction::StoreContent { version: u64::MAX, .. }));
    assert_eq!(
        last_result(&actions),
        Ok(CreateFileResponse { current_metadata_and_content_version: u64::MAX })
    );
}

#[test]
fn handler_accepts_only_the_awaited_answer() {
    let (mut handler, _) = CreateFileHandler::begin(request());
    assert!(!handler.accepts(&CreateFileEvent::Committed { ok: true }));
    assert!(handler.accepts(&CreateFileEvent::TransactionBegun { ok: true }));
    handler.step(CreateFileEvent::TransactionBegun { ok: true });
    assert!(!handler.accepts(&CreateFileEvent::TransactionBegun { ok: true }));
    assert!(handler.accepts(&CreateFileEvent::FileLookedUp(FileLookup::NoSuchFile)));
    assert_eq!(handler.stage, CreateFileStage::LookingUpFile);
    assert_eq!(handler.request, request());
}

#[test]
fn exactly_one_answer_per_request() {
    for transaction_ok in [false, true] {
        for lookup in [FileLookup::Found, FileLookup::NoSuchFile, FileLookup::Failed] {
            for index in [Ok(3), Err(IndexInsertError::FilePathTaken)] {
                for content_ok in [false, true] {
                    for commit_ok in [false, true] {
                        let a = Answers { transaction_ok, lookup, index, content_ok, commit_ok };
                        let actions = drive(&a);
                        let answers = actions
                            .iter()
                            .filter(|x| matches!(x, CreateFileAction::Respond(_)))
                            .count();
                        assert_eq!(answers, 1);
                        assert!(matches!(actions.last(), Some(CreateFileAction::Respond(_))));
                        let ok = transaction_ok && lookup == FileLookup::NoSuchFile
                            && index.is_ok() && content_ok && commit_ok;
                        assert_eq!(last_result(&actions).is_ok(), ok);
                        let committed = actions.contains(&CreateFileAction::Commit);
                        assert_eq!(committed, transaction_ok && lookup == FileLookup::NoSuchFile
                            && index.is_ok() && content_ok);
                    }
                }
            }
        }
    }
}
