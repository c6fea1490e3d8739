//! Creating a file on the server: the decisions of the request handler.
//!
//! The handler talks to two stores in turn: it opens a transaction on the
//! index, looks the new id up in the file store, records the file in the
//! index (which hands out its version), stores the content under that
//! version and commits. Each answer of a store decides what happens next.
//! `CreateFileHandler` holds where the conversation stands; its host performs
//! each requested action and feeds the answer back as an event.

use vstd::prelude::*;

verus! {

/// A client's request to create a file.
#[derive(Debug, PartialEq, Eq)]
pub struct CreateFileRequest {
    pub file_id: String,
    pub username: String,
    pub file_name: String,
    pub file_path: String,
    pub file_content: String,
}

/// The reply to a successful creation.
#[derive(Clone, Copy, Debug, PartialEq, Eq, Structural)]
pub struct CreateFileResponse {
    /// Version under which both the metadata and the content were stored.
    pub current_metadata_and_content_version: u64,
}

/// Why a creation was refused.
#[derive(Clone, Copy, Debug, PartialEq, Eq, Structural)]
pub enum CreateFileError {
    InternalError,
    FileIdTaken,
    FilePathTaken,
}

/// The file store's answer to a lookup of the new file's id.
#[derive(Clone, Copy, Debug, PartialEq, Eq, Structural)]
pub enum FileLookup {
    /// A file with this id is stored already.
    Found,
    /// No file has this id.
    NoSuchFile,
    /// The lookup itself failed.
    Failed,
}

/// Why the index refused to record the new file.
#[derive(Clone, Copy, Debug, PartialEq, Eq, Structural)]
pub enum IndexInsertError {
    FileIdTaken,
    FilePathTaken,
    Uninterpreted,
    VersionGeneration,
}

/// An answer of one of the stores to the action the handler asked for.
#[derive(Clone, Copy, Debug, PartialEq, Eq)]
pub enum CreateFileEvent {
    TransactionBegun { ok: bool },
    FileLookedUp(FileLookup),
    /// The index recorded the file under the given version, or refused.
    IndexEntryCreated(Result<i64, IndexInsertError>),
    ContentStored { ok: bool },
    Committed { ok: bool },
}

/// Where the conversation with the stores stands.
#[derive(Clone, Copy, Debug, PartialEq, Eq, Structural)]
pub enum CreateFileStage {
    BeginningTransaction,
    LookingUpFile,
    CreatingIndexEntry,
    StoringContent { version: u64 },
    Committing { version: u64 },
    Finished,
}

/// What the host is to do next.
#[derive(Debug, PartialEq, Eq)]
pub enum CreateFileAction {
    BeginTransaction,
    /// Look `file_id` up in the file store.
    LookUpFile { file_id: String },
    /// Record the file in the index, inside the transaction.
    CreateIndexEntry { file_id: String, username: String, file_name: String, file_path: String },
    /// Store `file_content` in the file store as `file_id` under `version`.
    StoreContent { file_id: String, file_content: String, version: u64 },
    Commit,
    /// Answer the client; the transaction, if still open, is dropped uncommitted.
    Respond(Result<CreateFileResponse, CreateFileError>),
}

/// The client's error for a refusal of the index.
pub open spec fn spec_index_error(e: IndexInsertError) -> CreateFileError {
    match e {
        IndexInsertError::FileIdTaken => CreateFileError::FileIdTaken,
        IndexInsertError::FilePathTaken => CreateFileError::FilePathTaken,
        IndexInsertError::Uninterpreted => CreateFileError::InternalError,
        IndexInsertError::VersionGeneration => CreateFileError::InternalError,
    }
}

/// The event that the host may feed in the given stage.
pub open spec fn spec_accepts(stage: CreateFileStage, event: CreateFileEvent) -> bool {
    match stage {
        CreateFileStage::BeginningTransaction => event is TransactionBegun,
        CreateFileStage::LookingUpFile => event is FileLookedUp,
        CreateFileStage::CreatingIndexEntry => event is IndexEntryCreated,
        CreateFileStage::StoringContent { .. } => event is ContentStored,
        CreateFileStage::Committing { .. } => event is Committed,
        CreateFileStage::Finished => false,
    }
}

/// Ending the conversation with an error.
pub open spec fn spec_fail(error: CreateFileError) -> (CreateFileStage, CreateFileAction) {
    (CreateFileStage::Finished, CreateFileAction::Respond(Err(error)))
}

/// The next stage and action, given an accepted event.
pub open spec fn spec_next(
    stage: CreateFileStage,
    request: CreateFileRequest,
    event: CreateFileEvent,
) -> (
    CreateFileStage,
    CreateFileAction,
)
    recommends
        spec_accepts(stage, event),
{
    match event {
        CreateFileEvent::TransactionBegun { ok } => if ok {
            (
                CreateFileStage::LookingUpFile,
                CreateFileAction::LookUpFile { file_id: request.file_id },
            )
        } else {
            spec_fail(CreateFileError::InternalError)
        },
        CreateFileEvent::FileLookedUp(lookup) => match lookup {
            FileLookup::NoSuchFile => (
                CreateFileStage::CreatingIndexEntry,
                CreateFileAction::CreateIndexEntry {
                    file_id: request.file_id,
                    username: request.username,
                    file_name: request.file_name,
                    file_path: request.file_path,
                },
            ),
            FileLookup::Found => spec_fail(CreateFileError::FileIdTaken),
            FileLookup::Failed => spec_fail(CreateFileError::InternalError),
        },
        CreateFileEvent::IndexEntryCreated(created) => match created {
            Ok(v) => (
                CreateFileStage::StoringContent { version: v as u64 },
                CreateFileAction::StoreContent {
                    file_id: request.file_id,
                    file_content: request.file_content,
                    version: v as u64,
                },
            ),
            Err(e) => spec_fail(spec_index_error(e)),
        },
        CreateFileEvent::ContentStored { ok } => if ok {
            (CreateFileStage::Committing { version: stage->StoringContent_version }, CreateFileAction::Commit)
        } else {
            spec_fail(CreateFileError::InternalError)
        },
        CreateFileEvent::Committed { ok } => if ok {
            (
                CreateFileStage::Finished,
                CreateFileAction::Respond(
                    Ok(
                        CreateFileResponse {
                            current_metadata_and_content_version: stage->Committing_version,
                        },
                    ),
                ),
            )
        } else {
            spec_fail(CreateFileError::InternalError)
        },
    }
}

/// The client's error for a refusal of the index.
pub fn index_error_response(e: IndexInsertError) -> (error: CreateFileError)
    ensures
        error == spec_index_error(e),
{
    match e {
        IndexInsertError::FileIdTaken => CreateFileError::FileIdTaken,
        IndexInsertError::FilePathTaken => CreateFileError::FilePathTaken,
        IndexInsertError::Uninterpreted => CreateFileError::InternalError,
        IndexInsertError::VersionGeneration => CreateFileError::InternalError,
    }
}

/// The conversation of one create-file request with the stores.
#[derive(Debug)]
pub struct CreateFileHandler {
    pub stage: CreateFileStage,
    /// The request being handled; it supplies what each store is handed.
    pub request: CreateFileRequest,
}

impl CreateFileHandler {
    /// Starts handling a request: the first thing to do is to open a transaction.
    pub fn begin(request: CreateFileRequest) -> (started: (CreateFileHandler, CreateFileAction))
        ensures
            started.0.stage == CreateFileStage::BeginningTransaction,
            started.0.request == request,
            started.1 == CreateFileAction::BeginTransaction,
    {
        (
            CreateFileHandler { stage: CreateFileStage::BeginningTransaction, request },
            CreateFileAction::BeginTransaction,
        )
    }

    /// The answer has been given to the client.
    pub fn is_finished(&self) -> (finished: bool)
        ensures
            finished == (self.stage == CreateFileStage::Finished),
    {
        match self.stage {
            CreateFileStage::Finished => true,
            _ => false,
        }
    }

    /// `event` answers the action that this stage asked for.
    pub fn accepts(&self, event: &CreateFileEvent) -> (accepted: bool)
        ensures
            accepted == spec_accepts(self.stage, *event),
            self.stage == CreateFileStage::Finished ==> !accepted,
            self.stage == CreateFileStage::BeginningTransaction ==> (accepted <==> (*event) is TransactionBegun),
            self.stage == CreateFileStage::LookingUpFile ==> (accepted <==> (*event) is FileLookedUp),
            self.stage == CreateFileStage::CreatingIndexEntry ==> (accepted <==> (*event) is IndexEntryCreated),
            self.stage is StoringContent ==> (accepted <==> (*event) is ContentStored),
            self.stage is Committing ==> (accepted <==> (*event) is Committed),
    {
        match self.stage {
            CreateFileStage::BeginningTransaction => matches!(event, CreateFileEvent::TransactionBegun { .. }),
            CreateFileStage::LookingUpFile => matches!(event, CreateFileEvent::FileLookedUp(_)),
            CreateFileStage::CreatingIndexEntry => matches!(event, CreateFileEvent::IndexEntryCreated(_)),
            CreateFileStage::StoringContent { .. } => matches!(event, CreateFileEvent::ContentStored { .. }),
            CreateFileStage::Committing { .. } => matches!(event, CreateFileEvent::Committed { .. }),
            CreateFileStage::Finished => false,
        }
    }

    /// Takes in the answer to the last action and says what to do next.
    pub fn step(&mut self, event: CreateFileEvent) -> (action: CreateFileAction)
        requires
            spec_accepts(old(self).stage, event),
        ensures
            (final(self).stage, action) == spec_next(old(self).stage, old(self).request, event),
            final(self).request == old(self).request,
            event == (CreateFileEvent::TransactionBegun { ok: true }) ==> final(self).stage
                == CreateFileStage::LookingUpFile && action == (CreateFileAction::LookUpFile {
                file_id: old(self).request.file_id,
            }),
            event == (CreateFileEvent::FileLookedUp(FileLookup::NoSuchFile)) ==> final(self).stage
                == CreateFileStage::CreatingIndexEntry && action == (CreateFileAction::CreateIndexEntry {
                file_id: old(self).request.file_id,
                username: old(self).request.username,
                file_name: old(self).request.file_name,
                file_path: old(self).request.file_path,
            }),
            event matches CreateFileEvent::IndexEntryCreated(Ok(v)) ==> final(self).stage == (
            CreateFileStage::StoringContent { version: v as u64 }) && action == (
            CreateFileAction::StoreContent {
                file_id: old(self).request.file_id,
                file_content: old(self).request.file_content,
                version: v as u64,
            }),
            old(self).stage matches CreateFileStage::StoringContent { version } ==> event == (
            CreateFileEvent::ContentStored { ok: true }) ==> final(self).stage == (
            CreateFileStage::Committing { version }) && action == CreateFileAction::Commit,
            old(self).stage matches CreateFileStage::Committing { version } ==> event == (
            CreateFileEvent::Committed { ok: true }) ==> final(self).stage == CreateFileStage::Finished
                && action == CreateFileAction::Respond(
                Ok(CreateFileResponse { current_metadata_and_content_version: version }),
            ),
            event == (CreateFileEvent::FileLookedUp(FileLookup::Found)) ==> final(self).stage
                == CreateFileStage::Finished && action == CreateFileAction::Respond(
                Err(CreateFileError::FileIdTaken),
            ),
            event == (CreateFileEvent::IndexEntryCreated(Err(IndexInsertError::FileIdTaken)))
                ==> action == CreateFileAction::Respond(Err(CreateFileError::FileIdTaken)),
            event == (CreateFileEvent::IndexEntryCreated(Err(IndexInsertError::FilePathTaken)))
                ==> action == CreateFileAction::Respond(Err(CreateFileError::FilePathTaken)),
            (event == (CreateFileEvent::TransactionBegun { ok: false }) || event == (
            CreateFileEvent::FileLookedUp(FileLookup::Failed)) || event == (
            CreateFileEvent::IndexEntryCreated(Err(IndexInsertError::Uninterpreted))) || event == (
            CreateFileEvent::IndexEntryCreated(Err(IndexInsertError::VersionGeneration))) || event
                == (CreateFileEvent::ContentStored { ok: false }) || event == (
            CreateFileEvent::Committed { ok: false })) ==> final(self).stage == CreateFileStage::Finished
                && action == CreateFileAction::Respond(Err(CreateFileError::InternalError)),
    {
        let (stage, action) = match event {
            CreateFileEvent::TransactionBegun { ok } => if ok {
                (
                    CreateFileStage::LookingUpFile,
                    CreateFileAction::LookUpFile { file_id: self.request.file_id.clone() },
                )
            } else {
                (CreateFileStage::Finished, CreateFileAction::Respond(Err(CreateFileError::InternalError)))
            },
            CreateFileEvent::FileLookedUp(lookup) => match lookup {
                FileLookup::NoSuchFile => (
                    CreateFileStage::CreatingIndexEntry,
                    CreateFileAction::CreateIndexEntry {
                        file_id: self.request.file_id.clone(),
                        username: self.request.username.clone(),
                        file_name: self.request.file_name.clone(),
                        file_path: self.request.file_path.clone(),
                    },
                ),
                FileLookup::Found => (
                    CreateFileStage::Finished,
                    CreateFileAction::Respond(Err(CreateFileError::FileIdTaken)),
                ),
                FileLookup::Failed => (
                    CreateFileStage::Finished,
                    CreateFileAction::Respond(Err(CreateFileError::InternalError)),
                ),
            },
            CreateFileEvent::IndexEntryCreated(created) => match created {
                Ok(v) => {
                    let version: u64 = v as u64;
                    (
                        CreateFileStage::StoringContent { version },
                        CreateFileAction::StoreContent {
                            file_id: self.request.file_id.clone(),
                            file_content: self.request.file_content.clone(),
                            version,
                        },
                    )
                },
                Err(e) => (
                    CreateFileStage::Finished,
                    CreateFileAction::Respond(Err(index_error_response(e))),
                ),
            },
            CreateFileEvent::ContentStored { ok } => {
                let version: u64 = match self.stage {
                    CreateFileStage::StoringContent { version } => version,
                    _ => 0,
                };
                if ok {
                    (CreateFileStage::Committing { version }, CreateFileAction::Commit)
                } else {
                    (
                        CreateFileStage::Finished,
                        CreateFileAction::Respond(Err(CreateFileError::InternalError)),
                    )
                }
            },
            CreateFileEvent::Committed { ok } => {
                let version: u64 = match self.stage {
                    CreateFileStage::Committing { version } => version,
                    _ => 0,
                };
                if ok {
                    (
                        CreateFileStage::Finished,
                        CreateFileAction::Respond(
                            Ok(CreateFileResponse { current_metadata_and_content_version: version }),
                        ),
                    )
                } else {
                    (
                        CreateFileStage::Finished,
                        CreateFileAction::Respond(Err(CreateFileError::InternalError)),
                    )
                }
            },
        };
        self.stage = stage;
        action
    }
}

/// What each store answers when asked, for one run of the handler.
pub struct StoreAnswers {
    pub transaction_ok: bool,
    pub lookup: FileLookup,
    pub index: Result<i64, IndexInsertError>,
    pub content_ok: bool,
    pub commit_ok: bool,
}

/// The answer a client gets, given what the stores answer.
pub open spec fn expected_result(a: StoreAnswers) -> Result<CreateFileResponse, CreateFileError> {
    if !a.transaction_ok {
        Err(CreateFileError::InternalError)
    } else {
        match a.lookup {
            FileLookup::Found => Err(CreateFileError::FileIdTaken),
            FileLookup::Failed => Err(CreateFileError::InternalError),
            FileLookup::NoSuchFile => match a.index {
                Err(e) => Err(spec_index_error(e)),
                Ok(v) => if a.content_ok && a.commit_ok {
                    Ok(CreateFileResponse { current_metadata_and_content_version: v as u64 })
                } else {
                    Err(CreateFileError::InternalError)
                },
            },
        }
    }
}

/// The event the stores send in a stage, given their answers.
pub open spec fn answer_in(stage: CreateFileStage, a: StoreAnswers) -> CreateFileEvent {
    match stage {
        CreateFileStage::BeginningTransaction => CreateFileEvent::TransactionBegun { ok: a.transaction_ok },
        CreateFileStage::LookingUpFile => CreateFileEvent::FileLookedUp(a.lookup),
        CreateFileStage::CreatingIndexEntry => CreateFileEvent::IndexEntryCreated(a.index),
        CreateFileStage::StoringContent { .. } => CreateFileEvent::ContentStored { ok: a.content_ok },
        CreateFileStage::Committing { .. } => CreateFileEvent::Committed { ok: a.commit_ok },
        CreateFileStage::Finished => CreateFileEvent::TransactionBegun { ok: false },
    }
}

/// The actions the handler asks for from `stage` on, at most `fuel` of them.
pub open spec fn actions_from(
    stage: CreateFileStage,
    request: CreateFileRequest,
    a: StoreAnswers,
    fuel: nat,
) -> Seq<
    CreateFileAction,
>
    decreases fuel,
{
    if fuel == 0 || stage == CreateFileStage::Finished {
        Seq::empty()
    } else {
        let (next_stage, action) = spec_next(stage, request, answer_in(stage, a));
        seq![action] + actions_from(next_stage, request, a, (fuel - 1) as nat)
    }
}

/// Every action the handler asks for in one run, when the stores answer `a`.
pub open spec fn conversation(request: CreateFileRequest, a: StoreAnswers) -> Seq<CreateFileAction> {
    seq![CreateFileAction::BeginTransaction] + actions_from(
        CreateFileStage::BeginningTransaction,
        request,
        a,
        5,
    )
}

/// The stage the handler is in after at most `fuel` answers.
pub open spec fn stage_after(
    stage: CreateFileStage,
    request: CreateFileRequest,
    a: StoreAnswers,
    fuel: nat,
) -> CreateFileStage
    decreases fuel,
{
    if fuel == 0 || stage == CreateFileStage::Finished {
        stage
    } else {
        stage_after(spec_next(stage, request, answer_in(stage, a)).0, request, a, (fuel - 1) as nat)
    }
}

/// Law: whatever the stores answer, the handler only ever asks for an action
/// that fits its stage, ends within five answers, answers the client exactly
/// once, as its last action, and that answer is the one the request calls for.
pub proof fn lemma_conversation_answers_once(request: CreateFileRequest, a: StoreAnswers)
    ensures
        stage_after(CreateFileStage::BeginningTransaction, request, a, 5) == CreateFileStage::Finished,
        conversation(request, a).len() >= 2,
        conversation(request, a).last() == CreateFileAction::Respond(expected_result(a)),
        forall|i: int|
            0 <= i < conversation(request, a).len() - 1 ==> !(#[trigger] conversation(request, a)[i] is Respond),
{
    reveal_with_fuel(actions_from, 6);
    reveal_with_fuel(stage_after, 6);
}

/// Law: the handler commits exactly when the transaction opened, the id was
/// free, the index recorded the file and the content was stored.
pub proof fn lemma_commit_only_after_both_writes(request: CreateFileRequest, a: StoreAnswers)
    ensures
        conversation(request, a).contains(CreateFileAction::Commit) <==> (a.transaction_ok && a.lookup
            == FileLookup::NoSuchFile && a.index is Ok && a.content_ok),
{
    reveal_with_fuel(actions_from, 6);
    let c = conversation(request, a);
    if a.transaction_ok && a.lookup == FileLookup::NoSuchFile && a.index is Ok && a.content_ok {
        assert(c[4] == CreateFileAction::Commit);
    }
}

/// Law: the content is stored only after the index recorded the file and
/// under the version the index handed out; nothing is written to the index
/// unless the id was free in the file store.
pub proof fn lemma_writes_follow_checks(request: CreateFileRequest, a: StoreAnswers)
    ensures
        forall|i: int|
            0 <= i < conversation(request, a).len() && (#[trigger] conversation(request, a)[i]) is StoreContent
                ==> a.index is Ok && conversation(request, a)[i]->version == a.index->Ok_0 as u64,
        forall|i: int|
            0 <= i < conversation(request, a).len() && (#[trigger] conversation(request, a)[i]) is CreateIndexEntry
                ==> a.transaction_ok && a.lookup == FileLookup::NoSuchFile,
{
    reveal_with_fuel(actions_from, 6);
}

/// Law: once the index has recorded the file, the handler always asks the file
/// store to store the request's content under the index's version, and commits
/// right after the content is stored.
pub proof fn lemma_content_stored_after_index(request: CreateFileRequest, a: StoreAnswers)
    requires
        a.transaction_ok,
        a.lookup == FileLookup::NoSuchFile,
        a.index is Ok,
    ensures
        conversation(request, a).len() >= 5,
        conversation(request, a)[3] == (CreateFileAction::StoreContent {
            file_id: request.file_id,
            file_content: request.file_content,
            version: a.index->Ok_0 as u64,
        }),
        a.content_ok ==> conversation(request, a)[4] == CreateFileAction::Commit,
{
    reveal_with_fuel(actions_from, 6);
}

/// Law: a handler that has answered the client takes no further answer, and in
/// every other stage it takes exactly the answer to the action it asked for.
pub proof fn lemma_accepts_only_awaited_answer(stage: CreateFileStage, event: CreateFileEvent)
    ensures
        stage == CreateFileStage::Finished ==> !spec_accepts(stage, event),
        spec_accepts(stage, event) ==> match stage {
            CreateFileStage::BeginningTransaction => event is TransactionBegun,
            CreateFileStage::LookingUpFile => event is FileLookedUp,
            CreateFileStage::CreatingIndexEntry => event is IndexEntryCreated,
            CreateFileStage::StoringContent { .. } => event is ContentStored,
            CreateFileStage::Committing { .. } => event is Committed,
            CreateFileStage::Finished => false,
        },
{
}

/// Law: each store is handed the request's own data: the lookup its id, the
/// index its id, owner, name and path, and the file store its id and content.
pub proof fn lemma_actions_carry_request(request: CreateFileRequest, a: StoreAnswers)
    ensures
        forall|i: int|
            0 <= i < conversation(request, a).len() && (#[trigger] conversation(request, a)[i]) is LookUpFile
                ==> conversation(request, a)[i]->LookUpFile_file_id == request.file_id,
        forall|i: int|
            0 <= i < conversation(request, a).len() && (#[trigger] conversation(request, a)[i]) is CreateIndexEntry
                ==> {
                let action = conversation(request, a)[i];
                &&& action->CreateIndexEntry_file_id == request.file_id
                &&& action->username == request.username
                &&& action->file_name == request.file_name
                &&& action->file_path == request.file_path
            },
        forall|i: int|
            0 <= i < conversation(request, a).len() && (#[trigger] conversation(request, a)[i]) is StoreContent
                ==> conversation(request, a)[i]->StoreContent_file_id == request.file_id
                && conversation(request, a)[i]->file_content == request.file_content,
{
    reveal_with_fuel(actions_from, 6);
}

/// Law: a creation succeeds exactly when every store answered well, and then
/// the client learns the version the index handed out; an id found in the file
/// store or refused by the index as taken is reported as taken, a path refused
/// as taken is reported as such, and every other failure is internal.
pub proof fn lemma_result_by_answers(a: StoreAnswers)
    ensures
        expected_result(a) is Ok <==> (a.transaction_ok && a.lookup == FileLookup::NoSuchFile
            && a.index is Ok && a.content_ok && a.commit_ok),
        expected_result(a) is Ok ==> expected_result(a)->Ok_0.current_metadata_and_content_version
            == a.index->Ok_0 as u64,
        expected_result(a) == Err::<CreateFileResponse, CreateFileError>(
            CreateFileError::FileIdTaken,
        ) <==> a.transaction_ok && (a.lookup == FileLookup::Found || (a.lookup
            == FileLookup::NoSuchFile && a.index == Err::<i64, IndexInsertError>(
            IndexInsertError::FileIdTaken,
        ))),
        expected_result(a) == Err::<CreateFileResponse, CreateFileError>(
            CreateFileError::FilePathTaken,
        ) <==> a.transaction_ok && a.lookup == FileLookup::NoSuchFile && a.index == Err::<
            i64,
            IndexInsertError,
        >(IndexInsertError::FilePathTaken),
{
}

} // verus!
