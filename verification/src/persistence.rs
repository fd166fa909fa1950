//! The decisions of the local store: what a new workspace or board is, which
//! stored board a request may read, what a save writes, and where each
//! record lives below the store's root.
use vstd::prelude::*;
use std::path::PathBuf;
use vstd::string::StringExecFns;
use crate::domain::{Board, BoardSummary, WorkspaceIndex, WorkspaceSummary, BOARD_SCHEMA_VERSION};
use crate::error::StoreError;
use crate::index::{applied, has_workspace, is_first_with_id, WorkspaceUpdate};
use crate::laws::law_generated_ids_are_valid;
use crate::recency::{is_recency_order_of, sort_newest_first};
use crate::text::{chars_of, is_id_symbol, same_text};
use crate::validation::{board_verdict, id_is_valid, valid_id, validate_board};

verus! {

/// `std::path::PathBuf`, held opaque: the store carries its root directory
/// and never looks inside it.
#[verifier::external_type_specification]
#[verifier::external_body]
pub struct ExPathBuf(PathBuf);

/// The number of symbols of the identifiers the store gives new records.
pub const GENERATED_ID_LEN: usize = 21;

/// An identifier such as the store gives new records: 21 symbols, each an
/// ASCII letter or digit, `-` or `_`.
pub open spec fn is_generated_id(id: Seq<char>) -> bool {
    &&& id.len() == GENERATED_ID_LEN
    &&& forall|i: int| 0 <= i < id.len() ==> is_id_symbol(#[trigger] id[i])
}

/// Calls `nanoid::format` with the crate's default random source
/// (`nanoid::rngs::default`), its `SAFE` alphabet and `size`, as `nanoid!`
/// does. As the crate's source shows, `format` pushes only symbols of the
/// alphabet it is given and returns once the text holds `size` bytes; the
/// `SAFE` alphabet holds `_`, `-`, the ASCII digits and the ASCII letters,
/// each one byte long, so the text holds `size` of them. Which symbols come
/// out rests on chance and is not stated. With a `size` of 0 `format` never
/// returns, and `8 * size` must not overflow. The random source panics when
/// the operating system gives no entropy; that is not an input and is not
/// stated.
#[verifier::external_body]
fn random_id(size: usize) -> (id: String)
    requires
        0 < size <= usize::MAX / 8,
    ensures
        id@.len() == size,
        forall|i: int| 0 <= i < id@.len() ==> is_id_symbol(#[trigger] id@[i]),
{
    nanoid::format(nanoid::rngs::default, &nanoid::alphabet::SAFE, size)
}

/// A fresh identifier for a new workspace or board.
pub fn generate_id() -> (id: String)
    ensures
        is_generated_id(id@),
{
    random_id(GENERATED_ID_LEN)
}

/// A place in the store: the names of the directories, and last of the file,
/// that lead to it from the store's root.
#[derive(Debug, Clone)]
pub struct StoragePath {
    pub segments: Vec<String>,
}

impl StoragePath {
    /// The names that lead to the place, as texts.
    pub open spec fn names(self) -> Seq<Seq<char>> {
        self.segments@.map_values(|segment: String| segment@)
    }
}

/// Where the board `board_id` of the workspace `workspace_id` lives.
pub open spec fn board_location(workspace_id: Seq<char>, board_id: Seq<char>) -> Seq<Seq<char>> {
    seq![workspace_id, "boards"@, board_id + ".json"@]
}

/// What opening a stored board for `workspace_id` and `board_id` gives.
pub open spec fn opened(board: Board, workspace_id: Seq<char>, board_id: Seq<char>) -> Result<
    Board,
    StoreError,
> {
    if board.workspace_id@ == workspace_id && board.id@ == board_id {
        Ok(board)
    } else {
        Err(StoreError::BoardNotInWorkspace)
    }
}

/// What deciding to open the board `board_id` of `workspace_id` gives,
/// before anything is read: the workspace must be in the index, then both
/// identifiers must be valid.
pub open spec fn open_verdict(
    workspaces: Seq<WorkspaceSummary>,
    workspace_id: Seq<char>,
    board_id: Seq<char>,
) -> Result<(), StoreError> {
    if !has_workspace(workspaces, workspace_id) {
        Err(StoreError::WorkspaceNotFound)
    } else if !(id_is_valid(workspace_id) && id_is_valid(board_id)) {
        Err(StoreError::InvalidId)
    } else {
        Ok(())
    }
}

/// What opening the board `board_id` of `workspace_id` gives, once `board`
/// is what the store holds at its place.
pub open spec fn opening(
    workspaces: Seq<WorkspaceSummary>,
    board: Board,
    workspace_id: Seq<char>,
    board_id: Seq<char>,
) -> Result<Board, StoreError> {
    match open_verdict(workspaces, workspace_id, board_id) {
        Err(e) => Err(e),
        Ok(()) => opened(board, workspace_id, board_id),
    }
}

/// What saving `board` at `now` gives, with `workspaces` in the index.
pub open spec fn saved(workspaces: Seq<WorkspaceSummary>, board: Board, now: u64) -> Result<
    Board,
    StoreError,
> {
    if !has_workspace(workspaces, board.workspace_id@) {
        Err(StoreError::WorkspaceNotFound)
    } else if board_verdict(board) is Err {
        Err(board_verdict(board)->Err_0)
    } else {
        Ok(Board { updated_at: now, ..board })
    }
}

/// A file name whose extension, as `Path::extension` reads it, is `json`:
/// the name ends with `.json` and something stands before that dot.
pub open spec fn is_board_file_name(name: Seq<char>) -> bool {
    name.len() > 5 && name.subrange(name.len() - 5, name.len() as int) == ".json"@
}

/// Whether a file found in a board directory is a stored board, by its name.
pub fn board_file_name(name: &str) -> (r: bool)
    ensures
        r == is_board_file_name(name@),
{
    let chars = chars_of(name);
    let n: usize = chars.len();
    if n <= 5 {
        return false;
    }
    let r = chars[n - 5] == '.' && chars[n - 4] == 'j' && chars[n - 3] == 's' && chars[n - 2] == 'o'
        && chars[n - 1] == 'n';
    proof {
        reveal_strlit(".json");
        let tail = name@.subrange(n - 5, n as int);
        assert(".json"@ =~= seq!['.', 'j', 's', 'o', 'n']);
        if r {
            assert(tail =~= ".json"@);
        } else if tail == ".json"@ {
            assert(tail[0] == name@[n - 5]);
            assert(tail[1] == name@[n - 4]);
            assert(tail[2] == name@[n - 3]);
            assert(tail[3] == name@[n - 2]);
            assert(tail[4] == name@[n - 1]);
        }
    }
    r
}

/// The store kept below one root directory.
#[derive(Debug)]
pub struct Persistence {
    root: PathBuf,
}

impl Persistence {
    /// The directory that holds the store.
    pub closed spec fn root_dir(&self) -> PathBuf {
        self.root
    }

    /// The store kept below `root`.
    pub fn new(root: PathBuf) -> (r: Persistence)
        ensures
            r.root_dir() == root,
    {
        Persistence { root }
    }

    /// The directory that holds the store.
    pub fn root(&self) -> (r: &PathBuf)
        ensures
            *r == self.root_dir(),
    {
        &self.root
    }

    /// Where the workspace index lives: `index.json` in the root.
    pub fn index_path(&self) -> (r: StoragePath)
        ensures
            r.names() == seq!["index.json"@],
    {
        let mut segments: Vec<String> = Vec::new();
        segments.push("index.json".to_owned());
        let r = StoragePath { segments };
        assert(r.names() =~= seq!["index.json"@]);
        r
    }

    /// Where the boards of a workspace live: `<workspace_id>/boards`.
    pub fn board_directory(&self, workspace_id: &str) -> (r: StoragePath)
        ensures
            r.names() == seq![workspace_id@, "boards"@],
            r.segments@.len() == 2,
            r.segments@[0]@ == workspace_id@,
            r.segments@[1]@ == "boards"@,
    {
        let mut segments: Vec<String> = Vec::new();
        segments.push(workspace_id.to_owned());
        segments.push("boards".to_owned());
        let r = StoragePath { segments };
        assert(r.names() =~= seq![workspace_id@, "boards"@]);
        r
    }

    /// Where a board lives: `<workspace_id>/boards/<board_id>.json`, for
    /// valid identifiers only.
    pub fn board_path(&self, workspace_id: &str, board_id: &str) -> (r: Result<
        StoragePath,
        StoreError,
    >)
        ensures
            match r {
                Ok(path) => path.names() == board_location(workspace_id@, board_id@),
                Err(e) => e == StoreError::InvalidId,
            },
            r is Ok <==> (id_is_valid(workspace_id@)
                && id_is_valid(board_id@)),
    {
        if let Err(e) = valid_id(workspace_id) {
            return Err(e);
        }
        if let Err(e) = valid_id(board_id) {
            return Err(e);
        }
        let directory = self.board_directory(workspace_id);
        let mut segments = directory.segments;
        segments.push(board_id.to_owned().concat(".json"));
        let path = StoragePath { segments };
        assert(path.names() =~= board_location(workspace_id@, board_id@));
        Ok(path)
    }
    /// The workspaces of the index, newest first, as the index lists them.
    pub fn list_workspaces(&self, index: WorkspaceIndex) -> (r: Vec<WorkspaceSummary>)
        ensures
            r@ == index.workspaces@,
    {
        index.workspaces
    }

    /// A new workspace named `name`, created and last updated at `now`, with
    /// no board and a fresh identifier; `create_workspace` enters it in the
    /// index.
    pub fn new_workspace(&self, name: String, now: u64) -> (r: WorkspaceSummary)
        ensures
            is_generated_id(r.id@),
            r.name == name,
            r.created_at == now,
            r.updated_at == now,
            r.board_count == 0,
    {
        WorkspaceSummary { id: generate_id(), name, created_at: now, updated_at: now, board_count: 0 }
    }

    /// Enters a new workspace in the index, before all the others, and gives
    /// it back.
    pub fn create_workspace(&self, index: &mut WorkspaceIndex, workspace: WorkspaceSummary) -> (r:
        WorkspaceSummary)
        ensures
            r == workspace,
            final(index).schema_version == old(index).schema_version,
            final(index).workspaces@ == seq![workspace] + old(index).workspaces@,
    {
        let created = WorkspaceSummary {
            id: workspace.id.clone(),
            name: workspace.name.clone(),
            created_at: workspace.created_at,
            updated_at: workspace.updated_at,
            board_count: workspace.board_count,
        };
        index.add_workspace(workspace);
        created
    }

    /// A new empty board named `name` in the workspace `workspace_id`,
    /// created and last updated at `now`, with a fresh identifier; the
    /// workspace counts one board more and is stamped with `now`. Refused
    /// when the index holds no such workspace, and then when its identifier
    /// cannot name a place in the store; a refusal leaves the index as it was.
    pub fn create_board(
        &self,
        index: &mut WorkspaceIndex,
        workspace_id: &str,
        name: String,
        now: u64,
    ) -> (r: Result<Board, StoreError>)
        requires
            forall|i: int|
                is_first_with_id(old(index).workspaces@, workspace_id@, i) ==> old(
                    index,
                ).workspaces@[i].board_count < u32::MAX,
        ensures
            final(index).schema_version == old(index).schema_version,
            r is Ok <==> (has_workspace(old(index).workspaces@, workspace_id@) && id_is_valid(
                workspace_id@,
            )),
            match r {
                Ok(board) => {
                    &&& is_generated_id(board.id@)
                    &&& board.workspace_id@ == workspace_id@
                    &&& board.name == name
                    &&& board.schema_version == BOARD_SCHEMA_VERSION
                    &&& board.created_at == now
                    &&& board.updated_at == now
                    &&& board.element_ids@.len() == 0
                    &&& board.element_order@.len() == 0
                    &&& exists|i: int|
                        is_first_with_id(old(index).workspaces@, workspace_id@, i)
                            && final(index).workspaces@ == old(index).workspaces@.update(
                            i,
                            applied(
                                old(index).workspaces@[i],
                                WorkspaceUpdate::BoardCreated { at: now },
                            ),
                        )
                },
                Err(e) => {
                    &&& final(index).workspaces@ == old(index).workspaces@
                    &&& e == (if !has_workspace(old(index).workspaces@, workspace_id@) {
                        StoreError::WorkspaceNotFound
                    } else {
                        StoreError::InvalidId
                    })
                },
            },
    {
        if let Err(e) = index.workspace(workspace_id) {
            return Err(e);
        }
        let board = Board {
            id: generate_id(),
            workspace_id: workspace_id.to_owned(),
            name,
            schema_version: BOARD_SCHEMA_VERSION,
            created_at: now,
            updated_at: now,
            element_ids: Vec::new(),
            element_order: Vec::new(),
        };
        proof {
            law_generated_ids_are_valid(board.id@);
        }
        if let Err(e) = self.board_path(workspace_id, board.id.as_str()) {
            return Err(e);
        }
        match index.update_workspace(workspace_id, WorkspaceUpdate::BoardCreated { at: now }) {
            Ok(()) => Ok(board),
            Err(e) => Err(e),
        }
    }

    /// Where to read the boards of a workspace from: refused when the index
    /// holds no such workspace.
    pub fn boards_to_list(&self, index: &WorkspaceIndex, workspace_id: &str) -> (r: Result<
        StoragePath,
        StoreError,
    >)
        ensures
            match r {
                Ok(path) => has_workspace(index.workspaces@, workspace_id@) && path.names()
                    == seq![workspace_id@, "boards"@],
                Err(e) => !has_workspace(index.workspaces@, workspace_id@) && e
                    == StoreError::WorkspaceNotFound,
            },
    {
        if let Err(e) = index.workspace(workspace_id) {
            return Err(e);
        }
        Ok(self.board_directory(workspace_id))
    }

    /// The summaries of the stored boards of a workspace, newest first;
    /// boards saved at the same time keep the order in which they were read.
    /// Refused when the index holds no such workspace.
    pub fn list_boards(&self, index: &WorkspaceIndex, workspace_id: &str, boards: Vec<Board>) -> (r:
        Result<Vec<BoardSummary>, StoreError>)
        ensures
            match r {
                Ok(listed) => {
                    &&& has_workspace(index.workspaces@, workspace_id@)
                    &&& is_recency_order_of(
                        listed@,
                        boards@.map_values(|b: Board| b.spec_summary()),
                    )
                    &&& listed@.to_multiset() == boards@.map_values(
                        |b: Board| b.spec_summary(),
                    ).to_multiset()
                },
                Err(e) => !has_workspace(index.workspaces@, workspace_id@) && e
                    == StoreError::WorkspaceNotFound,
            },
    {
        if let Err(e) = index.workspace(workspace_id) {
            return Err(e);
        }
        let ghost stored = boards@;
        let mut summaries: Vec<BoardSummary> = Vec::new();
        for board in it: boards.into_iter()
            invariant
                it.seq() == stored,
                summaries@ == stored.take(it.index() as int).map_values(
                    |b: Board| b.spec_summary(),
                ),
        {
            let ghost k = it.index() as int;
            proof {
                assert(stored.take(k + 1).map_values(|b: Board| b.spec_summary()) =~= stored.take(
                    k,
                ).map_values(|b: Board| b.spec_summary()).push(board.spec_summary()));
            }
            summaries.push(board.summary());
        }
        assert(stored.take(stored.len() as int) =~= stored);
        Ok(sort_newest_first(summaries))
    }

    /// Where to read the board `board_id` of a workspace from: refused when
    /// the index holds no such workspace, and then when an identifier is
    /// invalid.
    pub fn board_to_open(&self, index: &WorkspaceIndex, workspace_id: &str, board_id: &str) -> (r:
        Result<StoragePath, StoreError>)
        ensures
            match r {
                Ok(path) => open_verdict(index.workspaces@, workspace_id@, board_id@) is Ok
                    && path.names() == board_location(workspace_id@, board_id@),
                Err(e) => open_verdict(index.workspaces@, workspace_id@, board_id@) == Err::<
                    (),
                    StoreError,
                >(e),
            },
    {
        if let Err(e) = index.workspace(workspace_id) {
            return Err(e);
        }
        self.board_path(workspace_id, board_id)
    }

    /// The stored board read for `workspace_id` and `board_id`: refused when
    /// the index holds no such workspace, then when an identifier is
    /// invalid, then when the board carries another workspace or another
    /// identifier.
    pub fn open_board(
        &self,
        index: &WorkspaceIndex,
        board: Board,
        workspace_id: &str,
        board_id: &str,
    ) -> (r: Result<Board, StoreError>)
        ensures
            r == opening(index.workspaces@, board, workspace_id@, board_id@),
    {
        if let Err(e) = self.board_to_open(index, workspace_id, board_id) {
            return Err(e);
        }
        if !same_text(board.workspace_id.as_str(), workspace_id) || !same_text(
            board.id.as_str(),
            board_id,
        ) {
            return Err(StoreError::BoardNotInWorkspace);
        }
        Ok(board)
    }

    /// The board as a save at `now` writes it, with its workspace stamped
    /// with `now`: refused when the index holds no workspace of the board,
    /// or when the board breaks a rule of `board_verdict`; a refusal leaves
    /// the index as it was.
    pub fn save_board(&self, index: &mut WorkspaceIndex, board: Board, now: u64) -> (r: Result<
        Board,
        StoreError,
    >)
        ensures
            r == saved(old(index).workspaces@, board, now),
            final(index).schema_version == old(index).schema_version,
            r is Ok ==> exists|i: int|
                is_first_with_id(old(index).workspaces@, board.workspace_id@, i)
                    && final(index).workspaces@ == old(index).workspaces@.update(
                    i,
                    applied(old(index).workspaces@[i], WorkspaceUpdate::BoardSaved { at: now }),
                ),
            r is Err ==> final(index).workspaces@ == old(index).workspaces@,
    {
        if let Err(e) = index.workspace(board.workspace_id.as_str()) {
            return Err(e);
        }
        if let Err(e) = validate_board(&board) {
            return Err(e);
        }
        let mut board = board;
        board.updated_at = now;
        match index.update_workspace(
            board.workspace_id.as_str(),
            WorkspaceUpdate::BoardSaved { at: now },
        ) {
            Ok(()) => Ok(board),
            Err(e) => Err(e),
        }
    }
}

} // verus!
