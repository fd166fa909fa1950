//! The stored records: workspaces, their index, boards and board summaries.
use vstd::prelude::*;

verus! {

/// The schema version of the workspace index this store writes.
pub const WORKSPACE_SCHEMA_VERSION: u32 = 1;

/// The only board schema version this store reads and writes.
pub const BOARD_SCHEMA_VERSION: u32 = 1;

/// A workspace as the index lists it.
#[derive(Debug, Clone)]
pub struct WorkspaceSummary {
    pub id: String,
    pub name: String,
    pub created_at: u64,
    pub updated_at: u64,
    pub board_count: u32,
}

/// The list of workspaces, newest first, with the schema it was written in.
#[derive(Debug, Clone)]
pub struct WorkspaceIndex {
    pub schema_version: u32,
    pub workspaces: Vec<WorkspaceSummary>,
}

impl Default for WorkspaceIndex {
    /// The index of a store that holds no workspace yet.
    fn default() -> (r: Self)
        ensures
            r.schema_version == WORKSPACE_SCHEMA_VERSION,
            r.workspaces@.len() == 0,
    {
        WorkspaceIndex { schema_version: WORKSPACE_SCHEMA_VERSION, workspaces: Vec::new() }
    }
}

/// A board as a board list shows it.
#[derive(Debug, Clone)]
pub struct BoardSummary {
    pub id: String,
    pub name: String,
    pub updated_at: u64,
}

/// A board, with the identifiers of the elements it holds standing for the
/// elements themselves.
#[derive(Debug, Clone)]
pub struct Board {
    pub id: String,
    pub workspace_id: String,
    pub name: String,
    pub schema_version: u32,
    pub created_at: u64,
    pub updated_at: u64,
    /// The identifiers under which the board holds its elements.
    pub element_ids: Vec<String>,
    /// The identifiers of the elements in drawing order.
    pub element_order: Vec<String>,
}

impl Board {
    /// The summary that a board list shows of this board.
    pub open spec fn spec_summary(self) -> BoardSummary {
        BoardSummary { id: self.id, name: self.name, updated_at: self.updated_at }
    }

    /// The summary that a board list shows of this board.
    pub fn summary(self) -> (r: BoardSummary)
        ensures
            r == self.spec_summary(),
    {
        BoardSummary { id: self.id, name: self.name, updated_at: self.updated_at }
    }
}

/// The colour a note gets when its stored form names none.
pub fn default_note_color() -> (r: String)
    ensures
        r@ == "#f7dd72"@,
{
    "#f7dd72".to_owned()
}

} // verus!
