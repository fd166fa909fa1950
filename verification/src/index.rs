//! Looking up, adding and updating workspaces in the index.
use vstd::prelude::*;
use crate::domain::{WorkspaceIndex, WorkspaceSummary};
use crate::error::StoreError;
use crate::text::same_text;

verus! {

/// Some workspace of `s` has the identifier `id`.
pub open spec fn has_workspace(s: Seq<WorkspaceSummary>, id: Seq<char>) -> bool {
    exists|i: int| 0 <= i < s.len() && #[trigger] s[i].id@ == id
}

/// `i` is the position of the first workspace of `s` whose identifier is `id`.
pub open spec fn is_first_with_id(s: Seq<WorkspaceSummary>, id: Seq<char>, i: int) -> bool {
    &&& 0 <= i < s.len()
    &&& s[i].id@ == id
    &&& forall|j: int| 0 <= j < i ==> #[trigger] s[j].id@ != id
}

/// A change that the store makes to a workspace's summary.
#[derive(Debug, Clone, Copy, PartialEq, Eq, Structural)]
pub enum WorkspaceUpdate {
    /// A board was created in the workspace at the given time.
    BoardCreated { at: u64 },
    /// A board of the workspace was saved at the given time.
    BoardSaved { at: u64 },
}

/// The summary `ws` once `update` is applied to it.
pub open spec fn applied(ws: WorkspaceSummary, update: WorkspaceUpdate) -> WorkspaceSummary {
    match update {
        WorkspaceUpdate::BoardCreated { at } => WorkspaceSummary {
            board_count: (ws.board_count + 1) as u32,
            updated_at: at,
            ..ws
        },
        WorkspaceUpdate::BoardSaved { at } => WorkspaceSummary { updated_at: at, ..ws },
    }
}

/// `update` can be applied to `ws` without the board count overflowing.
pub open spec fn applicable(ws: WorkspaceSummary, update: WorkspaceUpdate) -> bool {
    update is BoardCreated ==> ws.board_count < u32::MAX
}

/// A copy of a workspace summary.
fn copy_summary(ws: &WorkspaceSummary) -> (r: WorkspaceSummary)
    ensures
        r == *ws,
{
    WorkspaceSummary {
        id: ws.id.clone(),
        name: ws.name.clone(),
        created_at: ws.created_at,
        updated_at: ws.updated_at,
        board_count: ws.board_count,
    }
}

impl WorkspaceIndex {
    /// The position of the first workspace whose identifier is `id`, if any.
    fn position(&self, id: &str) -> (r: Option<usize>)
        ensures
            match r {
                Some(i) => is_first_with_id(self.workspaces@, id@, i as int),
                None => !has_workspace(self.workspaces@, id@),
            },
    {
        let mut i: usize = 0;
        while i < self.workspaces.len()
            invariant
                i <= self.workspaces@.len(),
                forall|j: int| 0 <= j < i ==> #[trigger] self.workspaces@[j].id@ != id@,
            decreases self.workspaces.len() - i,
        {
            if same_text(self.workspaces[i].id.as_str(), id) {
                return Some(i);
            }
            i = i + 1;
        }
        None
    }

    /// The first workspace whose identifier is `id`.
    pub fn workspace(&self, id: &str) -> (r: Result<WorkspaceSummary, StoreError>)
        ensures
            match r {
                Ok(ws) => exists|i: int|
                    is_first_with_id(self.workspaces@, id@, i) && ws == self.workspaces@[i],
                Err(e) => e == StoreError::WorkspaceNotFound && !has_workspace(
                    self.workspaces@,
                    id@,
                ),
            },
    {
        match self.position(id) {
            Some(i) => Ok(copy_summary(&self.workspaces[i])),
            None => Err(StoreError::WorkspaceNotFound),
        }
    }

    /// Puts a new workspace at the head of the index, before all others.
    pub fn add_workspace(&mut self, workspace: WorkspaceSummary)
        ensures
            final(self).schema_version == old(self).schema_version,
            final(self).workspaces@ == seq![workspace] + old(self).workspaces@,
    {
        self.workspaces.insert(0, workspace);
        assert(self.workspaces@ =~= seq![workspace] + old(self).workspaces@);
    }

    /// Applies `update` to the first workspace whose identifier is `id`,
    /// leaving all others as they were.
    pub fn update_workspace(&mut self, id: &str, update: WorkspaceUpdate) -> (r: Result<
        (),
        StoreError,
    >)
        requires
            forall|i: int|
                is_first_with_id(old(self).workspaces@, id@, i) ==> applicable(
                    old(self).workspaces@[i],
                    update,
                ),
        ensures
            final(self).schema_version == old(self).schema_version,
            match r {
                Ok(()) => exists|i: int|
                    is_first_with_id(old(self).workspaces@, id@, i)
                        && final(self).workspaces@ == old(self).workspaces@.update(
                        i,
                        applied(old(self).workspaces@[i], update),
                    ),
                Err(e) => e == StoreError::WorkspaceNotFound && !has_workspace(
                    old(self).workspaces@,
                    id@,
                ) && final(self).workspaces@ == old(self).workspaces@,
            },
    {
        match self.position(id) {
            None => Err(StoreError::WorkspaceNotFound),
            Some(i) => {
                let current = copy_summary(&self.workspaces[i]);
                let changed = match update {
                    WorkspaceUpdate::BoardCreated { at } => WorkspaceSummary {
                        board_count: current.board_count + 1,
                        updated_at: at,
                        ..current
                    },
                    WorkspaceUpdate::BoardSaved { at } => WorkspaceSummary {
                        updated_at: at,
                        ..current
                    },
                };
                self.workspaces.set(i, changed);
                Ok(())
            },
        }
    }
}

} // verus!
