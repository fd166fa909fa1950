//! Properties that hold across the operations of the store.
use vstd::prelude::*;
use crate::domain::{Board, BoardSummary, WorkspaceSummary, BOARD_SCHEMA_VERSION};
use crate::error::StoreError;
use crate::index::{applied, has_workspace, is_first_with_id, WorkspaceUpdate};
use crate::persistence::{board_location, is_generated_id, opening, saved};
use crate::recency::{is_newest_first, is_recency_order_of, saved_at};
use crate::text::{lemma_trimmed_idempotent, trimmed};
use crate::validation::{board_verdict, id_is_valid, name_is_valid};

verus! {

/// A name that the store accepts is accepted again once trimmed, and
/// trimming it again changes nothing.
pub proof fn law_trimmed_name_stays_valid(name: Seq<char>)
    requires
        name_is_valid(name),
    ensures
        name_is_valid(trimmed(name)),
        trimmed(trimmed(name)) == trimmed(name),
{
    lemma_trimmed_idempotent(name);
}

/// Every identifier that the store generates is a valid identifier.
pub proof fn law_generated_ids_are_valid(id: Seq<char>)
    requires
        is_generated_id(id),
    ensures
        id_is_valid(id),
{
}

/// A workspace added to the index is the one found under its identifier,
/// whatever the index held before.
pub proof fn law_added_workspace_is_found(workspaces: Seq<WorkspaceSummary>, added: WorkspaceSummary)
    ensures
        has_workspace(seq![added] + workspaces, added.id@),
        is_first_with_id(seq![added] + workspaces, added.id@, 0),
        forall|i: int| #[trigger]
            is_first_with_id(seq![added] + workspaces, added.id@, i) ==> i == 0,
{
    let s = seq![added] + workspaces;
    assert(s[0].id@ == added.id@);
    assert forall|i: int| #[trigger] is_first_with_id(s, added.id@, i) implies i == 0 by {
        if i > 0 {
            assert(s[0].id@ != added.id@);
        }
    }
}

/// Adding a workspace with another identifier leaves every other workspace
/// found as before, one place further down.
pub proof fn law_adding_keeps_other_workspaces(
    workspaces: Seq<WorkspaceSummary>,
    added: WorkspaceSummary,
    id: Seq<char>,
    i: int,
)
    requires
        is_first_with_id(workspaces, id, i),
        added.id@ != id,
    ensures
        is_first_with_id(seq![added] + workspaces, id, i + 1),
{
    let s = seq![added] + workspaces;
    assert forall|j: int| 0 <= j < i + 1 implies #[trigger] s[j].id@ != id by {
        if j > 0 {
            assert(s[j] == workspaces[j - 1]);
        }
    }
}

/// Updating a workspace keeps it found under its identifier, and what is
/// found then is the updated summary.
pub proof fn law_updated_workspace_is_found(
    workspaces: Seq<WorkspaceSummary>,
    id: Seq<char>,
    i: int,
    update: WorkspaceUpdate,
)
    requires
        is_first_with_id(workspaces, id, i),
    ensures
        is_first_with_id(workspaces.update(i, applied(workspaces[i], update)), id, i),
        workspaces.update(i, applied(workspaces[i], update))[i] == applied(workspaces[i], update),
{
    let s = workspaces.update(i, applied(workspaces[i], update));
    assert forall|j: int| 0 <= j < i implies #[trigger] s[j].id@ != id by {
        assert(s[j] == workspaces[j]);
    }
}

/// Creating a board raises the board count of its workspace by exactly one
/// and stamps the workspace with the time of creation; saving a board only
/// stamps it.
pub proof fn law_board_count_follows_creation(ws: WorkspaceSummary, at: u64)
    requires
        ws.board_count < u32::MAX,
    ensures
        applied(ws, WorkspaceUpdate::BoardCreated { at }).board_count == ws.board_count + 1,
        applied(ws, WorkspaceUpdate::BoardCreated { at }).updated_at == at,
        applied(ws, WorkspaceUpdate::BoardSaved { at }).board_count == ws.board_count,
        applied(ws, WorkspaceUpdate::BoardSaved { at }).updated_at == at,
        applied(ws, WorkspaceUpdate::BoardSaved { at }).id == ws.id,
        applied(ws, WorkspaceUpdate::BoardCreated { at }).id == ws.id,
{
}

/// A board such as the store creates, with a valid name in a workspace with
/// a valid identifier, passes the checks of a save.
pub proof fn law_created_board_is_valid(board: Board)
    requires
        is_generated_id(board.id@),
        id_is_valid(board.workspace_id@),
        name_is_valid(board.name@),
        board.schema_version == BOARD_SCHEMA_VERSION,
        board.element_order@.len() == 0,
    ensures
        board_verdict(board) == Ok::<(), StoreError>(()),
{
}

/// A board that passed the checks of a save passes them again with any
/// other time of last update: a saved board can be saved again.
pub proof fn law_saved_board_stays_valid(board: Board, now: u64)
    requires
        board_verdict(board) is Ok,
    ensures
        board_verdict(Board { updated_at: now, ..board }) is Ok,
{
    let saved = Board { updated_at: now, ..board };
    assert(saved.element_order == board.element_order);
    assert(saved.element_ids == board.element_ids);
}

/// Two boards live at the same place only if they are the same board of the
/// same workspace, and no board lives where the index does.
pub proof fn law_board_locations_are_distinct(w1: Seq<char>, b1: Seq<char>, w2: Seq<char>, b2: Seq<char>)
    requires
        board_location(w1, b1) == board_location(w2, b2),
    ensures
        w1 == w2,
        b1 == b2,
        board_location(w1, b1) != seq!["index.json"@],
{
    let x = board_location(w1, b1);
    let y = board_location(w2, b2);
    assert(x.len() != seq!["index.json"@].len());
    assert(x[0] == y[0]);
    assert(x[2] == y[2]);
    assert((b1 + ".json"@).len() == (b2 + ".json"@).len());
    assert(b1 =~= (b1 + ".json"@).subrange(0, b1.len() as int));
    assert(b2 =~= (b2 + ".json"@).subrange(0, b2.len() as int));
}

/// What a save gives back opens unchanged, under its own workspace and
/// identifier, from the index as the save left it: the board as it was
/// handed in, stamped with the time of the save.
pub proof fn law_saved_board_opens_as_saved(
    workspaces: Seq<WorkspaceSummary>,
    board: Board,
    now: u64,
    stored: Board,
    i: int,
)
    requires
        saved(workspaces, board, now) == Ok::<Board, StoreError>(stored),
        is_first_with_id(workspaces, board.workspace_id@, i),
    ensures
        stored == (Board { updated_at: now, ..board }),
        opening(
            workspaces.update(i, applied(workspaces[i], WorkspaceUpdate::BoardSaved { at: now })),
            stored,
            board.workspace_id@,
            board.id@,
        ) == Ok::<Board, StoreError>(stored),
{
    let after = workspaces.update(i, applied(workspaces[i], WorkspaceUpdate::BoardSaved { at: now }));
    law_updated_workspace_is_found(workspaces, board.workspace_id@, i, WorkspaceUpdate::BoardSaved { at: now });
    assert(after[i].id@ == board.workspace_id@);
    assert(has_workspace(after, board.workspace_id@));
}

/// A save succeeds exactly when the board's workspace is in the index and
/// the board passes its checks.
pub proof fn law_save_succeeds_when_valid(workspaces: Seq<WorkspaceSummary>, board: Board, now: u64)
    ensures
        saved(workspaces, board, now) is Ok <==> (has_workspace(workspaces, board.workspace_id@)
            && board_verdict(board) is Ok),
{
}

/// Whatever the filter of a sequence holds, the sequence holds.
proof fn lemma_filtered_is_held(s: Seq<BoardSummary>, t: u64, x: BoardSummary)
    requires
        s.filter(saved_at(t)).contains(x),
    ensures
        s.contains(x),
{
    s.lemma_filter_contains_rev(saved_at(t), x);
}

/// Only one list is in recency order of given summaries: two lists newest
/// first that keep the same summaries in the same order at each time are
/// equal.
pub proof fn law_recency_order_is_unique(a: Seq<BoardSummary>, b: Seq<BoardSummary>)
    requires
        is_newest_first(a),
        is_newest_first(b),
        forall|t: u64| #[trigger] a.filter(saved_at(t)) == b.filter(saved_at(t)),
    ensures
        a == b,
    decreases a.len(),
{
    if a.len() == 0 || b.len() == 0 {
        assert(Seq::<BoardSummary>::empty().filter(saved_at(0)) =~= Seq::<BoardSummary>::empty())
            by {
            reveal(Seq::filter);
        }
        if a.len() == 0 && b.len() > 0 {
            let t: u64 = b[0].updated_at;
            b.lemma_filter_contains(saved_at(t), 0);
            lemma_filtered_is_held(a, t, b[0]);
        }
        if b.len() == 0 && a.len() > 0 {
            let t: u64 = a[0].updated_at;
            a.lemma_filter_contains(saved_at(t), 0);
            lemma_filtered_is_held(b, t, a[0]);
        }
        assert(a =~= b);
    } else {
        let ta: u64 = a[0].updated_at;
        let tb: u64 = b[0].updated_at;
        if ta < tb {
            b.lemma_filter_contains(saved_at(tb), 0);
            assert(a.filter(saved_at(tb)) == b.filter(saved_at(tb)));
            lemma_filtered_is_held(a, tb, b[0]);
        }
        if tb < ta {
            a.lemma_filter_contains(saved_at(ta), 0);
            assert(a.filter(saved_at(ta)) == b.filter(saved_at(ta)));
            lemma_filtered_is_held(b, ta, a[0]);
        }
        assert(ta == tb);
        let ra = a.drop_first();
        let rb = b.drop_first();
        assert(a =~= seq![a[0]] + ra);
        assert(b =~= seq![b[0]] + rb);
        ra.lemma_filter_prepend(a[0], saved_at(ta));
        rb.lemma_filter_prepend(b[0], saved_at(ta));
        assert(a.filter(saved_at(ta)) == b.filter(saved_at(ta)));
        assert(a.filter(saved_at(ta))[0] == a[0]);
        assert(b.filter(saved_at(ta))[0] == b[0]);
        assert forall|t: u64| #[trigger] ra.filter(saved_at(t)) == rb.filter(saved_at(t)) by {
            ra.lemma_filter_prepend(a[0], saved_at(t));
            rb.lemma_filter_prepend(b[0], saved_at(t));
            assert(a.filter(saved_at(t)) == b.filter(saved_at(t)));
            if t == ta {
                assert(ra.filter(saved_at(t)) =~= a.filter(saved_at(t)).drop_first());
                assert(rb.filter(saved_at(t)) =~= b.filter(saved_at(t)).drop_first());
            } else {
                assert(ra.filter(saved_at(t)) =~= a.filter(saved_at(t)));
                assert(rb.filter(saved_at(t)) =~= b.filter(saved_at(t)));
            }
        }
        law_recency_order_is_unique(ra, rb);
        assert(a =~= b);
    }
}

/// Listing boards whose summaries are already newest first keeps their
/// order, and any two listings of the same boards agree.
pub proof fn law_listing_is_determined(
    sorted: Seq<BoardSummary>,
    other: Seq<BoardSummary>,
    input: Seq<BoardSummary>,
)
    requires
        is_recency_order_of(sorted, input),
        is_recency_order_of(other, input),
    ensures
        sorted == other,
        is_newest_first(input) ==> sorted == input,
{
    law_recency_order_is_unique(sorted, other);
    if is_newest_first(input) {
        law_recency_order_is_unique(sorted, input);
    }
}

} // verus!
