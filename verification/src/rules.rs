//! What each rule of the store comes to, stated in plain terms: lengths,
//! code points, fields and positions.
use vstd::prelude::*;
use crate::domain::{Board, BoardSummary, WorkspaceSummary};
use crate::error::StoreError;
use crate::index::{applicable, applied, has_workspace, is_first_with_id, WorkspaceUpdate};
use crate::persistence::{board_location, is_generated_id, opening, saved, StoragePath};
use crate::recency::{is_recency_order_of, saved_at};
use crate::text::{is_id_symbol, is_white_space, trimmed};
use crate::validation::{board_verdict, holds, id_is_valid, name_is_valid, order_is_known};

verus! {

/// An ASCII letter or digit, `-` or `_`, by code point.
pub open spec fn is_id_code_point(u: u32) -> bool {
    ||| (97 <= u && u <= 122)
    ||| (65 <= u && u <= 90)
    ||| (48 <= u && u <= 57)
    ||| u == 45
    ||| u == 95
}

/// `lo..hi` is the part of `s` left when the white space at both ends is
/// taken away: all before `lo` and all from `hi` on is white space, and the
/// part begins and ends with a character that is not.
pub open spec fn is_bare_middle(s: Seq<char>, lo: int, hi: int) -> bool {
    &&& 0 <= lo <= hi <= s.len()
    &&& forall|i: int| 0 <= i < lo ==> is_white_space(#[trigger] s[i])
    &&& forall|i: int| hi <= i < s.len() ==> is_white_space(#[trigger] s[i])
    &&& lo < hi ==> !is_white_space(s[lo]) && !is_white_space(s[hi - 1])
}

/// The bounds of the part of `s` that trimming leaves.
proof fn lemma_trimmed_bounds(s: Seq<char>) -> (r: (int, int))
    ensures
        is_bare_middle(s, r.0, r.1),
        trimmed(s) == s.subrange(r.0, r.1),
    decreases s.len(),
{
    if s.len() == 0 {
        assert(trimmed(s) =~= s.subrange(0, 0));
        (0, 0)
    } else if is_white_space(s[0]) {
        let t = s.drop_first();
        let (lo, hi) = lemma_trimmed_bounds(t);
        assert(trimmed(s) == trimmed(t));
        assert(t.subrange(lo, hi) =~= s.subrange(lo + 1, hi + 1));
        assert forall|i: int| 0 <= i < lo + 1 implies is_white_space(#[trigger] s[i]) by {
            if i > 0 {
                assert(s[i] == t[i - 1]);
            }
        }
        assert forall|i: int| hi + 1 <= i < s.len() implies is_white_space(#[trigger] s[i]) by {
            assert(s[i] == t[i - 1]);
        }
        if lo < hi {
            assert(s[lo + 1] == t[lo]);
            assert(s[hi] == t[hi - 1]);
        }
        (lo + 1, hi + 1)
    } else if is_white_space(s.last()) {
        let t = s.drop_last();
        let (lo, hi) = lemma_trimmed_bounds(t);
        assert(trimmed(s) == trimmed(t));
        assert(t.subrange(lo, hi) =~= s.subrange(lo, hi));
        assert forall|i: int| 0 <= i < lo implies is_white_space(#[trigger] s[i]) by {
            assert(s[i] == t[i]);
        }
        assert forall|i: int| hi <= i < s.len() implies is_white_space(#[trigger] s[i]) by {
            if i < t.len() {
                assert(s[i] == t[i]);
            }
        }
        if lo < hi {
            assert(s[lo] == t[lo]);
            assert(s[hi - 1] == t[hi - 1]);
        }
        (lo, hi)
    } else {
        assert(trimmed(s) =~= s.subrange(0, s.len() as int));
        (0, s.len() as int)
    }
}

/// Trimming removes white space at the ends and nothing else: the result is
/// the part of the text between white space at its start and at its end, and
/// it begins and ends with a character that is not white space.
pub proof fn law_trimming_keeps_the_middle(s: Seq<char>)
    ensures
        exists|lo: int, hi: int|
            #[trigger] is_bare_middle(s, lo, hi) && trimmed(s) == s.subrange(lo, hi),
{
    let (lo, hi) = lemma_trimmed_bounds(s);
    assert(is_bare_middle(s, lo, hi));
}

/// White space is the Unicode `White_Space` set: U+0009 to U+000D, U+0020,
/// U+0085, U+00A0, U+1680, U+2000 to U+200A, U+2028, U+2029, U+202F, U+205F
/// and U+3000.
pub proof fn law_white_space_code_points(c: char)
    ensures
        is_white_space(c) <==> ({
            let u = c as u32;
            ||| (9 <= u && u <= 13)
            ||| u == 32
            ||| u == 133
            ||| u == 160
            ||| u == 5760
            ||| (8192 <= u && u <= 8202)
            ||| u == 8232
            ||| u == 8233
            ||| u == 8239
            ||| u == 8287
            ||| u == 12288
        }),
{
}

/// A name is accepted exactly when, trimmed, it holds 1 to 120 characters.
pub proof fn law_name_rule(name: Seq<char>)
    ensures
        name_is_valid(name) <==> (1 <= trimmed(name).len() && trimmed(name).len() <= 120),
{
}

/// The symbols of identifiers are the ASCII letters and digits, `-` and
/// `_`, by code point.
pub proof fn law_identifier_symbols(c: char)
    ensures
        is_id_symbol(c) <==> is_id_code_point(c as u32),
{
}

/// An identifier is accepted exactly when it holds 1 to 64 symbols, each an
/// ASCII letter or digit, `-` or `_`.
pub proof fn law_identifier_rule(id: Seq<char>)
    ensures
        id_is_valid(id) <==> (0 < id.len() && id.len() <= 64 && forall|i: int|
            0 <= i < id.len() ==> is_id_symbol(#[trigger] id[i])),
{
}

/// A generated identifier holds exactly 21 symbols, each an ASCII letter or
/// digit, `-` or `_`.
pub proof fn law_generated_identifier_rule(id: Seq<char>)
    ensures
        is_generated_id(id) <==> (id.len() == 21 && forall|i: int|
            0 <= i < id.len() ==> is_id_symbol(#[trigger] id[i])),
{
}

/// Some element identifier of `ids` is, as a text, `id`.
pub open spec fn names_an_element(ids: Seq<String>, id: Seq<char>) -> bool {
    exists|j: int| 0 <= j < ids.len() && #[trigger] ids[j]@ == id
}

/// An element identifier that is, as a text, `id` makes `id` one that the
/// board holds, for the check of a save and for `names_an_element` alike.
pub proof fn law_held_identifier(ids: Seq<String>, id: Seq<char>, j: int)
    requires
        0 <= j < ids.len(),
        ids[j]@ == id,
    ensures
        holds(ids, id),
        names_an_element(ids, id),
{
}

/// When no element identifier is, as a text, `id`, the board does not hold
/// `id`, for the check of a save and for `names_an_element` alike.
pub proof fn law_unheld_identifier(ids: Seq<String>, id: Seq<char>)
    requires
        forall|j: int| 0 <= j < ids.len() ==> #[trigger] ids[j]@ != id,
    ensures
        !holds(ids, id),
        !names_an_element(ids, id),
{
}

/// Each identifier of the board's element order is, as a text, one of its
/// element identifiers.
pub open spec fn every_order_id_is_an_element(board: Board) -> bool {
    forall|i: int|
        0 <= i < board.element_order@.len() ==> names_an_element(
            board.element_ids@,
            #[trigger] board.element_order@[i]@,
        )
}

proof fn lemma_known_order_is_listed(board: Board)
    requires
        order_is_known(board),
    ensures
        every_order_id_is_an_element(board),
{
    assert forall|i: int| 0 <= i < board.element_order@.len() implies names_an_element(
        board.element_ids@,
        #[trigger] board.element_order@[i]@,
    ) by {
        assert(holds(board.element_ids@, board.element_order@[i]@));
    }
}

proof fn lemma_listed_order_is_known(board: Board)
    requires
        every_order_id_is_an_element(board),
    ensures
        order_is_known(board),
{
    assert forall|i: int|
        0 <= i < board.element_order@.len() implies holds(
            board.element_ids@,
            #[trigger] board.element_order@[i]@,
        ) by {
        assert(names_an_element(board.element_ids@, board.element_order@[i]@));
    }
}

/// A board passes the checks of a save exactly when both identifiers are
/// valid, its name holds 1 to 120 characters once trimmed, its schema
/// version is 1, and every identifier of its element order is one of its
/// element identifiers; the refusal names the first of these that fails.
pub proof fn law_board_rules(board: Board)
    ensures
        board_verdict(board) is Ok <==> ({
            &&& id_is_valid(board.id@)
            &&& id_is_valid(board.workspace_id@)
            &&& 1 <= trimmed(board.name@).len() && trimmed(board.name@).len() <= 120
            &&& board.schema_version == 1
            &&& every_order_id_is_an_element(board)
        }),
        !id_is_valid(board.id@) ==> board_verdict(board) == Err::<(), StoreError>(
            StoreError::InvalidId,
        ),
        id_is_valid(board.id@) && !id_is_valid(board.workspace_id@) ==> board_verdict(board)
            == Err::<(), StoreError>(StoreError::InvalidId),
        id_is_valid(board.id@) && id_is_valid(board.workspace_id@) && !(1 <= trimmed(
            board.name@,
        ).len() && trimmed(board.name@).len() <= 120) ==> board_verdict(board) == Err::<
            (),
            StoreError,
        >(StoreError::InvalidName),
        id_is_valid(board.id@) && id_is_valid(board.workspace_id@) && 1 <= trimmed(
            board.name@,
        ).len() && trimmed(board.name@).len() <= 120 && board.schema_version != 1
            ==> board_verdict(board) == Err::<(), StoreError>(
            StoreError::UnsupportedBoardVersion,
        ),
        id_is_valid(board.id@) && id_is_valid(board.workspace_id@) && 1 <= trimmed(
            board.name@,
        ).len() && trimmed(board.name@).len() <= 120 && board.schema_version == 1
            && !every_order_id_is_an_element(board) ==> board_verdict(board) == Err::<
            (),
            StoreError,
        >(StoreError::UnknownElementInOrder),
        board_verdict(board) is Err ==> board_verdict(board) != Err::<(), StoreError>(
            StoreError::WorkspaceNotFound,
        ) && board_verdict(board) != Err::<(), StoreError>(StoreError::BoardNotInWorkspace),
{
    if order_is_known(board) {
        lemma_known_order_is_listed(board);
    }
    if every_order_id_is_an_element(board) {
        lemma_listed_order_is_known(board);
    }
    assert(name_is_valid(board.name@) <==> (1 <= trimmed(board.name@).len() && trimmed(
        board.name@,
    ).len() <= 120));
}

/// A board passes the checks of a save only if its name, trimmed, holds 1
/// to 120 characters.
pub proof fn law_saved_names_are_valid(board: Board)
    ensures
        board_verdict(board) is Ok ==> 1 <= trimmed(board.name@).len() && trimmed(
            board.name@,
        ).len() <= 120,
{
    law_board_rules(board);
}

/// The summary of a board carries that board's own identifier, name and
/// time of last update.
pub proof fn law_summary_is_of_its_board(board: Board)
    ensures
        board.spec_summary().id == board.id,
        board.spec_summary().name == board.name,
        board.spec_summary().updated_at == board.updated_at,
{
}

/// The summaries of `s` last updated at time `t`, in their order.
pub open spec fn updated_at_time(s: Seq<BoardSummary>, t: u64) -> Seq<BoardSummary> {
    s.filter(|b: BoardSummary| b.updated_at == t)
}

/// A listing in recency order holds the summaries newest first by their own
/// time of last update, and at each time the same summaries as the input, in
/// the same order.
pub proof fn law_listing_rule(listed: Seq<BoardSummary>, input: Seq<BoardSummary>)
    requires
        is_recency_order_of(listed, input),
    ensures
        forall|i: int, j: int|
            0 <= i < j < listed.len() ==> #[trigger] listed[i].updated_at
                >= #[trigger] listed[j].updated_at,
        forall|t: u64| #[trigger] updated_at_time(listed, t) == updated_at_time(input, t),
{
    assert forall|t: u64| #[trigger] updated_at_time(listed, t) == updated_at_time(input, t) by {
        assert(saved_at(t) =~= (|b: BoardSummary| b.updated_at == t));
        assert(listed.filter(saved_at(t)) == input.filter(saved_at(t)));
    }
}

/// A board lives in its workspace's board directory: the workspace's
/// identifier, then `boards`, then the board's identifier with `.json`.
pub proof fn law_board_lives_in_its_directory(workspace_id: Seq<char>, board_id: Seq<char>)
    ensures
        board_location(workspace_id, board_id).len() == 3,
        board_location(workspace_id, board_id).subrange(0, 2) == seq![workspace_id, "boards"@],
        board_location(workspace_id, board_id)[2] == board_id + ".json"@,
{
    assert(board_location(workspace_id, board_id).subrange(0, 2) =~= seq![
        workspace_id,
        "boards"@,
    ]);
}

/// The names of a place are the texts of its segments, one for one.
pub proof fn law_place_names(path: StoragePath)
    ensures
        path.names().len() == path.segments@.len(),
        forall|i: int| 0 <= i < path.segments@.len() ==> #[trigger] path.names()[i]
            == path.segments@[i]@,
{
}

/// A save stamps only the time of last update of its workspace; creating a
/// board also counts one board more. Nothing else of the workspace changes.
pub proof fn law_workspace_updates(ws: WorkspaceSummary, at: u64)
    ensures
        applied(ws, WorkspaceUpdate::BoardSaved { at }) == (WorkspaceSummary {
            id: ws.id,
            name: ws.name,
            created_at: ws.created_at,
            updated_at: at,
            board_count: ws.board_count,
        }),
        ws.board_count < u32::MAX ==> applied(ws, WorkspaceUpdate::BoardCreated { at }) == (
        WorkspaceSummary {
            id: ws.id,
            name: ws.name,
            created_at: ws.created_at,
            updated_at: at,
            board_count: (ws.board_count + 1) as u32,
        }),
        ws.board_count < u32::MAX ==> applied(ws, WorkspaceUpdate::BoardCreated { at }).board_count
            == ws.board_count + 1,
        applicable(ws, WorkspaceUpdate::BoardSaved { at }),
        applicable(ws, WorkspaceUpdate::BoardCreated { at }) <==> ws.board_count < 4294967295,
{
}

/// The index holds a workspace under an identifier exactly when some entry
/// carries it, and then exactly one position is the first to carry it.
pub proof fn law_lookup_rule(workspaces: Seq<WorkspaceSummary>, id: Seq<char>)
    ensures
        has_workspace(workspaces, id) <==> exists|i: int|
            0 <= i < workspaces.len() && #[trigger] workspaces[i].id@ == id,
        has_workspace(workspaces, id) <==> exists|i: int|
            #[trigger] is_first_with_id(workspaces, id, i),
        forall|i: int|
            #[trigger] is_first_with_id(workspaces, id, i) <==> (0 <= i < workspaces.len()
                && workspaces[i].id@ == id && forall|j: int|
                0 <= j < i ==> workspaces[j].id@ != id),
        forall|i: int, k: int|
            is_first_with_id(workspaces, id, i) && is_first_with_id(workspaces, id, k) ==> i
                == k,
    decreases workspaces.len(),
{
    if has_workspace(workspaces, id) {
        if workspaces[0].id@ == id {
            assert(is_first_with_id(workspaces, id, 0));
        } else {
            let rest = workspaces.drop_first();
            let k = choose|k: int| 0 <= k < workspaces.len() && #[trigger] workspaces[k].id@ == id;
            assert(rest[k - 1].id@ == id);
            law_lookup_rule(rest, id);
            let i = choose|i: int| #[trigger] is_first_with_id(rest, id, i);
            assert forall|j: int| 0 <= j < i + 1 implies #[trigger] workspaces[j].id@ != id by {
                if j > 0 {
                    assert(workspaces[j] == rest[j - 1]);
                }
            }
            assert(is_first_with_id(workspaces, id, i + 1));
        }
    }
    assert forall|i: int, k: int|
        is_first_with_id(workspaces, id, i) && is_first_with_id(workspaces, id, k) implies i
        == k by {
        if i < k {
            assert(workspaces[i].id@ != id);
        } else if k < i {
            assert(workspaces[k].id@ != id);
        }
    }
}

/// Opening a board: refused when the workspace is not in the index, then
/// when an identifier is invalid, then when the stored board carries another
/// workspace or identifier; otherwise the stored board as it is.
pub proof fn law_opening_rule(
    workspaces: Seq<WorkspaceSummary>,
    board: Board,
    workspace_id: Seq<char>,
    board_id: Seq<char>,
)
    ensures
        opening(workspaces, board, workspace_id, board_id) == (if !has_workspace(
            workspaces,
            workspace_id,
        ) {
            Err(StoreError::WorkspaceNotFound)
        } else if !(id_is_valid(workspace_id) && id_is_valid(board_id)) {
            Err(StoreError::InvalidId)
        } else if board.workspace_id@ == workspace_id && board.id@ == board_id {
            Ok(board)
        } else {
            Err(StoreError::BoardNotInWorkspace)
        }),
{
}

/// Saving a board: refused when its workspace is not in the index, then
/// when it breaks a rule of a save; otherwise the board itself with `now` as
/// its time of last update, every other field kept.
pub proof fn law_saving_rule(workspaces: Seq<WorkspaceSummary>, board: Board, now: u64)
    ensures
        !has_workspace(workspaces, board.workspace_id@) ==> saved(workspaces, board, now)
            == Err::<Board, StoreError>(StoreError::WorkspaceNotFound),
        has_workspace(workspaces, board.workspace_id@) && board_verdict(board) is Err ==> saved(
            workspaces,
            board,
            now,
        ) == Err::<Board, StoreError>(board_verdict(board)->Err_0),
        has_workspace(workspaces, board.workspace_id@) && board_verdict(board) is Ok ==> saved(
            workspaces,
            board,
            now,
        ) == Ok::<Board, StoreError>(
            Board {
                id: board.id,
                workspace_id: board.workspace_id,
                name: board.name,
                schema_version: board.schema_version,
                created_at: board.created_at,
                updated_at: now,
                element_ids: board.element_ids,
                element_order: board.element_order,
            },
        ),
{
}

/// The texts shown for each refusal.
pub proof fn law_refusal_texts()
    ensures
        StoreError::WorkspaceNotFound.text() == "Workspace não encontrado."@,
        StoreError::InvalidId.text() == "Identificador inválido."@,
        StoreError::InvalidName.text() == "O nome deve ter entre 1 e 120 caracteres."@,
        StoreError::UnsupportedBoardVersion.text() == "A versão do board não é suportada."@,
        StoreError::UnknownElementInOrder.text()
            == "A ordem dos elementos referencia itens inexistentes."@,
        StoreError::BoardNotInWorkspace.text() == "O board não pertence ao workspace informado."@,
{
}

} // verus!
