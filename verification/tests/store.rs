use logline::domain::{
    default_note_color, Board, BoardSummary, WorkspaceIndex, WorkspaceSummary,
    BOARD_SCHEMA_VERSION, WORKSPACE_SCHEMA_VERSION,
};
use logline::error::StoreError;
use logline::index::WorkspaceUpdate;
use logline::persistence::{board_file_name, generate_id, Persistence, GENERATED_ID_LEN};
use logline::recency::sort_newest_first;
use logline::text::{id_symbol, same_text, trim, trimmed_len, white_space};
use logline::validation::{normalize_name, valid_id, validate_board, validate_name};
use std::path::PathBuf;

fn store() -> Persistence {
    Persistence::new(PathBuf::from("/tmp/logline-store"))
}

fn workspace(id: &str, name: &str, at: u64, boards: u32) -> WorkspaceSummary {
    WorkspaceSummary {
        id: id.to_string(),
        name: name.to_string(),
        created_at: at,
        updated_at: at,
        board_count: boards,
    }
}

fn index_of(workspaces: Vec<WorkspaceSummary>) -> WorkspaceIndex {
    WorkspaceIndex { schema_version: WORKSPACE_SCHEMA_VERSION, workspaces }
}

fn board(id: &str, workspace_id: &str, name: &str) -> Board {
    Board {
        id: id.to_string(),
        workspace_id: workspace_id.to_string(),
        name: name.to_string(),
        schema_version: BOARD_SCHEMA_VERSION,
        created_at: 10,
        updated_at: 20,
        element_ids: vec!["n1".to_string(), "n2".to_string()],
        element_order: vec!["n2".to_string(), "n1".to_string()],
    }
}

fn summary(id: &str, at: u64) -> BoardSummary {
    BoardSummary { id: id.to_string(), name: format!("Board {id}"), updated_at: at }
}

fn ids(summaries: &[BoardSummary]) -> Vec<String> {
    summaries.iter().map(|s| s.id.clone()).collect()
}

fn is_id_symbol(c: char) -> bool {
    c.is_ascii_alphanumeric() || c == '-' || c == '_'
}

#[test]
fn trimming_follows_unicode_white_space() {
    assert_eq!(trim("  Plano  "), "Plano");
    assert_eq!(trim("\t\n Ideias \r"), "Ideias");
    assert_eq!(trim("\u{3000}\u{a0}mapa\u{2028}\u{85}"), "mapa");
    assert_eq!(trim("a b"), "a b");
    assert_eq!(trim("   "), "");
    assert_eq!(trim(""), "");
    assert_eq!(trimmed_len("  ação  "), 4);
    assert_eq!(trimmed_len("\u{200b}x"), 2);
    for text in ["  x ", "\u{2003}y\u{1680}", "z", " \u{205f} "] {
        assert_eq!(trim(text), text.trim());
        assert_eq!(trimmed_len(text), text.trim().chars().count());
    }
}

#[test]
fn white_space_is_the_unicode_property() {
    for c in (0u32..=0x10ffff).filter_map(char::from_u32) {
        assert_eq!(white_space(c), c.is_whitespace(), "{:?}", c);
        assert_eq!(id_symbol(c), is_id_symbol(c), "{:?}", c);
    }
}

#[test]
fn same_text_compares_characters() {
    assert!(same_text("abc", "abc"));
    assert!(!same_text("abc", "abd"));
    assert!(!same_text("abc", "ab"));
    assert!(same_text("", ""));
}

#[test]
fn names_hold_one_to_one_hundred_twenty_characters() {
    assert_eq!(validate_name("Plano"), Ok(()));
    assert_eq!(validate_name("a"), Ok(()));
    assert_eq!(validate_name(""), Err(StoreError::InvalidName));
    assert_eq!(validate_name("    "), Err(StoreError::InvalidName));
    assert_eq!(validate_name(&"x".repeat(120)), Ok(()));
    assert_eq!(validate_name(&"x".repeat(121)), Err(StoreError::InvalidName));
    assert_eq!(validate_name(&format!("  {}  ", "x".repeat(120))), Ok(()));
    assert_eq!(validate_name(&"é".repeat(120)), Ok(()));
    assert_eq!(validate_name(&"é".repeat(121)), Err(StoreError::InvalidName));
}

#[test]
fn names_are_trimmed_before_use() {
    assert_eq!(normalize_name("  Roadmap  "), Ok("Roadmap".to_string()));
    assert_eq!(normalize_name(" \t "), Err(StoreError::InvalidName));
    let accepted = normalize_name("\u{3000}Mapa mental\n").unwrap();
    assert_eq!(accepted, "Mapa mental");
    assert_eq!(validate_name(&accepted), Ok(()));
    assert_eq!(trim(&accepted), accepted);
}

#[test]
fn identifiers_are_short_ascii_symbols() {
    assert_eq!(valid_id("abc"), Ok(()));
    assert_eq!(valid_id("A-_9"), Ok(()));
    assert_eq!(valid_id(&"a".repeat(64)), Ok(()));
    assert_eq!(valid_id(&"a".repeat(65)), Err(StoreError::InvalidId));
    assert_eq!(valid_id(""), Err(StoreError::InvalidId));
    assert_eq!(valid_id("a/b"), Err(StoreError::InvalidId));
    assert_eq!(valid_id("a.b"), Err(StoreError::InvalidId));
    assert_eq!(valid_id(".."), Err(StoreError::InvalidId));
    assert_eq!(valid_id("é"), Err(StoreError::InvalidId));
    assert_eq!(valid_id("a b"), Err(StoreError::InvalidId));
}

#[test]
fn boards_are_checked_in_order() {
    assert_eq!(validate_board(&board("b1", "w1", "Quadro")), Ok(()));

    let mut b = board("b/1", "w/1", "");
    b.schema_version = 2;
    assert_eq!(validate_board(&b), Err(StoreError::InvalidId));

    let mut b = board("b1", "w/1", "");
    b.schema_version = 2;
    assert_eq!(validate_board(&b), Err(StoreError::InvalidId));

    let mut b = board("b1", "w1", "  ");
    b.schema_version = 2;
    assert_eq!(validate_board(&b), Err(StoreError::InvalidName));

    let mut b = board("b1", "w1", "Quadro");
    b.schema_version = 2;
    b.element_order.push("ghost".to_string());
    assert_eq!(validate_board(&b), Err(StoreError::UnsupportedBoardVersion));

    let mut b = board("b1", "w1", "Quadro");
    b.element_order.push("ghost".to_string());
    assert_eq!(validate_board(&b), Err(StoreError::UnknownElementInOrder));

    let mut b = board("b1", "w1", "Quadro");
    b.element_order.clear();
    b.element_ids.clear();
    assert_eq!(validate_board(&b), Ok(()));

    let mut b = board("b1", "w1", "Quadro");
    b.element_order = vec!["n1".to_string(), "n1".to_string()];
    assert_eq!(validate_board(&b), Ok(()));
}

#[test]
fn refusals_carry_their_messages() {
    assert_eq!(StoreError::WorkspaceNotFound.message(), "Workspace não encontrado.");
    assert_eq!(StoreError::InvalidId.message(), "Identificador inválido.");
    assert_eq!(StoreError::InvalidName.message(), "O nome deve ter entre 1 e 120 caracteres.");
    assert_eq!(StoreError::UnsupportedBoardVersion.message(), "A versão do board não é suportada.");
    assert_eq!(
        StoreError::UnknownElementInOrder.message(),
        "A ordem dos elementos referencia itens inexistentes."
    );
    assert_eq!(
        StoreError::BoardNotInWorkspace.message(),
        "O board não pertence ao workspace informado."
    );
}

#[test]
fn a_new_store_has_an_empty_index() {
    let index = WorkspaceIndex::default();
    assert_eq!(index.schema_version, 1);
    assert!(index.workspaces.is_empty());
    assert!(store().list_workspaces(index).is_empty());
}

#[test]
fn notes_default_to_yellow() {
    assert_eq!(default_note_color(), "#f7dd72");
}

#[test]
fn generated_identifiers_are_valid() {
    let a = generate_id();
    let b = generate_id();
    assert_eq!(a.chars().count(), GENERATED_ID_LEN);
    assert_eq!(a.len(), 21);
    assert!(a.chars().all(is_id_symbol));
    assert_eq!(valid_id(&a), Ok(()));
    assert_eq!(valid_id(&b), Ok(()));
    assert_ne!(a, b);
}

#[test]
fn created_workspaces_come_first_and_are_found() {
    let store = store();
    let mut index = index_of(vec![workspace("old1", "Velho", 1, 3), workspace("old2", "Outro", 2, 0)]);
    let created = store.new_workspace("Novo".to_string(), 500);
    assert_eq!(created.name, "Novo");
    assert_eq!(created.created_at, 500);
    assert_eq!(created.updated_at, 500);
    assert_eq!(created.board_count, 0);
    assert_eq!(created.id.len(), 21);
    assert_eq!(valid_id(&created.id), Ok(()));
    let id = created.id.clone();

    let entered = store.create_workspace(&mut index, created);
    assert_eq!(entered.id, id);
    assert_eq!(index.schema_version, 1);
    let listed: Vec<String> = store.list_workspaces(index.clone()).into_iter().map(|w| w.id).collect();
    assert_eq!(listed, vec![id.clone(), "old1".to_string(), "old2".to_string()]);

    let found = index.workspace(&id).unwrap();
    assert_eq!(found.name, "Novo");
    assert_eq!(index.workspace("old1").unwrap().board_count, 3);
    assert_eq!(index.workspace("missing").unwrap_err(), StoreError::WorkspaceNotFound);
}

#[test]
fn an_added_workspace_shadows_an_older_one_with_its_identifier() {
    let mut index = index_of(vec![workspace("w", "Antigo", 1, 7)]);
    index.add_workspace(workspace("w", "Recente", 2, 0));
    assert_eq!(index.workspace("w").unwrap().name, "Recente");
}

#[test]
fn creating_a_board_counts_it_in_its_workspace() {
    let mut index = index_of(vec![workspace("w1", "Um", 1, 0), workspace("w2", "Dois", 1, 4)]);
    assert_eq!(index.update_workspace("w2", WorkspaceUpdate::BoardCreated { at: 99 }), Ok(()));
    let w2 = index.workspace("w2").unwrap();
    assert_eq!(w2.board_count, 5);
    assert_eq!(w2.updated_at, 99);
    assert_eq!(w2.created_at, 1);
    let w1 = index.workspace("w1").unwrap();
    assert_eq!(w1.board_count, 0);
    assert_eq!(w1.updated_at, 1);
}

#[test]
fn saving_a_board_stamps_its_workspace() {
    let mut index = index_of(vec![workspace("w1", "Um", 1, 2)]);
    assert_eq!(index.update_workspace("w1", WorkspaceUpdate::BoardSaved { at: 42 }), Ok(()));
    let w1 = index.workspace("w1").unwrap();
    assert_eq!(w1.board_count, 2);
    assert_eq!(w1.updated_at, 42);
}

#[test]
fn updating_a_missing_workspace_changes_nothing() {
    let mut index = index_of(vec![workspace("w1", "Um", 1, 2)]);
    assert_eq!(
        index.update_workspace("nope", WorkspaceUpdate::BoardCreated { at: 3 }),
        Err(StoreError::WorkspaceNotFound)
    );
    assert_eq!(index.workspaces.len(), 1);
    assert_eq!(index.workspaces[0].board_count, 2);
    assert_eq!(index.workspaces[0].updated_at, 1);
}

#[test]
fn only_the_first_workspace_with_an_identifier_is_updated() {
    let mut index = index_of(vec![workspace("w", "A", 1, 0), workspace("w", "B", 1, 0)]);
    index.update_workspace("w", WorkspaceUpdate::BoardCreated { at: 5 }).unwrap();
    assert_eq!(index.workspaces[0].board_count, 1);
    assert_eq!(index.workspaces[1].board_count, 0);
}

#[test]
fn boards_are_created_only_in_known_workspaces() {
    let store = store();
    let mut index = index_of(vec![workspace("w1", "Um", 1, 0), workspace("w2", "Dois", 2, 5)]);
    assert_eq!(
        store.create_board(&mut index, "w9", "Quadro".to_string(), 7).unwrap_err(),
        StoreError::WorkspaceNotFound
    );
    assert_eq!(index.workspaces[0].board_count, 0);
    let created = store.create_board(&mut index, "w1", "Quadro".to_string(), 7).unwrap();
    assert_eq!(created.workspace_id, "w1");
    assert_eq!(created.name, "Quadro");
    assert_eq!(created.schema_version, 1);
    assert_eq!(created.created_at, 7);
    assert_eq!(created.updated_at, 7);
    assert!(created.element_ids.is_empty());
    assert!(created.element_order.is_empty());
    assert_eq!(created.id.len(), 21);
    assert_eq!(validate_board(&created), Ok(()));
    let w1 = index.workspace("w1").unwrap();
    assert_eq!(w1.board_count, 1);
    assert_eq!(w1.updated_at, 7);
    assert_eq!(w1.created_at, 1);
    assert_eq!(index.workspace("w2").unwrap().board_count, 5);
    let other = store.create_board(&mut index, "w1", "Quadro".to_string(), 8).unwrap();
    assert_ne!(created.id, other.id);
    assert_eq!(index.workspace("w1").unwrap().board_count, 2);
    assert_eq!(index.workspace("w1").unwrap().updated_at, 8);
}

#[test]
fn boards_are_not_created_where_they_cannot_be_stored() {
    let store = store();
    let mut index = index_of(vec![workspace("bad/id", "Um", 1, 3)]);
    assert_eq!(
        store.create_board(&mut index, "bad/id", "Quadro".to_string(), 7).unwrap_err(),
        StoreError::InvalidId
    );
    assert_eq!(index.workspaces[0].board_count, 3);
    assert_eq!(index.workspaces[0].updated_at, 1);
}

#[test]
fn board_lists_are_newest_first() {
    let listed = sort_newest_first(vec![
        summary("a", 5),
        summary("b", 9),
        summary("c", 5),
        summary("d", 1),
        summary("e", 9),
    ]);
    assert_eq!(ids(&listed), vec!["b", "e", "a", "c", "d"]);
    assert!(sort_newest_first(Vec::new()).is_empty());
}

#[test]
fn listing_boards_summarises_them() {
    let store = store();
    let mut first = board("b1", "w1", "Primeiro");
    first.updated_at = 3;
    let mut second = board("b2", "w1", "Segundo");
    second.updated_at = 30;
    let index = index_of(vec![workspace("w1", "Um", 1, 2)]);
    assert_eq!(store.boards_to_list(&index, "w1").unwrap().segments, vec!["w1", "boards"]);
    assert_eq!(store.boards_to_list(&index, "w2").unwrap_err(), StoreError::WorkspaceNotFound);
    assert_eq!(
        store.list_boards(&index, "w2", vec![first.clone()]).unwrap_err(),
        StoreError::WorkspaceNotFound
    );
    let listed = store.list_boards(&index, "w1", vec![first, second]).unwrap();
    assert_eq!(ids(&listed), vec!["b2", "b1"]);
    assert_eq!(listed[0].name, "Segundo");
    assert_eq!(listed[0].updated_at, 30);
    assert_eq!(listed[1].name, "Primeiro");
}

#[test]
fn a_sorted_list_stays_as_it_is() {
    let input = vec![summary("x", 9), summary("y", 9), summary("z", 2)];
    let once = sort_newest_first(input.clone());
    assert_eq!(ids(&once), ids(&input));
    let twice = sort_newest_first(once.clone());
    assert_eq!(ids(&twice), ids(&once));
}

#[test]
fn boards_open_only_in_their_workspace() {
    let store = store();
    let index = index_of(vec![workspace("w1", "Um", 1, 2), workspace("w2", "Dois", 1, 0)]);
    let b = board("b1", "w1", "Quadro");
    assert_eq!(store.open_board(&index, b.clone(), "w1", "b1").unwrap().name, "Quadro");
    assert_eq!(
        store.open_board(&index, b.clone(), "w2", "b1").unwrap_err(),
        StoreError::BoardNotInWorkspace
    );
    assert_eq!(
        store.open_board(&index, b.clone(), "w1", "b2").unwrap_err(),
        StoreError::BoardNotInWorkspace
    );
    assert_eq!(
        store.open_board(&index, b.clone(), "w9", "b1").unwrap_err(),
        StoreError::WorkspaceNotFound
    );
    assert_eq!(
        store.open_board(&index, b, "w1", "../../index").unwrap_err(),
        StoreError::InvalidId
    );
    assert_eq!(
        store.board_to_open(&index, "w1", "b1").unwrap().segments,
        vec!["w1", "boards", "b1.json"]
    );
    assert_eq!(store.board_to_open(&index, "w9", "../x").unwrap_err(), StoreError::WorkspaceNotFound);
    assert_eq!(store.board_to_open(&index, "w1", "../x").unwrap_err(), StoreError::InvalidId);
}

#[test]
fn saving_checks_and_stamps_the_board() {
    let store = store();
    let mut index = index_of(vec![workspace("w1", "Um", 1, 1)]);
    assert_eq!(
        store.save_board(&mut index, board("b1", "w2", "Quadro"), 77).unwrap_err(),
        StoreError::WorkspaceNotFound
    );
    assert_eq!(
        store.save_board(&mut index, board("b1", "w1", ""), 77).unwrap_err(),
        StoreError::InvalidName
    );
    let mut stale = board("b1", "w1", "Quadro");
    stale.schema_version = 0;
    assert_eq!(
        store.save_board(&mut index, stale, 77).unwrap_err(),
        StoreError::UnsupportedBoardVersion
    );
    assert_eq!(index.workspaces[0].updated_at, 1);
    let saved = store.save_board(&mut index, board("b1", "w1", "Quadro"), 77).unwrap();
    assert_eq!(index.workspaces[0].updated_at, 77);
    assert_eq!(index.workspaces[0].board_count, 1);
    assert_eq!(saved.updated_at, 77);
    assert_eq!(saved.created_at, 10);
    assert_eq!(saved.element_order, vec!["n2".to_string(), "n1".to_string()]);
    let reopened = store.open_board(&index, saved.clone(), "w1", "b1").unwrap();
    assert_eq!(reopened.updated_at, 77);
    let again = store.save_board(&mut index, saved, 78).unwrap();
    assert_eq!(again.updated_at, 78);
    assert_eq!(index.workspaces[0].updated_at, 78);
}

#[test]
fn records_live_at_their_places() {
    let store = store();
    assert_eq!(store.root(), &PathBuf::from("/tmp/logline-store"));
    assert_eq!(store.index_path().segments, vec!["index.json"]);
    assert_eq!(store.board_directory("w1").segments, vec!["w1", "boards"]);
    assert_eq!(store.board_path("w1", "b1").unwrap().segments, vec!["w1", "boards", "b1.json"]);
    assert_eq!(store.board_path("../w1", "b1").unwrap_err(), StoreError::InvalidId);
    assert_eq!(store.board_path("w1", "b1.json").unwrap_err(), StoreError::InvalidId);
    assert_ne!(
        store.board_path("w1", "b1").unwrap().segments,
        store.board_path("w1", "b2").unwrap().segments
    );
}

#[test]
fn board_files_are_named_with_a_json_extension() {
    for name in [
        "a.json", "abc.json", ".json", "json", "a.json.tmp", "a.JSON", "..json", ".a.json",
        "x.tar.json", "", ".", "..", "a.", "a.jsonx", "ação.json",
    ] {
        let by_path = std::path::Path::new(name).extension().and_then(|e| e.to_str()) == Some("json");
        assert_eq!(board_file_name(name), by_path, "{:?}", name);
    }
    assert!(board_file_name("b1.json"));
    assert!(!board_file_name("b1.json.tmp"));
}
