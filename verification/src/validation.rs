//! The rules that names, identifiers and stored boards obey.
use vstd::prelude::*;
use vstd::string::StringSliceAdditionalSpecFns;
use crate::domain::{Board, BOARD_SCHEMA_VERSION};
use crate::error::StoreError;
use crate::text::{chars_of, id_symbol, is_id_symbol, lemma_trimmed_idempotent, trim, trimmed, trimmed_len};

verus! {

broadcast use vstd::utf8::is_ascii_chars_encode_utf8;

/// The most characters a trimmed name may hold.
pub const MAX_NAME_CHARS: usize = 120;

/// The most bytes an identifier may hold.
pub const MAX_ID_BYTES: usize = 64;

/// A name is valid when, trimmed, it holds 1 to 120 characters.
pub open spec fn name_is_valid(name: Seq<char>) -> bool {
    1 <= trimmed(name).len() <= MAX_NAME_CHARS
}

/// An identifier is valid when it is not empty, holds at most 64 symbols, and
/// each is an ASCII letter or digit, `-` or `_`.
pub open spec fn id_is_valid(id: Seq<char>) -> bool {
    &&& 0 < id.len() <= MAX_ID_BYTES
    &&& forall|i: int| 0 <= i < id.len() ==> is_id_symbol(#[trigger] id[i])
}

/// Some identifier of `ids` is `id`.
pub open spec fn holds(ids: Seq<String>, id: Seq<char>) -> bool {
    exists|j: int| 0 <= j < ids.len() && #[trigger] ids[j]@ == id
}

/// Every identifier of the element order names an element of the board.
pub open spec fn order_is_known(board: Board) -> bool {
    forall|i: int|
        0 <= i < board.element_order@.len() ==> holds(
            board.element_ids@,
            #[trigger] board.element_order@[i]@,
        )
}

/// What checking a board before it is stored gives: the first rule that it
/// breaks, in the order identifier, workspace identifier, name, schema
/// version, element order.
pub open spec fn board_verdict(board: Board) -> Result<(), StoreError> {
    if !id_is_valid(board.id@) {
        Err(StoreError::InvalidId)
    } else if !id_is_valid(board.workspace_id@) {
        Err(StoreError::InvalidId)
    } else if !name_is_valid(board.name@) {
        Err(StoreError::InvalidName)
    } else if board.schema_version != BOARD_SCHEMA_VERSION {
        Err(StoreError::UnsupportedBoardVersion)
    } else if !order_is_known(board) {
        Err(StoreError::UnknownElementInOrder)
    } else {
        Ok(())
    }
}

/// Accepts a name that holds 1 to 120 characters once trimmed.
pub fn validate_name(name: &str) -> (r: Result<(), StoreError>)
    ensures
        r == (if name_is_valid(name@) {
            Ok(())
        } else {
            Err(StoreError::InvalidName)
        }),
{
    let length: usize = trimmed_len(name);
    if !(1 <= length && length <= MAX_NAME_CHARS) {
        return Err(StoreError::InvalidName);
    }
    Ok(())
}

/// The name trimmed, when it holds 1 to 120 characters once trimmed.
pub fn normalize_name(name: &str) -> (r: Result<String, StoreError>)
    ensures
        match r {
            Ok(s) => name_is_valid(name@) && s@ == trimmed(name@),
            Err(e) => !name_is_valid(name@) && e == StoreError::InvalidName,
        },
{
    let trimmed_name = trim(name);
    proof {
        lemma_trimmed_idempotent(name@);
    }
    match validate_name(trimmed_name.as_str()) {
        Ok(()) => Ok(trimmed_name),
        Err(e) => Err(e),
    }
}

/// Whether every symbol of `id` may stand in an identifier.
fn all_id_symbols(id: &str) -> (r: bool)
    ensures
        r == (forall|i: int| 0 <= i < id@.len() ==> is_id_symbol(#[trigger] id@[i])),
        id@.len() <= usize::MAX,
{
    let chars = chars_of(id);
    let mut i: usize = 0;
    while i < chars.len()
        invariant
            chars@ == id@,
            i <= chars.len(),
            forall|j: int| 0 <= j < i ==> is_id_symbol(#[trigger] id@[j]),
        decreases chars.len() - i,
    {
        if !id_symbol(chars[i]) {
            return false;
        }
        i = i + 1;
    }
    true
}

/// Accepts an identifier that is not empty, holds at most 64 bytes, and whose
/// every symbol is an ASCII letter or digit, `-` or `_`.
pub fn valid_id(id: &str) -> (r: Result<(), StoreError>)
    ensures
        r == (if id_is_valid(id@) {
            Ok(())
        } else {
            Err(StoreError::InvalidId)
        }),
{
    let symbols_ok = all_id_symbols(id);
    assert(symbols_ok ==> id@.len() == id.spec_bytes().len()) by {
        if symbols_ok {
            assert(vstd::utf8::is_ascii_chars(id@));
        }
    }
    let byte_len: usize = id.len();
    assert(byte_len == id.spec_bytes().len() as usize);
    if id.is_empty() || byte_len > MAX_ID_BYTES || !symbols_ok {
        return Err(StoreError::InvalidId);
    }
    Ok(())
}

/// Whether some identifier of `ids` is `id`.
fn holds_id(ids: &Vec<String>, id: &String) -> (r: bool)
    ensures
        r == holds(ids@, id@),
{
    let mut j: usize = 0;
    while j < ids.len()
        invariant
            j <= ids.len(),
            forall|k: int| 0 <= k < j ==> #[trigger] ids@[k]@ != id@,
        decreases ids.len() - j,
    {
        if ids[j] == *id {
            return true;
        }
        j = j + 1;
    }
    false
}

/// Checks a board before it is stored; see `board_verdict`.
pub fn validate_board(board: &Board) -> (r: Result<(), StoreError>)
    ensures
        r == board_verdict(*board),
{
    if let Err(e) = valid_id(board.id.as_str()) {
        return Err(e);
    }
    if let Err(e) = valid_id(board.workspace_id.as_str()) {
        return Err(e);
    }
    if let Err(e) = validate_name(board.name.as_str()) {
        return Err(e);
    }
    if board.schema_version != BOARD_SCHEMA_VERSION {
        return Err(StoreError::UnsupportedBoardVersion);
    }
    let mut i: usize = 0;
    while i < board.element_order.len()
        invariant
            i <= board.element_order.len(),
            id_is_valid(board.id@),
            id_is_valid(board.workspace_id@),
            name_is_valid(board.name@),
            board.schema_version == BOARD_SCHEMA_VERSION,
            forall|k: int|
                0 <= k < i ==> holds(board.element_ids@, #[trigger] board.element_order@[k]@),
        decreases board.element_order.len() - i,
    {
        if !holds_id(&board.element_ids, &board.element_order[i]) {
            assert(!holds(board.element_ids@, board.element_order@[i as int]@));
            return Err(StoreError::UnknownElementInOrder);
        }
        i = i + 1;
    }
    Ok(())
}

} // verus!
