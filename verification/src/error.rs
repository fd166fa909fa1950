//! The ways in which a request to the store is refused.
use vstd::prelude::*;

verus! {

/// Why the store refused a request.
#[derive(Debug, Clone, Copy, PartialEq, Eq, Structural)]
pub enum StoreError {
    /// No workspace of the index has the identifier asked for.
    WorkspaceNotFound,
    /// An identifier is empty, longer than 64 bytes, or holds a symbol other
    /// than an ASCII letter or digit, `-` or `_`.
    InvalidId,
    /// A name holds fewer than 1 or more than 120 characters once trimmed.
    InvalidName,
    /// A board carries a schema version other than the supported one.
    UnsupportedBoardVersion,
    /// A board's element order names an element that the board does not hold.
    UnknownElementInOrder,
    /// A stored board belongs to another workspace, or carries another identifier.
    BoardNotInWorkspace,
}

impl StoreError {
    /// The text shown to the user for this refusal.
    pub open spec fn text(self) -> Seq<char> {
        match self {
            StoreError::WorkspaceNotFound => "Workspace não encontrado."@,
            StoreError::InvalidId => "Identificador inválido."@,
            StoreError::InvalidName => "O nome deve ter entre 1 e 120 caracteres."@,
            StoreError::UnsupportedBoardVersion => "A versão do board não é suportada."@,
            StoreError::UnknownElementInOrder => "A ordem dos elementos referencia itens inexistentes."@,
            StoreError::BoardNotInWorkspace => "O board não pertence ao workspace informado."@,
        }
    }

    /// The text shown to the user for this refusal.
    pub fn message(&self) -> (r: String)
        ensures
            r@ == self.text(),
    {
        match self {
            StoreError::WorkspaceNotFound => "Workspace não encontrado.".to_owned(),
            StoreError::InvalidId => "Identificador inválido.".to_owned(),
            StoreError::InvalidName => "O nome deve ter entre 1 e 120 caracteres.".to_owned(),
            StoreError::UnsupportedBoardVersion => "A versão do board não é suportada.".to_owned(),
            StoreError::UnknownElementInOrder => "A ordem dos elementos referencia itens inexistentes.".to_owned(),
            StoreError::BoardNotInWorkspace => "O board não pertence ao workspace informado.".to_owned(),
        }
    }
}

} // verus!
