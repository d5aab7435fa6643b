//! The shell data model exchanged between the server and its clients.

use vstd::prelude::*;

verus! {

/// An arbitrary JSON value (command arguments, environment values, output).
#[verifier::external_type_specification]
#[verifier::external_body]
pub struct ExJsonValue(serde_json::Value);

/// A file system path, carried through unchanged.
#[verifier::external_type_specification]
#[verifier::external_body]
pub struct ExPathBuf(std::path::PathBuf);

/// Identifies a shell.
pub struct ShellID(pub u32);

/// Identifies a card.
pub struct CardID(pub u32);

/// Whether a card's output is fixed, or refreshed with the given period.
pub enum Liveness {
    Static,
    Period(core::time::Duration),
}

/// Metadata, normalized across card types.
pub struct CardMeta {
    pub live: Liveness,
}

/// Invocation of a shell command (ls, echo, etc.).  Arguments and
/// environment values may be arbitrary values, not only strings.
pub struct Command {
    /// Client-side class or function name.
    pub name: String,
    pub argv: serde_json::Value,
    pub env: std::collections::HashMap<String, serde_json::Value>,
    pub wd: std::path::PathBuf,
}

/// A UI card: a command, its metadata, and its strictly evaluated output.
pub struct Card {
    pub id: CardID,
    pub command: Command,
    pub meta: CardMeta,
    pub output: serde_json::Value,
}

/// A column of cards, by identifier.
pub struct Column {
    pub cards: Vec<CardID>,
}

/// A shell: its history of cards and its columns.
pub struct Shell {
    pub id: ShellID,
    pub name: String,
    pub history: Vec<Card>,
    pub columns: Vec<Column>,
}

} // verus!
