//! What a walk does with each entry that a directory listing yields.

use vstd::prelude::*;

use crate::tree::{blocks, is_hidden, is_hidden_name, node_blocks, Node};

verus! {

/// What an entry of a listing is. A symbolic link is taken for itself, not
/// for what it points to.
#[derive(Debug)]
pub enum EntryKind {
    /// A regular file.
    File,
    /// A directory whose last path component is `name`.
    Directory { name: String },
    /// Neither of the two: a symbolic link, a device, a socket.
    Other,
}

/// What the walk does with an entry.
#[derive(Debug, Clone, Copy, PartialEq, Eq, Structural)]
pub enum Visit {
    /// Read the file and record it.
    Read,
    /// List the directory and walk its entries.
    Descend,
    /// Leave the hidden directory unread and say so.
    Skip,
    /// Pass over the entry in silence.
    Ignore,
}

/// The visit that each kind of entry gets.
pub open spec fn visit_for(kind: EntryKind) -> Visit {
    match kind {
        EntryKind::File => Visit::Read,
        EntryKind::Directory { name } => if is_hidden(name@) {
            Visit::Skip
        } else {
            Visit::Descend
        },
        EntryKind::Other => Visit::Ignore,
    }
}

/// The line that reports a hidden directory that was left unread.
pub open spec fn skip_notice_text(path: Seq<char>) -> Seq<char> {
    "Skipping hidden directory "@ + path + "!"@
}

/// Decides what the walk does with an entry of the given kind.
pub fn plan_visit(kind: &EntryKind) -> (visit: Visit)
    ensures
        visit == visit_for(*kind),
{
    match kind {
        EntryKind::File => Visit::Read,
        EntryKind::Directory { name } => {
            if is_hidden_name(name.as_str()) {
                Visit::Skip
            } else {
                Visit::Descend
            }
        },
        EntryKind::Other => Visit::Ignore,
    }
}

/// The line to print for a hidden directory, shown by its path, that the
/// walk leaves unread.
pub fn skip_notice(path: &str) -> (line: String)
    ensures
        line@ == skip_notice_text(path@),
{
    let mut line = String::from_str("Skipping hidden directory ");
    line.append(path);
    line.append("!");
    line
}

/// The kind under which a walk meets the entry that `node` models.
pub open spec fn kind_matches(kind: EntryKind, node: Node) -> bool {
    match kind {
        EntryKind::File => node is File,
        EntryKind::Directory { name } => node matches Node::Directory { name: own, .. } && own
            == name@,
        EntryKind::Other => node is Other,
    }
}

/// The plan for an entry and the serialization of a tree agree: a file that
/// is read gives one block, a directory that is walked gives the blocks of
/// its listing, and an entry that is skipped or ignored gives none.
pub proof fn law_visit_agrees_with_blocks(kind: EntryKind, node: Node)
    requires
        kind_matches(kind, node),
    ensures
        match visit_for(kind) {
            Visit::Read => node_blocks(node).len() == 1,
            Visit::Descend => node_blocks(node) == blocks(node->children),
            Visit::Skip | Visit::Ignore => node_blocks(node).len() == 0,
        },
{
}

} // verus!
