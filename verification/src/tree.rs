//! A directory tree as plain values, and its serialization into text blocks.

use vstd::prelude::*;

use crate::text::texts;

verus! {

/// `std::io::Error`: the error with which reading a file fails. Nothing is
/// known of what it holds.
#[verifier::external_type_specification]
#[verifier::external_body]
pub struct ExIoError(std::io::Error);

/// What came of reading a file's bytes as text.
#[derive(Debug)]
pub enum Content {
    /// The whole file, as text.
    Text(String),
    /// The file does not hold valid text.
    Unreadable,
}

/// A regular file that the walk met: its path as it is shown, and what reading
/// it gave.
#[derive(Debug)]
pub struct FileRecord {
    pub path: String,
    pub content: Content,
}

/// One entry of a directory listing.
#[derive(Debug)]
pub enum Entry {
    /// A regular file.
    File(FileRecord),
    /// A directory, with its own name (the last component of `path`) and the
    /// entries listed in it, in listing order.
    Directory { path: String, name: String, entries: Vec<Entry> },
    /// Anything that is neither a regular file nor a directory, a symbolic
    /// link among them.
    Other,
}

/// The mathematical model of a [`FileRecord`]: `text` is `None` for a file
/// whose content is not valid text.
pub struct FileView {
    pub path: Seq<char>,
    pub text: Option<Seq<char>>,
}

/// The mathematical model of an [`Entry`].
pub enum Node {
    File(FileView),
    Directory { path: Seq<char>, name: Seq<char>, children: Seq<Node> },
    Other,
}

impl View for Content {
    type V = Option<Seq<char>>;

    open spec fn view(&self) -> Option<Seq<char>> {
        match self {
            Content::Text(text) => Some(text@),
            Content::Unreadable => None,
        }
    }
}

impl View for FileRecord {
    type V = FileView;

    open spec fn view(&self) -> FileView {
        FileView { path: self.path@, text: self.content@ }
    }
}

/// The model of one entry.
pub open spec fn node_of(entry: Entry) -> Node
    decreases entry,
{
    match entry {
        Entry::File(record) => Node::File(record@),
        Entry::Directory { path, name, entries } => Node::Directory {
            path: path@,
            name: name@,
            children: Seq::new(
                entries@.len(),
                |i: int|
                    if 0 <= i < entries@.len() {
                        node_of(entries@[i])
                    } else {
                        Node::Other
                    },
            ),
        },
        Entry::Other => Node::Other,
    }
}

/// The models of the entries of a listing, in order.
pub open spec fn nodes_of(entries: Seq<Entry>) -> Seq<Node> {
    Seq::new(entries.len(), |i: int| node_of(entries[i]))
}

impl View for Entry {
    type V = Node;

    open spec fn view(&self) -> Node {
        node_of(*self)
    }
}

/// A directory name that marks the directory as hidden: it starts with a
/// period.
pub open spec fn is_hidden(name: Seq<char>) -> bool {
    name.len() > 0 && name[0] == '.'
}

/// The block of a file whose content is the text `data`.
pub open spec fn readable_block(path: Seq<char>, data: Seq<char>) -> Seq<char> {
    "File "@ + path + ":\n```\n"@ + data + "```\n"@
}

/// The block that stands for a file whose content is not valid text.
pub open spec fn unreadable_block(path: Seq<char>) -> Seq<char> {
    "File "@ + path + ": \n<unknown, failed to read UTF8>\n"@
}

/// The block of a file.
pub open spec fn file_block(file: FileView) -> Seq<char> {
    match file.text {
        Some(data) => readable_block(file.path, data),
        None => unreadable_block(file.path),
    }
}

/// The blocks that a listing serializes to: the blocks of its entries one
/// after another, in listing order.
pub open spec fn blocks(nodes: Seq<Node>) -> Seq<Seq<char>>
    decreases nodes,
{
    if nodes.len() == 0 {
        Seq::empty()
    } else {
        blocks(nodes.drop_last()) + node_blocks(nodes.last())
    }
}

/// The blocks that one entry serializes to: one block for a file, the blocks
/// of its listing for a directory that is not hidden, and none for anything
/// else.
pub open spec fn node_blocks(node: Node) -> Seq<Seq<char>>
    decreases node,
{
    match node {
        Node::File(file) => seq![file_block(file)],
        Node::Directory { name, children, .. } => if is_hidden(name) {
            Seq::empty()
        } else {
            blocks(children)
        },
        Node::Other => Seq::empty(),
    }
}

impl Content {
    /// Records what reading a whole file as text gave. A read that failed,
    /// for whatever reason, is recorded as unreadable content: it does not
    /// stop the walk.
    pub fn from_read(read: Result<String, std::io::Error>) -> (content: Content)
        ensures
            content@ == match read {
                Ok(text) => Some(text@),
                Err(_) => None,
            },
    {
        match read {
            Ok(text) => Content::Text(text),
            Err(_) => Content::Unreadable,
        }
    }
}

/// Whether `name` marks a directory as hidden.
pub fn is_hidden_name(name: &str) -> (hidden: bool)
    ensures
        hidden == is_hidden(name@),
{
    !name.is_empty() && name.get_char(0) == '.'
}

/// Formats the block of one file.
pub fn format_file(record: &FileRecord) -> (block: String)
    ensures
        block@ == file_block(record@),
{
    let mut block = String::from_str("File ");
    block.append(record.path.as_str());
    match &record.content {
        Content::Text(data) => {
            block.append(":\n```\n");
            block.append(data.as_str());
            block.append("```\n");
        },
        Content::Unreadable => {
            block.append(": \n<unknown, failed to read UTF8>\n");
        },
    }
    block
}

/// Serializes a listing: one block for each regular file, in listing order,
/// with the blocks of a directory standing where the directory is listed. A
/// hidden directory gives no block, whatever lies below it.
pub fn serialize_tree(entries: &Vec<Entry>) -> (out: Vec<String>)
    ensures
        texts(out@) == blocks(nodes_of(entries@)),
    decreases entries,
{
    let mut out: Vec<String> = Vec::new();
    let mut i: usize = 0;
    while i < entries.len()
        invariant
            i <= entries.len(),
            texts(out@) == blocks(nodes_of(entries@).take(i as int)),
        decreases entries.len() - i,
    {
        let ghost seen = nodes_of(entries@).take(i as int);
        let ghost next = nodes_of(entries@).take(i + 1);
        let ghost before = out@;
        proof {
            assert(next.drop_last() =~= seen);
            assert(blocks(next) == blocks(seen) + node_blocks(next.last()));
        }
        match &entries[i] {
            Entry::File(record) => {
                out.push(format_file(record));
                proof {
                    assert(texts(out@) =~= texts(before) + seq![file_block(record@)]);
                }
            },
            Entry::Directory { name, entries: listed, .. } => {
                if !is_hidden_name(name.as_str()) {
                    let mut below = serialize_tree(listed);
                    proof {
                        assert(next.last()->children =~= nodes_of(listed@));
                        assert(texts(before + below@) =~= texts(before) + texts(below@));
                    }
                    out.append(&mut below);
                }
            },
            Entry::Other => {},
        }
        i += 1;
    }
    proof {
        assert(nodes_of(entries@).take(entries.len() as int) =~= nodes_of(entries@));
    }
    out
}

} // verus!
