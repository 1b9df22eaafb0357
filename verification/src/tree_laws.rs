//! What holds of the serialization of every directory tree.

use vstd::prelude::*;

use crate::tree::{
    blocks, file_block, is_hidden, node_blocks, readable_block, unreadable_block, FileView, Node,
};

verus! {

/// Every regular file of a listing, at any depth and under hidden
/// directories too, in the order in which a walk meets them.
pub open spec fn files(nodes: Seq<Node>) -> Seq<FileView>
    decreases nodes,
{
    if nodes.len() == 0 {
        Seq::empty()
    } else {
        files(nodes.drop_last()) + node_files(nodes.last())
    }
}

/// Every regular file at or below one entry.
pub open spec fn node_files(node: Node) -> Seq<FileView>
    decreases node,
{
    match node {
        Node::File(file) => seq![file],
        Node::Directory { children, .. } => files(children),
        Node::Other => Seq::empty(),
    }
}

/// Whether some directory of the listing, at any depth, is hidden.
pub open spec fn has_hidden(nodes: Seq<Node>) -> bool
    decreases nodes,
{
    nodes.len() > 0 && (has_hidden(nodes.drop_last()) || node_has_hidden(nodes.last()))
}

/// Whether the entry is a hidden directory or has one below it.
pub open spec fn node_has_hidden(node: Node) -> bool
    decreases node,
{
    match node {
        Node::Directory { name, children, .. } => is_hidden(name) || has_hidden(children),
        _ => false,
    }
}

/// The listing after every hidden directory, at any depth, is taken away
/// together with all that lies below it.
pub open spec fn without_hidden(nodes: Seq<Node>) -> Seq<Node>
    decreases nodes,
{
    if nodes.len() == 0 {
        Seq::empty()
    } else {
        without_hidden(nodes.drop_last()) + node_without_hidden(nodes.last())
    }
}

/// What is left of one entry after the hidden directories are taken away:
/// nothing of a hidden directory, and otherwise the entry with its listing
/// pruned in the same way.
pub open spec fn node_without_hidden(node: Node) -> Seq<Node>
    decreases node,
{
    match node {
        Node::Directory { path, name, children } => if is_hidden(name) {
            Seq::empty()
        } else {
            seq![Node::Directory { path, name, children: without_hidden(children) }]
        },
        other => seq![other],
    }
}

/// The blocks of a listing, each formatted from its file.
pub open spec fn blocks_of_files(listed: Seq<FileView>) -> Seq<Seq<char>> {
    listed.map_values(|file: FileView| file_block(file))
}

/// Entries that are listed side by side are serialized independently: the
/// blocks of two listings put together are the blocks of the first followed
/// by the blocks of the second.
pub proof fn law_blocks_of_siblings(first: Seq<Node>, second: Seq<Node>)
    ensures
        blocks(first + second) == blocks(first) + blocks(second),
    decreases second.len(),
{
    if second.len() == 0 {
        assert(first + second =~= first);
    } else {
        law_blocks_of_siblings(first, second.drop_last());
        assert((first + second).drop_last() =~= first + second.drop_last());
        assert((first + second).last() == second.last());
    }
}

proof fn lemma_hidden_among_siblings(first: Seq<Node>, second: Seq<Node>)
    ensures
        has_hidden(first + second) == (has_hidden(first) || has_hidden(second)),
    decreases second.len(),
{
    if second.len() == 0 {
        assert(first + second =~= first);
    } else {
        lemma_hidden_among_siblings(first, second.drop_last());
        assert((first + second).drop_last() =~= first + second.drop_last());
        assert((first + second).last() == second.last());
    }
}

proof fn lemma_single(node: Node)
    ensures
        blocks(seq![node]) == node_blocks(node),
        has_hidden(seq![node]) == node_has_hidden(node),
{
    let one = seq![node];
    assert(one.drop_last() =~= Seq::<Node>::empty());
    assert(one.last() == node);
    assert(blocks(one) == blocks(one.drop_last()) + node_blocks(one.last()));
    assert(!has_hidden(one.drop_last()));
}

/// In a tree without hidden directories every regular file has exactly one
/// block: the blocks are the formatted files of the tree, one for one and in
/// walk order, so the paths that the blocks carry are the paths of the
/// files, and a file that holds text has its path and its text in its block.
pub proof fn law_one_block_per_file(nodes: Seq<Node>)
    requires
        !has_hidden(nodes),
    ensures
        blocks(nodes) == blocks_of_files(files(nodes)),
        blocks(nodes).len() == files(nodes).len(),
        forall|i: int|
            0 <= i < files(nodes).len() ==> #[trigger] blocks(nodes)[i] == file_block(
                files(nodes)[i],
            ),
        forall|i: int|
            0 <= i < files(nodes).len() && files(nodes)[i].text is Some ==> #[trigger] blocks(
                nodes,
            )[i] == readable_block(files(nodes)[i].path, files(nodes)[i].text->0),
    decreases nodes,
{
    if nodes.len() > 0 {
        law_one_block_per_file(nodes.drop_last());
        lemma_one_block_per_file_below(nodes.last());
        assert(blocks_of_files(files(nodes)) =~= blocks_of_files(files(nodes.drop_last()))
            + blocks_of_files(node_files(nodes.last())));
    }
}

proof fn lemma_one_block_per_file_below(node: Node)
    requires
        !node_has_hidden(node),
    ensures
        node_blocks(node) == blocks_of_files(node_files(node)),
    decreases node,
{
    match node {
        Node::File(file) => {
            assert(node_blocks(node) =~= blocks_of_files(node_files(node)));
        },
        Node::Directory { children, .. } => {
            law_one_block_per_file(children);
        },
        Node::Other => {
            assert(node_blocks(node) =~= blocks_of_files(node_files(node)));
        },
    }
}

/// A hidden directory is left out whole, at whatever depth it lies: the
/// blocks of a tree are the blocks of the tree without its hidden
/// directories, which are the formatted files of what is left, one for one.
pub proof fn law_hidden_directories_excluded(nodes: Seq<Node>)
    ensures
        !has_hidden(without_hidden(nodes)),
        blocks(nodes) == blocks(without_hidden(nodes)),
        blocks(nodes) == blocks_of_files(files(without_hidden(nodes))),
    decreases nodes,
{
    if nodes.len() > 0 {
        let kept = without_hidden(nodes.drop_last());
        let last = node_without_hidden(nodes.last());
        law_hidden_directories_excluded(nodes.drop_last());
        lemma_hidden_directories_excluded_below(nodes.last());
        law_blocks_of_siblings(kept, last);
        lemma_hidden_among_siblings(kept, last);
    }
    law_one_block_per_file(without_hidden(nodes));
}

proof fn lemma_hidden_directories_excluded_below(node: Node)
    ensures
        !has_hidden(node_without_hidden(node)),
        blocks(node_without_hidden(node)) == node_blocks(node),
    decreases node,
{
    match node {
        Node::Directory { path, name, children } => {
            if !is_hidden(name) {
                law_hidden_directories_excluded(children);
                lemma_single(Node::Directory { path, name, children: without_hidden(children) });
            }
        },
        _ => {
            lemma_single(node);
        },
    }
}

/// A hidden directory adds nothing to the listing it stands in, whatever it
/// holds: with or without it, the blocks are the same.
pub proof fn law_hidden_directory_adds_nothing(
    before: Seq<Node>,
    path: Seq<char>,
    name: Seq<char>,
    children: Seq<Node>,
    after: Seq<Node>,
)
    requires
        is_hidden(name),
    ensures
        blocks(before + seq![Node::Directory { path, name, children }] + after) == blocks(
            before + after,
        ),
{
    let hidden = Node::Directory { path, name, children };
    lemma_single(hidden);
    law_blocks_of_siblings(before, seq![hidden]);
    law_blocks_of_siblings(before + seq![hidden], after);
    law_blocks_of_siblings(before, after);
}

/// A file whose content is not valid text gives the fixed placeholder block
/// in its place, and the entries listed before and after it are serialized
/// as they are without it.
pub proof fn law_unreadable_file_keeps_siblings(
    before: Seq<Node>,
    path: Seq<char>,
    after: Seq<Node>,
)
    ensures
        blocks(before + seq![Node::File(FileView { path, text: None })] + after) == blocks(before)
            + seq![unreadable_block(path)] + blocks(after),
{
    let file = Node::File(FileView { path, text: None });
    lemma_single(file);
    law_blocks_of_siblings(before, seq![file]);
    law_blocks_of_siblings(before + seq![file], after);
}

} // verus!
