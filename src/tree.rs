use crate::highlight::{is_tree, listed, listed_prefix, non_root_positions, SyntaxNode};
use tree_sitter::{Node, Tree};
use vstd::prelude::*;

verus! {

#[verifier::external_type_specification]
#[verifier::external_body]
pub struct ExTree(Tree);

#[verifier::external_type_specification]
#[verifier::external_body]
pub struct ExNode<'tree>(Node<'tree>);

/// Relies on tree_sitter::Tree::root_node: the root node of the tree.
pub assume_specification<'a>[ Tree::root_node ](tree: &'a Tree) -> Node<'a>;

/// Relies on tree_sitter::Node::descendant_count: the number of nodes in the
/// subtree, the node itself included.
pub assume_specification<'tree>[ Node::<'tree>::descendant_count ](node: &Node<'tree>) -> usize;

/// Relies on tree_sitter::Node::child_count: the number of children.
pub assume_specification<'tree>[ Node::<'tree>::child_count ](node: &Node<'tree>) -> usize;

/// Relies on tree_sitter::Node::child: the child at an index, if there is one.
pub assume_specification<'tree>[ Node::<'tree>::child ](node: &Node<'tree>, i: usize) -> Option<
    Node<'tree>,
>;

/// Relies on tree_sitter::Node::start_byte: where the node starts.
pub assume_specification<'tree>[ Node::<'tree>::start_byte ](node: &Node<'tree>) -> usize;

/// Relies on tree_sitter::Node::end_byte: where the node ends.
pub assume_specification<'tree>[ Node::<'tree>::end_byte ](node: &Node<'tree>) -> usize;

/// Relies on tree_sitter::Node::kind_id: the node's kind id.
pub assume_specification<'tree>[ Node::<'tree>::kind_id ](node: &Node<'tree>) -> u16;

/// Reads a syntax tree into plain nodes, root first, level by level, each
/// node's children in document order. At most as many nodes are read as the
/// root reports descendants, which is all of them.
pub fn read_tree(tree: &Tree) -> (r: Vec<SyntaxNode>)
    ensures
        is_tree(r@),
{
    let root = tree.root_node();
    let reported = root.descendant_count();
    let bound: usize = if reported < 1 {
        1
    } else {
        reported
    };
    let mut pending: Vec<Node> = Vec::new();
    pending.push(root);
    let mut nodes: Vec<SyntaxNode> = Vec::new();
    let mut i: usize = 0;
    proof {
        assert(listed(nodes@, 0) =~= non_root_positions(1));
    }
    while i < pending.len()
        invariant
            nodes@.len() == i,
            1 <= pending@.len() <= bound,
            i <= pending@.len(),
            forall|a: int, k: int|
                0 <= a < i && 0 <= k < nodes@[a].children@.len() ==> a
                    < #[trigger] nodes@[a].children@[k] < pending@.len(),
            listed(nodes@, i as int) == non_root_positions(pending@.len() as int),
        decreases bound - i,
    {
        let node = pending[i];
        let count = node.child_count();
        let mut children: Vec<usize> = Vec::new();
        let mut k: usize = 0;
        while k < count && pending.len() < bound
            invariant
                i < pending@.len() <= bound,
                k <= count,
                nodes@.len() == i,
                forall|j: int|
                    0 <= j < children@.len() ==> i < #[trigger] children@[j] < pending@.len(),
                forall|a: int, c: int|
                    0 <= a < i && 0 <= c < nodes@[a].children@.len() ==> a
                        < #[trigger] nodes@[a].children@[c] < pending@.len(),
                listed(nodes@, i as int) + children@ == non_root_positions(pending@.len() as int),
            decreases count - k,
        {
            match node.child(k) {
                Some(child) => {
                    let m = pending.len();
                    let ghost old_children = children@;
                    children.push(m);
                    pending.push(child);
                    proof {
                        let l = listed(nodes@, i as int);
                        assert(l + children@ =~= (l + old_children).push(m));
                        assert(non_root_positions(m as int).push(m) =~= non_root_positions(
                            m + 1,
                        ));
                    }
                },
                None => {},
            }
            k = k + 1;
        }
        let ghost old_nodes = nodes@;
        nodes.push(
            SyntaxNode {
                start: node.start_byte(),
                end: node.end_byte(),
                kind: node.kind_id(),
                children,
            },
        );
        proof {
            listed_prefix(old_nodes, nodes@, i as int);
        }
        i = i + 1;
    }
    nodes
}

} // verus!
