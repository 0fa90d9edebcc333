use vstd::prelude::*;

verus! {

/// A flattened syntax-tree node: its byte range `[start, end)` and kind id.
#[derive(Debug, Clone, Copy, PartialEq, Eq, Structural)]
pub struct Highlight {
    pub start: i32,
    pub end: i32,
    pub kind: u16,
}

/// One node of a syntax tree, read into plain values. The nodes of a tree
/// stand in one vector, the root first; `children` holds the positions of the
/// node's children in that vector, in document order.
#[derive(Debug, Clone, PartialEq, Eq)]
pub struct SyntaxNode {
    pub start: usize,
    pub end: usize,
    pub kind: u16,
    pub children: Vec<usize>,
}

/// Every child position of a node lies after the node and inside the vector.
pub open spec fn well_formed(nodes: Seq<SyntaxNode>) -> bool {
    forall|i: int, k: int|
        0 <= i < nodes.len() && 0 <= k < nodes[i].children@.len() ==> i
            < #[trigger] nodes[i].children@[k] < nodes.len()
}

/// The child positions of the first `n` nodes, parent by parent.
pub open spec fn listed(nodes: Seq<SyntaxNode>, n: int) -> Seq<usize>
    decreases n,
{
    if n <= 0 {
        seq![]
    } else {
        listed(nodes, n - 1) + nodes[n - 1].children@
    }
}

/// The positions `1, 2, ..., n - 1`: every position of `n` nodes but the root's.
pub open spec fn non_root_positions(n: int) -> Seq<usize> {
    Seq::new((n - 1) as nat, |p: int| (p + 1) as usize)
}

/// The nodes form one tree, the root first: each other node is the child of
/// exactly one node, and listing the children parent by parent numbers the
/// nodes level by level.
pub open spec fn is_tree(nodes: Seq<SyntaxNode>) -> bool {
    &&& nodes.len() >= 1
    &&& well_formed(nodes)
    &&& listed(nodes, nodes.len() as int) == non_root_positions(nodes.len() as int)
}

/// The listing of the first `n` nodes depends on those nodes alone.
pub proof fn listed_prefix(a: Seq<SyntaxNode>, b: Seq<SyntaxNode>, n: int)
    requires
        0 <= n <= a.len(),
        n <= b.len(),
        forall|j: int| 0 <= j < n ==> a[j] == b[j],
    ensures
        listed(a, n) == listed(b, n),
    decreases n,
{
    if n > 0 {
        listed_prefix(a, b, n - 1);
    }
}

/// The highlight of a single node.
pub open spec fn highlight_of(n: SyntaxNode) -> Highlight {
    Highlight { start: n.start as i32, end: n.end as i32, kind: n.kind }
}

/// The pre-order flattening of the subtree rooted at position `i`: the node
/// itself, then the flattening of each of its children, left to right.
pub open spec fn preorder(nodes: Seq<SyntaxNode>, i: int) -> Seq<Highlight>
    decreases nodes.len() - i, nodes[i].children@.len() + 1,
{
    if 0 <= i < nodes.len() {
        seq![highlight_of(nodes[i])] + subtrees(nodes, i, 0)
    } else {
        seq![]
    }
}

/// The flattenings of the children of node `i` from the `k`-th on, joined.
pub open spec fn subtrees(nodes: Seq<SyntaxNode>, i: int, k: int) -> Seq<Highlight>
    decreases nodes.len() - i, nodes[i].children@.len() - k,
{
    if 0 <= i < nodes.len() && 0 <= k < nodes[i].children@.len() && i
        < nodes[i].children@[k] < nodes.len() {
        preorder(nodes, nodes[i].children@[k] as int) + subtrees(nodes, i, k + 1)
    } else {
        seq![]
    }
}

/// What a work list of node positions still has to emit: the flattening of
/// its top (last) entry first, then of the rest.
pub open spec fn pending(nodes: Seq<SyntaxNode>, stack: Seq<usize>) -> Seq<Highlight>
    decreases stack.len(),
{
    if stack.len() == 0 {
        seq![]
    } else {
        preorder(nodes, stack.last() as int) + pending(nodes, stack.drop_last())
    }
}

/// A flattening opens with the root: the first highlight is the root's.
pub proof fn flattening_starts_with_root(nodes: Seq<SyntaxNode>)
    requires
        nodes.len() >= 1,
    ensures
        preorder(nodes, 0).len() >= 1,
        preorder(nodes, 0)[0] == highlight_of(nodes[0]),
{
}

/// The highlight of one node.
pub fn highlight(n: &SyntaxNode) -> (r: Highlight)
    ensures
        r == highlight_of(*n),
{
    Highlight { start: n.start as i32, end: n.end as i32, kind: n.kind }
}

/// Flattens a tree into highlights, parents before their descendants and
/// siblings left to right, with an explicit work list instead of recursion.
pub fn flatten(nodes: &Vec<SyntaxNode>) -> (r: Vec<Highlight>)
    requires
        well_formed(nodes@),
    ensures
        r@ == preorder(nodes@, 0),
{
    let mut out: Vec<Highlight> = Vec::new();
    if nodes.len() == 0 {
        return out;
    }
    let mut stack: Vec<usize> = Vec::new();
    stack.push(0);
    proof {
        assert(stack@.drop_last() =~= Seq::<usize>::empty());
        assert(pending(nodes@, stack@.drop_last()) =~= Seq::<Highlight>::empty());
        assert(pending(nodes@, stack@) =~= preorder(nodes@, 0));
    }
    while stack.len() > 0
        invariant
            well_formed(nodes@),
            forall|j: int| 0 <= j < stack@.len() ==> #[trigger] stack@[j] < nodes@.len(),
            out@ + pending(nodes@, stack@) == preorder(nodes@, 0),
        decreases pending(nodes@, stack@).len(),
    {
        let ghost before = stack@;
        let i = stack.pop().unwrap();
        let ghost base = stack@;
        proof {
            assert(base =~= before.drop_last());
            assert(pending(nodes@, before) == seq![highlight_of(nodes@[i as int])] + subtrees(
                nodes@,
                i as int,
                0,
            ) + pending(nodes@, base));
        }
        let ghost out_before = out@;
        out.push(highlight(&nodes[i]));
        let children = &nodes[i].children;
        let mut k: usize = children.len();
        while k > 0
            invariant
                well_formed(nodes@),
                i < nodes@.len(),
                *children == nodes@[i as int].children,
                k <= children@.len(),
                forall|j: int| 0 <= j < stack@.len() ==> #[trigger] stack@[j] < nodes@.len(),
                pending(nodes@, stack@) == subtrees(nodes@, i as int, k as int) + pending(
                    nodes@,
                    base,
                ),
            decreases k,
        {
            k = k - 1;
            let c = children[k];
            let ghost prev = stack@;
            stack.push(c);
            proof {
                assert(stack@.drop_last() =~= prev);
                assert(i < c < nodes@.len());
                assert(subtrees(nodes@, i as int, k as int) == preorder(nodes@, c as int) + subtrees(
                    nodes@,
                    i as int,
                    k + 1,
                ));
                assert(pending(nodes@, stack@) =~= subtrees(nodes@, i as int, k as int) + pending(
                    nodes@,
                    base,
                ));
            }
        }
        proof {
            assert(out@ =~= out_before + seq![highlight_of(nodes@[i as int])]);
            assert(out@ + pending(nodes@, stack@) =~= out_before + pending(nodes@, before));
        }
    }
    proof {
        assert(pending(nodes@, stack@) =~= Seq::<Highlight>::empty());
        assert(out@ =~= out@ + pending(nodes@, stack@));
    }
    out
}

} // verus!
