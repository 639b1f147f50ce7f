use vstd::prelude::*;

verus! {

/// A link to the next node of a list: an index into the arena that holds
/// the nodes, or none at the end.
#[derive(Copy, Clone, PartialEq, Eq, Structural, Debug)]
pub struct ListLink(pub Option<usize>);

impl ListLink {
    pub fn empty() -> (r: ListLink)
        ensures
            r.0.is_none(),
    {
        ListLink(None)
    }
}

/// A singly-linked list threaded through arena nodes by index. Nodes are
/// only ever added at the head.
pub struct List {
    head: ListLink,
    links: Vec<ListLink>,
    nodes: Ghost<Seq<usize>>,
}

impl List {
    /// The nodes in list order, head first.
    pub closed spec fn view(&self) -> Seq<usize> {
        self.nodes@
    }

    pub closed spec fn wf(&self) -> bool {
        let nodes = self.nodes@;
        &&& nodes.no_duplicates()
        &&& forall|i: int| 0 <= i < nodes.len() ==> #[trigger] nodes[i] < self.links@.len()
        &&& self.head.0 == if nodes.len() == 0 { None } else { Some(nodes[0]) }
        &&& forall|i: int|
            0 <= i < nodes.len() ==> #[trigger] self.links@[nodes[i] as int].0 == if i + 1 < nodes.len() {
                Some(nodes[i + 1])
            } else {
                None
            }
    }

    pub fn new() -> (r: List)
        ensures
            r.wf(),
            r@ == Seq::<usize>::empty(),
    {
        List { head: ListLink::empty(), links: Vec::new(), nodes: Ghost(Seq::empty()) }
    }

    pub fn head(&self) -> (r: Option<usize>)
        requires
            self.wf(),
        ensures
            r == if self@.len() == 0 { None } else { Some(self@[0]) },
    {
        self.head.0
    }

    /// Makes `node` the new head of the list.
    pub fn push_head(&mut self, node: usize)
        requires
            old(self).wf(),
            !old(self)@.contains(node),
        ensures
            final(self).wf(),
            final(self)@ == seq![node] + old(self)@,
    {
        while self.links.len() <= node
            invariant
                self.wf(),
                self@ == old(self)@,
            decreases node + 1 - self.links@.len(),
        {
            self.links.push(ListLink::empty());
        }
        let ghost before = self.nodes@;
        self.links.set(node, self.head);
        self.head = ListLink(Some(node));
        self.nodes = Ghost(seq![node] + before);
        assert forall|i: int| 0 <= i < self.nodes@.len() implies #[trigger] self.links@[self.nodes@[i] as int].0
            == if i + 1 < self.nodes@.len() { Some(self.nodes@[i + 1]) } else { None } by {
            if i > 0 {
                assert(self.nodes@[i] == before[i - 1]);
                assert(before[i - 1] != node);
            }
        }
        assert(self.nodes@.no_duplicates()) by {
            assert forall|i: int, j: int| 0 <= i < self.nodes@.len() && 0 <= j < self.nodes@.len() && i != j
                implies self.nodes@[i] != self.nodes@[j] by {
                if i > 0 && j > 0 {
                    assert(before[i - 1] != before[j - 1]);
                } else if i == 0 {
                    assert(self.nodes@[j] == before[j - 1]);
                } else {
                    assert(self.nodes@[i] == before[i - 1]);
                }
            }
        }
    }

    /// An iterator over the nodes, head first.
    pub fn iter(&self) -> (r: ListIterator)
        requires
            self.wf(),
        ensures
            r.at(self, 0),
            r.visited() == 0,
    {
        ListIterator { cur: self.head, visited: Ghost(0) }
    }
}

/// A position in a list: the next node to visit, if any.
pub struct ListIterator {
    cur: ListLink,
    visited: Ghost<nat>,
}

impl ListIterator {
    /// This iterator has visited the first `k` nodes of `list`.
    pub closed spec fn at(&self, list: &List, k: nat) -> bool {
        &&& self.visited@ == k
        &&& k <= list@.len()
        &&& self.cur.0 == if k < list@.len() { Some(list@[k as int]) } else { None }
    }

    pub closed spec fn visited(&self) -> nat {
        self.visited@
    }

    /// The next node of `list`, or `None` once all were visited.
    pub fn next(&mut self, list: &List) -> (r: Option<usize>)
        requires
            list.wf(),
            old(self).at(list, old(self).visited()),
        ensures
            old(self).visited() <= list@.len(),
            old(self).visited() < list@.len() ==> r == Some(list@[old(self).visited() as int])
                && final(self).at(list, old(self).visited() + 1) && final(self).visited() == old(self).visited() + 1,
            old(self).visited() == list@.len() ==> r.is_none() && final(self).at(list, old(self).visited())
                && final(self).visited() == old(self).visited(),
    {
        match self.cur.0 {
            Some(node) => {
                self.cur = list.links[node];
                self.visited = Ghost(self.visited@ + 1);
                Some(node)
            },
            None => None,
        }
    }
}

} // verus!
