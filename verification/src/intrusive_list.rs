//! A circular doubly-linked list with a head node and any number of leaves.
//!
//! Every list has exactly one *head* node and zero or more *leaf* nodes.  The
//! head carries a value that all leaves share, each leaf carries a value of its
//! own, and a leaf is either *linked* into the ring that runs through the head
//! or not linked at all.
//!
//! Nodes are known by number: the head is [`HEAD`], and
//! [`new_leaf`](IntrusiveListGuard::new_leaf) hands out the numbers of the
//! leaves.  Linking and unlinking a leaf takes constant time and moves no value.
//! All operations go through an [`IntrusiveListGuard`], which stands for
//! exclusive access to one list; whoever shares a list between threads keeps
//! the guard behind a lock.

use vstd::prelude::*;

verus! {

/// The number of the head node of every list.
pub const HEAD: usize = 0;

/// The value that a leaf carries, which also fixes what the head carries.
pub trait IntrusiveNodeValue: Sized {
    /// The value stored in the head node.
    type HeadValue;
}

/// A link from one node to another, or to none.
#[derive(Debug, Clone, Copy)]
struct NodeLink {
    target: Option<usize>,
}

impl NodeLink {
    /// Creates a link to no node.
    fn new() -> (link: NodeLink)
        ensures
            link.target is None,
    {
        NodeLink { target: None }
    }

    /// Returns the node that the link leads to, if any.
    fn get(&self) -> (target: Option<usize>)
        ensures
            target == self.target,
    {
        self.target
    }

    /// Makes the link lead to `node`.
    fn set(&mut self, node: usize)
        ensures
            final(self).target == Some(node),
    {
        self.target = Some(node);
    }

    /// Returns `true` if the link leads nowhere.
    fn is_null(&self) -> (null: bool)
        ensures
            null == (self.target is None),
    {
        self.target.is_none()
    }

    /// Makes the link lead nowhere.
    fn clear(&mut self)
        ensures
            final(self).target is None,
    {
        self.target = None;
    }
}

/// A list node: a value and the links to its two neighbours in the ring.
#[derive(Debug)]
pub struct IntrusiveListNode<T> {
    typ: T,
    prev: NodeLink,
    next: NodeLink,
}

impl<T> IntrusiveListNode<T> {
    /// The value that the node carries.
    pub closed spec fn value(&self) -> T {
        self.typ
    }

    /// The node is part of a ring: it has a neighbour on both sides.
    pub closed spec fn linked(&self) -> bool {
        self.prev.target is Some && self.next.target is Some
    }

    /// The node has no neighbour on either side.
    pub closed spec fn detached(&self) -> bool {
        self.prev.target is None && self.next.target is None
    }

    /// Creates a new, unlinked node that carries `typ`.
    pub fn new(typ: T) -> (node: IntrusiveListNode<T>)
        ensures
            node.value() == typ,
            node.detached(),
            !node.linked(),
    {
        IntrusiveListNode { typ, prev: NodeLink::new(), next: NodeLink::new() }
    }

    /// Returns `true` if this node is currently part of a ring.
    pub fn is_linked(&self) -> (linked: bool)
        ensures
            linked == self.linked(),
    {
        !self.prev.is_null() && !self.next.is_null()
    }
}

/// Holds of every leaf but `id`.
pub open spec fn other_than(id: usize) -> spec_fn(usize) -> bool {
    |other: usize| other != id
}

/// Holds of the leaves in `ids`.
pub open spec fn one_of(ids: Seq<usize>) -> spec_fn(usize) -> bool {
    |id: usize| ids.contains(id)
}

/// Holds of the leaves that are not in `ids`.
pub open spec fn none_of(ids: Seq<usize>) -> spec_fn(usize) -> bool {
    |id: usize| !ids.contains(id)
}

/// The node at position `i` of a ring; the head is at position 0.
spec fn node_at(ring: Seq<usize>, i: int) -> usize {
    if i <= 0 {
        HEAD
    } else {
        ring[i - 1]
    }
}

spec fn node_after(ring: Seq<usize>, i: int) -> usize {
    if i < ring.len() {
        node_at(ring, i + 1)
    } else {
        HEAD
    }
}

spec fn node_before(ring: Seq<usize>, i: int) -> usize {
    if i > 0 {
        node_at(ring, i - 1)
    } else {
        node_at(ring, ring.len() as int)
    }
}

/// The links of the node at position `i` lead to its neighbours in the ring.
spec fn stitched<T>(nodes: Seq<IntrusiveListNode<T>>, ring: Seq<usize>, i: int) -> bool {
    &&& nodes[node_at(ring, i) as int].next.target == Some(node_after(ring, i))
    &&& nodes[node_at(ring, i) as int].prev.target == Some(node_before(ring, i))
}

spec fn loose<T>(nodes: Seq<IntrusiveListNode<T>>, id: usize) -> bool {
    nodes[id as int].detached()
}

/// The links of all nodes agree with `ring`, the linked leaves in order.
spec fn ring_wf<T>(nodes: Seq<IntrusiveListNode<T>>, ring: Seq<usize>) -> bool {
    &&& ring.no_duplicates()
    &&& forall|i: int| 0 <= i < ring.len() ==> HEAD < #[trigger] ring[i] < nodes.len()
    &&& forall|id: usize|
        HEAD < id < nodes.len() && !ring.contains(id) ==> #[trigger] loose(nodes, id)
    &&& if nodes[HEAD as int].linked() {
        forall|i: int| 0 <= i <= ring.len() ==> #[trigger] stitched(nodes, ring, i)
    } else {
        ring.len() == 0 && loose(nodes, HEAD)
    }
}

spec fn same_links<T>(
    nodes: Seq<IntrusiveListNode<T>>,
    others: Seq<IntrusiveListNode<T>>,
) -> bool {
    &&& nodes.len() == others.len()
    &&& forall|i: int|
        0 <= i < nodes.len() ==> nodes[i].next == (#[trigger] others[i]).next && nodes[i].prev
            == others[i].prev
}

/// The ring that the links of all nodes agree with.
spec fn ring_of<T>(nodes: Seq<IntrusiveListNode<T>>) -> Seq<usize> {
    choose|ring: Seq<usize>| ring_wf(nodes, ring)
}

/// Links agree with one ring at most, so that the links alone say which.
proof fn lemma_ring_of<T>(nodes: Seq<IntrusiveListNode<T>>, ring: Seq<usize>)
    requires
        ring_wf(nodes, ring),
    ensures
        ring_of(nodes) == ring,
{
    let other = ring_of(nodes);
    assert(ring_wf(nodes, other));
    if nodes[HEAD as int].linked() {
        lemma_same_walk(nodes, ring, other, ring.len() as int);
        lemma_same_walk(nodes, ring, other, other.len() as int);
        assert forall|i: int| 0 <= i < ring.len() implies ring[i] == other[i] by {
            lemma_same_walk(nodes, ring, other, i + 1);
            assert(node_at(ring, i + 1) == node_at(other, i + 1));
        }
        assert(stitched(nodes, ring, ring.len() as int));
        assert(stitched(nodes, other, ring.len() as int));
    }
    assert(ring =~= other);
}

/// Two rings that the same links agree with are equal up to position `i`.
proof fn lemma_same_walk<T>(
    nodes: Seq<IntrusiveListNode<T>>,
    ring: Seq<usize>,
    other: Seq<usize>,
    i: int,
)
    requires
        nodes[HEAD as int].linked(),
        ring_wf(nodes, ring),
        ring_wf(nodes, other),
        0 <= i,
        i <= ring.len() || i <= other.len(),
    ensures
        i <= ring.len(),
        i <= other.len(),
        node_at(ring, i) == node_at(other, i),
    decreases i,
{
    if i > 0 {
        lemma_same_walk(nodes, ring, other, i - 1);
        assert(stitched(nodes, ring, i - 1));
        assert(stitched(nodes, other, i - 1));
        assert(node_after(ring, i - 1) == node_after(other, i - 1));
    }
}

/// Whether links agree with a ring does not depend on what the nodes carry.
proof fn lemma_same_links<T>(
    nodes: Seq<IntrusiveListNode<T>>,
    others: Seq<IntrusiveListNode<T>>,
    ring: Seq<usize>,
)
    requires
        nodes.len() > 0,
        ring_wf(nodes, ring),
        same_links(nodes, others),
    ensures
        ring_wf(others, ring),
        ring_of(others) == ring,
{
    assert(nodes[0].next == others[0].next && nodes[0].prev == others[0].prev);
    assert forall|id: usize| HEAD < id < others.len() && !ring.contains(id) implies #[trigger] loose(
        others,
        id,
    ) by {
        assert(loose(nodes, id));
        assert(nodes[id as int].next == others[id as int].next);
    }
    assert forall|i: int|
        nodes[HEAD as int].linked() && 0 <= i <= ring.len() implies #[trigger] stitched(
        others,
        ring,
        i,
    ) by {
        assert(stitched(nodes, ring, i));
        assert(nodes[node_at(ring, i) as int].next == others[node_at(ring, i) as int].next);
    }
    if !nodes[HEAD as int].linked() {
        assert(loose(nodes, HEAD));
    }
    lemma_ring_of(others, ring);
}

/// Different positions of a ring hold different nodes.
proof fn lemma_positions<T>(nodes: Seq<IntrusiveListNode<T>>, ring: Seq<usize>)
    requires
        ring_wf(nodes, ring),
    ensures
        forall|i: int, j: int|
            0 <= i <= ring.len() && 0 <= j <= ring.len() && #[trigger] node_at(ring, i)
                == #[trigger] node_at(ring, j) ==> i == j,
{
}

/// Taking out what is not there changes nothing.
pub(crate) proof fn lemma_without_absent(ids: Seq<usize>, id: usize)
    requires
        !ids.contains(id),
    ensures
        ids.filter(other_than(id)) == ids,
{
    let differs = other_than(id);
    assert forall|i: int| 0 <= i < ids.len() implies differs(#[trigger] ids[i]) by {
        assert(ids.contains(ids[i]));
    }
    crate::seq_facts::lemma_filter_all(ids, differs);
}

/// Taking out an element that occurs once takes out its position.
proof fn lemma_without_one(ids: Seq<usize>, k: int)
    requires
        ids.no_duplicates(),
        0 <= k < ids.len(),
    ensures
        ids.filter(other_than(ids[k])) == ids.remove(k),
{
    crate::seq_facts::lemma_filter_out_one(ids, k);
    crate::seq_facts::lemma_filter_agree(
        ids,
        other_than(ids[k]),
        |other: usize| other != ids[k],
    );
}

/// Taking out an element that occurs once joins what is before and after it.
proof fn lemma_without_middle(front: Seq<usize>, id: usize, back: Seq<usize>)
    requires
        (front + (seq![id] + back)).no_duplicates(),
    ensures
        (front + (seq![id] + back)).filter(other_than(id)) == front + back,
{
    let all = front + (seq![id] + back);
    assert(all[front.len() as int] == id);
    lemma_without_one(all, front.len() as int);
    assert(all.remove(front.len() as int) =~= front + back);
}

/// How the split of the first `done` elements into those that are gone and those
/// that are not grows by one element.
proof fn lemma_split_step(ids: Seq<usize>, done: int, gone: Seq<usize>)
    requires
        ids.no_duplicates(),
        0 <= done < ids.len(),
        gone == ids.take(done).filter(one_of(gone)),
    ensures
        !gone.contains(ids[done]),
        ids.take(done + 1).filter(none_of(gone)) == ids.take(done).filter(none_of(gone)).push(ids[done]),
        ids.take(done + 1).filter(one_of(gone)) == gone,
        ids.take(done + 1).filter(none_of(gone.push(ids[done]))) == ids.take(done).filter(none_of(gone)),
        ids.take(done + 1).filter(one_of(gone.push(ids[done]))) == gone.push(ids[done]),
{
    let id = ids[done];
    let front = ids.take(done);
    let more = gone.push(id);
    let out = none_of(gone);
    let inn = one_of(gone);
    let out_more = none_of(more);
    let inn_more = one_of(more);
    assert(ids.take(done + 1) =~= front.push(id));
    crate::seq_facts::lemma_filter_members(front, inn);
    assert(!front.contains(id));
    assert(!front.filter(one_of(gone)).contains(id));
    crate::seq_facts::lemma_push_members(gone, id, id);
    assert forall|i: int| 0 <= i < front.len() implies out(#[trigger] front[i]) == out_more(
        front[i],
    ) && inn(front[i]) == inn_more(front[i]) by {
        crate::seq_facts::lemma_push_members(gone, id, front[i]);
        assert(front[i] == ids[i]);
    }
    crate::seq_facts::lemma_filter_agree(front, out, out_more);
    crate::seq_facts::lemma_filter_agree(front, inn, inn_more);
    crate::seq_facts::lemma_filter_push(front, id, out);
    crate::seq_facts::lemma_filter_push(front, id, inn);
    crate::seq_facts::lemma_filter_push(front, id, out_more);
    crate::seq_facts::lemma_filter_push(front, id, inn_more);
}

/// Exclusive access to one list: the head's value and every node.
#[derive(Debug)]
pub struct IntrusiveListGuard<V: IntrusiveNodeValue> {
    head: V::HeadValue,
    // Slot `HEAD` is the head node, which has no leaf value.  Any other slot is
    // a leaf, or vacant and listed in `vacant`.
    nodes: Vec<IntrusiveListNode<Option<V>>>,
    vacant: Vec<usize>,
}

impl<V: IntrusiveNodeValue> IntrusiveListGuard<V> {
    /// The value of the head node.
    pub closed spec fn head_value(&self) -> V::HeadValue {
        self.head
    }

    /// The leaves of the list by number, linked or not, with their values.
    pub closed spec fn leaves(&self) -> Map<usize, V> {
        Map::new(
            |id: usize| id < self.nodes@.len() && self.nodes@[id as int].typ is Some,
            |id: usize| self.nodes@[id as int].typ->0,
        )
    }

    /// The linked leaves, in the order in which the list is walked.
    pub closed spec fn order(&self) -> Seq<usize> {
        ring_of(self.nodes@)
    }

    /// The head is part of the ring, which it joins when a leaf is first linked.
    pub closed spec fn head_linked(&self) -> bool {
        self.nodes@[HEAD as int].linked()
    }

    spec fn slots_wf(&self) -> bool {
        &&& self.nodes@.len() > 0
        &&& self.nodes@[HEAD as int].typ is None
        &&& self.vacant@.no_duplicates()
        &&& forall|i: int|
            0 <= i < self.vacant@.len() ==> HEAD < #[trigger] self.vacant@[i] < self.nodes@.len()
                && self.nodes@[self.vacant@[i] as int].typ is None
        &&& forall|i: int|
            0 <= i < self.order().len() ==> self.nodes@[#[trigger] self.order()[i] as int].typ is Some
    }

    /// The list is well formed: the links of every node agree with the ring.
    pub closed spec fn wf(&self) -> bool {
        self.slots_wf() && ring_wf(self.nodes@, self.order())
    }

    /// The linked leaves are leaves, each linked once, and none is the head.
    pub proof fn order_wf(&self)
        requires
            self.wf(),
        ensures
            self.order().no_duplicates(),
            forall|i: int|
                0 <= i < self.order().len() ==> self.leaves().contains_key(
                    #[trigger] self.order()[i],
                ),
            !self.leaves().contains_key(HEAD),
            !self.head_linked() ==> self.order().len() == 0,
    {
    }

    /// Creates a list with no leaves, whose head carries `head`.
    pub fn new(head: V::HeadValue) -> (list: IntrusiveListGuard<V>)
        ensures
            list.wf(),
            list.head_value() == head,
            list.leaves() == Map::<usize, V>::empty(),
            list.order() == Seq::<usize>::empty(),
            !list.head_linked(),
    {
        let mut nodes: Vec<IntrusiveListNode<Option<V>>> = Vec::new();
        nodes.push(IntrusiveListNode::new(None));
        let list = IntrusiveListGuard { head, nodes, vacant: Vec::new() };
        proof {
            lemma_ring_of(list.nodes@, Seq::empty());
            assert(list.leaves() =~= Map::<usize, V>::empty());
        }
        list
    }

    /// Returns the value of the head node.
    pub fn head(&self) -> (value: &V::HeadValue)
        ensures
            *value == self.head_value(),
    {
        &self.head
    }

    /// Returns the value of the head node, to be changed in place.
    pub fn head_mut(&mut self) -> (value: &mut V::HeadValue)
        requires
            old(self).wf(),
        ensures
            *value == old(self).head_value(),
            final(self).head_value() == *final(value),
            final(self).wf(),
            final(self).leaves() == old(self).leaves(),
            final(self).order() == old(self).order(),
            final(self).head_linked() == old(self).head_linked(),
    {
        &mut self.head
    }

    /// Returns `true` if the head node, or the leaf with the number `id`, is
    /// currently linked.
    pub fn is_linked(&self, id: usize) -> (linked: bool)
        requires
            self.wf(),
            id == HEAD || self.leaves().contains_key(id),
        ensures
            id == HEAD ==> linked == self.head_linked(),
            id != HEAD ==> linked == self.order().contains(id),
    {
        proof {
            if id != HEAD && self.order().contains(id) {
                let i = choose|i: int| 0 <= i < self.order().len() && self.order()[i] == id;
                assert(stitched(self.nodes@, self.order(), i + 1));
            } else if id != HEAD {
                assert(loose(self.nodes@, id));
            }
        }
        self.nodes[id].is_linked()
    }

    /// Returns `true` if `id` is the number of a leaf of this list.
    pub fn is_leaf(&self, id: usize) -> (leaf: bool)
        ensures
            leaf == self.leaves().contains_key(id),
    {
        id < self.nodes.len() && self.nodes[id].typ.is_some()
    }

    /// Returns the value of a leaf.
    pub fn get(&self, id: usize) -> (value: &V)
        requires
            self.leaves().contains_key(id),
        ensures
            *value == self.leaves()[id],
    {
        match &self.nodes[id].typ {
            Some(value) => value,
            None => {
                assert(false);
                vstd::pervasive::unreached()
            },
        }
    }

    /// Returns the value of a leaf, to be changed in place.
    pub fn get_mut(&mut self, id: usize) -> (value: &mut V)
        requires
            old(self).wf(),
            old(self).leaves().contains_key(id),
        ensures
            *value == old(self).leaves()[id],
            final(self).wf(),
            final(self).leaves() == old(self).leaves().insert(id, *final(value)),
            final(self).order() == old(self).order(),
            final(self).head_value() == old(self).head_value(),
            final(self).head_linked() == old(self).head_linked(),
    {
        proof {
            let nodes = self.nodes@;
            let ring = self.order();
            assert forall|others: Seq<IntrusiveListNode<Option<V>>>|
                same_links(nodes, others) implies ring_wf(others, ring) && #[trigger] ring_of(
                others,
            ) == ring by {
                lemma_same_links(nodes, others, ring);
            }
        }
        match &mut self.nodes[id].typ {
            Some(value) => value,
            None => {
                assert(false);
                vstd::pervasive::unreached()
            },
        }
    }

    /// Adds a leaf that carries `typ`, and returns its number.  The leaf is not
    /// linked.
    pub fn new_leaf(&mut self, typ: V) -> (id: usize)
        requires
            old(self).wf(),
        ensures
            final(self).wf(),
            id != HEAD,
            !old(self).leaves().contains_key(id),
            final(self).leaves() == old(self).leaves().insert(id, typ),
            final(self).order() == old(self).order(),
            !final(self).order().contains(id),
            final(self).head_value() == old(self).head_value(),
            final(self).head_linked() == old(self).head_linked(),
    {
        let ghost nodes = self.nodes@;
        let ghost ring = self.order();
        let id: usize = match self.vacant.pop() {
            Some(id) => {
                assert(old(self).vacant@[old(self).vacant@.len() - 1] == id);
                assert(!ring.contains(id));
                self.nodes[id].typ = Some(typ);
                proof {
                    lemma_same_links(nodes, self.nodes@, ring);
                }
                id
            },
            None => {
                let id: usize = self.nodes.len();
                assert(!ring.contains(id));
                self.nodes.push(IntrusiveListNode::new(Some(typ)));
                proof {
                    assert forall|n: usize|
                        HEAD < n < self.nodes@.len() && !ring.contains(
                            n,
                        ) implies #[trigger] loose(self.nodes@, n) by {
                        if n < nodes.len() {
                            assert(loose(nodes, n));
                        }
                    }
                    assert forall|i: int|
                        nodes[HEAD as int].linked() && 0 <= i
                            <= ring.len() implies #[trigger] stitched(
                        self.nodes@,
                        ring,
                        i,
                    ) by {
                        assert(stitched(nodes, ring, i));
                    }
                    if !nodes[HEAD as int].linked() {
                        assert(loose(nodes, HEAD));
                    }
                    lemma_ring_of(self.nodes@, ring);
                }
                id
            },
        };
        assert(self.leaves() =~= old(self).leaves().insert(id, typ));
        id
    }

    /// Links a leaf into this list at the tail, just before the head, if it is
    /// not already linked.
    pub fn link(&mut self, id: usize)
        requires
            old(self).wf(),
            old(self).leaves().contains_key(id),
        ensures
            final(self).wf(),
            final(self).order() == if old(self).order().contains(id) {
                old(self).order()
            } else {
                old(self).order().push(id)
            },
            final(self).head_linked() == (old(self).head_linked() || !old(self).order().contains(
                id,
            )),
            final(self).leaves() == old(self).leaves(),
            final(self).head_value() == old(self).head_value(),
    {
        if self.is_linked(id) {
            return;
        }
        let ghost ring = self.order();
        // The head joins its own ring the first time a leaf is linked.
        if !self.nodes[HEAD].is_linked() {
            self.nodes[HEAD].next.set(HEAD);
            self.nodes[HEAD].prev.set(HEAD);
            assert(stitched(self.nodes@, ring, 0));
        }
        let ghost joined = self.nodes@;
        assert(stitched(joined, ring, 0));
        let tail: usize = match self.nodes[HEAD].prev.get() {
            Some(tail) => tail,
            None => {
                assert(false);
                HEAD
            },
        };
        self.nodes[tail].next.set(id);
        self.nodes[id].prev.set(tail);
        self.nodes[id].next.set(HEAD);
        self.nodes[HEAD].prev.set(id);
        proof {
            let longer = ring.push(id);
            lemma_positions(old(self).nodes@, ring);
            assert forall|i: int| 0 <= i <= longer.len() implies #[trigger] stitched(
                self.nodes@,
                longer,
                i,
            ) by {
                if i < longer.len() {
                    assert(stitched(joined, ring, i)) by {
                        if old(self).nodes@[HEAD as int].linked() {
                            assert(stitched(old(self).nodes@, ring, i));
                        }
                    }
                    assert(node_at(longer, i) == node_at(ring, i));
                }
                assert(node_at(ring, ring.len() as int) == tail);
            }
            assert forall|n: usize|
                HEAD < n < self.nodes@.len() && !longer.contains(n) implies #[trigger] loose(
                self.nodes@,
                n,
            ) by {
                crate::seq_facts::lemma_push_members(ring, id, n);
                assert(loose(old(self).nodes@, n));
                assert(n != tail) by {
                    if ring.len() > 0 {
                        assert(ring[ring.len() - 1] == tail);
                    }
                }
            }
            lemma_ring_of(self.nodes@, longer);
            assert(self.leaves() =~= old(self).leaves());
        }
    }

    /// Stitches the neighbours of a linked leaf together, bypassing it.
    fn unlink_leaf(&mut self, id: usize)
        requires
            old(self).wf(),
            old(self).order().contains(id),
        ensures
            final(self).wf(),
            final(self).order() == old(self).order().filter(other_than(id)),
            final(self).order().len() == old(self).order().len() - 1,
            final(self).head_linked() == old(self).head_linked(),
            final(self).leaves() == old(self).leaves(),
            final(self).head_value() == old(self).head_value(),
    {
        let ghost nodes = self.nodes@;
        let ghost ring = self.order();
        let ghost k = choose|k: int| 0 <= k < ring.len() && ring[k] == id;
        proof {
            assert(node_at(ring, k + 1) == id);
            assert(stitched(nodes, ring, k + 1));
            lemma_positions(nodes, ring);
        }
        if let (Some(prev), Some(next)) = (self.nodes[id].prev.get(), self.nodes[id].next.get()) {
            assert(prev == node_at(ring, k));
            assert(next == node_after(ring, k + 1));
            self.nodes[prev].next.set(next);
            self.nodes[next].prev.set(prev);
        }
        self.nodes[id].prev.clear();
        self.nodes[id].next.clear();
        proof {
            let shorter = ring.remove(k);
            lemma_without_one(ring, k);
            assert(nodes[HEAD as int].linked());
            assert forall|i: int| 0 <= i <= shorter.len() implies #[trigger] stitched(
                self.nodes@,
                shorter,
                i,
            ) by {
                let j = if i <= k {
                    i
                } else {
                    i + 1
                };
                assert(node_at(shorter, i) == node_at(ring, j));
                assert(stitched(nodes, ring, j));
                assert(node_at(ring, j) != id);
                if i == k {
                    assert(node_after(shorter, i) == node_after(ring, k + 1));
                } else if i < k {
                    assert(node_after(shorter, i) == node_at(ring, i + 1));
                }
                if i == k + 1 || (i == 0 && k + 1 == ring.len()) {
                    assert(node_before(shorter, i) == node_at(ring, k));
                }
            }
            assert(self.nodes@[HEAD as int].linked()) by {
                assert(stitched(self.nodes@, shorter, 0));
            }
            assert forall|n: usize|
                HEAD < n < self.nodes@.len() && !shorter.contains(n) implies #[trigger] loose(
                self.nodes@,
                n,
            ) by {
                if n != id {
                    crate::seq_facts::lemma_filter_members(ring, other_than(id));
                    assert(!ring.filter(other_than(id)).contains(n));
                    assert(loose(nodes, n));
                    assert(n != node_at(ring, k)) by {
                        if k > 0 {
                            assert(ring[k - 1] == node_at(ring, k));
                        }
                    }
                    assert(n != node_after(ring, k + 1)) by {
                        if k + 1 < ring.len() {
                            assert(ring[k + 1] == node_after(ring, k + 1));
                        }
                    }
                }
            }
            lemma_ring_of(self.nodes@, shorter);
            assert(self.leaves() =~= old(self).leaves());
        }
    }

    /// Unlinks a node from this list.
    ///
    /// If `id` is [`HEAD`], the entire list is torn down: all leaves are unlinked
    /// first, then the head's own links are cleared.  If `id` is a leaf that is
    /// not currently linked, nothing happens.
    pub fn unlink(&mut self, id: usize)
        requires
            old(self).wf(),
            id == HEAD || old(self).leaves().contains_key(id),
        ensures
            final(self).wf(),
            id == HEAD ==> final(self).order() == Seq::<usize>::empty(),
            id == HEAD ==> !final(self).head_linked(),
            id != HEAD ==> final(self).order() == old(self).order().filter(other_than(id)),
            id != HEAD ==> final(self).head_linked() == old(self).head_linked(),
            final(self).leaves() == old(self).leaves(),
            final(self).head_value() == old(self).head_value(),
    {
        if id == HEAD {
            let mut first: Option<usize> = self.first();
            while first.is_some()
                invariant
                    self.wf(),
                    first == if self.order().len() > 0 {
                        Some(self.order()[0])
                    } else {
                        None
                    },
                    self.leaves() == old(self).leaves(),
                    self.head_value() == old(self).head_value(),
                decreases self.order().len(),
            {
                if let Some(leaf) = first {
                    self.unlink_leaf(leaf);
                }
                first = self.first();
            }
            let ghost nodes = self.nodes@;
            self.nodes[HEAD].prev.clear();
            self.nodes[HEAD].next.clear();
            proof {
                assert forall|n: usize|
                    HEAD < n < self.nodes@.len() implies #[trigger] loose(self.nodes@, n) by {
                    assert(loose(nodes, n));
                }
                lemma_ring_of(self.nodes@, Seq::empty());
                assert(self.leaves() =~= old(self).leaves());
            }
        } else if self.is_linked(id) {
            self.unlink_leaf(id);
        } else {
            proof {
                lemma_without_absent(self.order(), id);
            }
        }
    }

    /// Returns the leaf that the head's link leads to, if any leaf is linked.
    fn first(&self) -> (first: Option<usize>)
        requires
            self.wf(),
        ensures
            first == if self.order().len() > 0 {
                Some(self.order()[0])
            } else {
                None
            },
    {
        assert(self.nodes@[HEAD as int].linked() ==> stitched(self.nodes@, self.order(), 0));
        match self.nodes[HEAD].next.get() {
            Some(node) => if node == HEAD {
                None
            } else {
                Some(node)
            },
            None => None,
        }
    }

    /// Returns the leaf that follows a linked leaf, if that is not the last one.
    fn following(&self, id: usize, Ghost(k): Ghost<int>) -> (next: Option<usize>)
        requires
            self.wf(),
            0 <= k < self.order().len(),
            self.order()[k] == id,
        ensures
            next == if k + 1 < self.order().len() {
                Some(self.order()[k + 1])
            } else {
                None
            },
    {
        assert(stitched(self.nodes@, self.order(), k + 1));
        match self.nodes[id].next.get() {
            Some(node) => if node == HEAD {
                None
            } else {
                Some(node)
            },
            None => None,
        }
    }

    /// Returns the numbers of the linked leaves, in order.
    pub fn linked_leaves(&self) -> (ids: Vec<usize>)
        requires
            self.wf(),
        ensures
            ids@ == self.order(),
    {
        let mut ids: Vec<usize> = Vec::new();
        let mut cur: Option<usize> = self.first();
        while cur.is_some()
            invariant
                self.wf(),
                ids@.len() <= self.order().len(),
                ids@ == self.order().take(ids@.len() as int),
                cur == if ids@.len() < self.order().len() {
                    Some(self.order()[ids@.len() as int])
                } else {
                    None
                },
            decreases self.order().len() - ids@.len(),
        {
            if let Some(id) = cur {
                cur = self.following(id, Ghost(ids@.len() as int));
                ids.push(id);
            }
        }
        ids
    }

    /// Walks every linked leaf in order, calling `f` on each one's value.
    ///
    /// If `f` returns `true`, the leaf stays linked.  If `f` returns `false`, the
    /// leaf is unlinked.  Returns the leaves that were unlinked, in the order in
    /// which they were visited; any further action on them, such as waking, is
    /// the caller's.
    pub fn filter<F>(&mut self, mut f: F) -> (removed: Vec<usize>)
        where F: FnMut(&V) -> bool
        requires
            old(self).wf(),
            forall|i: int|
                0 <= i < old(self).order().len() ==> call_requires(
                    f,
                    (&old(self).leaves()[#[trigger] old(self).order()[i]],),
                ),
        ensures
            final(self).wf(),
            final(self).order() == old(self).order().filter(none_of(removed@)),
            removed@ == old(self).order().filter(one_of(removed@)),
            forall|i: int|
                0 <= i < old(self).order().len() ==> call_ensures(
                    f,
                    (&old(self).leaves()[#[trigger] old(self).order()[i]],),
                    !removed@.contains(old(self).order()[i]),
                ),
            final(self).head_linked() == old(self).head_linked(),
            final(self).leaves() == old(self).leaves(),
            final(self).head_value() == old(self).head_value(),
    {
        let ghost ids = self.order();
        let ghost leaves = self.leaves();
        let ghost f0 = f;
        let ghost mut kept: Seq<usize> = Seq::empty();
        let ghost mut done: int = 0;
        let mut removed: Vec<usize> = Vec::new();
        let mut cur: Option<usize> = self.first();
        proof {
            self.order_wf();
            assert(ids.skip(0) =~= ids);
            assert(kept + ids.skip(0) =~= ids);
            reveal(Seq::filter);
        }
        while cur.is_some()
            invariant
                self.wf(),
                ids == old(self).order(),
                ids.no_duplicates(),
                leaves == old(self).leaves(),
                leaves == self.leaves(),
                self.head_value() == old(self).head_value(),
                self.head_linked() == old(self).head_linked(),
                f == f0,
                forall|i: int|
                    0 <= i < ids.len() ==> call_requires(f0, (&leaves[#[trigger] ids[i]],)),
                forall|i: int| 0 <= i < ids.len() ==> leaves.contains_key(#[trigger] ids[i]),
                0 <= done <= ids.len(),
                self.order() == kept + ids.skip(done),
                kept == ids.take(done).filter(none_of(removed@)),
                removed@ == ids.take(done).filter(one_of(removed@)),
                cur == if done < ids.len() {
                    Some(ids[done])
                } else {
                    None
                },
                forall|i: int|
                    0 <= i < done ==> call_ensures(
                        f0,
                        (&leaves[#[trigger] ids[i]],),
                        !removed@.contains(ids[i]),
                    ),
            decreases ids.len() - done,
        {
            if let Some(id) = cur {
                assert(self.order()[kept.len() as int] == id);
                cur = self.following(id, Ghost(kept.len() as int));
                assert(leaves.contains_key(ids[done]));
                let stay: bool = f(self.get(id));
                let ghost was = removed@;
                proof {
                    lemma_split_step(ids, done, was);
                }
                if stay {
                    proof {
                        assert(kept.push(id) + ids.skip(done + 1) =~= kept + ids.skip(done));
                        kept = kept.push(id);
                    }
                } else {
                    proof {
                        self.order_wf();
                        assert(kept + ids.skip(done) =~= kept + (seq![id] + ids.skip(done + 1)));
                        lemma_without_middle(kept, id, ids.skip(done + 1));
                    }
                    self.unlink_leaf(id);
                    removed.push(id);
                }
                proof {
                    assert forall|i: int| 0 <= i < done + 1 implies call_ensures(
                        f0,
                        (&leaves[#[trigger] ids[i]],),
                        !removed@.contains(ids[i]),
                    ) by {
                        crate::seq_facts::lemma_push_members(was, id, ids[i]);
                    }
                    done = done + 1;
                }
            }
        }
        proof {
            assert(ids.take(done) =~= ids);
            assert(kept + ids.skip(done) =~= kept);
        }
        removed
    }

    /// Removes a leaf from the list for good, unlinking it first if it is
    /// linked, and returns its value.  Its number may be handed out again.
    pub fn remove_leaf(&mut self, id: usize) -> (value: V)
        requires
            old(self).wf(),
            old(self).leaves().contains_key(id),
        ensures
            final(self).wf(),
            value == old(self).leaves()[id],
            final(self).leaves() == old(self).leaves().remove(id),
            final(self).order() == old(self).order().filter(other_than(id)),
            final(self).head_linked() == old(self).head_linked(),
            final(self).head_value() == old(self).head_value(),
    {
        self.unlink(id);
        let ghost nodes = self.nodes@;
        let ghost ring = self.order();
        proof {
            crate::seq_facts::lemma_filter_members(old(self).order(), other_than(id));
            assert(!self.order().contains(id));
            assert(!self.vacant@.contains(id));
        }
        let value = self.nodes[id].typ.take();
        self.vacant.push(id);
        proof {
            lemma_same_links(nodes, self.nodes@, ring);
            assert(self.leaves() =~= old(self).leaves().remove(id));
        }
        match value {
            Some(value) => value,
            None => {
                assert(false);
                vstd::pervasive::unreached()
            },
        }
    }
}

/// Linking appends: a leaf that is linked is the last of the walk, and the walk
/// of the other leaves stays as it was.
pub proof fn law_link_appends(ids: Seq<usize>, id: usize)
    requires
        !ids.contains(id),
    ensures
        ids.push(id).last() == id,
        ids.push(id).filter(other_than(id)) == ids,
{
    lemma_without_absent(ids, id);
    crate::seq_facts::lemma_filter_push(ids, id, other_than(id));
}

/// A leaf that is unlinked and linked again goes to the tail, and no other leaf
/// changes its place among the rest.
pub proof fn law_relink_goes_to_tail(ids: Seq<usize>, id: usize)
    ensures
        ({
            let relinked = ids.filter(other_than(id)).push(id);
            &&& relinked.last() == id
            &&& relinked.filter(other_than(id)) == ids.filter(other_than(id))
            &&& forall|other: usize| #[trigger]
                relinked.contains(other) <==> ids.contains(other) || other == id
        }),
{
    let rest = ids.filter(other_than(id));
    crate::seq_facts::lemma_filter_members(ids, other_than(id));
    assert(!rest.contains(id));
    law_link_appends(rest, id);
    assert forall|other: usize| #[trigger]
        rest.push(id).contains(other) <==> ids.contains(other) || other == id by {
        crate::seq_facts::lemma_push_members(rest, id, other);
        assert(rest.contains(other) <==> ids.contains(other) && other != id);
    }
}

/// Unlinking a leaf a second time changes nothing.
pub proof fn law_unlink_twice(ids: Seq<usize>, id: usize)
    ensures
        !ids.filter(other_than(id)).contains(id),
        ids.filter(other_than(id)).filter(other_than(id)) == ids.filter(other_than(id)),
{
    crate::seq_facts::lemma_filter_members(ids, other_than(id));
    assert(!ids.filter(other_than(id)).contains(id));
    lemma_without_absent(ids.filter(other_than(id)), id);
}

/// Where the answer to `filter` is fixed for every linked leaf, the leaves that
/// stay are those with the answer `true`, and those that are handed back are the
/// others, both in the order of the list.
pub proof fn law_filter_splits(ids: Seq<usize>, removed: Seq<usize>, stays: spec_fn(usize) -> bool)
    requires
        removed == ids.filter(one_of(removed)),
        forall|i: int| 0 <= i < ids.len() ==> stays(#[trigger] ids[i]) == !removed.contains(ids[i]),
    ensures
        ids.filter(none_of(removed)) == ids.filter(stays),
        removed == ids.filter(|id: usize| !stays(id)),
{
    crate::seq_facts::lemma_filter_agree(ids, none_of(removed), stays);
    crate::seq_facts::lemma_filter_agree(ids, one_of(removed), |id: usize| !stays(id));
}

/// Linking a leaf puts it at the end of the walk, unless it is linked already, in which
/// case nothing changes; no other leaf moves, and no value changes.
pub proof fn law_link_goes_to_the_tail<V: IntrusiveNodeValue>(
    list: &mut IntrusiveListGuard<V>,
    id: usize,
    other: usize,
)
    requires
        old(list).wf(),
        old(list).leaves().contains_key(id),
        call_ensures(IntrusiveListGuard::<V>::link, (list, id), ()),
        other != id,
    ensures
        final(list).order().contains(id),
        final(list).order().contains(other) == old(list).order().contains(other),
        old(list).order().contains(id) ==> final(list).order() == old(list).order(),
        !old(list).order().contains(id) ==> final(list).order() == old(list).order().push(id)
            && final(list).head_linked(),
        final(list).leaves() == old(list).leaves(),
        final(list).head_value() == old(list).head_value(),
{
    crate::seq_facts::lemma_push_members(old(list).order(), id, id);
    crate::seq_facts::lemma_push_members(old(list).order(), id, other);
}

/// Unlinking a leaf takes it out of the walk and joins what was before and after it;
/// unlinking one that is not linked changes nothing, and unlinking the head unlinks
/// everything.  No value changes.
pub proof fn law_unlink_joins_the_neighbours<V: IntrusiveNodeValue>(
    list: &mut IntrusiveListGuard<V>,
    id: usize,
    front: Seq<usize>,
    back: Seq<usize>,
)
    requires
        old(list).wf(),
        id == HEAD || old(list).leaves().contains_key(id),
        call_ensures(IntrusiveListGuard::<V>::unlink, (list, id), ()),
    ensures
        id == HEAD ==> final(list).order().len() == 0 && !final(list).head_linked(),
        id != HEAD && old(list).order() == front + seq![id] + back ==> final(list).order() == front
            + back,
        id != HEAD && !old(list).order().contains(id) ==> final(list).order() == old(list).order(),
        id != HEAD ==> final(list).head_linked() == old(list).head_linked(),
        final(list).leaves() == old(list).leaves(),
        final(list).head_value() == old(list).head_value(),
{
    old(list).order_wf();
    if id != HEAD {
        if old(list).order() == front + seq![id] + back {
            assert(front + seq![id] + back =~= front + (seq![id] + back));
            lemma_without_middle(front, id, back);
        }
        if !old(list).order().contains(id) {
            lemma_without_absent(old(list).order(), id);
        }
    }
}

/// A filter asks about every linked leaf: it hands back, in order, those that are not to
/// stay, and the others stay, in order.  No value changes.
pub proof fn law_filter_asks_about_every_leaf<V: IntrusiveNodeValue, F: FnMut(&V) -> bool>(
    list: &mut IntrusiveListGuard<V>,
    f: F,
    removed: Vec<usize>,
    id: usize,
)
    requires
        old(list).wf(),
        call_ensures(IntrusiveListGuard::<V>::filter::<F>, (list, f), removed),
    ensures
        old(list).order().contains(id) ==> call_ensures(
            f,
            (&old(list).leaves()[id],),
            final(list).order().contains(id),
        ),
        old(list).order().contains(id) <==> final(list).order().contains(id) || removed@.contains(
            id,
        ),
        !(final(list).order().contains(id) && removed@.contains(id)),
        final(list).order() == old(list).order().filter(|n: usize| !removed@.contains(n)),
        removed@ == old(list).order().filter(|n: usize| removed@.contains(n)),
        final(list).leaves() == old(list).leaves(),
        final(list).head_value() == old(list).head_value(),
        final(list).head_linked() == old(list).head_linked(),
{
    let ids = old(list).order();
    crate::seq_facts::lemma_filter_members(ids, none_of(removed@));
    crate::seq_facts::lemma_filter_members(ids, one_of(removed@));
    crate::seq_facts::lemma_filter_agree(
        ids,
        none_of(removed@),
        |n: usize| !removed@.contains(n),
    );
    crate::seq_facts::lemma_filter_agree(ids, one_of(removed@), |n: usize| removed@.contains(n));
    assert(ids.filter(none_of(removed@)).contains(id) <==> ids.contains(id) && !removed@.contains(
        id,
    ));
    assert(ids.filter(one_of(removed@)).contains(id) <==> ids.contains(id) && removed@.contains(
        id,
    ));
    if ids.contains(id) {
        let i = choose|i: int| 0 <= i < ids.len() && ids[i] == id;
        assert(call_ensures(f, (&old(list).leaves()[ids[i]],), !removed@.contains(ids[i])));
    }
}

/// A leaf that is removed is gone with its value, and every other leaf stays, linked as it
/// was.
pub proof fn law_removed_leaf_is_gone<V: IntrusiveNodeValue>(
    list: &mut IntrusiveListGuard<V>,
    id: usize,
    value: V,
    other: usize,
)
    requires
        old(list).wf(),
        old(list).leaves().contains_key(id),
        call_ensures(IntrusiveListGuard::<V>::remove_leaf, (list, id), value),
        other != id,
    ensures
        value == old(list).leaves()[id],
        !final(list).leaves().contains_key(id),
        !final(list).order().contains(id),
        final(list).leaves().contains_key(other) == old(list).leaves().contains_key(other),
        final(list).leaves()[other] == old(list).leaves()[other],
        final(list).order().contains(other) == old(list).order().contains(other),
        final(list).order() == old(list).order().filter(|n: usize| n != id),
        final(list).head_value() == old(list).head_value(),
{
    crate::seq_facts::lemma_filter_members(old(list).order(), other_than(id));
    crate::seq_facts::lemma_filter_agree(old(list).order(), other_than(id), |n: usize| n != id);
    assert(final(list).order().contains(other) == old(list).order().contains(other));
    assert(!final(list).order().contains(id));
}

/// A new leaf is a leaf of its own, which is not linked; every other leaf stays as it was.
pub proof fn law_new_leaf_is_unlinked<V: IntrusiveNodeValue>(
    list: &mut IntrusiveListGuard<V>,
    value: V,
    id: usize,
    other: usize,
)
    requires
        old(list).wf(),
        call_ensures(IntrusiveListGuard::<V>::new_leaf, (list, value), id),
        other != id,
    ensures
        id != HEAD,
        !old(list).leaves().contains_key(id),
        final(list).leaves().contains_key(id),
        final(list).leaves()[id] == value,
        !final(list).order().contains(id),
        final(list).leaves().contains_key(other) == old(list).leaves().contains_key(other),
        final(list).leaves()[other] == old(list).leaves()[other],
        final(list).order() == old(list).order(),
        final(list).head_value() == old(list).head_value(),
{
}

/// A look at a list tells which leaves it has, what they carry, and which are linked, in
/// order.
pub proof fn law_list_can_be_read<V: IntrusiveNodeValue>(
    list: &IntrusiveListGuard<V>,
    id: usize,
    leaf: bool,
    linked: bool,
    value: &V,
    ids: Vec<usize>,
    head: &V::HeadValue,
)
    requires
        list.wf(),
        list.leaves().contains_key(id),
        call_ensures(IntrusiveListGuard::<V>::is_leaf, (list, id), leaf),
        call_ensures(IntrusiveListGuard::<V>::is_linked, (list, id), linked),
        call_ensures(IntrusiveListGuard::<V>::get, (list, id), value),
        call_ensures(IntrusiveListGuard::<V>::linked_leaves, (list,), ids),
        call_ensures(IntrusiveListGuard::<V>::head, (list,), head),
    ensures
        leaf,
        linked == ids@.contains(id),
        *value == list.leaves()[id],
        ids@ == list.order(),
        ids@.no_duplicates(),
        *head == list.head_value(),
{
    list.order_wf();
}

/// Changing the value of one leaf, or of the head, in place changes nothing else.
pub proof fn law_value_changes_in_place<V: IntrusiveNodeValue>(
    list: &mut IntrusiveListGuard<V>,
    id: usize,
    value: &mut V,
    other: usize,
    headed: &mut IntrusiveListGuard<V>,
    head: &mut V::HeadValue,
)
    requires
        old(list).wf(),
        old(list).leaves().contains_key(id),
        call_ensures(IntrusiveListGuard::<V>::get_mut, (list, id), value),
        other != id,
        call_ensures(IntrusiveListGuard::<V>::head_mut, (headed,), head),
    ensures
        *old(value) == old(list).leaves()[id],
        final(list).leaves()[id] == *final(value),
        final(list).leaves().contains_key(other) == old(list).leaves().contains_key(other),
        final(list).leaves()[other] == old(list).leaves()[other],
        final(list).order() == old(list).order(),
        final(list).head_value() == old(list).head_value(),
        *old(head) == old(headed).head_value(),
        final(headed).head_value() == *final(head),
        final(headed).leaves() == old(headed).leaves(),
        final(headed).order() == old(headed).order(),
{
}

} // verus!
