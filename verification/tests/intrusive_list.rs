use procmachines::intrusive_list::{IntrusiveListGuard, IntrusiveListNode, IntrusiveNodeValue, HEAD};

struct TestNode {
    id: i32,
}

impl IntrusiveNodeValue for TestNode {
    type HeadValue = i32;
}

impl TestNode {
    fn id(&self) -> i32 {
        self.id
    }
}

fn make_head(val: i32) -> IntrusiveListGuard<TestNode> {
    IntrusiveListGuard::new(val)
}

fn make_leaf(head: &mut IntrusiveListGuard<TestNode>, id: i32) -> usize {
    head.new_leaf(TestNode { id })
}

/// Collects the IDs of all linked leaf nodes in list order.
fn collect_ids(head: &mut IntrusiveListGuard<TestNode>) -> Vec<i32> {
    let mut ids = Vec::new();
    head.filter(|v| {
        ids.push(v.id());
        true
    });
    ids
}

fn node_is_linked(head: &IntrusiveListGuard<TestNode>, node: usize) -> bool {
    head.is_linked(node)
}

/// Links a leaf the way a caller does that cannot be sure whose leaf it is.
fn checked_link(head: &mut IntrusiveListGuard<TestNode>, node: usize) {
    assert!(head.is_leaf(node), "node does not target this list's head");
    head.link(node);
}

/// Unlinks a leaf the way a caller does that cannot be sure whose leaf it is.
fn checked_unlink(head: &mut IntrusiveListGuard<TestNode>, node: usize) {
    assert!(head.is_leaf(node), "node does not target this list's head");
    head.unlink(node);
}

#[test]
fn new_head_is_not_linked() {
    let head = make_head(0);
    assert!(!head.is_linked(HEAD));
}

#[test]
fn new_leaf_is_not_linked() {
    let mut head = make_head(0);
    let leaf = make_leaf(&mut head, 1);
    assert!(!node_is_linked(&head, leaf));
}

#[test]
fn lock_head_from_head_returns_guard_with_value() {
    let head = make_head(42);
    assert_eq!(*head.head(), 42);
}

#[test]
fn lock_head_from_leaf_returns_guard_with_head_value() {
    let mut head = make_head(42);
    let leaf = make_leaf(&mut head, 1);
    assert_eq!(*head.head(), 42);
}

#[test]
fn guard_deref_mut_writes_head_value() {
    let mut head = make_head(0);
    *head.head_mut() = 123;
    assert_eq!(*head.head(), 123);
}

#[test]
fn link_single_leaf() {
    let mut head = make_head(0);
    let leaf = make_leaf(&mut head, 1);
    head.link(leaf);
    assert!(node_is_linked(&head, leaf));
    assert_eq!(collect_ids(&mut head), vec![1]);
}

#[test]
fn link_two_leaves() {
    let mut head = make_head(0);
    let a = make_leaf(&mut head, 1);
    let b = make_leaf(&mut head, 2);
    head.link(a);
    head.link(b);
    assert_eq!(collect_ids(&mut head), vec![1, 2]);
}

#[test]
fn link_three_leaves_preserves_insertion_order() {
    let mut head = make_head(0);
    let a = make_leaf(&mut head, 10);
    let b = make_leaf(&mut head, 20);
    let c = make_leaf(&mut head, 30);
    head.link(a);
    head.link(b);
    head.link(c);
    assert_eq!(collect_ids(&mut head), vec![10, 20, 30]);
}

#[test]
fn link_already_linked_is_noop() {
    let mut head = make_head(0);
    let a = make_leaf(&mut head, 1);
    let b = make_leaf(&mut head, 2);
    head.link(a);
    head.link(b);
    head.link(a); // already linked — no-op
    // Order unchanged, no duplicate.
    assert_eq!(collect_ids(&mut head), vec![1, 2]);
}

#[test]
fn link_initializes_head_self_link() {
    let mut head = make_head(0);
    let leaf = make_leaf(&mut head, 1);
    assert!(!head.is_linked(HEAD));
    head.link(leaf);
    assert!(head.is_linked(HEAD));
}

#[test]
fn unlink_single_leaf() {
    let mut head = make_head(0);
    let leaf = make_leaf(&mut head, 1);
    head.link(leaf);
    head.unlink(leaf);
    assert!(!node_is_linked(&head, leaf));
    assert_eq!(collect_ids(&mut head), vec![]);
}

#[test]
fn unlink_first_of_two_leaves() {
    let mut head = make_head(0);
    let a = make_leaf(&mut head, 1);
    let b = make_leaf(&mut head, 2);
    head.link(a);
    head.link(b);
    head.unlink(a);
    assert!(!node_is_linked(&head, a));
    assert!(node_is_linked(&head, b));
    assert_eq!(collect_ids(&mut head), vec![2]);
}

#[test]
fn unlink_last_of_two_leaves() {
    let mut head = make_head(0);
    let a = make_leaf(&mut head, 1);
    let b = make_leaf(&mut head, 2);
    head.link(a);
    head.link(b);
    head.unlink(b);
    assert!(node_is_linked(&head, a));
    assert!(!node_is_linked(&head, b));
    assert_eq!(collect_ids(&mut head), vec![1]);
}

#[test]
fn unlink_middle_of_three_leaves() {
    let mut head = make_head(0);
    let a = make_leaf(&mut head, 1);
    let b = make_leaf(&mut head, 2);
    let c = make_leaf(&mut head, 3);
    head.link(a);
    head.link(b);
    head.link(c);
    head.unlink(b);
    assert_eq!(collect_ids(&mut head), vec![1, 3]);
}

#[test]
fn unlink_not_linked_is_noop() {
    let mut head = make_head(0);
    let a = make_leaf(&mut head, 1);
    let b = make_leaf(&mut head, 2);
    head.link(a);
    head.unlink(b); // b was never linked
    assert_eq!(collect_ids(&mut head), vec![1]);
}

#[test]
fn unlink_head_tears_down_entire_list() {
    let mut head = make_head(0);
    let a = make_leaf(&mut head, 1);
    let b = make_leaf(&mut head, 2);
    let c = make_leaf(&mut head, 3);
    head.link(a);
    head.link(b);
    head.link(c);
    head.unlink(HEAD);
    assert!(!node_is_linked(&head, a));
    assert!(!node_is_linked(&head, b));
    assert!(!node_is_linked(&head, c));
    assert_eq!(collect_ids(&mut head), vec![]);
}

#[test]
fn unlink_head_when_empty_is_safe() {
    let mut head = make_head(0);
    head.unlink(HEAD); // no-op: head was never self-linked
    assert_eq!(collect_ids(&mut head), vec![]);
}

#[test]
fn relink_after_unlink() {
    let mut head = make_head(0);
    let leaf = make_leaf(&mut head, 1);
    head.link(leaf);
    head.unlink(leaf);
    head.link(leaf);
    assert!(node_is_linked(&head, leaf));
    assert_eq!(collect_ids(&mut head), vec![1]);
}

#[test]
fn relink_goes_to_tail() {
    let mut head = make_head(0);
    let a = make_leaf(&mut head, 1);
    let b = make_leaf(&mut head, 2);
    head.link(a);
    head.link(b);
    head.unlink(a);
    head.link(a); // goes to tail
    assert_eq!(collect_ids(&mut head), vec![2, 1]);
}

#[test]
fn head_retains_self_link_after_last_leaf_unlinked() {
    // Once the head's circular sentinel is initialised by the first link,
    // it persists even after all leaves are removed. Only unlink(head)
    // clears it. This is by design — the sentinel is lazily initialised
    // and never eagerly torn down.
    let mut head = make_head(0);
    let leaf = make_leaf(&mut head, 1);
    head.link(leaf);
    head.unlink(leaf);
    assert!(head.is_linked(HEAD));
}

#[test]
fn unlink_head_clears_self_link() {
    let mut head = make_head(0);
    let leaf = make_leaf(&mut head, 1);
    head.link(leaf);
    head.unlink(HEAD);
    assert!(!head.is_linked(HEAD));
}

#[test]
fn filter_empty_list_does_not_call_closure() {
    let mut head = make_head(0);
    let mut called = false;
    head.filter(|_| {
        called = true;
        true
    });
    assert!(!called);
}

#[test]
fn filter_empty_self_linked_head_does_not_call_closure() {
    // Head was once linked (self-link persists) but has no leaves.
    let mut head = make_head(0);
    let leaf = make_leaf(&mut head, 1);
    head.link(leaf);
    head.unlink(leaf);
    let mut called = false;
    head.filter(|_| {
        called = true;
        true
    });
    assert!(!called);
}

#[test]
fn filter_keep_all() {
    let mut head = make_head(0);
    let a = make_leaf(&mut head, 1);
    let b = make_leaf(&mut head, 2);
    let c = make_leaf(&mut head, 3);
    head.link(a);
    head.link(b);
    head.link(c);
    head.filter(|_| true);
    assert_eq!(collect_ids(&mut head), vec![1, 2, 3]);
}

#[test]
fn filter_remove_all() {
    let mut head = make_head(0);
    let a = make_leaf(&mut head, 1);
    let b = make_leaf(&mut head, 2);
    let c = make_leaf(&mut head, 3);
    head.link(a);
    head.link(b);
    head.link(c);
    head.filter(|_| false);
    assert!(!node_is_linked(&head, a));
    assert!(!node_is_linked(&head, b));
    assert!(!node_is_linked(&head, c));
    assert_eq!(collect_ids(&mut head), vec![]);
}

#[test]
fn filter_selective_keep_even() {
    let mut head = make_head(0);
    let a = make_leaf(&mut head, 1);
    let b = make_leaf(&mut head, 2);
    let c = make_leaf(&mut head, 3);
    let d = make_leaf(&mut head, 4);
    head.link(a);
    head.link(b);
    head.link(c);
    head.link(d);
    head.filter(|v| v.id() % 2 == 0);
    assert_eq!(collect_ids(&mut head), vec![2, 4]);
}

#[test]
fn filter_removes_first_node() {
    let mut head = make_head(0);
    let a = make_leaf(&mut head, 1);
    let b = make_leaf(&mut head, 2);
    let c = make_leaf(&mut head, 3);
    head.link(a);
    head.link(b);
    head.link(c);
    head.filter(|v| v.id() != 1);
    assert_eq!(collect_ids(&mut head), vec![2, 3]);
}

#[test]
fn filter_removes_last_node() {
    let mut head = make_head(0);
    let a = make_leaf(&mut head, 1);
    let b = make_leaf(&mut head, 2);
    let c = make_leaf(&mut head, 3);
    head.link(a);
    head.link(b);
    head.link(c);
    head.filter(|v| v.id() != 3);
    assert_eq!(collect_ids(&mut head), vec![1, 2]);
}

#[test]
fn filter_single_node_keep() {
    let mut head = make_head(0);
    let a = make_leaf(&mut head, 1);
    head.link(a);
    head.filter(|_| true);
    assert_eq!(collect_ids(&mut head), vec![1]);
}

#[test]
fn filter_single_node_remove() {
    let mut head = make_head(0);
    let a = make_leaf(&mut head, 1);
    head.link(a);
    head.filter(|_| false);
    assert!(!node_is_linked(&head, a));
    assert_eq!(collect_ids(&mut head), vec![]);
}

#[test]
fn filter_visits_nodes_in_insertion_order() {
    let mut head = make_head(0);
    let a = make_leaf(&mut head, 10);
    let b = make_leaf(&mut head, 20);
    let c = make_leaf(&mut head, 30);
    head.link(a);
    head.link(b);
    head.link(c);
    let mut visited = Vec::new();
    head.filter(|v| {
        visited.push(v.id());
        true
    });
    assert_eq!(visited, vec![10, 20, 30]);
}

#[test]
fn drop_linked_leaf_unlinks_itself() {
    let mut head = make_head(0);
    let a = make_leaf(&mut head, 1);
    let b = make_leaf(&mut head, 2);
    let c = make_leaf(&mut head, 3);
    head.link(a);
    head.link(b);
    head.link(c);
    head.remove_leaf(b);
    assert_eq!(collect_ids(&mut head), vec![1, 3]);
}

#[test]
fn drop_unlinked_leaf_is_safe() {
    let mut head = make_head(0);
    let leaf = make_leaf(&mut head, 1);
    head.remove_leaf(leaf);
    // No panic, no crash.
}

#[test]
fn drop_head_after_all_leaves_dropped() {
    let mut head = make_head(0);
    let a = make_leaf(&mut head, 1);
    let b = make_leaf(&mut head, 2);
    head.link(a);
    head.link(b);
    // b leaves first, then a.
    head.remove_leaf(b);
    head.remove_leaf(a);
    assert_eq!(collect_ids(&mut head), vec![]);
}

#[test]
#[should_panic(expected = "node does not target this list's head")]
fn link_wrong_head_panics() {
    let mut head1 = make_head(0);
    let mut head2 = make_head(0);
    let leaf = make_leaf(&mut head1, 1);
    checked_link(&mut head2, leaf);
}

#[test]
#[should_panic(expected = "node does not target this list's head")]
fn unlink_leaf_from_wrong_head_panics() {
    let mut head1 = make_head(0);
    let mut head2 = make_head(0);
    let leaf = make_leaf(&mut head1, 1);
    head1.link(leaf);
    checked_unlink(&mut head2, leaf);
}

#[test]
fn link_unlink_relink_multiple_cycles() {
    let mut head = make_head(0);
    let leaf = make_leaf(&mut head, 1);
    for _ in 0..10 {
        head.link(leaf);
        assert!(node_is_linked(&head, leaf));
        head.unlink(leaf);
        assert!(!node_is_linked(&head, leaf));
    }
}

#[test]
fn filter_then_relink_removed_nodes() {
    let mut head = make_head(0);
    let a = make_leaf(&mut head, 1);
    let b = make_leaf(&mut head, 2);
    let c = make_leaf(&mut head, 3);
    head.link(a);
    head.link(b);
    head.link(c);
    head.filter(|v| v.id() != 2);
    assert_eq!(collect_ids(&mut head), vec![1, 3]);
    head.link(b); // goes to tail
    assert_eq!(collect_ids(&mut head), vec![1, 3, 2]);
}

#[test]
fn unlink_all_leaves_individually_in_mixed_order() {
    let mut head = make_head(0);
    let a = make_leaf(&mut head, 1);
    let b = make_leaf(&mut head, 2);
    let c = make_leaf(&mut head, 3);
    head.link(a);
    head.link(b);
    head.link(c);
    head.unlink(b); // middle
    assert_eq!(collect_ids(&mut head), vec![1, 3]);
    head.unlink(c); // tail
    assert_eq!(collect_ids(&mut head), vec![1]);
    head.unlink(a); // last remaining
    assert_eq!(collect_ids(&mut head), vec![]);
}

#[test]
fn unlink_head_then_relink_leaves() {
    let mut head = make_head(0);
    let a = make_leaf(&mut head, 1);
    let b = make_leaf(&mut head, 2);
    head.link(a);
    head.link(b);
    head.unlink(HEAD); // tear down
    assert_eq!(collect_ids(&mut head), vec![]);
    head.link(b);
    head.link(a);
    assert_eq!(collect_ids(&mut head), vec![2, 1]);
}

#[test]
fn many_nodes_link_and_filter() {
    let mut head = make_head(0);
    let leaves: Vec<_> = (0..10).map(|i| make_leaf(&mut head, i)).collect();
    for leaf in &leaves {
        head.link(*leaf);
    }
    assert_eq!(collect_ids(&mut head), (0..10).collect::<Vec<_>>());
    head.filter(|v| v.id() % 2 == 0);
    assert_eq!(collect_ids(&mut head), vec![0, 2, 4, 6, 8]);
}

#[test]
fn filter_alternating_keep_remove() {
    let mut head = make_head(0);
    let leaves: Vec<_> = (0..6).map(|i| make_leaf(&mut head, i)).collect();
    for leaf in &leaves {
        head.link(*leaf);
    }
    // Remove 0, keep 1, remove 2, keep 3, remove 4, keep 5.
    head.filter(|v| v.id() % 2 == 1);
    assert_eq!(collect_ids(&mut head), vec![1, 3, 5]);
}

#[test]
fn filter_counts_removed_nodes() {
    let mut head = make_head(0);
    let leaves: Vec<_> = (1..=5).map(|i| make_leaf(&mut head, i)).collect();
    for leaf in &leaves {
        head.link(*leaf);
    }
    let mut removed = 0;
    head.filter(|v| {
        if v.id() > 3 {
            removed += 1;
            false
        } else {
            true
        }
    });
    assert_eq!(removed, 2);
    assert_eq!(collect_ids(&mut head), vec![1, 2, 3]);
}

#[test]
fn guard_deref_mut_from_leaf_lock() {
    let mut head = make_head(0);
    let leaf = make_leaf(&mut head, 1);
    *head.head_mut() = 77;
    assert_eq!(*head.head(), 77);
}

#[test]
fn double_unlink_same_leaf_is_noop() {
    let mut head = make_head(0);
    let a = make_leaf(&mut head, 1);
    let b = make_leaf(&mut head, 2);
    head.link(a);
    head.link(b);
    head.unlink(a);
    head.unlink(a); // already unlinked — no-op
    assert_eq!(collect_ids(&mut head), vec![2]);
}

#[test]
fn unlink_head_twice_is_safe() {
    let mut head = make_head(0);
    let leaf = make_leaf(&mut head, 1);
    head.link(leaf);
    head.unlink(HEAD);
    head.unlink(HEAD); // already cleared — no-op
    assert_eq!(collect_ids(&mut head), vec![]);
}

#[test]
fn bare_node_is_not_linked() {
    let node = IntrusiveListNode::new(7);
    assert!(!node.is_linked());
}

#[test]
fn filter_hands_back_removed_leaves_in_order() {
    let mut head = make_head(0);
    let leaves: Vec<usize> = (0..6).map(|i| make_leaf(&mut head, i)).collect();
    for leaf in &leaves {
        head.link(*leaf);
    }
    let removed = head.filter(|v| v.id() % 2 == 0);
    assert_eq!(removed, vec![leaves[1], leaves[3], leaves[5]]);
    assert_eq!(head.linked_leaves(), vec![leaves[0], leaves[2], leaves[4]]);
    // An unlinked leaf is still a leaf.
    assert!(head.is_leaf(leaves[1]));
    assert_eq!(head.get(leaves[1]).id(), 1);
}

#[test]
fn removed_leaf_hands_back_its_value_and_its_number_is_reused() {
    let mut head = make_head(0);
    let a = make_leaf(&mut head, 1);
    let b = make_leaf(&mut head, 2);
    head.link(a);
    head.link(b);
    assert_eq!(head.remove_leaf(a).id(), 1);
    assert!(!head.is_leaf(a));
    let c = make_leaf(&mut head, 3);
    assert!(c != b && c != HEAD);
    assert!(!node_is_linked(&head, c));
    head.link(c);
    assert_eq!(collect_ids(&mut head), vec![2, 3]);
}

#[test]
fn leaf_value_can_be_changed_in_place() {
    let mut head = make_head(0);
    let a = make_leaf(&mut head, 1);
    head.link(a);
    head.get_mut(a).id = 9;
    assert_eq!(collect_ids(&mut head), vec![9]);
}

#[test]
fn head_is_not_a_leaf() {
    let head = make_head(0);
    assert!(!head.is_leaf(HEAD));
    assert!(!head.is_leaf(1));
}
