//! The interval index: an ordered collection of address ranges, no two of
//! which overlap, each with a payload.
//!
//! The entries are kept in a binary search tree that is balanced by height:
//! at every node, the two sides differ in height by one at most. A lookup, an
//! insertion and a removal walk one way down the tree, and its height grows
//! with the logarithm of the number of entries.

use vstd::prelude::*;
use crate::rbtree_amd::rbtree_key_s;

verus! {

/// Why an operation on the index did nothing.
#[derive(Debug, Copy, Clone, PartialEq, Eq, Structural)]
pub enum IndexError {
    /// The new range shares an address with an entry of the index.
    Overlap,
    /// No entry starts at the given address.
    NotFound,
}

/// One entry of the index: a range and what is recorded for it.
#[allow(non_camel_case_types)]
#[derive(Debug)]
pub struct rbtree_node_s<T> {
    pub key: rbtree_key_s,
    pub data: T,
}

#[allow(non_camel_case_types)]
pub type rbtree_node_t<T> = rbtree_node_s<T>;

/// A node of the tree: an entry, and the entries below it on either side.
#[derive(Debug)]
struct TreeNode<T> {
    entry: rbtree_node_s<T>,
    left: Option<Box<TreeNode<T>>>,
    right: Option<Box<TreeNode<T>>>,
    /// The number of nodes on the longest way down from this one, itself
    /// counted.
    height: u64,
}

/// The index itself: a tree that is balanced by the heights of its sides.
#[allow(non_camel_case_types)]
#[derive(Debug)]
pub struct rbtree_s<T> {
    root: Option<Box<TreeNode<T>>>,
}

#[allow(non_camel_case_types)]
pub type rbtree_t<T> = rbtree_s<T>;

/// Entries in ascending order, each ending before the next one starts.
pub open spec fn ordered<T>(s: Seq<rbtree_node_s<T>>) -> bool {
    forall|i: int, j: int|
        0 <= i < j < s.len() ==> (#[trigger] s[i]).key.end() <= (#[trigger] s[j]).key.start()
}

/// Whether some entry shares an address with `key`.
pub open spec fn has_overlap<T>(s: Seq<rbtree_node_s<T>>, key: rbtree_key_s) -> bool {
    exists|i: int| 0 <= i < s.len() && (#[trigger] s[i]).key.overlaps(key)
}

/// Whether some entry starts at `addr`.
pub open spec fn has_start<T>(s: Seq<rbtree_node_s<T>>, addr: u64) -> bool {
    exists|i: int| 0 <= i < s.len() && (#[trigger] s[i]).key.addr == addr
}

/// Whether some entry holds address `a`.
pub open spec fn has_containing<T>(s: Seq<rbtree_node_s<T>>, a: u64) -> bool {
    exists|i: int| 0 <= i < s.len() && (#[trigger] s[i]).key.contains(a as int)
}

/// The number of leading entries after which every entry starts at `addr` or
/// above. In an ordered sequence this is the number of entries that start
/// below `addr`, and the position at which a range starting at `addr` belongs.
pub open spec fn rank<T>(s: Seq<rbtree_node_s<T>>, addr: int) -> int
    decreases s.len(),
{
    if s.len() == 0 {
        0
    } else if s.last().key.addr < addr {
        s.len() as int
    } else {
        rank(s.drop_last(), addr)
    }
}

/// Position `p` parts the entries into those that start below `addr` and
/// those that start at `addr` or above.
pub open spec fn parts_at<T>(s: Seq<rbtree_node_s<T>>, addr: int, p: int) -> bool {
    &&& 0 <= p <= s.len()
    &&& forall|i: int| 0 <= i < p ==> (#[trigger] s[i]).key.addr < addr
    &&& forall|i: int| p <= i < s.len() ==> (#[trigger] s[i]).key.addr >= addr
}

/// A position that parts the entries at `addr` is their rank.
pub proof fn lemma_rank_unique<T>(s: Seq<rbtree_node_s<T>>, addr: int, p: int)
    requires
        parts_at(s, addr, p),
    ensures
        rank(s, addr) == p,
    decreases s.len(),
{
    if s.len() == 0 {
    } else if s.last().key.addr < addr {
        if p < s.len() {
            assert(s[s.len() - 1].key.addr >= addr);
        }
    } else {
        if p == s.len() {
            assert(s[s.len() - 1].key.addr < addr);
        }
        let t = s.drop_last();
        assert forall|i: int| 0 <= i < p implies (#[trigger] t[i]).key.addr < addr by {
            assert(t[i] == s[i]);
        }
        assert forall|i: int| p <= i < t.len() implies (#[trigger] t[i]).key.addr >= addr by {
            assert(t[i] == s[i]);
        }
        lemma_rank_unique(t, addr, p);
    }
}

/// In an ordered sequence the rank parts the entries.
pub proof fn lemma_rank_parts<T>(s: Seq<rbtree_node_s<T>>, addr: int)
    requires
        ordered(s),
    ensures
        parts_at(s, addr, rank(s, addr)),
    decreases s.len(),
{
    if s.len() == 0 {
    } else if s.last().key.addr < addr {
        assert forall|i: int| 0 <= i < s.len() implies (#[trigger] s[i]).key.addr < addr by {
            if i < s.len() - 1 {
                assert(s[i].key.end() <= s[s.len() - 1].key.start());
            }
        }
    } else {
        let t = s.drop_last();
        assert(ordered(t)) by {
            assert forall|i: int, j: int| 0 <= i < j < t.len() implies (#[trigger] t[i]).key.end() <= (
            #[trigger] t[j]).key.start() by {
                assert(t[i] == s[i] && t[j] == s[j]);
            }
        }
        lemma_rank_parts(t, addr);
        let p = rank(t, addr);
        assert forall|i: int| 0 <= i < p implies (#[trigger] s[i]).key.addr < addr by {
            assert(t[i] == s[i]);
        }
        assert forall|i: int| p <= i < s.len() implies (#[trigger] s[i]).key.addr >= addr by {
            if i < t.len() {
                assert(t[i] == s[i]);
            }
        }
    }
}

/// In an ordered sequence no two entries share an address.
pub proof fn lemma_ordered_disjoint<T>(s: Seq<rbtree_node_s<T>>, i: int, j: int)
    requires
        ordered(s),
        0 <= i < s.len(),
        0 <= j < s.len(),
        i != j,
    ensures
        !s[i].key.overlaps(s[j].key),
        s[i].key.addr != s[j].key.addr,
        forall|a: int| !(s[i].key.contains(a) && s[j].key.contains(a)),
{
    if i < j {
        assert(s[i].key.end() <= s[j].key.start());
    } else {
        assert(s[j].key.end() <= s[i].key.start());
    }
}

/// Putting an entry at its rank and taking the entry at that position away
/// again gives the sequence back.
pub proof fn lemma_insert_remove<T>(s: Seq<rbtree_node_s<T>>, node: rbtree_node_s<T>)
    requires
        ordered(s),
        !has_overlap(s, node.key),
    ensures
        ordered(s.insert(rank(s, node.key.start()), node)),
        rank(s.insert(rank(s, node.key.start()), node), node.key.start()) == rank(
            s,
            node.key.start(),
        ),
        s.insert(rank(s, node.key.start()), node).remove(rank(s, node.key.start())) == s,
{
    let p = rank(s, node.key.start());
    lemma_rank_parts(s, node.key.start());
    let t = s.insert(p, node);
    lemma_insert_keeps_order(s, node, p);
    assert(parts_at(t, node.key.start(), p)) by {
        assert forall|i: int| 0 <= i < p implies (#[trigger] t[i]).key.addr < node.key.start() by {
            assert(t[i] == s[i]);
        }
        assert forall|i: int| p <= i < t.len() implies (#[trigger] t[i]).key.addr
            >= node.key.start() by {
            if i > p {
                assert(t[i] == s[i - 1]);
            }
        }
    }
    lemma_rank_unique(t, node.key.start(), p);
    assert(t.remove(p) =~= s);
}

/// An entry that overlaps none of an ordered sequence can be put at the
/// position that parts the sequence at its start, and the order is kept.
pub proof fn lemma_insert_keeps_order<T>(s: Seq<rbtree_node_s<T>>, node: rbtree_node_s<T>, p: int)
    requires
        ordered(s),
        parts_at(s, node.key.start(), p),
        !has_overlap(s, node.key),
    ensures
        ordered(s.insert(p, node)),
{
    let t = s.insert(p, node);
    assert forall|i: int, j: int| 0 <= i < j < t.len() implies (#[trigger] t[i]).key.end() <= (
    #[trigger] t[j]).key.start() by {
        if j < p {
            assert(t[i] == s[i] && t[j] == s[j]);
        } else if j == p {
            assert(t[i] == s[i]);
            assert(!s[i].key.overlaps(node.key));
        } else if i < p {
            assert(t[i] == s[i] && t[j] == s[j - 1]);
        } else if i == p {
            assert(t[j] == s[j - 1]);
            assert(!s[j - 1].key.overlaps(node.key));
        } else {
            assert(t[i] == s[i - 1] && t[j] == s[j - 1]);
        }
    }
}

/// Taking an entry out of an ordered sequence keeps the order.
pub proof fn lemma_remove_keeps_order<T>(s: Seq<rbtree_node_s<T>>, p: int)
    requires
        ordered(s),
        0 <= p < s.len(),
    ensures
        ordered(s.remove(p)),
{
    let t = s.remove(p);
    assert forall|i: int, j: int| 0 <= i < j < t.len() implies (#[trigger] t[i]).key.end() <= (
    #[trigger] t[j]).key.start() by {
        let si = if i < p { i } else { i + 1 };
        let sj = if j < p { j } else { j + 1 };
        assert(t[i] == s[si] && t[j] == s[sj]);
    }
}

/// The entries of a tree in ascending order: those on the left of its top
/// node, the entry of the node, and those on its right.
spec fn seq_of<T>(link: Option<Box<TreeNode<T>>>) -> Seq<rbtree_node_s<T>>
    decreases link,
{
    match link {
        None => Seq::empty(),
        Some(node) => seq_of(node.left) + seq![node.entry] + seq_of(node.right),
    }
}

/// The height that the top node of a tree records; 0 for no tree.
spec fn height_of<T>(link: Option<Box<TreeNode<T>>>) -> nat {
    match link {
        None => 0,
        Some(node) => node.height as nat,
    }
}

/// Whether a tree is balanced: at every node, the heights of the two sides
/// differ by one at most, and the node records its own height.
spec fn shaped<T>(link: Option<Box<TreeNode<T>>>) -> bool
    decreases link,
{
    match link {
        None => true,
        Some(node) => {
            &&& shaped(node.left)
            &&& shaped(node.right)
            &&& height_of(node.left) <= height_of(node.right) + 1
            &&& height_of(node.right) <= height_of(node.left) + 1
            &&& node.height == 1 + (if height_of(node.left) >= height_of(node.right) {
                height_of(node.left)
            } else {
                height_of(node.right)
            })
        },
    }
}

/// The greatest height of a balanced tree of ranges of 64-bit addresses.
const MAX_HEIGHT: u64 = 0x8000_0000_0000_0001;

/// The two parts of an ordered sequence are ordered, and the first ends
/// before the second starts.
proof fn lemma_ordered_parts<T>(a: Seq<rbtree_node_s<T>>, b: Seq<rbtree_node_s<T>>)
    requires
        ordered(a + b),
    ensures
        ordered(a),
        ordered(b),
        forall|i: int, j: int|
            0 <= i < a.len() && 0 <= j < b.len() ==> (#[trigger] a[i]).key.end() <= (
            #[trigger] b[j]).key.start(),
{
    let s = a + b;
    assert forall|i: int, j: int| 0 <= i < j < a.len() implies (#[trigger] a[i]).key.end() <= (
    #[trigger] a[j]).key.start() by {
        assert(s[i] == a[i] && s[j] == a[j]);
    }
    assert forall|i: int, j: int| 0 <= i < j < b.len() implies (#[trigger] b[i]).key.end() <= (
    #[trigger] b[j]).key.start() by {
        assert(s[a.len() + i] == b[i] && s[a.len() + j] == b[j]);
    }
    assert forall|i: int, j: int| 0 <= i < a.len()
        && 0 <= j < b.len() implies (#[trigger] a[i]).key.end()
        <= (#[trigger] b[j]).key.start() by {
        assert(s[i] == a[i] && s[a.len() + j] == b[j]);
    }
}

/// An ordered sequence of ranges of 64-bit addresses has no more entries
/// than there are addresses.
proof fn lemma_ordered_len<T>(s: Seq<rbtree_node_s<T>>)
    requires
        ordered(s),
    ensures
        s.len() <= 0x1_0000_0000_0000_0000,
        s.len() > 0 ==> s.last().key.start() >= s.len() - 1,
    decreases s.len(),
{
    if s.len() > 1 {
        let t = s.drop_last();
        assert(s =~= t + seq![s.last()]);
        lemma_ordered_parts(t, seq![s.last()]);
        lemma_ordered_len(t);
        assert(t.last() == s[s.len() - 2]);
        assert(s[s.len() - 2].key.end() <= s[s.len() - 1].key.start());
    }
}

/// A balanced tree is no higher than it has entries, and has at least twice
/// as many entries as it is high, less two.
proof fn lemma_height_bound<T>(link: Option<Box<TreeNode<T>>>)
    requires
        shaped(link),
    ensures
        height_of(link) <= seq_of(link).len(),
        2 * height_of(link) <= seq_of(link).len() + 2,
        link is None <==> height_of(link) == 0,
    decreases link,
{
    match link {
        None => {},
        Some(node) => {
            lemma_height_bound(node.left);
            lemma_height_bound(node.right);
        },
    }
}

/// A balanced tree of ordered ranges is `MAX_HEIGHT` high at most.
proof fn lemma_max_height<T>(link: Option<Box<TreeNode<T>>>)
    requires
        shaped(link),
        ordered(seq_of(link)),
    ensures
        height_of(link) <= MAX_HEIGHT,
{
    lemma_height_bound(link);
    lemma_ordered_len(seq_of(link));
}

/// The least number of entries of a balanced tree of height `h`: one for the
/// top node, the least of a side of height `h - 1`, and the least of a side
/// of height `h - 2`. It grows like the powers of the golden ratio, so the
/// height of a balanced tree grows with the logarithm of its entries.
pub open spec fn min_entries(h: nat) -> nat
    decreases h,
{
    if h == 0 {
        0
    } else if h == 1 {
        1
    } else {
        1 + min_entries((h - 1) as nat) + min_entries((h - 2) as nat)
    }
}

/// A higher tree needs no fewer entries.
pub proof fn lemma_min_entries_grows(a: nat, b: nat)
    requires
        a <= b,
    ensures
        min_entries(a) <= min_entries(b),
    decreases b,
{
    if a < b {
        if b >= 2 {
            lemma_min_entries_grows(a, (b - 1) as nat);
        } else {
            assert(a == 0 && b == 1);
        }
    }
}

/// A balanced tree has at least the entries that its height needs.
proof fn lemma_balanced_size<T>(link: Option<Box<TreeNode<T>>>)
    requires
        shaped(link),
    ensures
        seq_of(link).len() >= min_entries(height_of(link)),
    decreases link,
{
    match link {
        None => {},
        Some(node) => {
            lemma_balanced_size(node.left);
            lemma_balanced_size(node.right);
            lemma_height_bound(node.left);
            lemma_height_bound(node.right);
            let hl = height_of(node.left);
            let hr = height_of(node.right);
            let h = height_of(link);
            if h >= 2 {
                if hl >= hr {
                    lemma_min_entries_grows((h - 2) as nat, hr);
                } else {
                    lemma_min_entries_grows((h - 2) as nat, hl);
                }
            }
        },
    }
}

/// The height that the top node of a tree records.
fn height<T>(link: &Option<Box<TreeNode<T>>>) -> (h: u64)
    ensures
        h == height_of(*link),
{
    match link {
        None => 0,
        Some(node) => node.height,
    }
}

/// The greater of two heights.
spec fn higher(a: nat, b: nat) -> nat {
    if a >= b {
        a
    } else {
        b
    }
}

/// A node with `entry` and the two trees below it.
fn join<T>(
    left: Option<Box<TreeNode<T>>>,
    entry: rbtree_node_s<T>,
    right: Option<Box<TreeNode<T>>>,
) -> (node: Box<TreeNode<T>>)
    requires
        height_of(left) < u64::MAX,
        height_of(right) < u64::MAX,
    ensures
        node.left == left,
        node.right == right,
        node.entry == entry,
        height_of(Some(node)) == 1 + higher(height_of(left), height_of(right)),
        seq_of(Some(node)) == seq_of(left) + seq![entry] + seq_of(right),
        shaped(left) && shaped(right) && height_of(left) <= height_of(right) + 1 && height_of(right)
            <= height_of(left) + 1 ==> shaped(Some(node)),
{
    let hl = height(&left);
    let hr = height(&right);
    let h: u64 = 1 + if hl >= hr {
        hl
    } else {
        hr
    };
    Box::new(TreeNode { entry, left, right, height: h })
}

/// Lifts the left side of a tree whose left side is two higher than its
/// right side, where the outer part of the left side is no lower than its
/// inner part: `ll`, `le` and `lr` are the left side, taken apart.
fn lift_left<T>(
    ll: Option<Box<TreeNode<T>>>,
    le: rbtree_node_s<T>,
    lr: Option<Box<TreeNode<T>>>,
    entry: rbtree_node_s<T>,
    right: Option<Box<TreeNode<T>>>,
) -> (node: Box<TreeNode<T>>)
    requires
        shaped(ll),
        shaped(lr),
        shaped(right),
        height_of(ll) == height_of(right) + 1,
        height_of(lr) <= height_of(ll) <= height_of(lr) + 1,
        height_of(ll) <= MAX_HEIGHT,
    ensures
        shaped(Some(node)),
        seq_of(Some(node)) == (seq_of(ll) + seq![le] + seq_of(lr)) + seq![entry] + seq_of(right),
        height_of(Some(node)) == height_of(lr) + 2,
{
    let ghost a = seq_of(ll);
    let ghost b = seq_of(lr);
    let ghost c = seq_of(right);
    let inner = join(lr, entry, right);
    let outer = join(ll, le, Some(inner));
    assert(a + seq![le] + (b + seq![entry] + c) =~= (a + seq![le] + b) + seq![entry] + c);
    outer
}

/// Lifts the inner part of the left side of a tree whose left side is two
/// higher than its right side, where that part is higher than the outer one:
/// `ll` and `le` are the rest of the left side, and `ml`, `me` and `mr` the
/// inner part, taken apart.
fn lift_left_inner<T>(
    ll: Option<Box<TreeNode<T>>>,
    le: rbtree_node_s<T>,
    ml: Option<Box<TreeNode<T>>>,
    me: rbtree_node_s<T>,
    mr: Option<Box<TreeNode<T>>>,
    entry: rbtree_node_s<T>,
    right: Option<Box<TreeNode<T>>>,
) -> (node: Box<TreeNode<T>>)
    requires
        shaped(ll),
        shaped(ml),
        shaped(mr),
        shaped(right),
        height_of(ll) == height_of(right),
        height_of(ml) <= height_of(ll) <= height_of(ml) + 1,
        height_of(mr) <= height_of(ll) <= height_of(mr) + 1,
        height_of(ml) == height_of(ll) || height_of(mr) == height_of(ll),
        height_of(ll) <= MAX_HEIGHT,
    ensures
        shaped(Some(node)),
        seq_of(Some(node)) == (seq_of(ll) + seq![le] + (seq_of(ml) + seq![me] + seq_of(mr))) + seq![
            entry,
        ] + seq_of(right),
        height_of(Some(node)) == height_of(ll) + 2,
{
    let ghost a = seq_of(ll);
    let ghost b = seq_of(ml);
    let ghost c = seq_of(mr);
    let ghost d = seq_of(right);
    let first = join(ll, le, ml);
    let second = join(mr, entry, right);
    let outer = join(Some(first), me, Some(second));
    assert((a + seq![le] + b) + seq![me] + (c + seq![entry] + d) =~= (a + seq![le] + (b + seq![me]
        + c)) + seq![entry] + d);
    outer
}

/// Lifts the right side of a tree whose right side is two higher than its
/// left side, where the outer part of the right side is no lower than its
/// inner part: `rl`, `re` and `rr` are the right side, taken apart.
fn lift_right<T>(
    left: Option<Box<TreeNode<T>>>,
    entry: rbtree_node_s<T>,
    rl: Option<Box<TreeNode<T>>>,
    re: rbtree_node_s<T>,
    rr: Option<Box<TreeNode<T>>>,
) -> (node: Box<TreeNode<T>>)
    requires
        shaped(left),
        shaped(rl),
        shaped(rr),
        height_of(rr) == height_of(left) + 1,
        height_of(rl) <= height_of(rr) <= height_of(rl) + 1,
        height_of(rr) <= MAX_HEIGHT,
    ensures
        shaped(Some(node)),
        seq_of(Some(node)) == seq_of(left) + seq![entry] + (seq_of(rl) + seq![re] + seq_of(rr)),
        height_of(Some(node)) == height_of(rl) + 2,
{
    let ghost a = seq_of(left);
    let ghost b = seq_of(rl);
    let ghost c = seq_of(rr);
    let inner = join(left, entry, rl);
    let outer = join(Some(inner), re, rr);
    assert((a + seq![entry] + b) + seq![re] + c =~= a + seq![entry] + (b + seq![re] + c));
    outer
}

/// Lifts the inner part of the right side of a tree whose right side is two
/// higher than its left side, where that part is higher than the outer one:
/// `ml`, `me` and `mr` are the inner part, taken apart, and `re` and `rr` the
/// rest of the right side.
fn lift_right_inner<T>(
    left: Option<Box<TreeNode<T>>>,
    entry: rbtree_node_s<T>,
    ml: Option<Box<TreeNode<T>>>,
    me: rbtree_node_s<T>,
    mr: Option<Box<TreeNode<T>>>,
    re: rbtree_node_s<T>,
    rr: Option<Box<TreeNode<T>>>,
) -> (node: Box<TreeNode<T>>)
    requires
        shaped(left),
        shaped(ml),
        shaped(mr),
        shaped(rr),
        height_of(rr) == height_of(left),
        height_of(ml) <= height_of(rr) <= height_of(ml) + 1,
        height_of(mr) <= height_of(rr) <= height_of(mr) + 1,
        height_of(ml) == height_of(rr) || height_of(mr) == height_of(rr),
        height_of(rr) <= MAX_HEIGHT,
    ensures
        shaped(Some(node)),
        seq_of(Some(node)) == seq_of(left) + seq![entry] + ((seq_of(ml) + seq![me] + seq_of(mr))
            + seq![re] + seq_of(rr)),
        height_of(Some(node)) == height_of(rr) + 2,
{
    let ghost a = seq_of(left);
    let ghost b = seq_of(ml);
    let ghost c = seq_of(mr);
    let ghost d = seq_of(rr);
    let first = join(left, entry, ml);
    let second = join(mr, re, rr);
    let outer = join(Some(first), me, Some(second));
    assert((a + seq![entry] + b) + seq![me] + (c + seq![re] + d) =~= a + seq![entry] + ((b + seq![
        me,
    ] + c) + seq![re] + d));
    outer
}

/// A balanced tree of `entry` and the two trees beside it, whose heights
/// differ by two at most.
fn rebalance<T>(
    left: Option<Box<TreeNode<T>>>,
    entry: rbtree_node_s<T>,
    right: Option<Box<TreeNode<T>>>,
) -> (node: Box<TreeNode<T>>)
    requires
        shaped(left),
        shaped(right),
        height_of(left) <= height_of(right) + 2,
        height_of(right) <= height_of(left) + 2,
        height_of(left) <= MAX_HEIGHT + 1,
        height_of(right) <= MAX_HEIGHT + 1,
    ensures
        shaped(Some(node)),
        seq_of(Some(node)) == seq_of(left) + seq![entry] + seq_of(right),
        height_of(Some(node)) == 1 + higher(height_of(left), height_of(right)) || height_of(
            Some(node),
        ) == higher(height_of(left), height_of(right)),
        height_of(left) <= height_of(right) + 1 && height_of(right) <= height_of(left) + 1
            ==> height_of(Some(node)) == 1 + higher(height_of(left), height_of(right)),
{
    reveal_with_fuel(seq_of, 2);
    reveal_with_fuel(shaped, 2);
    let hl = height(&left);
    let hr = height(&right);
    if hl > hr + 1 {
        let l = left.unwrap();
        let TreeNode { entry: le, left: ll, right: lr, height: _ } = *l;
        if height(&ll) >= height(&lr) {
            lift_left(ll, le, lr, entry, right)
        } else {
            let m = lr.unwrap();
            let TreeNode { entry: me, left: ml, right: mr, height: _ } = *m;
            lift_left_inner(ll, le, ml, me, mr, entry, right)
        }
    } else if hr > hl + 1 {
        let r = right.unwrap();
        let TreeNode { entry: re, left: rl, right: rr, height: _ } = *r;
        if height(&rr) >= height(&rl) {
            lift_right(left, entry, rl, re, rr)
        } else {
            let m = rl.unwrap();
            let TreeNode { entry: me, left: ml, right: mr, height: _ } = *m;
            lift_right_inner(left, entry, ml, me, mr, re, rr)
        }
    } else {
        join(left, entry, right)
    }
}

/// What follows for the parts of a tree from the order of its entries: both
/// sides are ordered, the left one ends before the entry of the top node
/// starts, and the right one starts behind its end.
proof fn lemma_node_parts<T>(
    l: Seq<rbtree_node_s<T>>,
    e: rbtree_node_s<T>,
    r: Seq<rbtree_node_s<T>>,
)
    requires
        ordered(l + seq![e] + r),
    ensures
        ordered(l),
        ordered(r),
        forall|i: int| 0 <= i < l.len() ==> (#[trigger] l[i]).key.end() <= e.key.start(),
        forall|j: int| 0 <= j < r.len() ==> e.key.end() <= (#[trigger] r[j]).key.start(),
{
    lemma_ordered_parts(l + seq![e], r);
    lemma_ordered_parts(l, seq![e]);
    assert forall|i: int| 0 <= i < l.len() implies (#[trigger] l[i]).key.end()
        <= e.key.start() by {
        assert(seq![e][0] == e);
    }
    assert forall|j: int| 0 <= j < r.len() implies e.key.end() <= (#[trigger] r[j]).key.start() by {
        assert((l + seq![e])[l.len() as int] == e);
    }
}

/// Where a start address has its rank in a tree: in the left side where it
/// is no greater than the start of the top node's entry, and in the right
/// side otherwise.
proof fn lemma_rank_in_node<T>(
    l: Seq<rbtree_node_s<T>>,
    e: rbtree_node_s<T>,
    r: Seq<rbtree_node_s<T>>,
    k: int,
)
    requires
        ordered(l + seq![e] + r),
    ensures
        k <= e.key.start() ==> rank(l + seq![e] + r, k) == rank(l, k),
        k > e.key.start() ==> rank(l + seq![e] + r, k) == l.len() + 1 + rank(r, k),
        0 <= rank(l, k) <= l.len(),
        0 <= rank(r, k) <= r.len(),
{
    let s = l + seq![e] + r;
    lemma_node_parts(l, e, r);
    lemma_rank_parts(l, k);
    lemma_rank_parts(r, k);
    if k <= e.key.start() {
        let p = rank(l, k);
        assert(parts_at(s, k, p)) by {
            assert forall|i: int| 0 <= i < p implies (#[trigger] s[i]).key.addr < k by {
                assert(s[i] == l[i]);
            }
            assert forall|i: int| p <= i < s.len() implies (#[trigger] s[i]).key.addr >= k by {
                if i < l.len() {
                    assert(s[i] == l[i]);
                } else if i == l.len() {
                    assert(s[i] == e);
                } else {
                    assert(s[i] == r[i - l.len() - 1]);
                }
            }
        }
        lemma_rank_unique(s, k, p);
    } else {
        let p = l.len() + 1 + rank(r, k);
        assert(parts_at(s, k, p)) by {
            assert forall|i: int| 0 <= i < p implies (#[trigger] s[i]).key.addr < k by {
                if i < l.len() {
                    assert(s[i] == l[i]);
                } else if i == l.len() {
                    assert(s[i] == e);
                } else {
                    assert(s[i] == r[i - l.len() - 1]);
                }
            }
            assert forall|i: int| p <= i < s.len() implies (#[trigger] s[i]).key.addr >= k by {
                assert(s[i] == r[i - l.len() - 1]);
            }
        }
        lemma_rank_unique(s, k, p);
    }
}

/// An entry of one side of a tree is an entry of the tree.
proof fn lemma_entry_of_node<T>(
    l: Seq<rbtree_node_s<T>>,
    e: rbtree_node_s<T>,
    r: Seq<rbtree_node_s<T>>,
)
    ensures
        forall|i: int| 0 <= i < l.len() ==> #[trigger] l[i] == (l + seq![e] + r)[i],
        (l + seq![e] + r)[l.len() as int] == e,
        forall|j: int| 0 <= j < r.len() ==> #[trigger] r[j] == (l + seq![e] + r)[l.len() + 1 + j],
        (l + seq![e] + r).len() == l.len() + 1 + r.len(),
{
}

/// What putting an entry into one part of a tree does to the tree.
proof fn lemma_insert_in_node<T>(
    l: Seq<rbtree_node_s<T>>,
    e: rbtree_node_s<T>,
    r: Seq<rbtree_node_s<T>>,
    entry: rbtree_node_s<T>,
)
    requires
        ordered(l + seq![e] + r),
        !has_overlap(l + seq![e] + r, entry.key),
    ensures
        ordered(l),
        ordered(r),
        !has_overlap(l, entry.key),
        !has_overlap(r, entry.key),
        entry.key.addr != e.key.addr,
        entry.key.addr < e.key.addr ==> {
            &&& l.insert(rank(l, entry.key.start()), entry) + seq![e] + r == (l + seq![e]
                + r).insert(rank(l + seq![e] + r, entry.key.start()), entry)
            &&& ordered(l.insert(rank(l, entry.key.start()), entry))
        },
        entry.key.addr > e.key.addr ==> {
            &&& l + seq![e] + r.insert(rank(r, entry.key.start()), entry) == (l + seq![e]
                + r).insert(rank(l + seq![e] + r, entry.key.start()), entry)
            &&& ordered(r.insert(rank(r, entry.key.start()), entry))
        },
{
    let s = l + seq![e] + r;
    let k = entry.key.start();
    lemma_node_parts(l, e, r);
    lemma_rank_in_node(l, e, r, k);
    lemma_entry_of_node(l, e, r);
    lemma_rank_parts(l, k);
    lemma_rank_parts(r, k);
    assert(!e.key.overlaps(entry.key)) by {
        assert(s[l.len() as int] == e);
    }
    assert(!has_overlap(l, entry.key)) by {
        if has_overlap(l, entry.key) {
            let i = choose|i: int| 0 <= i < l.len() && (#[trigger] l[i]).key.overlaps(entry.key);
            assert(s[i].key.overlaps(entry.key));
        }
    }
    assert(!has_overlap(r, entry.key)) by {
        if has_overlap(r, entry.key) {
            let j = choose|j: int| 0 <= j < r.len() && (#[trigger] r[j]).key.overlaps(entry.key);
            assert(s[l.len() + 1 + j].key.overlaps(entry.key));
        }
    }
    if entry.key.addr < e.key.addr {
        lemma_insert_keeps_order(l, entry, rank(l, k));
        assert(l.insert(rank(l, k), entry) + seq![e] + r =~= s.insert(rank(l, k), entry));
    } else {
        lemma_insert_keeps_order(r, entry, rank(r, k));
        assert(l + seq![e] + r.insert(rank(r, k), entry) =~= s.insert(
            l.len() + 1 + rank(r, k),
            entry,
        ));
    }
}

/// Puts `entry` into a tree that holds nothing that it overlaps.
fn insert_at<T>(link: &mut Option<Box<TreeNode<T>>>, entry: rbtree_node_s<T>)
    requires
        shaped(*old(link)),
        ordered(seq_of(*old(link))),
        !has_overlap(seq_of(*old(link)), entry.key),
    ensures
        shaped(*final(link)),
        seq_of(*final(link)) == seq_of(*old(link)).insert(
            rank(seq_of(*old(link)), entry.key.start()),
            entry,
        ),
        height_of(*final(link)) == height_of(*old(link)) || height_of(*final(link)) == height_of(
            *old(link),
        ) + 1,
    decreases *old(link),
{
    match link.take() {
        None => {
            let leaf = join(None, entry, None);
            assert(seq_of(Some(leaf)) =~= Seq::<rbtree_node_s<T>>::empty().insert(0, entry));
            *link = Some(leaf);
        },
        Some(node) => {
            let TreeNode { entry: e, left, right, height: _ } = *node;
            let mut left = left;
            let mut right = right;
            proof {
                lemma_insert_in_node(seq_of(left), e, seq_of(right), entry);
                lemma_max_height(left);
                lemma_max_height(right);
            }
            if entry.key.addr < e.key.addr {
                insert_at(&mut left, entry);
                proof {
                    lemma_max_height(left);
                }
            } else {
                insert_at(&mut right, entry);
                proof {
                    lemma_max_height(right);
                }
            }
            *link = Some(rebalance(left, e, right));
        },
    }
}

/// Takes the first entry out of a tree that is not empty.
fn remove_min<T>(link: &mut Option<Box<TreeNode<T>>>) -> (first: rbtree_node_s<T>)
    requires
        *old(link) is Some,
        shaped(*old(link)),
        ordered(seq_of(*old(link))),
    ensures
        shaped(*final(link)),
        seq_of(*old(link)).len() > 0,
        first == seq_of(*old(link))[0],
        seq_of(*final(link)) == seq_of(*old(link)).remove(0),
        height_of(*final(link)) == height_of(*old(link)) || height_of(*final(link)) + 1
            == height_of(*old(link)),
    decreases *old(link),
{
    let node = link.take().unwrap();
    let TreeNode { entry: e, left, right, height: _ } = *node;
    let mut left = left;
    let ghost l = seq_of(left);
    let ghost r = seq_of(right);
    proof {
        lemma_node_parts(l, e, r);
        lemma_entry_of_node(l, e, r);
        lemma_height_bound(left);
        lemma_max_height(left);
        lemma_max_height(right);
    }
    if left.is_none() {
        assert((l + seq![e] + r).remove(0) =~= r);
        *link = right;
        e
    } else {
        let first = remove_min(&mut left);
        proof {
            lemma_remove_keeps_order(l, 0);
            lemma_max_height(left);
            assert(l.remove(0) + seq![e] + r =~= (l + seq![e] + r).remove(0));
        }
        *link = Some(rebalance(left, e, right));
        first
    }
}

/// Where an entry that starts at `start` can be in a tree: in the left side
/// only where `start` is below the start of the top node's entry, in the
/// right side only where it is above, and at the top where it is equal.
proof fn lemma_start_in_node<T>(
    l: Seq<rbtree_node_s<T>>,
    e: rbtree_node_s<T>,
    r: Seq<rbtree_node_s<T>>,
    start: u64,
)
    requires
        ordered(l + seq![e] + r),
    ensures
        start < e.key.addr ==> (has_start(l + seq![e] + r, start) <==> has_start(l, start)),
        start > e.key.addr ==> (has_start(l + seq![e] + r, start) <==> has_start(r, start)),
        start == e.key.addr ==> has_start(l + seq![e] + r, start) && rank(
            l + seq![e] + r,
            start as int,
        ) == l.len(),
{
    let s = l + seq![e] + r;
    lemma_node_parts(l, e, r);
    lemma_entry_of_node(l, e, r);
    lemma_rank_in_node(l, e, r, start as int);
    if has_start(l, start) {
        let i = choose|i: int| 0 <= i < l.len() && (#[trigger] l[i]).key.addr == start;
        assert(s[i].key.addr == start);
    }
    if has_start(r, start) {
        let j = choose|j: int| 0 <= j < r.len() && (#[trigger] r[j]).key.addr == start;
        assert(s[l.len() + 1 + j].key.addr == start);
    }
    if has_start(s, start) {
        let i = choose|i: int| 0 <= i < s.len() && (#[trigger] s[i]).key.addr == start;
        if i < l.len() {
            assert(l[i].key.addr == start);
        } else if i > l.len() {
            assert(r[i - l.len() - 1].key.addr == start);
        }
    }
    if start == e.key.addr {
        assert(s[l.len() as int].key.addr == start);
        lemma_rank_parts(l, start as int);
        if rank(l, start as int) < l.len() {
            assert(l[rank(l, start as int)].key.addr >= start);
        }
    }
}

/// The tree of the two sides of a node whose entry was taken away.
fn remove_top<T>(left: Option<Box<TreeNode<T>>>, right: Option<Box<TreeNode<T>>>) -> (link: Option<
    Box<TreeNode<T>>,
>)
    requires
        shaped(left),
        shaped(right),
        ordered(seq_of(left)),
        ordered(seq_of(right)),
        height_of(left) <= height_of(right) + 1,
        height_of(right) <= height_of(left) + 1,
    ensures
        shaped(link),
        seq_of(link) == seq_of(left) + seq_of(right),
        height_of(link) == 1 + higher(height_of(left), height_of(right)) || height_of(link)
            == higher(height_of(left), height_of(right)),
{
    let ghost l = seq_of(left);
    let ghost r = seq_of(right);
    proof {
        lemma_height_bound(left);
        lemma_height_bound(right);
        lemma_max_height(left);
        lemma_max_height(right);
    }
    if left.is_none() {
        assert(l + r =~= r);
        right
    } else if right.is_none() {
        assert(l + r =~= l);
        left
    } else {
        let mut right = right;
        let next = remove_min(&mut right);
        proof {
            lemma_remove_keeps_order(r, 0);
            lemma_max_height(right);
            assert(l + seq![next] + r.remove(0) =~= l + r);
        }
        Some(rebalance(left, next, right))
    }
}

/// What taking the entry that starts at `start` out of one part of a tree
/// does to the tree.
proof fn lemma_remove_in_node<T>(
    l: Seq<rbtree_node_s<T>>,
    e: rbtree_node_s<T>,
    r: Seq<rbtree_node_s<T>>,
    start: u64,
)
    requires
        ordered(l + seq![e] + r),
    ensures
        ordered(l),
        ordered(r),
        start < e.key.addr ==> (has_start(l + seq![e] + r, start) <==> has_start(l, start)),
        start < e.key.addr && rank(l, start as int) < l.len() ==> {
            &&& rank(l + seq![e] + r, start as int) == rank(l, start as int)
            &&& (l + seq![e] + r)[rank(l, start as int)] == l[rank(l, start as int)]
            &&& l.remove(rank(l, start as int)) + seq![e] + r == (l + seq![e] + r).remove(
                rank(l, start as int),
            )
            &&& ordered(l.remove(rank(l, start as int)))
        },
        start > e.key.addr ==> (has_start(l + seq![e] + r, start) <==> has_start(r, start)),
        start > e.key.addr && rank(r, start as int) < r.len() ==> {
            &&& rank(l + seq![e] + r, start as int) == l.len() + 1 + rank(r, start as int)
            &&& (l + seq![e] + r)[l.len() + 1 + rank(r, start as int)] == r[rank(r, start as int)]
            &&& l + seq![e] + r.remove(rank(r, start as int)) == (l + seq![e] + r).remove(
                l.len() + 1 + rank(r, start as int),
            )
            &&& ordered(r.remove(rank(r, start as int)))
        },
        start == e.key.addr ==> {
            &&& has_start(l + seq![e] + r, start)
            &&& rank(l + seq![e] + r, start as int) == l.len()
            &&& (l + seq![e] + r)[l.len() as int] == e
            &&& l + r == (l + seq![e] + r).remove(l.len() as int)
        },
{
    let s = l + seq![e] + r;
    let k = start as int;
    lemma_node_parts(l, e, r);
    lemma_rank_in_node(l, e, r, k);
    lemma_entry_of_node(l, e, r);
    lemma_start_in_node(l, e, r, start);
    if start < e.key.addr && rank(l, k) < l.len() {
        lemma_remove_keeps_order(l, rank(l, k));
        assert(l.remove(rank(l, k)) + seq![e] + r =~= s.remove(rank(l, k)));
    }
    if start > e.key.addr && rank(r, k) < r.len() {
        lemma_remove_keeps_order(r, rank(r, k));
        assert(l + seq![e] + r.remove(rank(r, k)) =~= s.remove(l.len() + 1 + rank(r, k)));
    }
    if start == e.key.addr {
        assert(l + r =~= s.remove(l.len() as int));
    }
}

/// Takes the entry that starts at `start` out of a tree, if there is one.
fn remove_at<T>(link: &mut Option<Box<TreeNode<T>>>, start: u64) -> (found: Option<
    rbtree_node_s<T>,
>)
    requires
        shaped(*old(link)),
        ordered(seq_of(*old(link))),
    ensures
        shaped(*final(link)),
        found is Some <==> has_start(seq_of(*old(link)), start),
        found is Some ==> rank(seq_of(*old(link)), start as int) < seq_of(*old(link)).len()
            && found->Some_0 == seq_of(*old(link))[rank(seq_of(*old(link)), start as int)]
            && found->Some_0.key.addr == start && seq_of(*final(link)) == seq_of(
            *old(link),
        ).remove(rank(seq_of(*old(link)), start as int)),
        found is None ==> seq_of(*final(link)) == seq_of(*old(link)),
        height_of(*final(link)) == height_of(*old(link)) || height_of(*final(link)) + 1
            == height_of(*old(link)),
    decreases *old(link),
{
    match link.take() {
        None => None,
        Some(node) => {
            let TreeNode { entry: e, left, right, height: _ } = *node;
            let mut left = left;
            let mut right = right;
            proof {
                lemma_remove_in_node(seq_of(left), e, seq_of(right), start);
                lemma_max_height(left);
                lemma_max_height(right);
            }
            if start < e.key.addr {
                let found = remove_at(&mut left, start);
                proof {
                    lemma_max_height(left);
                }
                *link = Some(rebalance(left, e, right));
                found
            } else if start > e.key.addr {
                let found = remove_at(&mut right, start);
                proof {
                    lemma_max_height(right);
                }
                *link = Some(rebalance(left, e, right));
                found
            } else {
                *link = remove_top(left, right);
                Some(e)
            }
        },
    }
}

/// The entry of a tree that starts at `start`, if there is one.
fn find_exact_at<T>(link: &Option<Box<TreeNode<T>>>, start: u64) -> (found: Option<
    &rbtree_node_s<T>,
>)
    requires
        ordered(seq_of(*link)),
    ensures
        found is Some <==> has_start(seq_of(*link), start),
        found is Some ==> rank(seq_of(*link), start as int) < seq_of(*link).len()
            && *found->Some_0 == seq_of(*link)[rank(seq_of(*link), start as int)]
            && found->Some_0.key.addr == start,
    decreases *link,
{
    match link {
        None => None,
        Some(node) => {
            let ghost l = seq_of(node.left);
            let ghost r = seq_of(node.right);
            proof {
                lemma_node_parts(l, node.entry, r);
                lemma_rank_in_node(l, node.entry, r, start as int);
                lemma_entry_of_node(l, node.entry, r);
                lemma_start_in_node(l, node.entry, r, start);
            }
            if start < node.entry.key.addr {
                find_exact_at(&node.left, start)
            } else if start > node.entry.key.addr {
                find_exact_at(&node.right, start)
            } else {
                Some(&node.entry)
            }
        },
    }
}

/// Where an entry that holds `address` can be in a tree.
proof fn lemma_containing_in_node<T>(
    l: Seq<rbtree_node_s<T>>,
    e: rbtree_node_s<T>,
    r: Seq<rbtree_node_s<T>>,
    address: u64,
)
    requires
        ordered(l + seq![e] + r),
    ensures
        e.key.contains(address as int) ==> has_containing(l + seq![e] + r, address),
        address < e.key.addr ==> (has_containing(l + seq![e] + r, address) <==> has_containing(
            l,
            address,
        )),
        address >= e.key.end() ==> (has_containing(l + seq![e] + r, address) <==> has_containing(
            r,
            address,
        )),
{
    let s = l + seq![e] + r;
    lemma_node_parts(l, e, r);
    lemma_entry_of_node(l, e, r);
    if e.key.contains(address as int) {
        assert(s[l.len() as int].key.contains(address as int));
    }
    if has_containing(l, address) {
        let i = choose|i: int| 0 <= i < l.len() && (#[trigger] l[i]).key.contains(address as int);
        assert(s[i].key.contains(address as int));
    }
    if has_containing(r, address) {
        let j = choose|j: int| 0 <= j < r.len() && (#[trigger] r[j]).key.contains(address as int);
        assert(s[l.len() + 1 + j].key.contains(address as int));
    }
    if has_containing(s, address) {
        let i = choose|i: int| 0 <= i < s.len() && (#[trigger] s[i]).key.contains(address as int);
        if i < l.len() {
            assert(l[i].key.contains(address as int));
        } else if i > l.len() {
            assert(r[i - l.len() - 1].key.contains(address as int));
        }
    }
}

/// The entry of a tree whose range holds `address`, if there is one.
fn find_containing_at<T>(link: &Option<Box<TreeNode<T>>>, address: u64) -> (found: Option<
    &rbtree_node_s<T>,
>)
    requires
        ordered(seq_of(*link)),
    ensures
        found is Some <==> has_containing(seq_of(*link), address),
        found is Some ==> found->Some_0.key.contains(address as int) && exists|i: int|
            0 <= i < seq_of(*link).len() && seq_of(*link)[i] == *found->Some_0,
    decreases *link,
{
    match link {
        None => None,
        Some(node) => {
            let ghost l = seq_of(node.left);
            let ghost r = seq_of(node.right);
            let ghost s = l + seq![node.entry] + r;
            proof {
                lemma_node_parts(l, node.entry, r);
                lemma_entry_of_node(l, node.entry, r);
                lemma_containing_in_node(l, node.entry, r, address);
            }
            if node.entry.key.contains_addr(address) {
                assert(s[l.len() as int] == node.entry);
                Some(&node.entry)
            } else if address < node.entry.key.addr {
                let found = find_containing_at(&node.left, address);
                proof {
                    if found is Some {
                        let i = choose|i: int| 0 <= i < l.len() && l[i] == *found->Some_0;
                        assert(s[i] == *found->Some_0);
                    }
                }
                found
            } else {
                let found = find_containing_at(&node.right, address);
                proof {
                    if found is Some {
                        let j = choose|j: int| 0 <= j < r.len() && r[j] == *found->Some_0;
                        assert(s[l.len() + 1 + j] == *found->Some_0);
                    }
                }
                found
            }
        },
    }
}

/// Where an entry that overlaps `key` can be in a tree whose top node's
/// entry does not overlap it.
proof fn lemma_overlap_in_node<T>(
    l: Seq<rbtree_node_s<T>>,
    e: rbtree_node_s<T>,
    r: Seq<rbtree_node_s<T>>,
    key: rbtree_key_s,
)
    requires
        ordered(l + seq![e] + r),
    ensures
        e.key.overlaps(key) ==> has_overlap(l + seq![e] + r, key),
        !e.key.overlaps(key) && key.addr < e.key.addr ==> (has_overlap(l + seq![e] + r, key)
            <==> has_overlap(l, key)),
        !e.key.overlaps(key) && key.addr >= e.key.addr ==> (has_overlap(l + seq![e] + r, key)
            <==> has_overlap(r, key)),
{
    let s = l + seq![e] + r;
    lemma_node_parts(l, e, r);
    lemma_entry_of_node(l, e, r);
    if e.key.overlaps(key) {
        assert(s[l.len() as int].key.overlaps(key));
    }
    if has_overlap(l, key) {
        let i = choose|i: int| 0 <= i < l.len() && (#[trigger] l[i]).key.overlaps(key);
        assert(s[i].key.overlaps(key));
    }
    if has_overlap(r, key) {
        let j = choose|j: int| 0 <= j < r.len() && (#[trigger] r[j]).key.overlaps(key);
        assert(s[l.len() + 1 + j].key.overlaps(key));
    }
    if has_overlap(s, key) {
        let i = choose|i: int| 0 <= i < s.len() && (#[trigger] s[i]).key.overlaps(key);
        if i < l.len() {
            assert(l[i].key.overlaps(key));
        } else if i > l.len() {
            assert(r[i - l.len() - 1].key.overlaps(key));
        }
    }
}

/// Whether some entry of a tree shares an address with `key`.
fn overlaps_at<T>(link: &Option<Box<TreeNode<T>>>, key: rbtree_key_s) -> (r: bool)
    requires
        ordered(seq_of(*link)),
    ensures
        r == has_overlap(seq_of(*link), key),
    decreases *link,
{
    match link {
        None => false,
        Some(node) => {
            proof {
                lemma_node_parts(seq_of(node.left), node.entry, seq_of(node.right));
                lemma_overlap_in_node(seq_of(node.left), node.entry, seq_of(node.right), key);
            }
            if node.entry.key.intersects(&key) {
                true
            } else if key.addr < node.entry.key.addr {
                overlaps_at(&node.left, key)
            } else {
                overlaps_at(&node.right, key)
            }
        },
    }
}

/// The first entry of a tree that ends behind `address`, if there is one.
fn first_ending_after_at<T>(link: &Option<Box<TreeNode<T>>>, address: u64) -> (found: Option<
    &rbtree_node_s<T>,
>)
    requires
        ordered(seq_of(*link)),
    ensures
        found is None ==> forall|i: int|
            0 <= i < seq_of(*link).len() ==> (#[trigger] seq_of(*link)[i]).key.end() <= address,
        found is Some ==> found->Some_0.key.end() > address && exists|p: int|
            0 <= p < seq_of(*link).len() && seq_of(*link)[p] == *found->Some_0 && forall|i: int|
                0 <= i < p ==> (#[trigger] seq_of(*link)[i]).key.end() <= address,
    decreases *link,
{
    match link {
        None => None,
        Some(node) => {
            let ghost l = seq_of(node.left);
            let ghost r = seq_of(node.right);
            let ghost s = l + seq![node.entry] + r;
            proof {
                lemma_node_parts(l, node.entry, r);
                lemma_entry_of_node(l, node.entry, r);
            }
            if node.entry.key.ends_by(address) {
                let found = first_ending_after_at(&node.right, address);
                proof {
                    if found is Some {
                        let q = choose|q: int|
                            0 <= q < r.len() && r[q] == *found->Some_0 && forall|i: int|
                                0 <= i < q ==> (#[trigger] r[i]).key.end() <= address;
                        let p = l.len() + 1 + q;
                        assert(s[p] == *found->Some_0);
                        assert forall|i: int| 0 <= i < p implies (#[trigger] s[i]).key.end()
                            <= address by {
                            if i < l.len() {
                                assert(s[i] == l[i]);
                            } else if i > l.len() {
                                assert(s[i] == r[i - l.len() - 1]);
                            }
                        }
                    } else {
                        assert forall|i: int| 0 <= i < s.len() implies (#[trigger] s[i]).key.end()
                            <= address by {
                            if i < l.len() {
                                assert(s[i] == l[i]);
                            } else if i > l.len() {
                                assert(s[i] == r[i - l.len() - 1]);
                            }
                        }
                    }
                }
                found
            } else {
                let found = first_ending_after_at(&node.left, address);
                match found {
                    Some(entry) => {
                        proof {
                            let q = choose|q: int|
                                0 <= q < l.len() && l[q] == *entry && forall|i: int|
                                    0 <= i < q ==> (#[trigger] l[i]).key.end() <= address;
                            assert(s[q] == *entry);
                            assert forall|i: int| 0 <= i < q implies (#[trigger] s[i]).key.end()
                                <= address by {
                                assert(s[i] == l[i]);
                            }
                        }
                        Some(entry)
                    },
                    None => {
                        proof {
                            let p = l.len() as int;
                            assert(s[p] == node.entry);
                            assert forall|i: int| 0 <= i < p implies (#[trigger] s[i]).key.end()
                                <= address by {
                                assert(s[i] == l[i]);
                            }
                        }
                        Some(&node.entry)
                    },
                }
            }
        },
    }
}

/// The first entry of a tree that starts at `address` or behind it, if there
/// is one.
fn first_at_or_after_at<T>(link: &Option<Box<TreeNode<T>>>, address: u64) -> (found: Option<
    &rbtree_node_s<T>,
>)
    requires
        ordered(seq_of(*link)),
    ensures
        0 <= rank(seq_of(*link), address as int) <= seq_of(*link).len(),
        found is Some <==> rank(seq_of(*link), address as int) < seq_of(*link).len(),
        found is Some ==> *found->Some_0 == seq_of(*link)[rank(seq_of(*link), address as int)],
    decreases *link,
{
    match link {
        None => None,
        Some(node) => {
            let ghost l = seq_of(node.left);
            let ghost r = seq_of(node.right);
            proof {
                lemma_node_parts(l, node.entry, r);
                lemma_entry_of_node(l, node.entry, r);
                lemma_rank_in_node(l, node.entry, r, address as int);
            }
            if address <= node.entry.key.addr {
                match first_at_or_after_at(&node.left, address) {
                    Some(entry) => Some(entry),
                    None => Some(&node.entry),
                }
            } else {
                first_at_or_after_at(&node.right, address)
            }
        },
    }
}

/// The number of entries of a tree, as far as a `usize` holds it.
fn count_at<T>(link: &Option<Box<TreeNode<T>>>) -> (n: usize)
    ensures
        n == (if seq_of(*link).len() <= usize::MAX {
            seq_of(*link).len() as usize
        } else {
            usize::MAX
        }),
    decreases *link,
{
    match link {
        None => 0,
        Some(node) => {
            let left = count_at(&node.left);
            let right = count_at(&node.right);
            left.saturating_add(right).saturating_add(1)
        },
    }
}

impl<T> View for rbtree_s<T> {
    type V = Seq<rbtree_node_s<T>>;

    /// The entries in ascending order of their start addresses.
    closed spec fn view(&self) -> Seq<rbtree_node_s<T>> {
        seq_of(self.root)
    }
}

impl<T> rbtree_s<T> {
    /// Whether the tree is balanced: at every node, the two sides differ in
    /// height by one at most.
    pub closed spec fn balanced(&self) -> bool {
        shaped(self.root)
    }

    /// The height of the tree: the number of nodes on the longest way down
    /// from its top.
    pub closed spec fn tree_height(&self) -> nat {
        height_of(self.root)
    }

    /// The height of the tree.
    pub fn height(&self) -> (h: u64)
        ensures
            h == self.tree_height(),
    {
        height(&self.root)
    }

    /// The height of a balanced tree grows with the logarithm of the number
    /// of its entries: the tree has at least the entries that its height
    /// needs.
    pub proof fn lemma_height_is_logarithmic(&self)
        requires
            self.balanced(),
        ensures
            self@.len() >= min_entries(self.tree_height()),
            self.tree_height() <= self@.len(),
    {
        lemma_balanced_size(self.root);
        lemma_height_bound(self.root);
    }

    /// The invariant of the index: its entries are ordered, and so no two of
    /// them overlap; and its tree is balanced.
    pub open spec fn wf(&self) -> bool {
        ordered(self@) && self.balanced()
    }

    /// An index without entries.
    pub fn new() -> (tree: Self)
        ensures
            tree.wf(),
            tree@ == Seq::<rbtree_node_s<T>>::empty(),
    {
        rbtree_s { root: None }
    }

    /// Whether the index has no entries.
    pub fn is_empty(&self) -> (r: bool)
        ensures
            r == (self@.len() == 0),
    {
        proof {
            if self.root is Some {
                lemma_entry_of_node(
                    seq_of(self.root->Some_0.left),
                    self.root->Some_0.entry,
                    seq_of(self.root->Some_0.right),
                );
            }
        }
        self.root.is_none()
    }

    /// The number of entries, as far as a `usize` holds it. It is counted
    /// node by node.
    pub fn len(&self) -> (n: usize)
        ensures
            n == (if self@.len() <= usize::MAX {
                self@.len() as usize
            } else {
                usize::MAX
            }),
    {
        count_at(&self.root)
    }

    /// Whether some entry shares an address with `key`.
    pub fn overlaps_any(&self, key: rbtree_key_s) -> (r: bool)
        requires
            self.wf(),
        ensures
            r == has_overlap(self@, key),
    {
        overlaps_at(&self.root, key)
    }

    /// Puts the range `key` with its payload into the index, unless it shares
    /// an address with an entry.
    pub fn insert(&mut self, key: rbtree_key_s, data: T) -> (r: Result<(), IndexError>)
        requires
            old(self).wf(),
        ensures
            final(self).wf(),
            r is Ok <==> !has_overlap(old(self)@, key),
            r is Ok ==> final(self)@ == old(self)@.insert(
                rank(old(self)@, key.start()),
                rbtree_node_s { key, data },
            ),
            r is Err
                ==> r == Err::<(), IndexError>(IndexError::Overlap) && final(self)@ == old(self)@,
    {
        if overlaps_at(&self.root, key) {
            return Err(IndexError::Overlap);
        }
        proof {
            lemma_rank_parts(self@, key.start());
            lemma_insert_keeps_order(self@, rbtree_node_s { key, data }, rank(self@, key.start()));
        }
        insert_at(&mut self.root, rbtree_node_s { key, data });
        Ok(())
    }

    /// The entry that starts at `start`, if there is one.
    pub fn find_exact(&self, start: u64) -> (r: Option<&rbtree_node_s<T>>)
        requires
            self.wf(),
        ensures
            r is Some <==> has_start(self@, start),
            r is Some ==> rank(self@, start as int) < self@.len() && *r->Some_0 == self@[rank(
                self@,
                start as int,
            )] && r->Some_0.key.addr == start,
    {
        find_exact_at(&self.root, start)
    }

    /// The entry whose range holds `address`, if there is one.
    pub fn find_containing(&self, address: u64) -> (r: Option<&rbtree_node_s<T>>)
        requires
            self.wf(),
        ensures
            r is Some <==> has_containing(self@, address),
            r is Some ==> r->Some_0.key.contains(address as int) && exists|i: int|
                0 <= i < self@.len() && self@[i] == *r->Some_0,
    {
        find_containing_at(&self.root, address)
    }

    /// The first entry that starts at `address` or behind it, if there is
    /// one: the entry at the rank of `address`.
    pub fn first_at_or_after(&self, address: u64) -> (r: Option<&rbtree_node_s<T>>)
        requires
            self.wf(),
        ensures
            r is Some <==> rank(self@, address as int) < self@.len(),
            r is Some ==> *r->Some_0 == self@[rank(self@, address as int)],
    {
        first_at_or_after_at(&self.root, address)
    }

    /// The first entry that ends behind `address`, if there is one: every
    /// entry in front of it ends at `address` or before.
    pub fn first_ending_after(&self, address: u64) -> (r: Option<&rbtree_node_s<T>>)
        requires
            self.wf(),
        ensures
            r is None ==> forall|i: int|
                0 <= i < self@.len() ==> (#[trigger] self@[i]).key.end() <= address,
            r is Some ==> r->Some_0.key.end() > address && exists|p: int|
                0 <= p < self@.len() && self@[p] == *r->Some_0 && forall|i: int|
                    0 <= i < p ==> (#[trigger] self@[i]).key.end() <= address,
    {
        first_ending_after_at(&self.root, address)
    }

    /// Takes the entry that starts at `start` out of the index and hands it
    /// over.
    pub fn remove(&mut self, start: u64) -> (r: Result<rbtree_node_s<T>, IndexError>)
        requires
            old(self).wf(),
        ensures
            final(self).wf(),
            r is Ok <==> has_start(old(self)@, start),
            r is Ok
                ==> rank(old(self)@, start as int) < old(self)@.len()
                    && r->Ok_0 == old(self)@[rank(old(self)@, start as int)]
                    && r->Ok_0.key.addr == start
                    && final(self)@ == old(self)@.remove(rank(old(self)@, start as int)),
            r is Err ==> r->Err_0 == IndexError::NotFound && final(self)@ == old(self)@,
    {
        proof {
            lemma_rank_parts(self@, start as int);
            if rank(self@, start as int) < self@.len() {
                lemma_remove_keeps_order(self@, rank(self@, start as int));
            }
        }
        match remove_at(&mut self.root, start) {
            Some(node) => Ok(node),
            None => Err(IndexError::NotFound),
        }
    }

    /// An entry that starts at `start` stands at the rank of `start`.
    pub proof fn lemma_start_only_at_rank(&self, start: u64)
        requires
            self.wf(),
        ensures
            has_start(self@, start) <==> (rank(self@, start as int) < self@.len() && self@[rank(
                self@,
                start as int,
            )].key.addr == start),
    {
        let s = self@;
        let p = rank(s, start as int);
        lemma_rank_parts(s, start as int);
        if has_start(s, start) {
            let i = choose|i: int| 0 <= i < s.len() && (#[trigger] s[i]).key.addr == start;
            assert(i >= p);
            if i > p {
                assert(s[p].key.end() <= s[i].key.start());
            }
        }
    }
}

/// Empties the index.
pub fn rbtree_init<T>(tree: &mut rbtree_t<T>)
    ensures
        final(tree).wf(),
        final(tree)@ == Seq::<rbtree_node_s<T>>::empty(),
{
    tree.root = None;
}

/// Puts `node` into the index, unless its range shares an address with an
/// entry.
pub fn hsakmt_rbtree_insert<T>(tree: &mut rbtree_t<T>, node: rbtree_node_t<T>) -> (r: Result<
    (),
    IndexError,
>)
    requires
        old(tree).wf(),
    ensures
        final(tree).wf(),
        r is Ok <==> !has_overlap(old(tree)@, node.key),
        r is Ok ==> final(tree)@ == old(tree)@.insert(rank(old(tree)@, node.key.start()), node),
        r is Err ==> r == Err::<(), IndexError>(IndexError::Overlap) && final(tree)@ == old(tree)@,
{
    tree.insert(node.key, node.data)
}

/// Takes the entry that starts at `start` out of the index.
pub fn hsakmt_rbtree_delete<T>(tree: &mut rbtree_t<T>, start: u64) -> (r: Result<
    rbtree_node_t<T>,
    IndexError,
>)
    requires
        old(tree).wf(),
    ensures
        final(tree).wf(),
        r is Ok <==> has_start(old(tree)@, start),
        r is Ok ==> rank(old(tree)@, start as int) < old(tree)@.len() && r->Ok_0 == old(tree)@[rank(
            old(tree)@,
            start as int,
        )] && r->Ok_0.key.addr == start && final(tree)@ == old(tree)@.remove(
            rank(old(tree)@, start as int),
        ),
        r is Err ==> r->Err_0 == IndexError::NotFound && final(tree)@ == old(tree)@,
{
    tree.remove(start)
}

} // verus!
