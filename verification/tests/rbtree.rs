use hsakmt_rs::rbtree::{hsakmt_rbtree_delete, hsakmt_rbtree_insert, rbtree_init, rbtree_node_s, rbtree_s, IndexError};
use hsakmt_rs::rbtree_amd::{rbtree_key, rbtree_key_s};

fn entries<T: Copy>(tree: &rbtree_s<T>) -> Vec<(u64, u64, T)> {
    let mut out = Vec::new();
    let mut from = 0u64;
    while let Some(node) = tree.first_at_or_after(from) {
        out.push((node.key.addr, node.key.size, node.data));
        if node.key.addr == u64::MAX {
            break;
        }
        from = node.key.addr + 1;
    }
    out
}

fn sample() -> rbtree_s<u32> {
    let mut tree: rbtree_s<u32> = rbtree_s::new();
    assert_eq!(tree.insert(rbtree_key(0x3000, 0x1000), 3), Ok(()));
    assert_eq!(tree.insert(rbtree_key(0x1000, 0x1000), 1), Ok(()));
    assert_eq!(tree.insert(rbtree_key(0x2000, 0x800), 2), Ok(()));
    tree
}

#[test]
fn key_holds_address_and_size() {
    let key = rbtree_key(0x1000, 0x20);
    assert_eq!(key, rbtree_key_s { addr: 0x1000, size: 0x20 });
    assert_eq!(key.span(), 0x20);
    assert_eq!(rbtree_key(7, 0).span(), 1);
}

#[test]
fn keys_order_by_start_then_size() {
    let a = rbtree_key(0x1000, 0x20);
    let b = rbtree_key(0x1000, 0x30);
    let c = rbtree_key(0x2000, 0x10);
    assert!(a.less_than(&b));
    assert!(!b.less_than(&a));
    assert!(b.less_than(&c));
    assert!(!a.less_than(&a));
}

#[test]
fn key_range_queries() {
    let k = rbtree_key(0x1000, 0x100);
    assert!(k.contains_addr(0x1000));
    assert!(k.contains_addr(0x10FF));
    assert!(!k.contains_addr(0x1100));
    assert!(!k.contains_addr(0xFFF));
    assert!(k.ends_by(0x1100));
    assert!(!k.ends_by(0x10FF));
    assert!(k.intersects(&rbtree_key(0x10FF, 1)));
    assert!(!k.intersects(&rbtree_key(0x1100, 1)));
    assert!(k.intersects(&rbtree_key(0x800, 0x1000)));
    let top = rbtree_key(u64::MAX, 5);
    assert!(top.contains_addr(u64::MAX));
    assert!(!top.ends_by(u64::MAX));
}

#[test]
fn entries_come_out_in_address_order() {
    let tree = sample();
    assert_eq!(tree.len(), 3);
    assert!(!tree.is_empty());
    assert_eq!(entries(&tree), vec![(0x1000, 0x1000, 1), (0x2000, 0x800, 2), (0x3000, 0x1000, 3)]);
    assert_eq!(tree.first_at_or_after(0x2000).map(|n| n.data), Some(2));
    assert_eq!(tree.first_at_or_after(0x2001).map(|n| n.data), Some(3));
    assert_eq!(tree.first_at_or_after(0).map(|n| n.data), Some(1));
    assert!(tree.first_at_or_after(0x3001).is_none());
    assert_eq!(tree.first_ending_after(0).map(|n| n.data), Some(1));
    assert_eq!(tree.first_ending_after(0x1FFF).map(|n| n.data), Some(1));
    assert_eq!(tree.first_ending_after(0x2000).map(|n| n.data), Some(2));
    assert_eq!(tree.first_ending_after(0x27FF).map(|n| n.data), Some(2));
    assert_eq!(tree.first_ending_after(0x2800).map(|n| n.data), Some(3));
    assert!(tree.first_ending_after(0x4000).is_none());
    let empty: rbtree_s<u32> = rbtree_s::new();
    assert!(empty.is_empty());
    assert_eq!(empty.len(), 0);
    assert_eq!(empty.height(), 0);
    assert!(empty.first_at_or_after(0).is_none());
}

#[test]
fn insert_refuses_an_overlap_and_changes_nothing() {
    let mut tree = sample();
    assert_eq!(tree.insert(rbtree_key(0x27FF, 1), 9), Err(IndexError::Overlap));
    assert_eq!(tree.insert(rbtree_key(0x0, 0x1001), 9), Err(IndexError::Overlap));
    assert_eq!(tree.insert(rbtree_key(0x3000, 0), 9), Err(IndexError::Overlap));
    assert_eq!(tree.len(), 3);
    assert!(tree.overlaps_any(rbtree_key(0x1FFF, 2)));
    assert!(!tree.overlaps_any(rbtree_key(0x2800, 0x800)));
    assert_eq!(tree.insert(rbtree_key(0x2800, 0x800), 4), Ok(()));
    assert_eq!(tree.len(), 4);
    assert_eq!(entries(&tree)[2], (0x2800, 0x800, 4));
}

#[test]
fn find_exact_and_containing() {
    let tree = sample();
    assert_eq!(tree.find_exact(0x2000).map(|n| n.data), Some(2));
    assert!(tree.find_exact(0x2001).is_none());
    assert_eq!(tree.find_containing(0x27FF).map(|n| n.data), Some(2));
    assert!(tree.find_containing(0x2800).is_none());
    assert_eq!(tree.find_containing(0x3FFF).map(|n| n.data), Some(3));
    assert!(tree.find_containing(0x4000).is_none());
    assert!(tree.find_containing(0xFFF).is_none());
}

#[test]
fn remove_hands_the_entry_over() {
    let mut tree = sample();
    let node = tree.remove(0x2000).unwrap();
    assert_eq!(node.key, rbtree_key(0x2000, 0x800));
    assert_eq!(node.data, 2);
    assert_eq!(tree.len(), 2);
    assert_eq!(entries(&tree), vec![(0x1000, 0x1000, 1), (0x3000, 0x1000, 3)]);
    assert!(tree.find_exact(0x2000).is_none());
}

#[test]
fn remove_of_an_absent_start_is_not_found() {
    let mut tree = sample();
    assert_eq!(tree.remove(0x2400).map(|n| n.data), Err(IndexError::NotFound));
    assert_eq!(tree.remove(0x5000).map(|n| n.data), Err(IndexError::NotFound));
    assert_eq!(tree.len(), 3);
}

#[test]
fn insert_then_remove_restores_the_index() {
    let mut tree = sample();
    assert_eq!(tree.insert(rbtree_key(0x2800, 0x100), 7), Ok(()));
    assert_eq!(tree.remove(0x2800).map(|n| n.data), Ok(7));
    assert_eq!(entries(&tree), entries(&sample()));
}

#[test]
fn free_functions_insert_delete_and_reset() {
    let mut tree: rbtree_s<u8> = rbtree_s::new();
    let node = rbtree_node_s { key: rbtree_key(0x10, 0x10), data: 5 };
    assert_eq!(hsakmt_rbtree_insert(&mut tree, node), Ok(()));
    let twice = rbtree_node_s { key: rbtree_key(0x18, 0x10), data: 6 };
    assert_eq!(hsakmt_rbtree_insert(&mut tree, twice), Err(IndexError::Overlap));
    assert_eq!(hsakmt_rbtree_delete(&mut tree, 0x10).map(|n| n.data), Ok(5));
    assert_eq!(hsakmt_rbtree_delete(&mut tree, 0x10).map(|n| n.data), Err(IndexError::NotFound));
    assert_eq!(tree.insert(rbtree_key(1, 1), 1), Ok(()));
    rbtree_init(&mut tree);
    assert_eq!(tree.len(), 0);
}

#[test]
fn many_inserts_stay_disjoint_and_ordered() {
    let mut tree: rbtree_s<u64> = rbtree_s::new();
    let mut x: u64 = 12345;
    let mut accepted = 0;
    for _ in 0..400 {
        x = x.wrapping_mul(6364136223846793005).wrapping_add(1442695040888963407);
        let addr = (x >> 40) % 0x10000;
        let size = (x >> 20) % 0x80;
        if tree.insert(rbtree_key(addr, size), addr).is_ok() {
            accepted += 1;
        }
    }
    assert_eq!(tree.len(), accepted);
    let all = entries(&tree);
    assert_eq!(all.len(), accepted);
    for pair in all.windows(2) {
        assert!(pair[0].0 + pair[0].1.max(1) <= pair[1].0);
    }
}

#[test]
fn the_tree_stays_shallow() {
    let mut tree: rbtree_s<u32> = rbtree_s::new();
    for i in 0..10_000u64 {
        assert_eq!(tree.insert(rbtree_key(i * 16, 16), i as u32), Ok(()));
    }
    assert_eq!(tree.len(), 10_000);
    assert!(tree.height() >= 14);
    assert!(tree.height() <= 19);
    for i in (0..10_000u64).filter(|i| i % 3 != 0) {
        assert_eq!(tree.remove(i * 16).map(|n| n.data), Ok(i as u32));
    }
    assert_eq!(tree.len(), 3334);
    assert!(tree.height() >= 12);
    assert!(tree.height() <= 17);
    let all = entries(&tree);
    assert_eq!(all.len(), 3334);
    assert!(all.iter().enumerate().all(|(n, e)| e.0 == n as u64 * 48 && e.2 == n as u32 * 3));
    for i in (0..10_000u64).step_by(3) {
        assert_eq!(tree.find_containing(i * 16 + 15).map(|n| n.data), Some(i as u32));
        assert_eq!(tree.remove(i * 16).map(|n| n.data), Ok(i as u32));
    }
    assert!(tree.is_empty());
    assert_eq!(tree.height(), 0);
}

#[test]
fn a_tree_of_descending_inserts_is_balanced_too() {
    let mut tree: rbtree_s<()> = rbtree_s::new();
    for i in (0..1024u64).rev() {
        assert_eq!(tree.insert(rbtree_key(i, 1), ()), Ok(()));
    }
    assert_eq!(tree.height(), 11);
    let mut zigzag: rbtree_s<()> = rbtree_s::new();
    for i in 0..512u64 {
        assert_eq!(zigzag.insert(rbtree_key(i, 1), ()), Ok(()));
        assert_eq!(zigzag.insert(rbtree_key(2000 - i, 1), ()), Ok(()));
    }
    assert_eq!(zigzag.len(), 1024);
    assert!(zigzag.height() <= 15);
}
