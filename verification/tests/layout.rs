use composite_contract::{Error, Layout, Region};

fn regions_of(layout: &Layout) -> Vec<Region> {
    let mut out = Vec::new();
    for i in 0..layout.len() {
        out.push(layout.region(i).unwrap());
    }
    out
}

fn share_a_slot(a: &Region, b: &Region) -> bool {
    let a_end = a.offset as u128 + a.size as u128;
    let b_end = b.offset as u128 + b.size as u128;
    let from = (a.offset as u128).max(b.offset as u128);
    let to = a_end.min(b_end);
    from < to
}

#[test]
fn allocate_packs_regions_in_declaration_order() {
    let layout = Layout::allocate(&vec![3, 2, 0, 4]).unwrap();
    assert_eq!(layout.len(), 4);
    assert_eq!(layout.region(0), Some(Region { offset: 0, size: 3 }));
    assert_eq!(layout.region(1), Some(Region { offset: 3, size: 2 }));
    assert_eq!(layout.region(2), Some(Region { offset: 5, size: 0 }));
    assert_eq!(layout.region(3), Some(Region { offset: 5, size: 4 }));
    assert_eq!(layout.region(4), None);
}

#[test]
fn allocate_of_no_module_is_empty() {
    let layout = Layout::allocate(&Vec::new()).unwrap();
    assert_eq!(layout.len(), 0);
    assert_eq!(layout.region(0), None);
}

#[test]
fn allocate_is_deterministic() {
    let sizes = vec![7, 1, 1, 12, 5];
    let first = regions_of(&Layout::allocate(&sizes).unwrap());
    let second = regions_of(&Layout::allocate(&sizes).unwrap());
    assert_eq!(first, second);
}

#[test]
fn allocated_regions_are_pairwise_disjoint() {
    let orders: Vec<Vec<u64>> = vec![
        vec![1, 1],
        vec![5, 0, 3, 0, 0, 9],
        vec![9, 3, 5],
        vec![3, 5, 9],
        vec![u64::MAX - 10, 4, 6],
        vec![0, 0, 0],
        vec![1, 2, 3, 4, 5, 6, 7, 8, 9, 10],
    ];
    for sizes in orders {
        let regions = regions_of(&Layout::allocate(&sizes).unwrap());
        assert_eq!(regions.len(), sizes.len());
        for i in 0..regions.len() {
            assert_eq!(regions[i].size, sizes[i]);
            for j in (i + 1)..regions.len() {
                assert!(!share_a_slot(&regions[i], &regions[j]));
                assert!(!regions[i].overlaps(&regions[j]));
            }
        }
    }
}

#[test]
fn allocate_fills_the_slot_space_to_the_limit() {
    let layout = Layout::allocate(&vec![u64::MAX - 1, 1]).unwrap();
    assert_eq!(layout.region(1), Some(Region { offset: u64::MAX - 1, size: 1 }));
}

#[test]
fn allocate_rejects_sizes_beyond_the_slot_space() {
    assert!(matches!(Layout::allocate(&vec![u64::MAX, 1]), Err(Error::LayoutCollisionError)));
    assert!(matches!(
        Layout::allocate(&vec![1, u64::MAX / 2, u64::MAX / 2 + 1, 0]),
        Err(Error::LayoutCollisionError)
    ));
}

#[test]
fn appending_a_module_keeps_earlier_regions() {
    let before = regions_of(&Layout::allocate(&vec![4, 2, 6]).unwrap());
    let after = regions_of(&Layout::allocate(&vec![4, 2, 6, 3]).unwrap());
    assert_eq!(after.len(), 4);
    assert_eq!(&after[..3], &before[..]);
    assert_eq!(after[3], Region { offset: 12, size: 3 });
}

#[test]
fn from_regions_accepts_disjoint_regions_in_any_order() {
    let regions = vec![
        Region { offset: 10, size: 5 },
        Region { offset: 0, size: 10 },
        Region { offset: 15, size: 1 },
        Region { offset: 12, size: 0 },
    ];
    let layout = Layout::from_regions(regions.clone()).unwrap();
    assert_eq!(regions_of(&layout), regions);
}

#[test]
fn from_regions_rejects_overlapping_regions() {
    let overlapping = vec![
        Region { offset: 0, size: 4 },
        Region { offset: 8, size: 4 },
        Region { offset: 3, size: 2 },
    ];
    assert!(matches!(Layout::from_regions(overlapping), Err(Error::LayoutCollisionError)));
    let same = vec![Region { offset: 7, size: 1 }, Region { offset: 7, size: 1 }];
    assert!(matches!(Layout::from_regions(same), Err(Error::LayoutCollisionError)));
    let nested = vec![Region { offset: 0, size: u64::MAX }, Region { offset: 100, size: 1 }];
    assert!(matches!(Layout::from_regions(nested), Err(Error::LayoutCollisionError)));
}

#[test]
fn overlaps_tells_shared_slots() {
    let a = Region { offset: 4, size: 4 };
    assert!(a.overlaps(&Region { offset: 7, size: 1 }));
    assert!(a.overlaps(&Region { offset: 0, size: 5 }));
    assert!(a.overlaps(&a));
    assert!(!a.overlaps(&Region { offset: 8, size: 3 }));
    assert!(!a.overlaps(&Region { offset: 0, size: 4 }));
    assert!(!a.overlaps(&Region { offset: 5, size: 0 }));
    assert!(!Region { offset: 5, size: 0 }.overlaps(&a));
    let last = Region { offset: u64::MAX, size: 5 };
    assert!(last.overlaps(&Region { offset: u64::MAX - 1, size: 2 }));
    assert!(!last.overlaps(&Region { offset: u64::MAX - 1, size: 1 }));
}
