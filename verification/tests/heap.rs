use intro_core::heap::{region_for, Arena, Block, Service, DEFAULT_CAPACITY};

fn overlap(a: &Block, b: &Block) -> bool {
    a.addr < b.addr + b.size && b.addr < a.addr + a.size
}

#[test]
fn arena_needs_a_region() {
    assert!(Arena::new(0, 64).is_none());
    assert!(Arena::new(usize::MAX, 1).is_none());
    assert!(Arena::new(usize::MAX - 10, 11).is_none());
    assert!(Arena::new(usize::MAX - 10, 10).is_some());
    assert!(Arena::new(0x1000, 0).is_some());
}

#[test]
fn new_arena_is_empty() {
    let arena = Arena::new(0x1000, 256).unwrap();
    assert_eq!(arena.base(), 0x1000);
    assert_eq!(arena.capacity(), 256);
    assert_eq!(arena.used(), 0);
}

#[test]
fn blocks_are_handed_out_bottom_up() {
    let mut arena = Arena::new(0x1000, 256).unwrap();
    assert_eq!(arena.allocate(10, 1), Some(Block { addr: 0x1000, size: 10 }));
    assert_eq!(arena.used(), 10);
    assert_eq!(arena.allocate(4, 1), Some(Block { addr: 0x100A, size: 4 }));
    assert_eq!(arena.used(), 14);
}

#[test]
fn blocks_are_aligned() {
    let mut arena = Arena::new(0x1001, 256).unwrap();
    assert_eq!(arena.allocate(3, 8), Some(Block { addr: 0x1008, size: 3 }));
    assert_eq!(arena.used(), 10);
    assert_eq!(arena.allocate(1, 16), Some(Block { addr: 0x1010, size: 1 }));
    assert_eq!(arena.allocate(1, 1), Some(Block { addr: 0x1011, size: 1 }));
    assert_eq!(arena.allocate(5, 3), Some(Block { addr: 0x1014, size: 5 }));
    assert_eq!(0x1014 % 3, 0);
}

#[test]
fn alignment_of_zero_is_refused() {
    let mut arena = Arena::new(0x1000, 256).unwrap();
    assert_eq!(arena.allocate(8, 0), None);
    assert_eq!(arena.used(), 0);
}

#[test]
fn exhausted_arena_refuses_and_stays_unchanged() {
    let mut arena = Arena::new(0x1000, 16).unwrap();
    assert_eq!(arena.allocate(12, 4), Some(Block { addr: 0x1000, size: 12 }));
    assert_eq!(arena.allocate(5, 1), None);
    assert_eq!(arena.used(), 12);
    assert_eq!(arena.allocate(1, 8), None);
    assert_eq!(arena.used(), 12);
    assert_eq!(arena.allocate(4, 4), Some(Block { addr: 0x100C, size: 4 }));
    assert_eq!(arena.used(), 16);
    assert_eq!(arena.allocate(1, 1), None);
    assert_eq!(arena.allocate(0, 1), Some(Block { addr: 0x1010, size: 0 }));
}

#[test]
fn request_larger_than_the_address_space_is_refused() {
    let mut arena = Arena::new(usize::MAX - 32, 32).unwrap();
    assert_eq!(arena.allocate(usize::MAX, 1), None);
    assert_eq!(arena.allocate(1, usize::MAX), None);
    assert_eq!(arena.used(), 0);
    assert_eq!(arena.allocate(32, 1), Some(Block { addr: usize::MAX - 32, size: 32 }));
}

#[test]
fn repeated_requests_never_overlap() {
    let base = 0x4_0003;
    let mut arena = Arena::new(base, 4096).unwrap();
    let mut blocks: Vec<Block> = Vec::new();
    let sizes = [1usize, 7, 16, 3, 64, 0, 9, 128, 5, 33];
    let aligns = [1usize, 2, 16, 4, 64, 8, 1, 32, 3, 7];
    for round in 0..10 {
        let block = arena.allocate(sizes[round], aligns[round]).unwrap();
        assert_eq!(block.size, sizes[round]);
        assert_eq!(block.addr % aligns[round], 0);
        assert!(block.addr >= base);
        assert!(block.addr + block.size <= base + 4096);
        for earlier in &blocks {
            assert!(!overlap(earlier, &block));
            assert!(earlier.addr + earlier.size <= block.addr);
        }
        blocks.push(block);
    }
}

#[test]
fn deallocation_is_a_no_op() {
    let mut arena = Arena::new(0x2000, 64).unwrap();
    let first = arena.allocate(8, 8).unwrap();
    let second = arena.allocate(8, 8).unwrap();
    arena.dealloc(first);
    assert_eq!(arena.used(), 16);
    arena.dealloc(first);
    arena.dealloc(Block { addr: 1, size: 1 });
    assert_eq!(arena.used(), 16);
    let third = arena.allocate(8, 8).unwrap();
    assert_eq!(third, Block { addr: 0x2010, size: 8 });
    assert!(!overlap(&first, &third));
    assert!(!overlap(&second, &third));
}

#[test]
fn allocated_bytes_are_writable() {
    // The region is modelled by a buffer whose first byte has address `base`.
    let base = 0x7000usize;
    let mut region = vec![0u8; 128];
    let mut arena = Arena::new(base, region.len()).unwrap();
    let first = arena.allocate(20, 4).unwrap();
    let second = arena.allocate(30, 8).unwrap();
    for byte in &mut region[first.addr - base..first.addr - base + first.size] {
        *byte = 0xAA;
    }
    for byte in &mut region[second.addr - base..second.addr - base + second.size] {
        *byte = 0xBB;
    }
    arena.dealloc(first);
    region[first.addr - base] = 0x11;
    assert_eq!(region[first.addr - base], 0x11);
    assert_eq!(region[first.addr - base + 19], 0xAA);
    assert_eq!(region[second.addr - base], 0xBB);
    assert_eq!(region[second.addr - base + 29], 0xBB);
    assert_eq!(region.iter().filter(|byte| **byte == 0xBB).count(), 30);
}

#[test]
fn default_capacity_is_one_mebibyte() {
    assert_eq!(DEFAULT_CAPACITY, 1024 * 1024);
}

#[test]
fn further_region_is_sized_for_the_request() {
    assert_eq!(region_for(1, 1), Some(DEFAULT_CAPACITY));
    assert_eq!(region_for(DEFAULT_CAPACITY - 9, 8), Some(DEFAULT_CAPACITY));
    assert_eq!(region_for(DEFAULT_CAPACITY - 8, 8), Some(DEFAULT_CAPACITY));
    assert_eq!(region_for(DEFAULT_CAPACITY, 16), Some(DEFAULT_CAPACITY + 16));
    assert_eq!(region_for(usize::MAX - 4, 4), Some(usize::MAX));
    assert_eq!(region_for(usize::MAX - 3, 4), None);
    assert_eq!(region_for(usize::MAX, 1), None);
    assert_eq!(region_for(8, 0), None);
}

/// Hands the region to the arena and says whether it was taken.
fn grow(arena: &mut Arena, base: usize, capacity: usize) -> bool {
    let placeholder = Arena::new(1, 0).unwrap();
    let (grown, taken) = std::mem::replace(arena, placeholder).grow(base, capacity);
    *arena = grown;
    taken
}

#[test]
fn arena_continues_in_a_further_region_above() {
    let mut arena = Arena::new(0x1000, 16).unwrap();
    let first = arena.allocate(16, 1).unwrap();
    assert_eq!(arena.allocate(1, 1), None);
    assert!(grow(&mut arena, 0x9000, 64));
    assert_eq!(arena.base(), 0x9000);
    assert_eq!(arena.capacity(), 64);
    assert_eq!(arena.used(), 0);
    let second = arena.allocate(8, 8).unwrap();
    assert_eq!(second, Block { addr: 0x9000, size: 8 });
    assert!(!overlap(&first, &second));
}

#[test]
fn arena_continues_in_a_further_region_below() {
    let mut arena = Arena::new(0x9000, 16).unwrap();
    let first = arena.allocate(10, 1).unwrap();
    assert!(grow(&mut arena, 0x1000, 0x8000));
    let second = arena.allocate(0x8000, 1).unwrap();
    assert_eq!(second, Block { addr: 0x1000, size: 0x8000 });
    assert!(!overlap(&first, &second));
    assert_eq!(arena.allocate(1, 1), None);
    // A region that touches the earlier ones from above is apart from them.
    assert!(grow(&mut arena, 0x9010, 16));
    assert_eq!(arena.allocate(4, 1), Some(Block { addr: 0x9010, size: 4 }));
}

#[test]
fn arena_continues_in_a_region_between_earlier_ones() {
    let mut arena = Arena::new(0x1000_0000, DEFAULT_CAPACITY).unwrap();
    let first = arena.allocate(DEFAULT_CAPACITY, 1).unwrap();
    assert!(grow(&mut arena, 0x4000_0000, DEFAULT_CAPACITY));
    let second = arena.allocate(DEFAULT_CAPACITY, 1).unwrap();
    assert_eq!(arena.serve(0x200, 8), Service::Grow { capacity: DEFAULT_CAPACITY });
    // The system places the third region between the first two: it is taken.
    assert!(grow(&mut arena, 0x2000_0000, DEFAULT_CAPACITY));
    let third = Block { addr: 0x2000_0000, size: 0x200 };
    assert_eq!(arena.serve(0x200, 8), Service::Served { block: third });
    assert!(!overlap(&first, &third));
    assert!(!overlap(&second, &third));
    assert_eq!(
        arena.regions(),
        &vec![
            Block { addr: 0x1000_0000, size: DEFAULT_CAPACITY },
            Block { addr: 0x4000_0000, size: DEFAULT_CAPACITY },
            Block { addr: 0x2000_0000, size: DEFAULT_CAPACITY },
        ]
    );
}

#[test]
fn region_that_the_system_did_not_give_is_not_taken() {
    let mut arena = Arena::new(0x1000, 16).unwrap();
    arena.allocate(4, 1).unwrap();
    assert!(!grow(&mut arena, 0, 64));
    assert!(!grow(&mut arena, usize::MAX - 3, 5));
    assert_eq!(arena.base(), 0x1000);
    assert_eq!(arena.capacity(), 16);
    assert_eq!(arena.used(), 4);
    assert_eq!(arena.regions().len(), 1);
}

#[test]
fn region_that_overlaps_an_earlier_one_is_not_taken() {
    let mut arena = Arena::new(0x1000, 0x100).unwrap();
    assert!(!grow(&mut arena, 0x1000, 0x100));
    assert!(!grow(&mut arena, 0x10FF, 1));
    assert!(!grow(&mut arena, 0x0FFF, 2));
    assert!(!grow(&mut arena, 0x0F00, 0x1000));
    assert!(grow(&mut arena, 0x3000, 0x100));
    // Every region taken so far is looked at, not only the current one.
    assert!(!grow(&mut arena, 0x10F0, 0x20));
    assert!(!grow(&mut arena, 0x30FF, 0x10));
    assert!(!grow(&mut arena, 0x0800, 0x4000));
    // Between the two regions there is room, and a region there is taken.
    assert!(grow(&mut arena, 0x2000, 0x100));
    assert!(grow(&mut arena, 0x1100, 0xF00));
    assert!(!grow(&mut arena, 0x20FF, 1));
    assert!(grow(&mut arena, 0x0F00, 0x100));
    assert!(grow(&mut arena, 0x3100, 1));
    assert_eq!(arena.base(), 0x3100);
    assert_eq!(arena.regions().len(), 6);
}

#[test]
fn blocks_stay_apart_across_regions() {
    let mut arena = Arena::new(0x5000, 32).unwrap();
    let bases = [0x7000usize, 0x3000, 0x6000, 0x9000, 0x1000, 0x4000];
    let mut blocks: Vec<Block> = Vec::new();
    for base in bases {
        loop {
            match arena.allocate(12, 8) {
                Some(block) => {
                    for earlier in &blocks {
                        assert!(!overlap(earlier, &block));
                    }
                    assert!(arena
                        .regions()
                        .iter()
                        .any(|r| r.addr <= block.addr && block.addr + 12 <= r.addr + r.size));
                    blocks.push(block);
                }
                None => break,
            }
        }
        assert!(grow(&mut arena, base, 32));
    }
    assert_eq!(blocks.len(), 12);
    arena.dealloc(blocks[0]);
    assert_eq!(arena.allocate(12, 8), Some(Block { addr: 0x4000, size: 12 }));
}

#[test]
fn exhausted_region_is_no_failure() {
    let mut arena = Arena::new(0x1000, 16).unwrap();
    assert_eq!(arena.serve(16, 1), Service::Served { block: Block { addr: 0x1000, size: 16 } });
    assert_eq!(arena.serve(4, 4), Service::Grow { capacity: DEFAULT_CAPACITY });
    assert_eq!(arena.used(), 16);
    assert!(grow(&mut arena, 0x10_0003, DEFAULT_CAPACITY));
    assert_eq!(arena.serve(4, 4), Service::Served { block: Block { addr: 0x10_0004, size: 4 } });
    let large = 3 * DEFAULT_CAPACITY;
    assert_eq!(arena.serve(large, 64), Service::Grow { capacity: large + 64 });
    assert!(grow(&mut arena, 0x4000_0001, large + 64));
    assert_eq!(
        arena.serve(large, 64),
        Service::Served { block: Block { addr: 0x4000_0040, size: large } }
    );
}

#[test]
fn every_region_of_the_asked_size_serves_its_request() {
    let requests = [(1usize, 1usize), (0x200, 8), (DEFAULT_CAPACITY, 64), (9_900_000, 16)];
    let mut arena = Arena::new(0x1000, 0).unwrap();
    let mut base = 0x10_0001usize;
    for (size, align) in requests {
        let capacity = match arena.serve(size, align) {
            Service::Grow { capacity } => capacity,
            other => panic!("unexpected answer {:?}", other),
        };
        assert_eq!(Some(capacity), region_for(size, align));
        assert!(grow(&mut arena, base, capacity));
        match arena.serve(size, align) {
            Service::Served { block } => {
                assert_ne!(block.addr, 0);
                assert_eq!(block.size, size);
                assert_eq!(block.addr % align, 0);
                assert!(block.addr >= base && block.addr + size <= base + capacity);
            }
            other => panic!("unexpected answer {:?}", other),
        }
        // Use the region up, so that the next request needs a further one.
        while arena.allocate(1, 1).is_some() && arena.used() + 4096 < arena.capacity() {
            arena.allocate(4095, 1);
        }
        while arena.allocate(1, 1).is_some() {}
        base += capacity + 0x1000;
    }
}

#[test]
fn request_that_no_region_can_serve_is_refused() {
    let mut arena = Arena::new(0x1000, 16).unwrap();
    assert_eq!(arena.serve(8, 0), Service::Refused);
    assert_eq!(arena.serve(usize::MAX, 1), Service::Refused);
    assert_eq!(arena.serve(usize::MAX - 7, 8), Service::Refused);
    assert_eq!(arena.used(), 0);
    assert_eq!(arena.serve(0, 1), Service::Served { block: Block { addr: 0x1000, size: 0 } });
}
