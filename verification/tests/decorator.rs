use debug_allocator::{
    Action, AllocError, Block, DebugAlloc, Kind, Layout, StubAllocator,
};

fn decorated(capacity: usize) -> DebugAlloc<StubAllocator> {
    DebugAlloc::new(StubAllocator { capacity })
}

#[test]
fn stub_grants_within_capacity() {
    let d = decorated(1024);
    let layout = Layout { size: 16, align: 8 };
    let r = d.allocate(layout);
    assert_eq!(r, Ok(Block { addr: 8, size: 16 }));
}

#[test]
fn successful_allocate_is_newest_entry() {
    let d = decorated(1024);
    let layout = Layout { size: 16, align: 8 };
    let r = d.allocate(layout);
    let b = r.unwrap();
    let log = d.history();
    let newest = log.last().unwrap();
    assert_eq!(newest.kind, Kind::Allocate);
    assert_eq!(newest.addr, Some(b.addr));
    assert_eq!(newest.layout, layout);
}

#[test]
fn failed_allocate_is_recorded_and_observed() {
    let d = decorated(0);
    let layout = Layout { size: 16, align: 8 };
    let r = d.allocate(layout);
    assert_eq!(r, Err(AllocError));
    let log = d.history();
    let newest = log.last().unwrap();
    assert_eq!(newest.addr, None);
    assert_eq!(newest.kind, Kind::Allocate);
    assert_eq!(newest.layout, layout);
}

#[test]
fn allocate_zeroed_is_recorded() {
    let d = decorated(1024);
    let layout = Layout { size: 32, align: 4 };
    let r = d.allocate_zeroed(layout);
    assert_eq!(r, Ok(Block { addr: 4, size: 32 }));
    let log = d.history();
    assert_eq!(log[0].kind, Kind::AllocateZeroed);
    assert_eq!(log[0].addr, Some(4));
}

#[test]
fn sequencing_dump_all_is_newest_first() {
    let d = decorated(1024);
    let l1 = Layout { size: 16, align: 4 };
    let l2 = Layout { size: 64, align: 8 };
    let b1 = d.allocate(l1).unwrap();
    d.deallocate(b1.addr, l1);
    let b2 = d.allocate(l2).unwrap();
    let dump = d.dump_all_history();
    let expected_newest = Action {
        addr: Some(b2.addr),
        layout: l2,
        kind: Kind::Allocate,
    };
    let expected_middle = Action {
        addr: Some(b1.addr),
        layout: l1,
        kind: Kind::Deallocate,
    };
    let expected_oldest = Action {
        addr: Some(b1.addr),
        layout: l1,
        kind: Kind::Allocate,
    };
    assert_eq!(
        dump,
        vec![
            expected_newest.render(),
            expected_middle.render(),
            expected_oldest.render(),
        ]
    );
}

#[test]
fn grow_records_old_layout_payload() {
    let d = decorated(1024);
    let old_layout = Layout { size: 16, align: 4 };
    let new_layout = Layout { size: 32, align: 4 };
    let b = d.allocate(old_layout).unwrap();
    let r = d.grow(b.addr, old_layout, new_layout);
    assert_eq!(
        r,
        Ok(Block {
            addr: new_layout.align,
            size: new_layout.size
        })
    );
    let log = d.history();
    let newest = log.last().unwrap();
    assert_eq!(newest.kind, Kind::Grow(old_layout));
    assert_eq!(newest.layout, new_layout);
    assert_eq!(newest.addr, Some(new_layout.align));
}

#[test]
fn grow_zeroed_failure_is_recorded() {
    let d = decorated(16);
    let old_layout = Layout { size: 8, align: 2 };
    let new_layout = Layout { size: 64, align: 2 };
    let b = d.allocate(old_layout).unwrap();
    let r = d.grow_zeroed(b.addr, old_layout, new_layout);
    assert_eq!(r, Err(AllocError));
    let log = d.history();
    let newest = log.last().unwrap();
    assert_eq!(newest.kind, Kind::GrowZeroed(old_layout));
    assert_eq!(newest.addr, None);
    assert_eq!(newest.layout, new_layout);
}

#[test]
fn shrink_records_old_layout_payload() {
    let d = decorated(1024);
    let old_layout = Layout { size: 64, align: 8 };
    let new_layout = Layout { size: 8, align: 8 };
    let b = d.allocate(old_layout).unwrap();
    let r = d.shrink(b.addr, old_layout, new_layout);
    assert_eq!(
        r,
        Ok(Block {
            addr: new_layout.align,
            size: new_layout.size
        })
    );
    let newest = d.history().pop().unwrap();
    assert_eq!(newest.kind, Kind::Shrink(old_layout));
}

#[test]
fn clear_history_empties_the_shared_log() {
    let d = decorated(1024);
    let layout = Layout { size: 4, align: 1 };
    for _ in 0..5 {
        let _ = d.allocate(layout);
    }
    assert_eq!(d.history().len(), 5);
    d.clear_history();
    assert_eq!(d.history().len(), 0);
}

#[test]
fn pop_history_n_removes_oldest_entries() {
    let d = decorated(1024);
    let _ = d.allocate(Layout { size: 1, align: 1 });
    let _ = d.allocate(Layout { size: 2, align: 1 });
    let _ = d.allocate(Layout { size: 3, align: 1 });
    d.pop_history_n(2);
    let log = d.history();
    assert_eq!(log.len(), 1);
    assert_eq!(log[0].layout, Layout { size: 3, align: 1 });
}

#[test]
fn shrink_history_keeps_newest_entries() {
    let d = decorated(1024);
    let _ = d.allocate(Layout { size: 1, align: 1 });
    let _ = d.allocate(Layout { size: 2, align: 1 });
    let _ = d.allocate(Layout { size: 3, align: 1 });
    d.shrink_history(10);
    assert_eq!(d.history().len(), 3);
    d.shrink_history(1);
    let log = d.history();
    assert_eq!(log.len(), 1);
    assert_eq!(log[0].layout, Layout { size: 3, align: 1 });
}

#[test]
fn dump_n_through_decorator_is_bounded() {
    let d = decorated(1024);
    let _ = d.allocate(Layout { size: 1, align: 1 });
    let _ = d.allocate(Layout { size: 2, align: 1 });
    assert_eq!(d.dump_n(0).len(), 0);
    assert_eq!(d.dump_n(1).len(), 1);
    assert_eq!(d.dump_n(10).len(), 2);
}

#[test]
fn poisoned_reports_false() {
    let d = decorated(1024);
    assert!(!d.poisoned());
    let _ = d.allocate(Layout { size: 1, align: 1 });
    assert!(!d.poisoned());
}

#[test]
fn cloned_handles_share_one_log() {
    let d = decorated(1024);
    let d2 = d.clone();
    let _ = d.allocate(Layout { size: 1, align: 1 });
    let _ = d2.allocate(Layout { size: 2, align: 1 });
    let via_first = d.history();
    let via_second = d2.history();
    assert_eq!(via_first, via_second);
    assert_eq!(via_first.len(), 2);
    assert_eq!(via_first[0].layout, Layout { size: 1, align: 1 });
    assert_eq!(via_first[1].layout, Layout { size: 2, align: 1 });
}
