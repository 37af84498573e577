use debug_allocator::{Action, AllocError, Block, History, Kind, Layout};

fn entry(tag: usize) -> Action {
    Action {
        addr: Some(tag),
        layout: Layout {
            size: tag,
            align: 1,
        },
        kind: Kind::Allocate,
    }
}

fn three_entry_log() -> (History, Action, Action, Action) {
    let mut h = History::new();
    let a = entry(1);
    let b = entry(2);
    let c = entry(3);
    h.append(a);
    h.append(b);
    h.append(c);
    (h, a, b, c)
}

#[test]
fn snapshot_is_oldest_first() {
    let (h, a, b, c) = three_entry_log();
    assert_eq!(h.snapshot(), vec![a, b, c]);
    assert_eq!(h.len(), 3);
}

#[test]
fn clear_empties_log() {
    let (mut h, _, _, _) = three_entry_log();
    h.clear();
    assert_eq!(h.snapshot().len(), 0);
    assert_eq!(h.len(), 0);
}

#[test]
fn clear_on_empty_log() {
    let mut h = History::new();
    h.clear();
    assert_eq!(h.snapshot().len(), 0);
}

#[test]
fn pop_front_removes_oldest() {
    let (mut h, _, _, c) = three_entry_log();
    h.pop_front_n(2);
    assert_eq!(h.snapshot(), vec![c]);
}

#[test]
fn pop_front_beyond_length_clears() {
    let (mut h, _, _, _) = three_entry_log();
    h.pop_front_n(10);
    assert_eq!(h.snapshot(), Vec::<Action>::new());
}

#[test]
fn pop_front_zero_is_noop() {
    let (mut h, a, b, c) = three_entry_log();
    h.pop_front_n(0);
    assert_eq!(h.snapshot(), vec![a, b, c]);
}

#[test]
fn shrink_keeps_newest() {
    let (mut h, _, _, c) = three_entry_log();
    h.shrink_to_last_n(1);
    assert_eq!(h.snapshot(), vec![c]);
}

#[test]
fn shrink_beyond_length_is_noop() {
    let (mut h, a, b, c) = three_entry_log();
    h.shrink_to_last_n(10);
    assert_eq!(h.snapshot(), vec![a, b, c]);
}

#[test]
fn shrink_to_zero_clears() {
    let (mut h, _, _, _) = three_entry_log();
    h.shrink_to_last_n(0);
    assert_eq!(h.snapshot().len(), 0);
}

#[test]
fn dump_n_is_newest_first_and_bounded() {
    let (h, a, b, c) = three_entry_log();
    assert_eq!(h.dump_n(0), Vec::<String>::new());
    assert_eq!(h.dump_n(2), vec![c.render(), b.render()]);
    assert_eq!(h.dump_n(10), vec![c.render(), b.render(), a.render()]);
}

#[test]
fn dump_all_is_newest_first() {
    let (h, a, b, c) = three_entry_log();
    assert_eq!(h.dump_all(), vec![c.render(), b.render(), a.render()]);
}

#[test]
fn dump_on_empty_log_is_empty() {
    let h = History::new();
    assert_eq!(h.dump_all(), Vec::<String>::new());
    assert_eq!(h.dump_n(5), Vec::<String>::new());
}

#[test]
fn record_success_keeps_outcome_and_logs_address() {
    let mut h = History::new();
    let layout = Layout { size: 16, align: 4 };
    let outcome = Ok(Block {
        addr: 0x1000,
        size: 16,
    });
    let r = h.record(Kind::Allocate, layout, outcome);
    assert_eq!(r, outcome);
    let log = h.snapshot();
    assert_eq!(log.len(), 1);
    assert_eq!(log[0].kind, Kind::Allocate);
    assert_eq!(log[0].addr, Some(0x1000));
    assert_eq!(log[0].layout, layout);
}

#[test]
fn record_failure_keeps_outcome_and_logs_no_address() {
    let mut h = History::new();
    let layout = Layout { size: 16, align: 4 };
    let r = h.record(Kind::AllocateZeroed, layout, Err(AllocError));
    assert_eq!(r, Err(AllocError));
    let log = h.snapshot();
    assert_eq!(log.len(), 1);
    assert_eq!(log[0].kind, Kind::AllocateZeroed);
    assert_eq!(log[0].addr, None);
    assert_eq!(log[0].layout, layout);
}
