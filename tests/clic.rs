use riscv32i::clic::{Clic, NUM_LINES};

fn mask_of(lines: &[u32]) -> u64 {
    let mut m: u64 = 0;
    for &l in lines {
        m |= 1u64 << l;
    }
    m
}

#[test]
fn new_selects_lines_from_mask() {
    let clic = Clic::new(mask_of(&[3, 5, 7, 16, 40]));
    assert!(clic.is_in_use(3));
    assert!(clic.is_in_use(7));
    assert!(clic.is_in_use(16));
    assert!(clic.is_in_use(40));
    // Index 5 names no register, so its bit is ignored.
    assert!(!clic.is_in_use(5));
    assert!(!clic.is_in_use(11));
    assert!(!clic.is_in_use(200));
    for i in 0..NUM_LINES as u32 {
        assert!(!clic.is_pending(i));
        assert!(!clic.is_enabled(i));
    }
}

#[test]
fn clear_all_pending_leaves_nothing_pending() {
    let mut clic = Clic::new(mask_of(&[3, 7, 11, 12, 16, 20]));
    for i in [3u32, 7, 11, 12, 16, 20, 30, 143] {
        clic.set_pending(i);
    }
    assert!(clic.has_pending());
    clic.clear_all_pending();
    assert!(!clic.has_pending());
    assert_eq!(clic.next_pending(), None);
    for i in 0..NUM_LINES as u32 {
        assert!(!clic.is_pending(i));
    }
}

#[test]
fn enable_all_then_disable_all_disables_every_line() {
    let mut clic = Clic::new(mask_of(&[3, 7, 16, 17, 18]));
    clic.enable_all();
    assert!(clic.is_enabled(3));
    assert!(clic.is_enabled(7));
    assert!(clic.is_enabled(18));
    // Lines not in use stay masked.
    assert!(!clic.is_enabled(11));
    assert!(!clic.is_enabled(19));
    clic.disable_all();
    for i in 0..NUM_LINES as u32 {
        assert!(!clic.is_enabled(i));
    }
}

#[test]
fn next_pending_ascends_and_ignores_lines_not_in_use() {
    let mut clic = Clic::new(mask_of(&[3, 7, 11, 12, 16, 20, 33]));
    for i in [33u32, 20, 12, 3, 25, 100] {
        clic.set_pending(i);
    }
    // Repeated scans without completing answer the same line.
    assert_eq!(clic.next_pending(), Some(3));
    assert_eq!(clic.next_pending(), Some(3));
    let mut seen = Vec::new();
    while let Some(i) = clic.next_pending() {
        assert!(clic.is_in_use(i));
        assert!(clic.has_pending());
        seen.push(i);
        clic.complete(i);
    }
    assert_eq!(seen, vec![3, 12, 20, 33]);
    assert!(!clic.has_pending());
    // Pending lines that are not in use are still latched.
    assert!(clic.is_pending(25));
    assert!(clic.is_pending(100));
}

#[test]
fn fixed_lines_come_first_in_fixed_order() {
    let mut clic = Clic::new(mask_of(&[3, 7, 11, 12, 16]));
    for i in [16u32, 12, 11, 7, 3] {
        clic.set_pending(i);
    }
    let mut order = Vec::new();
    while let Some(i) = clic.next_pending() {
        order.push(i);
        clic.complete(i);
    }
    assert_eq!(order, vec![3, 7, 11, 12, 16]);
}

#[test]
fn pending_while_disabled_is_still_reported() {
    let mut clic = Clic::new(mask_of(&[20]));
    clic.set_pending(20);
    assert!(!clic.is_enabled(20));
    assert!(clic.is_pending(20));
    assert_eq!(clic.next_pending(), Some(20));
}

#[test]
fn complete_twice_same_as_once() {
    let mut clic = Clic::new(mask_of(&[7, 16, 17]));
    clic.enable_all();
    clic.set_pending(7);
    clic.set_pending(17);
    clic.complete(7);
    let once: Vec<(bool, bool)> =
        (0..NUM_LINES as u32).map(|i| (clic.is_pending(i), clic.is_enabled(i))).collect();
    clic.complete(7);
    let twice: Vec<(bool, bool)> =
        (0..NUM_LINES as u32).map(|i| (clic.is_pending(i), clic.is_enabled(i))).collect();
    assert_eq!(once, twice);
    assert!(!clic.is_pending(7));
    assert!(clic.is_pending(17));
}

#[test]
fn complete_unmapped_index_is_noop() {
    let mut clic = Clic::new(mask_of(&[3, 7, 11, 12, 16]));
    clic.enable_all();
    for i in [3u32, 7, 11, 12, 16, 143] {
        clic.set_pending(i);
    }
    let before: Vec<(bool, bool)> =
        (0..NUM_LINES as u32).map(|i| (clic.is_pending(i), clic.is_enabled(i))).collect();
    for index in [0u32, 5, 8, 13, 15, 144, 1000, u32::MAX] {
        clic.complete(index);
    }
    let after: Vec<(bool, bool)> =
        (0..NUM_LINES as u32).map(|i| (clic.is_pending(i), clic.is_enabled(i))).collect();
    assert_eq!(before, after);
}

#[test]
fn complete_clears_last_local_line() {
    let mut clic = Clic::new(0);
    clic.set_pending(143);
    assert!(clic.is_pending(143));
    clic.complete(143);
    assert!(!clic.is_pending(143));
}

#[test]
fn timer_wins_then_local_line_then_none() {
    let mut clic = Clic::new(mask_of(&[3, 7, 11, 12, 16]));
    clic.set_pending(7);
    clic.set_pending(16);
    assert_eq!(clic.next_pending(), Some(7));
    clic.complete(7);
    assert_eq!(clic.next_pending(), Some(16));
    clic.complete(16);
    assert_eq!(clic.next_pending(), None);
    assert!(!clic.has_pending());
}

#[test]
fn disable_pending_disables_and_keeps_pending() {
    // Local line 9 is index 25.
    let mut clic = Clic::new(mask_of(&[7, 25, 26]));
    clic.enable_all();
    clic.set_pending(25);
    clic.disable_pending();
    assert!(!clic.is_enabled(25));
    assert!(clic.is_pending(25));
    // An enabled line that is not pending stays enabled.
    assert!(clic.is_enabled(26));
    assert!(clic.is_enabled(7));
}

#[test]
fn disable_pending_leaves_disabled_pending_line_alone() {
    let mut clic = Clic::new(mask_of(&[25]));
    clic.set_pending(25);
    clic.disable_pending();
    assert!(!clic.is_enabled(25));
    assert!(clic.is_pending(25));
}

#[test]
fn set_pending_outside_lines_is_ignored() {
    let mut clic = Clic::new(u64::MAX);
    clic.set_pending(5);
    clic.set_pending(144);
    assert!(!clic.has_pending());
    assert!(!clic.is_pending(5));
}
