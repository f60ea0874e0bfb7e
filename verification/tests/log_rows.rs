use tvm_emu::logbuf::{log_capacity, make_vm_log_mask, VmLogRows};

#[test]
fn mask_grows_with_verbosity() {
    assert_eq!(make_vm_log_mask(0, false), 0);
    assert_eq!(make_vm_log_mask(1, false), 1);
    assert_eq!(make_vm_log_mask(2, false), 1 | 4);
    assert_eq!(make_vm_log_mask(3, false), 1 | 4 | 8);
    assert_eq!(make_vm_log_mask(4, false), 1 | 4 | 8 | 2);
    assert_eq!(make_vm_log_mask(5, false), 1 | 4 | 8 | 2 | 32);
    assert_eq!(make_vm_log_mask(9, false), 1 | 4 | 8 | 2 | 32);
}

#[test]
fn action_register_dump_only_where_allowed() {
    assert_eq!(make_vm_log_mask(5, true), 1 | 4 | 8 | 2 | 32 | 64);
    assert_eq!(make_vm_log_mask(4, true), 1 | 4 | 8 | 2);
}

#[test]
fn negative_verbosity_still_logs_messages() {
    assert_eq!(make_vm_log_mask(-1, false), 1);
}

#[test]
fn capacity_per_verbosity() {
    assert_eq!(log_capacity(0), 256);
    assert_eq!(log_capacity(-3), 256);
    assert_eq!(log_capacity(1), 1 << 20);
    assert_eq!(log_capacity(4), 1 << 20);
    assert_eq!(log_capacity(5), 32 << 20);
}

#[test]
fn ring_buffer_drops_oldest_first() {
    let mut rows = VmLogRows::new(2);
    rows.push_row("a".to_string());
    rows.push_row("b".to_string());
    assert_eq!(rows.len(), 2);
    rows.push_row("c".to_string());
    assert_eq!(rows.len(), 2);
    let taken = rows.take_rows();
    assert_eq!(taken, vec!["b".to_string(), "c".to_string()]);
    assert_eq!(rows.len(), 0);
}

#[test]
fn zero_capacity_keeps_only_newest_row() {
    let mut rows = VmLogRows::new(0);
    rows.push_row("a".to_string());
    rows.push_row("b".to_string());
    let taken = rows.take_rows();
    assert_eq!(taken, vec!["b".to_string()]);
}

#[test]
fn get_buffer_is_empty_and_recycles_at_capacity() {
    let mut rows = VmLogRows::new(1);
    let buffer = rows.get_buffer();
    assert_eq!(buffer, "");
    assert_eq!(rows.len(), 0);
    rows.push_row("x".to_string());
    let buffer = rows.get_buffer();
    assert_eq!(buffer, "");
    assert_eq!(rows.len(), 0);
}
