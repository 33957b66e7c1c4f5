//! The exception-fixup table: sorting, lookup and fixup behaviour.

use axcpu::aarch64::TrapFrame;
use axcpu::uspace::{init_exception_table, ExceptionTableEntry};
use axcpu::x86_64::TrapFrame as X86TrapFrame;

fn entry(from: usize, to: usize) -> ExceptionTableEntry {
    ExceptionTableEntry { from, to }
}

#[test]
fn init_sorts_arbitrary_order() {
    let entries = vec![
        entry(0x300, 0x301),
        entry(0x100, 0x101),
        entry(0x500, 0x501),
        entry(0x200, 0x201),
        entry(0x400, 0x401),
    ];
    let t = init_exception_table(entries);
    assert_eq!(t.len(), 5);
    for i in 0..t.len() - 1 {
        assert!(t.entry_at(i).from < t.entry_at(i + 1).from);
    }
    assert_eq!(t.entry_at(0).from, 0x100);
    assert_eq!(t.entry_at(4).from, 0x500);
}

#[test]
fn init_keeps_pairs_together() {
    let entries = vec![entry(7, 70), entry(3, 30), entry(5, 50)];
    let t = init_exception_table(entries);
    assert_eq!(t.entry_at(0), entry(3, 30));
    assert_eq!(t.entry_at(1), entry(5, 50));
    assert_eq!(t.entry_at(2), entry(7, 70));
}

#[test]
fn lookup_hits_every_entry() {
    let entries = vec![
        entry(0x300, 0x301),
        entry(0x100, 0x101),
        entry(0x500, 0x501),
        entry(0x200, 0x201),
        entry(0x400, 0x401),
    ];
    let t = init_exception_table(entries);
    for from in [0x100usize, 0x200, 0x300, 0x400, 0x500] {
        assert_eq!(t.lookup(from), Some(from + 1));
    }
}

#[test]
fn lookup_misses_absent_addresses() {
    let t = init_exception_table(vec![entry(0x100, 0x101), entry(0x300, 0x301)]);
    assert_eq!(t.lookup(0x0), None);
    assert_eq!(t.lookup(0xff), None);
    assert_eq!(t.lookup(0x200), None);
    assert_eq!(t.lookup(0x301), None);
    assert_eq!(t.lookup(usize::MAX), None);
}

#[test]
fn fixup_rewrites_matching_instruction_pointer() {
    let t = init_exception_table(vec![entry(0x2000, 0x2f00), entry(0x1000, 0x1f00)]);
    let mut tf = TrapFrame::new();
    tf.elr = 0x1000;
    assert!(tf.fixup_exception(&t));
    assert_eq!(tf.elr, 0x1f00);
    tf.elr = 0x2000;
    assert!(tf.fixup_exception(&t));
    assert_eq!(tf.elr, 0x2f00);
}

#[test]
fn fixup_leaves_unmatched_frame_unchanged() {
    let t = init_exception_table(vec![entry(0x1000, 0x1f00)]);
    let mut tf = TrapFrame::new();
    tf.elr = 0x1004;
    tf.usp = 0x77;
    assert!(!tf.fixup_exception(&t));
    assert_eq!(tf.elr, 0x1004);
    assert_eq!(tf.usp, 0x77);
}

#[test]
fn x86_fixup_rewrites_matching_instruction_pointer() {
    let t = init_exception_table(vec![entry(0x2000, 0x2f00), entry(0x1000, 0x1f00)]);
    let mut tf = X86TrapFrame::new();
    tf.rip = 0x2000;
    tf.rbx = 9;
    assert!(tf.fixup_exception(&t));
    assert_eq!(tf.rip, 0x2f00);
    assert_eq!(tf.rbx, 9);
    tf.rip = 0x2f00;
    assert!(!tf.fixup_exception(&t));
    assert_eq!(tf.rip, 0x2f00);
}

#[test]
fn empty_table_never_fixes_up() {
    let t = init_exception_table(Vec::new());
    assert_eq!(t.len(), 0);
    assert_eq!(t.lookup(0), None);
    let mut tf = TrapFrame::new();
    assert!(!tf.fixup_exception(&t));
    assert_eq!(tf.elr, 0);
}

#[test]
fn resorting_sorted_table_is_a_no_op() {
    let sorted = vec![entry(1, 10), entry(2, 20), entry(3, 30), entry(9, 90)];
    let t = init_exception_table(sorted.clone());
    for (i, e) in sorted.iter().enumerate() {
        assert_eq!(t.entry_at(i), *e);
    }
}

#[test]
fn init_sorts_descending_input() {
    let mut entries = Vec::new();
    for i in (0..16usize).rev() {
        entries.push(entry(i * 0x10, i * 0x10 + 1));
    }
    let t = init_exception_table(entries);
    assert_eq!(t.len(), 16);
    for i in 0..16usize {
        assert_eq!(t.entry_at(i), entry(i * 0x10, i * 0x10 + 1));
        assert_eq!(t.lookup(i * 0x10), Some(i * 0x10 + 1));
    }
}

#[test]
fn single_entry_table() {
    let t = init_exception_table(vec![entry(42, 43)]);
    assert_eq!(t.lookup(42), Some(43));
    assert_eq!(t.lookup(41), None);
    assert_eq!(t.lookup(43), None);
}

#[test]
fn duplicate_faulting_addresses_both_kept() {
    let t = init_exception_table(vec![entry(5, 50), entry(5, 51), entry(1, 10)]);
    assert_eq!(t.len(), 3);
    assert_eq!(t.entry_at(0), entry(1, 10));
    assert_eq!(t.entry_at(1).from, 5);
    assert_eq!(t.entry_at(2).from, 5);
    let to = t.lookup(5).unwrap();
    assert!(to == 50 || to == 51);
}
