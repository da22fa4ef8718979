use finance_lib::allocator::{accept_candidate, IdAllocator, MACHINE_ID, NODE_ID};
use finance_lib::error::LedgerError;

#[test]
fn the_first_candidate_is_accepted() {
    assert_eq!(accept_candidate(None, 5), Ok(5));
    assert_eq!(accept_candidate(None, -5), Ok(-5));
    assert_eq!(accept_candidate(None, i64::MIN), Ok(i64::MIN));
}

#[test]
fn a_greater_candidate_is_accepted() {
    assert_eq!(accept_candidate(Some(5), 6), Ok(6));
    assert_eq!(accept_candidate(Some(-1), 0), Ok(0));
    assert_eq!(accept_candidate(Some(i64::MAX - 1), i64::MAX), Ok(i64::MAX));
}

#[test]
fn a_candidate_that_is_not_greater_is_refused() {
    assert_eq!(accept_candidate(Some(5), 5), Err(LedgerError::InternalError));
    assert_eq!(accept_candidate(Some(5), 4), Err(LedgerError::InternalError));
    assert_eq!(accept_candidate(Some(i64::MAX), i64::MIN), Err(LedgerError::InternalError));
}

#[test]
fn allocated_ids_increase() {
    let mut allocator = IdAllocator::new();
    let mut last: Option<i64> = None;
    for _ in 0..10000 {
        let id = allocator.allocate().unwrap();
        if let Some(l) = last {
            assert!(l < id);
        }
        last = Some(id);
    }
}

#[test]
fn allocated_ids_are_positive_and_name_machine_and_node() {
    let mut allocator = IdAllocator::new();
    let id = allocator.allocate().unwrap();
    assert!(id > 0);
    assert_eq!((id >> 17) & 31, MACHINE_ID as i64);
    assert_eq!((id >> 12) & 31, NODE_ID as i64);
    assert_eq!((MACHINE_ID, NODE_ID), (1, 1));
}

#[test]
fn the_first_identifier_is_issued() {
    for _ in 0..100 {
        assert!(IdAllocator::new().allocate().is_ok());
    }
}

#[test]
fn a_marked_identifier_is_not_issued_again() {
    let mut allocator = IdAllocator::new();
    let first = allocator.allocate().unwrap();
    allocator.mark_issued(first - 1);
    let second = allocator.allocate().unwrap();
    assert!(first < second);
    allocator.mark_issued(second + (1 << 40));
    assert_eq!(allocator.allocate(), Err(LedgerError::InternalError));
    assert_eq!(allocator.allocate(), Err(LedgerError::InternalError));
}

#[test]
fn nothing_is_issued_above_the_greatest_identifier() {
    let mut allocator = IdAllocator::new();
    allocator.mark_issued(i64::MAX);
    assert_eq!(allocator.allocate(), Err(LedgerError::InternalError));
    allocator.mark_issued(i64::MIN);
    assert_eq!(allocator.allocate(), Err(LedgerError::InternalError));
}
