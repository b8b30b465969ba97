use rc_ocell::CellStore;
use rc_ocell::RcOCell;
use rc_ocell::RcOCellBorrowError;
use rc_ocell::RcOCellComputeResult;
use rc_ocell::RcOCellError;

#[test]
fn test_set_then_take_round_trip() {
    let mut store = CellStore::new();
    let x = RcOCell::new(&mut store);
    assert_eq!(x.set(&mut store, 42u64), None);
    assert_eq!(x.get_and_clear(&mut store), 42u64);
    assert_eq!(x.is_none(&store), true);
    assert_eq!(x.set(&mut store, 7u64), None);
    assert_eq!(x.set(&mut store, 8u64), Some(7u64));
    assert_eq!(x.get_and_clear(&mut store), 8u64);
    assert_eq!(x.is_none(&store), true);
}

#[test]
fn test_shared_guards_coexist() {
    let mut store = CellStore::new();
    let x = RcOCell::from_value(&mut store, "Baum".to_string());
    let g1 = x.borrow(&mut store);
    let g2 = x.borrow(&mut store);
    let g3 = x.try_borrow(&mut store);
    assert!(g3.is_ok());
    assert_eq!(g1.read(&store).as_str(), "Baum");
    assert_eq!(g2.read(&store).as_str(), "Baum");
    match x.try_borrow_mut(&mut store) {
        Err(RcOCellError::BorrowError(RcOCellBorrowError::Mut)) => {}
        _ => panic!("an exclusive access must conflict with shared guards"),
    }
    g3.unwrap().release(&mut store);
    g2.release(&mut store);
    g1.release(&mut store);
    let e = x.borrow_mut(&mut store);
    match x.try_borrow(&mut store) {
        Err(RcOCellError::BorrowError(RcOCellBorrowError::Normal)) => {}
        _ => panic!("a shared access must conflict with an exclusive guard"),
    }
    match x.try_borrow_mut(&mut store) {
        Err(RcOCellError::BorrowError(RcOCellBorrowError::Mut)) => {}
        _ => panic!("an exclusive access must conflict with an exclusive guard"),
    }
    e.release(&mut store);
    assert!(x.try_borrow(&mut store).is_ok());
}

#[test]
fn test_exclusive_attempt_under_shared_guard() {
    let mut store = CellStore::new();
    let x = RcOCell::from_value(&mut store, "Baum".to_string());
    let g = x.borrow(&mut store);
    match x.try_borrow_mut(&mut store) {
        Err(RcOCellError::BorrowError(RcOCellBorrowError::Mut)) => {}
        _ => panic!("expected an exclusive-access conflict"),
    }
    assert_eq!(g.read(&store).as_str(), "Baum");
    g.release(&mut store);
}

#[test]
fn test_weak_after_last_owner() {
    let mut store = CellStore::new();
    let x = RcOCell::from_value(&mut store, "Baum".to_string());
    let down = x.downgrade();
    assert_eq!(down.is_some(&store), true);
    x.drop_cell(&mut store);
    assert_eq!(down.is_none(&store), true);
    match down.try_upgrade(&mut store) {
        Err(RcOCellError::Dropped) => {}
        _ => panic!("promotion of a dead slot must report Dropped"),
    }
    match down.try_set(&mut store, "Nase".to_string()) {
        Err(RcOCellError::Dropped) => {}
        _ => panic!("writing through a dead weak handle must report Dropped"),
    }
    assert_eq!(down.display_string(&store).as_str(), "Value already dropped");
}

#[test]
fn test_compute_outcomes_populated() {
    let mut store = CellStore::new();
    let x = RcOCell::from_value(&mut store, 10u32);
    x.compute(&mut store, |n: Option<u32>| {
        (n, RcOCellComputeResult::Replace(11u32))
    });
    assert_eq!(x.get_and_clone(&store), 11u32);
    x.compute(&mut store, |n: Option<u32>| (n, RcOCellComputeResult::DoNothing));
    assert_eq!(x.get_and_clone(&store), 11u32);
    x.compute(&mut store, |n: Option<u32>| (n, RcOCellComputeResult::Remove));
    assert_eq!(x.is_none(&store), true);
}

#[test]
fn test_compute_outcomes_empty() {
    let mut store = CellStore::new();
    let x = RcOCell::new(&mut store);
    x.compute(&mut store, |n: Option<u32>| {
        assert!(n.is_none());
        (n, RcOCellComputeResult::DoNothing)
    });
    assert_eq!(x.is_none(&store), true);
    x.compute(&mut store, |n: Option<u32>| (n, RcOCellComputeResult::Remove));
    assert_eq!(x.is_none(&store), true);
    x.compute(&mut store, |n: Option<u32>| {
        (n, RcOCellComputeResult::Replace(3u32))
    });
    assert_eq!(x.get_and_clone(&store), 3u32);
}

#[test]
fn test_compute_if_absent_contended() {
    let mut store = CellStore::new();
    let x = RcOCell::from_value(&mut store, 1u32);
    assert_eq!(x.compute_if_absent(&mut store, || Some(2u32)), false);
    assert_eq!(x.get_and_clone(&store), 1u32);
    x.clear(&mut store);
    let g = x.try_borrow_mut(&mut store);
    assert!(g.is_err());
    assert_eq!(x.compute_if_absent(&mut store, || Some(2u32)), true);
    assert_eq!(x.get_and_clone(&store), 2u32);
    let g = x.borrow_mut(&mut store);
    assert_eq!(x.compute_if_absent(&mut store, || Some(3u32)), false);
    g.release(&mut store);
    assert_eq!(x.get_and_clone(&store), 2u32);
}

#[test]
fn test_compute_if_absent_callback_none() {
    let mut store = CellStore::new();
    let x: RcOCell<u32> = RcOCell::new(&mut store);
    assert_eq!(x.compute_if_absent(&mut store, || None), true);
    assert_eq!(x.is_none(&store), true);
}

#[test]
fn test_swap_exchanges_values() {
    let mut store = CellStore::new();
    let a = RcOCell::from_value(&mut store, "X".to_string());
    let b = RcOCell::from_value(&mut store, "Y".to_string());
    assert!(a.try_swap(&mut store, &b).is_ok());
    assert_eq!(a.get_and_clone(&store).as_str(), "Y");
    assert_eq!(b.get_and_clone(&store).as_str(), "X");
    a.swap(&mut store, &b);
    assert_eq!(a.get_and_clone(&store).as_str(), "X");
    assert_eq!(b.get_and_clone(&store).as_str(), "Y");
}

#[test]
fn test_try_swap_with_empty_slot() {
    let mut store = CellStore::new();
    let a = RcOCell::from_value(&mut store, "X".to_string());
    let b: RcOCell<String> = RcOCell::new(&mut store);
    assert!(a.try_swap(&mut store, &b).is_ok());
    assert_eq!(a.is_none(&store), true);
    assert_eq!(b.get_and_clone(&store).as_str(), "X");
    assert!(b.try_swap(&mut store, &a).is_ok());
    assert_eq!(b.is_none(&store), true);
    assert_eq!(a.get_and_clone(&store).as_str(), "X");
    let c: RcOCell<String> = RcOCell::new(&mut store);
    let d: RcOCell<String> = RcOCell::new(&mut store);
    assert!(c.try_swap(&mut store, &d).is_ok());
    assert_eq!(c.is_none(&store), true);
    assert_eq!(d.is_none(&store), true);
}

#[test]
fn test_compute_edits_in_place() {
    let mut store = CellStore::new();
    let x = RcOCell::from_value(&mut store, 10u32);
    x.compute(&mut store, |n: Option<u32>| {
        (Some(n.unwrap() + 1), RcOCellComputeResult::DoNothing)
    });
    assert_eq!(x.get_and_clone(&store), 11u32);
    assert_eq!(
        x.compute_if_present(&mut store, |n: u32| (n + 5, RcOCellComputeResult::DoNothing)),
        true
    );
    assert_eq!(x.get_and_clone(&store), 16u32);
    assert_eq!(
        x.compute_if_present(&mut store, |n: u32| {
            (n + 100, RcOCellComputeResult::Replace(1u32))
        }),
        true
    );
    assert_eq!(x.get_and_clone(&store), 1u32);
}

#[test]
fn test_swap_fails_under_guard() {
    let mut store = CellStore::new();
    let a = RcOCell::from_value(&mut store, "X".to_string());
    let b = RcOCell::from_value(&mut store, "Y".to_string());
    let g = b.borrow(&mut store);
    match a.try_swap(&mut store, &b) {
        Err(RcOCellError::BorrowError(RcOCellBorrowError::Mut)) => {}
        _ => panic!("swap under an outstanding guard must fail with a conflict"),
    }
    assert_eq!(g.read(&store).as_str(), "Y");
    g.release(&mut store);
    assert_eq!(a.get_and_clone(&store).as_str(), "X");
    assert_eq!(b.get_and_clone(&store).as_str(), "Y");
}

#[test]
fn test_if_present_outcome_is_discarded() {
    let mut store = CellStore::new();
    let x = RcOCell::from_value(&mut store, 5u32);
    let ran = x.if_present(&store, |_n: &u32| RcOCellComputeResult::Remove);
    assert_eq!(ran, true);
    assert_eq!(x.get_and_clone(&store), 5u32);
    let ran = x.if_present_mut(&mut store, |n: u32| (n + 1, RcOCellComputeResult::Remove));
    assert_eq!(ran, true);
    assert_eq!(x.get_and_clone(&store), 6u32);
    x.clear(&mut store);
    assert_eq!(x.if_present(&store, |_n: &u32| RcOCellComputeResult::Remove), false);
}

#[test]
fn test_try_variants_report_errors() {
    let mut store = CellStore::new();
    let x: RcOCell<u32> = RcOCell::new(&mut store);
    match x.try_get_and_clear(&mut store) {
        Err(RcOCellError::NoValue) => {}
        _ => panic!("taking from an empty cell must report NoValue"),
    }
    match x.try_replace(&mut store, 1u32) {
        Err(RcOCellError::NoValue) => {}
        _ => panic!("replacing in an empty cell must report NoValue"),
    }
    match x.try_get_and_clone(&store) {
        Err(RcOCellError::NoValue) => {}
        _ => panic!("copying from an empty cell must report NoValue"),
    }
    x.set(&mut store, 9u32);
    let g = x.borrow_mut(&mut store);
    match x.try_set(&mut store, 1u32) {
        Err(RcOCellError::BorrowError(RcOCellBorrowError::Mut)) => {}
        _ => panic!("writing under an exclusive guard must report a conflict"),
    }
    match x.try_clear(&mut store) {
        Err(RcOCellError::BorrowError(RcOCellBorrowError::Mut)) => {}
        _ => panic!("clearing under an exclusive guard must report a conflict"),
    }
    match x.try_get_and_clone(&store) {
        Err(RcOCellError::BorrowError(RcOCellBorrowError::Normal)) => {}
        _ => panic!("reading under an exclusive guard must report a conflict"),
    }
    g.release(&mut store);
    assert_eq!(x.try_set(&mut store, 1u32).unwrap(), Some(9u32));
}

#[test]
fn test_error_messages() {
    assert_eq!(RcOCellError::NoValue.message().as_str(), "No value present");
    assert_eq!(RcOCellError::Dropped.message().as_str(), "Cell already dropped");
    assert_eq!(
        RcOCellError::BorrowError(RcOCellBorrowError::Normal).message().as_str(),
        "already mutably borrowed"
    );
    assert_eq!(
        RcOCellError::BorrowError(RcOCellBorrowError::Mut).message().as_str(),
        "already borrowed"
    );
}

#[test]
fn test_exclusive_guard_write() {
    let mut store = CellStore::new();
    let x = RcOCell::from_value(&mut store, 1u32);
    let g = x.borrow_mut(&mut store);
    assert_eq!(*g.read(&store), 1u32);
    assert_eq!(g.write(&mut store, 2u32), 1u32);
    assert_eq!(*g.read(&store), 2u32);
    g.release(&mut store);
    assert_eq!(x.get_and_clone(&store), 2u32);
}

#[test]
fn test_map_mut_and_try_map() {
    let mut store = CellStore::new();
    let x = RcOCell::from_value(&mut store, 10u32);
    let doubled = x.map_mut(&mut store, |n: u32| (n * 2, n));
    assert_eq!(doubled, Some(10u32));
    assert_eq!(x.get_and_clone(&store), 20u32);
    let g = x.borrow_mut(&mut store);
    match x.try_map(&store, |n: &u32| *n) {
        Err(RcOCellError::BorrowError(RcOCellBorrowError::Normal)) => {}
        _ => panic!("mapping under an exclusive guard must report a conflict"),
    }
    g.release(&mut store);
    assert_eq!(x.try_map(&store, |n: &u32| *n + 1).unwrap(), Some(21u32));
    x.clear(&mut store);
    assert_eq!(x.try_map(&store, |n: &u32| *n).unwrap(), None);
    assert_eq!(x.try_map_mut(&mut store, |n: u32| (n, n)).unwrap(), None);
}

#[test]
fn test_weak_mirrors_operations() {
    let mut store = CellStore::new();
    let x = RcOCell::from_value(&mut store, 1u32);
    let w = x.downgrade();
    assert_eq!(w.set(&mut store, 2u32), Some(1u32));
    assert_eq!(w.get_and_clone(&store), 2u32);
    assert_eq!(w.replace(&mut store, 3u32), 2u32);
    assert_eq!(w.map(&store, |n: &u32| *n * 10), Some(30u32));
    assert_eq!(w.compute_if_present(&mut store, |n: u32| {
        (n, RcOCellComputeResult::Replace(n + 1))
    }), true);
    assert_eq!(w.get_and_clear(&mut store), 4u32);
    assert_eq!(w.compute_if_absent(&mut store, || Some(5u32)), true);
    assert_eq!(w.try_clear(&mut store).unwrap(), Some(5u32));
    x.drop_cell(&mut store);
    match w.try_compute(&mut store, |n: Option<u32>| (n, RcOCellComputeResult::DoNothing)) {
        Err(RcOCellError::Dropped) => {}
        _ => panic!("computing through a dead weak handle must report Dropped"),
    }
    match w.try_get_and_clone(&store) {
        Err(RcOCellError::Dropped) => {}
        _ => panic!("copying through a dead weak handle must report Dropped"),
    }
}

#[test]
fn test_from_option_constructors() {
    let mut store = CellStore::new();
    let x = RcOCell::from_option(&mut store, Some(1u32));
    assert_eq!(x.is_some(&store), true);
    let y: RcOCell<u32> = RcOCell::from_option(&mut store, None);
    assert_eq!(y.is_none(&store), true);
    assert_eq!(x.try_into_option(&mut store).unwrap(), Some(1u32));
    assert_eq!(y.try_into_option(&mut store).unwrap(), None);
}

#[test]
fn test_display_with_custom_rendering() {
    let mut store = CellStore::new();
    let x = RcOCell::from_value(&mut store, 7u32);
    let shown = x.display_with(&store, |n: &u32| format!("{}", n));
    assert_eq!(shown.as_str(), "7");
    x.clear(&mut store);
    let shown = x.display_with(&store, |n: &u32| format!("{}", n));
    assert_eq!(shown.as_str(), "No value present");
}
