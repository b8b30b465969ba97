use rc_ocell::CellStore;
use rc_ocell::RcOCell;
use rc_ocell::RcOCellBorrowError;
use rc_ocell::RcOCellComputeResult;
use rc_ocell::RcOCellError;

#[test]
fn test_set_and_reset_new() {
    let mut store = CellStore::new();
    let x = RcOCell::new(&mut store);
    assert_eq!(x.is_none(&store), true);
    assert_eq!(x.is_some(&store), false);
    assert_eq!(x.set(&mut store, "Baum".to_string()).is_none(), true);
    assert_eq!(x.is_none(&store), false);
    assert_eq!(x.is_some(&store), true);
    let str = x.get_and_clear(&mut store);
    assert_eq!(str.as_str(), "Baum");
    assert_eq!(x.is_none(&store), true);
    assert_eq!(x.is_some(&store), false);
}

#[test]
fn test_set_and_reset_from() {
    let mut store = CellStore::new();
    let x = RcOCell::from_value(&mut store, "Baum".to_string());
    assert_eq!(x.is_none(&store), false);
    assert_eq!(x.is_some(&store), true);
    let str = x.get_and_clear(&mut store);
    assert_eq!(str.as_str(), "Baum");
    assert_eq!(x.is_none(&store), true);
    assert_eq!(x.is_some(&store), false);
}

#[test]
fn test_display() {
    let mut store = CellStore::new();
    let x = RcOCell::from_value(&mut store, "Baum".to_string());
    assert_eq!(x.display_string(&store).as_str(), "Baum");
    let brw = x.borrow(&mut store);
    assert_eq!(x.display_string(&store).as_str(), "Baum");
    brw.release(&mut store);
    let brw = x.borrow_mut(&mut store);
    assert_eq!(
        x.display_string(&store).as_str(),
        "Value currently inaccessible because it is borrowed mutably somewhere"
    );
    brw.release(&mut store);
    x.clear(&mut store);
    assert_eq!(x.display_string(&store).as_str(), "No value present");
}

#[test]
fn test_map() {
    let mut store = CellStore::new();
    let x = RcOCell::from_value(&mut store, "Baum".to_string());
    let y = x
        .map(&store, |e: &String| {
            assert_eq!(e.as_str(), "Baum");
            12345u64
        })
        .unwrap();
    assert_eq!(y, 12345u64);
    x.clear(&mut store);
}

#[test]
fn test_conv_result() {
    let mut store = CellStore::new();
    let z = "Baum".to_string();
    let x: RcOCell<String> = RcOCell::from_value(&mut store, z.clone());
    let y: Result<String, RcOCellError> = x.try_into_value(&mut store);
    assert_eq!(y.unwrap().as_str(), "Baum");
    let x: RcOCell<String> = RcOCell::from_value(&mut store, z);
    let x2 = x.clone_cell(&mut store);
    let x3 = x.clone_cell(&mut store);
    let g = x2.borrow_mut(&mut store);
    let y: Result<String, RcOCellError> = x3.try_into_value(&mut store);
    g.release(&mut store);
    assert_eq!(y.is_err(), true);
    match y.unwrap_err() {
        RcOCellError::BorrowError(RcOCellBorrowError::Mut) => {}
        _ => panic!("unexpected"),
    }
    let y: Result<String, RcOCellError> = x.try_into_value(&mut store);
    assert_eq!(y.is_err(), false);
    assert_eq!(y.unwrap().as_str(), "Baum");
}

#[test]
fn test_conv_option() {
    let mut store = CellStore::new();
    let z = "Baum".to_string();
    let x: RcOCell<String> = RcOCell::from_value(&mut store, z);
    let y: Option<String> = x.try_into_option(&mut store).unwrap();
    assert_eq!(y.unwrap().as_str(), "Baum");
}

#[test]
fn test_conv_vec() {
    let mut store = CellStore::new();
    let z = vec!["Baum".to_string(), "Nase".to_string()];
    let base = z.clone();
    let x: RcOCell<Vec<String>> = RcOCell::from_value(&mut store, z);
    let y: Vec<String> = x.try_into_value(&mut store).unwrap();
    assert_eq!(y, base);
}

#[test]
fn test_downgrade() {
    let mut store = CellStore::new();
    let x = RcOCell::from_value(&mut store, "Baum".to_string());
    let down = x.downgrade();
    assert_eq!(down.is_some(&store), true);
    let up = down.try_upgrade(&mut store);
    assert_eq!(up.is_ok(), true);
    up.unwrap().drop_cell(&mut store);
    x.drop_cell(&mut store);
    assert_eq!(down.is_none(&store), true);
    assert_eq!(down.try_upgrade(&mut store).is_err(), true);
}

#[test]
fn test_get_clone() {
    let mut store = CellStore::new();
    let x = RcOCell::from_value(&mut store, "Baum".to_string());
    let y = x.get_and_clone(&store);
    assert_eq!(x.get_and_clear(&mut store).as_str(), "Baum");
    assert_eq!(y.as_str(), "Baum");
}

#[test]
fn test_compute() {
    let mut store = CellStore::new();
    let x = RcOCell::from_value(&mut store, 1u32);
    x.compute(&mut store, |n: Option<u32>| {
        let doubled = *n.as_ref().unwrap() * 2;
        (n, RcOCellComputeResult::Replace(doubled))
    });
    assert_eq!(x.get_and_clone(&store), 2u32);
    assert_eq!(
        x.compute_if_present(&mut store, |n: u32| (n, RcOCellComputeResult::Replace(n * 2))),
        true
    );
    assert_eq!(x.get_and_clone(&store), 4u32);
    assert_eq!(x.compute_if_absent(&mut store, || Some(1)), false);
    assert_eq!(x.get_and_clone(&store), 4u32);
    x.clear(&mut store);
    assert_eq!(x.compute_if_absent(&mut store, || Some(1)), true);
    assert_eq!(x.get_and_clone(&store), 1u32);
    let _b = x.borrow_mut(&mut store);
}

#[test]
fn test_clone() {
    let mut store = CellStore::new();
    let x = RcOCell::from_value(&mut store, 1u32);
    let w = x.downgrade();
    let y = x.clone_cell(&mut store);
    x.drop_cell(&mut store);
    assert_eq!(w.get_and_clone(&store), 1u32);
    assert_eq!(y.get_and_clone(&store), 1u32);
}
