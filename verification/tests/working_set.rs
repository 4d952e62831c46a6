use taskchampion::errors::StorageError;
use taskchampion::working_set::WorkingSet;

#[test]
fn working_set_starts_with_reserved_slot() {
    let ws = WorkingSet::new();
    assert_eq!(ws.slots(), vec![None]);
    assert_eq!(ws.next_slot(), 1);
}

#[test]
fn working_set_add_takes_lowest_free_slot() {
    let mut ws = WorkingSet::new();
    assert_eq!(ws.add(11), 1);
    assert_eq!(ws.add(12), 2);
    assert_eq!(ws.add(13), 3);
    assert_eq!(ws.next_slot(), 4);
    ws.set_item(2, None).unwrap();
    assert_eq!(ws.next_slot(), 2);
    ws.set_item(1, None).unwrap();
    assert_eq!(ws.next_slot(), 1);
    assert_eq!(ws.add(14), 1);
    assert_eq!(ws.add(15), 2);
    assert_eq!(ws.add(16), 4);
    assert_eq!(
        ws.slots(),
        vec![None, Some(14), Some(15), Some(13), Some(16)]
    );
    let copy = ws.clone();
    ws.clear();
    assert_eq!(ws.slots(), vec![None]);
    assert_eq!(ws.add(17), 1);
    assert_eq!(copy.slots().len(), 5);
}

#[test]
fn working_set_set_item() {
    let mut ws = WorkingSet::new();
    assert_eq!(ws.set_item(0, Some(1)), Err(StorageError::InvalidIndex));
    assert_eq!(ws.set_item(0, None), Err(StorageError::InvalidIndex));
    assert_eq!(ws.slots(), vec![None]);
    ws.set_item(3, Some(9)).unwrap();
    assert_eq!(ws.slots(), vec![None, None, None, Some(9)]);
    ws.set_item(3, None).unwrap();
    assert_eq!(ws.slots(), vec![None, None, None, None]);
    ws.set_item(4, None).unwrap();
    assert_eq!(ws.slots(), vec![None, None, None, None, None]);
    ws.set_item(1, Some(8)).unwrap();
    assert_eq!(ws.next_slot(), 2);
}

#[test]
fn working_set_from_rows() {
    assert_eq!(WorkingSet::from_rows(&vec![]).unwrap().slots(), vec![None]);
    let ws = WorkingSet::from_rows(&vec![(1, Some(5)), (2, None), (5, Some(6))]).unwrap();
    assert_eq!(
        ws.slots(),
        vec![None, Some(5), None, None, None, Some(6)]
    );
    assert_eq!(ws.next_slot(), 2);
    for bad in [
        vec![(0, Some(5))],
        vec![(2, Some(5)), (1, Some(6))],
        vec![(1, Some(5)), (1, Some(6))],
        vec![(1, None), (3, None), (2, None)],
    ] {
        match WorkingSet::from_rows(&bad) {
            Err(StorageError::Encoding(_)) => {}
            other => panic!("{:?} was read as {:?}", bad, other),
        }
    }
}
