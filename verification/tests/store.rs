use navipod::rows::create_table;
use navipod::{SectionStore, StoreError, UiSection};

fn store_of(rows: &[usize]) -> SectionStore {
    let mut sections = Vec::new();
    for (i, n) in rows.iter().enumerate() {
        sections.push(UiSection::with_rows(3, format!("section-{}", i), create_table(*n)));
    }
    SectionStore::new(sections)
}

#[test]
fn store_keeps_sections_in_order() {
    let store = store_of(&[3, 1, 0]);
    assert_eq!(store.len(), 3);
    assert_eq!(store.sections().len(), 3);
    assert_eq!(store.get(0).unwrap().title(), "section-0");
    assert_eq!(store.get(1).unwrap().title(), "section-1");
    assert_eq!(store.get(2).unwrap().title(), "section-2");
    assert_eq!(store.get(0).unwrap().rows().len(), 3);
    assert_eq!(store.get(2).unwrap().rows().len(), 0);
}

#[test]
fn get_beyond_the_sections_is_out_of_range() {
    let store = store_of(&[3, 1]);
    assert_eq!(store.get(2).err(), Some(StoreError::OutOfRange));
    assert_eq!(store.get(usize::MAX).err(), Some(StoreError::OutOfRange));
    assert!(store.get(1).is_ok());
}

#[test]
fn get_mut_beyond_the_sections_is_out_of_range() {
    let mut store = store_of(&[3, 1]);
    assert_eq!(store.get_mut(2).err(), Some(StoreError::OutOfRange));
    assert_eq!(store.get_mut(17).err(), Some(StoreError::OutOfRange));
    assert_eq!(store.len(), 2);
}

#[test]
fn empty_store_has_no_section() {
    let mut store = store_of(&[]);
    assert_eq!(store.len(), 0);
    assert_eq!(store.get(0).err(), Some(StoreError::OutOfRange));
    assert_eq!(store.get_mut(0).err(), Some(StoreError::OutOfRange));
}

#[test]
fn get_mut_moves_one_row_cursor() {
    let mut store = store_of(&[3, 2]);
    store.get_mut(1).unwrap().next();
    store.get_mut(1).unwrap().next();
    assert_eq!(store.get(1).unwrap().selected(), Some(1));
    assert_eq!(store.get(0).unwrap().selected(), None);
    store.get_mut(0).unwrap().previous();
    assert_eq!(store.get(0).unwrap().selected(), Some(2));
    assert_eq!(store.get(1).unwrap().selected(), Some(1));
    assert_eq!(store.len(), 2);
}
