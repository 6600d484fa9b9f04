use std::sync::Arc;
use style_data::{ElementStyles, PseudoStyles};

#[test]
fn empty_pseudo_styles_hold_nothing() {
    let pseudos: PseudoStyles<u32> = PseudoStyles::empty();
    assert_eq!(pseudos.len(), 0);
    assert!(pseudos.is_empty());
    assert!(pseudos.get(&1).is_none());
}

#[test]
fn pseudo_styles_keep_one_entry_per_pseudo_element() {
    let mut pseudos: PseudoStyles<&str> = PseudoStyles::empty();
    assert!(pseudos.insert(1, Arc::new("before")).is_none());
    assert!(pseudos.insert(2, Arc::new("after")).is_none());
    let replaced = pseudos.insert(1, Arc::new("selection"));
    assert_eq!(replaced.map(|s| *s), Some("before"));
    assert_eq!(pseudos.len(), 2);
    assert_eq!(pseudos.get(&1).map(|s| **s), Some("selection"));
    assert_eq!(pseudos.get(&2).map(|s| **s), Some("after"));
    assert!(pseudos.remove(&2).is_some());
    assert_eq!(pseudos.len(), 1);
    assert!(!pseudos.contains_key(&2));
}

#[test]
fn pseudo_styles_do_not_depend_on_insertion_order() {
    let mut a: PseudoStyles<u32> = PseudoStyles::empty();
    a.insert(1, Arc::new(10));
    a.insert(2, Arc::new(20));
    let mut b: PseudoStyles<u32> = PseudoStyles::empty();
    b.insert(2, Arc::new(20));
    b.insert(1, Arc::new(10));
    assert_eq!(*a, *b);
}

#[test]
fn new_styles_have_the_primary_style_and_no_pseudos() {
    let primary = Arc::new(String::from("display: block"));
    let styles = ElementStyles::new(primary.clone());
    assert!(Arc::ptr_eq(&styles.primary, &primary));
    assert_eq!(*styles.primary, "display: block");
    assert!(styles.pseudos.is_empty());
}

#[test]
fn styles_share_one_style_object() {
    let shared = Arc::new(7u32);
    let mut a = ElementStyles::new(shared.clone());
    let b = ElementStyles::new(shared.clone());
    a.pseudos.insert(3, shared.clone());
    assert!(Arc::ptr_eq(&a.primary, &b.primary));
    assert!(Arc::ptr_eq(a.pseudos.get(&3).unwrap(), &b.primary));
    assert_eq!(Arc::strong_count(&shared), 4);
    drop(a);
    assert_eq!(Arc::strong_count(&shared), 2);
}

#[test]
fn cloned_styles_hold_the_same_entries() {
    let mut styles = ElementStyles::new(Arc::new(1u32));
    styles.pseudos.insert(5, Arc::new(50));
    let copy = styles.clone();
    assert!(Arc::ptr_eq(&copy.primary, &styles.primary));
    assert_eq!(*copy.pseudos, *styles.pseudos);
    styles.pseudos.insert(6, Arc::new(60));
    assert_eq!(copy.pseudos.len(), 1);
    assert_eq!(styles.pseudos.len(), 2);
}
