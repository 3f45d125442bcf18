use duck_platformer::di::DiContainer;

struct Check(u8);

#[test]
fn check_di_insertion() {
    let mut di_container: DiContainer<Check> = DiContainer::default();
    di_container.insert(Check(1));
    assert!(di_container.get().is_some());
}

#[test]
fn get_returns_none_before_insertion() {
    let di_container: DiContainer<Check> = DiContainer::new();
    assert!(di_container.get().is_none());
}

#[test]
fn get_returns_the_stored_service() {
    let mut di_container: DiContainer<Check> = DiContainer::default();
    di_container.insert(Check(7));
    assert_eq!(di_container.get().unwrap().0, 7);
    di_container.insert(Check(9));
    assert_eq!(di_container.get().unwrap().0, 9);
}
