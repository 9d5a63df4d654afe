use next_swc::accumulator::Accumulator;

fn sorted(acc: &Accumulator) -> Vec<String> {
    let mut names = acc.names();
    names.sort();
    names
}

#[test]
fn new_accumulator_holds_nothing() {
    let acc = Accumulator::new();
    assert!(acc.is_empty());
    assert_eq!(acc.len(), 0);
    assert!(!acc.contains("react"));
    assert_eq!(acc.names(), Vec::<String>::new());
}

#[test]
fn inserted_name_is_held_and_counted_once() {
    let mut acc = Accumulator::new();
    assert!(acc.insert("react".to_string()));
    assert!(acc.contains("react"));
    assert!(!acc.contains("reac"));
    assert!(!acc.contains("React"));
    assert!(!acc.is_empty());
    assert_eq!(acc.len(), 1);
    assert!(!acc.insert("react".to_string()));
    assert_eq!(acc.len(), 1);
    assert_eq!(sorted(&acc), vec!["react".to_string()]);
}

#[test]
fn nothing_is_lost_by_a_later_insert() {
    let mut acc = Accumulator::new();
    acc.insert("fs".to_string());
    acc.insert("path".to_string());
    acc.insert("fs".to_string());
    acc.insert("os".to_string());
    assert!(acc.contains("fs"));
    assert!(acc.contains("path"));
    assert!(acc.contains("os"));
    assert_eq!(acc.len(), 3);
    assert_eq!(sorted(&acc), vec!["fs".to_string(), "os".to_string(), "path".to_string()]);
}

#[test]
fn two_inserts_give_the_union_in_either_order() {
    let mut one = Accumulator::new();
    one.insert("shared".to_string());
    one.insert("from-a".to_string());
    one.insert("from-b".to_string());
    let mut other = Accumulator::new();
    other.insert("shared".to_string());
    other.insert("from-b".to_string());
    other.insert("from-a".to_string());
    assert_eq!(sorted(&one), sorted(&other));
    assert_eq!(
        sorted(&one),
        vec!["from-a".to_string(), "from-b".to_string(), "shared".to_string()]
    );
}

#[test]
fn names_are_told_apart_by_their_whole_text() {
    let mut acc = Accumulator::new();
    assert!(acc.insert(String::new()));
    assert!(acc.insert("a".to_string()));
    assert!(acc.insert("a ".to_string()));
    assert!(acc.insert("ä".to_string()));
    assert_eq!(acc.len(), 4);
    assert!(acc.contains(""));
    assert!(acc.contains("ä"));
}

#[test]
fn default_accumulator_holds_nothing() {
    let acc = Accumulator::default();
    assert!(acc.is_empty());
    assert_eq!(acc.len(), 0);
}
