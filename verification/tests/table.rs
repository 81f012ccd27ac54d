use nutt_web::table::{Duplicate, Table};

#[test]
fn table_keeps_the_order_in_which_names_first_came() {
    let mut table: Table<String> = Table::new();
    assert_eq!(table.len(), 0);
    table.insert("b".to_string(), "1".to_string());
    table.insert("a".to_string(), "2".to_string());
    table.insert("b".to_string(), "3".to_string());
    assert_eq!(table.len(), 2);
    assert_eq!(table.entry_at(0), Some((&"b".to_string(), &"3".to_string())));
    assert_eq!(table.entry_at(1), Some((&"a".to_string(), &"2".to_string())));
    assert_eq!(table.entry_at(2), None);
    assert_eq!(table.entry_at(usize::MAX), None);
    assert_eq!(table.get("b").unwrap(), "3");
    assert!(table.get("c").is_none());
    assert!(table.contains_key("a"));
    assert!(!table.contains_key("ab"));
    assert!(!table.contains_key(""));
}

#[test]
fn table_copy_is_independent() {
    let mut table: Table<String> = Table::new();
    table.insert("a".to_string(), "1".to_string());
    let copy = table.duplicate();
    table.insert("a".to_string(), "2".to_string());
    assert_eq!(copy.get("a").unwrap(), "1");
    assert_eq!(copy.len(), 1);
    assert_eq!("x".to_string().duplicate(), "x");
}
