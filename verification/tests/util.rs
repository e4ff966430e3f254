use druid_table::set_len;

#[test]
fn set_len_cuts_off() {
    let mut list = vec![1, 2, 3, 4];
    set_len(&mut list, 2, || 9);
    assert_eq!(list, vec![1, 2]);
    set_len(&mut list, 0, || 9);
    assert_eq!(list, Vec::<i32>::new());
}

#[test]
fn set_len_fills_up() {
    let mut list = vec![1, 2];
    set_len(&mut list, 5, || 9);
    assert_eq!(list, vec![1, 2, 9, 9, 9]);
}

#[test]
fn set_len_keeps_a_list_of_that_length() {
    let mut list = vec![1, 2, 3];
    set_len(&mut list, 3, || 9);
    assert_eq!(list, vec![1, 2, 3]);
}

#[test]
fn set_len_makes_each_item_anew() {
    let made = std::cell::Cell::new(0);
    let mut list: Vec<String> = Vec::new();
    set_len(&mut list, 3, || {
        made.set(made.get() + 1);
        format!("item {}", made.get())
    });
    assert_eq!(list, vec!["item 1", "item 2", "item 3"]);
    set_len(&mut list, 1, || {
        made.set(made.get() + 1);
        String::new()
    });
    assert_eq!(list, vec!["item 1"]);
    assert_eq!(made.get(), 3);
}
