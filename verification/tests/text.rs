use functils::list::List;
use functils::text::render;

#[test]
fn built_list_reads_in_the_order_given() {
    assert_eq!(List::build(vec![3, 2, 1]).to_string(), "[ 3 2 1 ]");
}

#[test]
fn empty_list_reads_as_two_brackets() {
    let empty: List<u8> = List::new();
    assert_eq!(empty.to_string(), "[]");
}

#[test]
fn one_item_reads_with_a_space_on_each_side() {
    assert_eq!(List::build(vec![42]).to_string(), "[ 42 ]");
}

#[test]
fn items_read_as_they_show_themselves() {
    let list = List::build(vec!["Hello", "Goodbye", "Goodnight"]);
    assert_eq!(list.to_string(), "[ Hello Goodbye Goodnight ]");
    let signed = List::build(vec![-1i64, 0, 1]);
    assert_eq!(signed.to_string(), "[ -1 0 1 ]");
    let letters = List::build(vec!['a', 'b']);
    assert_eq!(letters.to_string(), "[ a b ]");
}

#[test]
fn to_string_leaves_the_list_as_it_was() {
    let list = List::build(vec![1, 2]);
    assert_eq!(list.to_string(), "[ 1 2 ]");
    assert_eq!(list.to_string(), "[ 1 2 ]");
    assert_eq!(list, List::build(vec![1, 2]));
}

#[test]
fn consed_list_reads_last_given_first() {
    let mut list = List::new();
    list.cons(1);
    list.cons(2);
    assert_eq!(list.to_string(), "[ 2 1 ]");
}

#[test]
fn render_of_no_parts() {
    assert_eq!(render(&Vec::new()), "[]");
}

#[test]
fn render_of_given_parts() {
    let parts = vec![String::from("3"), String::from("2"), String::from("1")];
    assert_eq!(render(&parts), "[ 3 2 1 ]");
}

#[test]
fn render_keeps_each_part_whole() {
    let parts = vec![String::from("two words"), String::new(), String::from("]")];
    assert_eq!(render(&parts), "[ two words  ] ]");
    assert_eq!(render(&vec![String::new()]), "[  ]");
}
