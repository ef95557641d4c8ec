#[test]
fn lib_it_works() {
    assert_eq!(2 + 2, 4);
}

#[test]
fn hello_test() {
    assert_eq!(println!("hello"), ());
}

#[test]
fn vec_str_test() {
    let strings: Vec<String> = ["a", "b", "c"].iter().map(|s| s.to_string()).collect();
    assert_eq!(vec!["a", "b", "c"], strings);
}
