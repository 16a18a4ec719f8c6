use language_basics::ownership_borrow::dangle;

#[test]
fn owned_string_is_returned() {
    let s = dangle();
    assert_eq!(s, "hello");
    assert_eq!(s.len(), 5);
}
