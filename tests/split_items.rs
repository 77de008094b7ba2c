use rstk::split_items;

#[test]
fn split_items_1() {
    let result = split_items("");
    assert_eq!(0, result.len());
}

#[test]
fn split_items_2() {
    let result = split_items("abc");
    assert_eq!(1, result.len());
    assert_eq!("abc", result[0]);
}

#[test]
fn split_items_3() {
    let result = split_items("  abc  def  ");
    assert_eq!(2, result.len());
    assert_eq!("abc", result[0]);
    assert_eq!("def", result[1]);
}

#[test]
fn split_items_4() {
    let result = split_items("{abc def}");
    assert_eq!(1, result.len());
    assert_eq!("abc def", result[0]);
}

#[test]
fn split_items_5() {
    let result = split_items("{abc def} xy_z {another}");
    assert_eq!(3, result.len());
    assert_eq!("abc def", result[0]);
    assert_eq!("xy_z", result[1]);
    assert_eq!("another", result[2]);
}

#[test]
fn split_items_unterminated_brace_keeps_earlier_words() {
    let result = split_items("a b {c d");
    assert_eq!(vec!["a".to_string(), "b".to_string()], result);
}

#[test]
fn split_items_font_description() {
    let result = split_items("-family {DejaVu Sans} -size 10 -weight normal");
    assert_eq!(
        vec!["-family", "DejaVu Sans", "-size", "10", "-weight", "normal"],
        result
    );
}

#[test]
fn split_items_empty_group_and_tabs() {
    let result = split_items("\tx{}\ny ");
    assert_eq!(vec!["x", "", "y"], result);
}
