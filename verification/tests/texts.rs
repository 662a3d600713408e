use postcode::text::strip_quotes;

#[test]
fn strip_quotes_takes_every_double_quote_out() {
    assert_eq!(strip_quotes("\"SW1W 0NY\""), "SW1W 0NY");
    assert_eq!(strip_quotes("a\"b\"\"c"), "abc");
    assert_eq!(strip_quotes("\"\"\""), "");
}

#[test]
fn strip_quotes_leaves_other_text_alone() {
    assert_eq!(strip_quotes(""), "");
    assert_eq!(strip_quotes("null"), "null");
    assert_eq!(strip_quotes("it's 'single' \\ Môn"), "it's 'single' \\ Môn");
}
