use autoposter::query::api_url;
use autoposter::query::u64_to_decimal;

#[test]
fn decimal_of_zero() {
    assert_eq!(u64_to_decimal(0), "0");
}

#[test]
fn decimal_of_single_digit() {
    assert_eq!(u64_to_decimal(7), "7");
}

#[test]
fn decimal_of_round_number() {
    assert_eq!(u64_to_decimal(250000), "250000");
}

#[test]
fn decimal_of_largest_value() {
    assert_eq!(u64_to_decimal(u64::MAX), "18446744073709551615");
}

#[test]
fn url_without_cursor_uses_start_anchor() {
    assert_eq!(
        api_url(None),
        "https://e621.net/posts.json?tags=femboy+rating:s+order:id_desc&page=a250000"
    );
}

#[test]
fn url_with_cursor_anchors_after_it() {
    assert_eq!(
        api_url(Some(104)),
        "https://e621.net/posts.json?tags=femboy+rating:s+order:id_desc&page=a104"
    );
}
