use autoposter::filter::select;
use autoposter::item::ContentItem;

fn item(id: u64) -> ContentItem {
    ContentItem { id, url: None, artists: None }
}

fn ids(items: &[ContentItem]) -> Vec<u64> {
    items.iter().map(|i| i.id).collect()
}

#[test]
fn all_new_when_cursor_absent() {
    let batch = vec![item(105), item(104), item(103)];
    let r = select(batch, None);
    assert_eq!(ids(&r.new_items), vec![105, 104, 103]);
    assert_eq!(r.max_id, 105);
}

#[test]
fn only_items_above_cursor_are_new() {
    let batch = vec![item(106), item(105), item(104), item(103)];
    let r = select(batch, Some(104));
    assert_eq!(ids(&r.new_items), vec![106, 105]);
    assert_eq!(r.max_id, 106);
}

#[test]
fn empty_batch_keeps_cursor() {
    let r = select(Vec::new(), Some(50));
    assert_eq!(r.new_items.len(), 0);
    assert_eq!(r.max_id, 50);
}

#[test]
fn empty_batch_without_cursor_floors_at_zero() {
    let r = select(Vec::new(), None);
    assert_eq!(r.new_items.len(), 0);
    assert_eq!(r.max_id, 0);
}

#[test]
fn item_equal_to_cursor_is_not_new() {
    let batch = vec![item(104)];
    let r = select(batch, Some(104));
    assert_eq!(r.new_items.len(), 0);
    assert_eq!(r.max_id, 104);
}

#[test]
fn stale_batch_never_lowers_watermark() {
    let batch = vec![item(10), item(9)];
    let r = select(batch, Some(100));
    assert_eq!(r.new_items.len(), 0);
    assert_eq!(r.max_id, 100);
}

#[test]
fn order_of_new_items_is_batch_order() {
    let batch = vec![item(3), item(9), item(5), item(7)];
    let r = select(batch, Some(4));
    assert_eq!(ids(&r.new_items), vec![9, 5, 7]);
    assert_eq!(r.max_id, 9);
}

#[test]
fn new_items_keep_their_fields() {
    let batch = vec![ContentItem {
        id: 12,
        url: Some("https://example.com/a.png".to_string()),
        artists: Some(vec!["ada".to_string()]),
    }];
    let r = select(batch, Some(11));
    assert_eq!(r.new_items.len(), 1);
    assert_eq!(r.new_items[0].id, 12);
    assert_eq!(r.new_items[0].url, Some("https://example.com/a.png".to_string()));
    assert_eq!(r.new_items[0].artists, Some(vec!["ada".to_string()]));
}
