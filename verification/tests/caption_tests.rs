use autoposter::caption::caption_for;
use autoposter::caption::join_names;

#[test]
fn join_of_no_names_is_empty() {
    assert_eq!(join_names(&Vec::new()), "");
}

#[test]
fn join_of_one_name_is_the_name() {
    assert_eq!(join_names(&vec!["ada".to_string()]), "ada");
}

#[test]
fn join_separates_names_with_comma() {
    let names = vec!["ada".to_string(), "grace".to_string(), "edsger".to_string()];
    assert_eq!(join_names(&names), "ada, grace, edsger");
}

#[test]
fn caption_with_artists() {
    let artists = Some(vec!["ada".to_string(), "grace".to_string()]);
    assert_eq!(caption_for(&artists), "Nuevo arte de: ada, grace");
}

#[test]
fn caption_without_artists_names_unknown() {
    assert_eq!(caption_for(&None), "Nuevo arte de: Unknown");
}

#[test]
fn caption_with_empty_artist_list() {
    assert_eq!(caption_for(&Some(Vec::new())), "Nuevo arte de: ");
}
