use termnews::bookmark::{bookmark_line, save_message};
use termnews::item::NewsItem;

fn item(title: &str, url: Option<&str>) -> NewsItem {
    NewsItem {
        title: title.to_string(),
        source: "s".to_string(),
        tag: Some("RSS".to_string()),
        url: url.map(|u| u.to_string()),
    }
}

#[test]
fn bookmark_line_is_a_markdown_link() {
    let line = bookmark_line(&item("a", Some("b"))).unwrap();
    assert_eq!(line, "- [a](b)");
}

#[test]
fn saving_twice_appends_two_identical_lines() {
    // No dedup and no merge: the same item saved twice yields the same line
    // twice, appended after whatever was already in the file.
    let it = item("Headline", Some("http://x/1"));
    let mut file: Vec<String> = vec!["- [old](http://old)".to_string()];
    file.push(bookmark_line(&it).unwrap());
    file.push(bookmark_line(&it).unwrap());
    assert_eq!(file.len(), 3);
    assert_eq!(file[1], file[2]);
    assert_eq!(file[1], "- [Headline](http://x/1)");
    assert_eq!(file[0], "- [old](http://old)");
}

#[test]
fn item_without_url_has_no_line() {
    assert_eq!(bookmark_line(&item("a", None)), None);
}

#[test]
fn save_messages_cover_each_outcome() {
    assert_eq!(save_message(&item("a", None), false), "No URL to save.");
    assert_eq!(save_message(&item("a", Some("u")), false), "Failed to save file.");
    assert_eq!(save_message(&item("My Story", Some("u")), true), "Saved: \"My Story\"");
}
