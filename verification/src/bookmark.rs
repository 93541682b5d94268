//! Bookmark lines: what one saved item appends to the append-only bookmark
//! file, and the status message reporting the attempt.

use vstd::prelude::*;
use vstd::string::StringExecFns;

use crate::item::NewsItem;

verus! {

/// The markdown link line appended for a saved item.
pub open spec fn spec_bookmark_line(title: Seq<char>, url: Seq<char>) -> Seq<char> {
    "- ["@ + title + "]("@ + url + ")"@
}

/// The line to append for this item: a markdown link to its URL, or nothing
/// when the item has no URL and there is nothing to save.
pub fn bookmark_line(item: &NewsItem) -> (r: Option<String>)
    ensures
        match item.url {
            Some(u) => r matches Some(line) && line@ == spec_bookmark_line(item.title@, u@),
            None => r is None,
        },
{
    let url: &String = match &item.url {
        Some(u) => u,
        None => {
            return None;
        },
    };
    let mut line: String = "- [".to_owned();
    line.append(item.title.as_str());
    line.append("](");
    line.append(url.as_str());
    line.append(")");
    Some(line)
}

/// The status message after a save attempt: which item was saved, that the
/// write failed, or that the item had no URL to save (in which case nothing
/// was written and `wrote` is ignored).
pub fn save_message(item: &NewsItem, wrote: bool) -> (m: String)
    ensures
        item.url is None ==> m@ == "No URL to save."@,
        item.url is Some && wrote ==> m@ == "Saved: \""@ + item.title@ + "\""@,
        item.url is Some && !wrote ==> m@ == "Failed to save file."@,
{
    match &item.url {
        None => "No URL to save.".to_owned(),
        Some(_) => {
            if wrote {
                let mut m: String = "Saved: \"".to_owned();
                m.append(item.title.as_str());
                m.append("\"");
                m
            } else {
                "Failed to save file.".to_owned()
            }
        },
    }
}

/// Saving is idempotent appending: writing the same item's line twice leaves
/// two identical lines at the end of the file — no merge and no rejection —
/// and the lines already present are untouched.
pub proof fn lemma_bookmark_append_idempotent(
    file: Seq<Seq<char>>,
    title: Seq<char>,
    url: Seq<char>,
)
    ensures
        ({
            let line = spec_bookmark_line(title, url);
            let after = file.push(line).push(line);
            &&& after.len() == file.len() + 2
            &&& after[after.len() - 1] == line
            &&& after[after.len() - 2] == line
            &&& after.take(file.len() as int) == file
        }),
{
    let line = spec_bookmark_line(title, url);
    assert(file.push(line).push(line).take(file.len() as int) =~= file);
}

} // verus!
