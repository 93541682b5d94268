//! The article-extraction pipeline: classify the fetched document, isolate
//! its readable content, and always produce a displayable text block.
//!
//! The fallback chain has three tiers: structured extraction rendered at a
//! fixed width, a raw conversion of the whole markup when extraction fails,
//! and a fixed failure message (supplied by [`crate::session`]) when even the
//! transport failed. A binary or media document short-circuits with a fixed
//! advisory instead.

use vstd::prelude::*;
use vstd::string::StringExecFns;
use vstd::string::StringSliceAdditionalSpecFns;

use crate::textscan::bytes_contains;
use crate::textscan::has_subrange;

verus! {

/// Column width at which extracted or raw markup is wrapped.
pub const RENDER_WIDTH: usize = 100;

/// Extracted body text with fewer characters than this, after trimming, is
/// treated as effectively empty.
pub const MIN_BODY_CHARS: usize = 50;

/// What rendering markup to wrapped plain text yields on given bytes at a
/// given width, or nothing when the markup cannot be rendered.
pub uninterp spec fn text_of(html: Seq<u8>, width: int) -> Option<Seq<char>>;

/// Relies on html2text::from_read: whether the markup renders, and the
/// wrapped plain text when it does, depend on the bytes and the width alone.
#[verifier::external_body]
fn html_to_text(html: &[u8], width: usize) -> (r: Option<String>)
    ensures
        match r {
            Some(t) => text_of(html@, width as int) == Some(t@),
            None => text_of(html@, width as int) is None,
        },
{
    html2text::from_read(html, width).ok()
}

/// What trimming leading and trailing whitespace leaves of a text.
pub uninterp spec fn trim_of(s: Seq<char>) -> Seq<char>;

/// Relies on str::trim: the trimmed text depends on the characters alone and
/// is never longer than the input. Returns its length in characters.
#[verifier::external_body]
fn trimmed_char_len(s: &str) -> (r: usize)
    ensures
        r == trim_of(s@).len(),
        r <= s@.len(),
{
    s.trim().chars().count()
}

/// What content extraction isolates from given markup against a given base
/// URL: the extracted title and the extracted content markup, or nothing when
/// the base URL does not parse or the extractor finds no content.
pub uninterp spec fn extracted_of(html: Seq<char>, base_url: Seq<char>) -> Option<
    (Seq<char>, Seq<char>),
>;

/// Relies on readability::extractor::extract, with url::Url::parse preparing
/// its base-URL argument: heuristic isolation of the main content of the
/// markup, resolved against the base URL. Which title and content markup come
/// back depends on the markup and the URL text alone.
#[verifier::external_body]
fn extract_readable(html: &str, base_url: &str) -> (r: Option<(String, String)>)
    ensures
        match r {
            Some(p) => extracted_of(html@, base_url@) == Some((p.0@, p.1@)),
            None => extracted_of(html@, base_url@) is None,
        },
{
    let base = match url::Url::parse(base_url) {
        Ok(u) => u,
        Err(_) => return None,
    };
    let mut cursor = std::io::Cursor::new(html.as_bytes());
    match readability::extractor::extract(&mut cursor, &base) {
        Ok(p) => Some((p.title, p.content)),
        Err(_) => None,
    }
}

/// A content type that announces a binary or media document: a PDF or any
/// image type.
pub open spec fn spec_is_media(ct: &str) -> bool {
    has_subrange(ct.spec_bytes(), "application/pdf".spec_bytes()) || has_subrange(
        ct.spec_bytes(),
        "image/".spec_bytes(),
    )
}

/// Whether the content-type header value indicates a binary or media
/// document that text extraction would be pointless on.
pub fn is_media_type(ct: &str) -> (r: bool)
    ensures
        r == spec_is_media(ct),
{
    if bytes_contains(ct.as_bytes(), "application/pdf".as_bytes()) {
        return true;
    }
    bytes_contains(ct.as_bytes(), "image/".as_bytes())
}

/// The fixed advisory shown in place of a binary or media document.
pub open spec fn spec_media_advisory() -> Seq<char> {
    "Media file. Press 'o' to open in browser."@
}

/// The extracted title as a heading line.
pub open spec fn spec_heading(title: Seq<char>) -> Seq<char> {
    "# "@ + title + "\n\n"@
}

/// The advisory appended under the heading when the extracted body is
/// effectively empty.
pub open spec fn spec_empty_suffix() -> Seq<char> {
    "\n\nEmpty content. Press 'o' to open in browser."@
}

/// The first tier: the extracted title as a heading, then the extracted
/// content rendered at [`RENDER_WIDTH`]; a body that renders to fewer than
/// [`MIN_BODY_CHARS`] trimmed characters — or does not render at all — is
/// replaced by the empty-content advisory.
pub open spec fn spec_render_extracted(title: Seq<char>, content: Seq<u8>) -> Seq<char> {
    match text_of(content, RENDER_WIDTH as int) {
        Some(t) => if trim_of(t).len() < MIN_BODY_CHARS {
            spec_heading(title) + spec_empty_suffix()
        } else {
            spec_heading(title) + t
        },
        None => spec_heading(title) + spec_empty_suffix(),
    }
}

/// The second tier: the whole raw markup rendered at [`RENDER_WIDTH`],
/// prefixed with the advisory that extraction failed.
pub open spec fn spec_render_fallback(html: Seq<u8>) -> Seq<char> {
    match text_of(html, RENDER_WIDTH as int) {
        Some(t) => "Extraction failed. Raw text:\n\n"@ + t,
        None => "Extraction failed. Raw text:\n\n"@,
    }
}

/// Render a successful extraction for display.
pub fn render_extracted(title: &str, content: &str) -> (r: String)
    ensures
        r@ == spec_render_extracted(title@, content.spec_bytes()),
{
    let mut heading: String = "# ".to_owned();
    heading.append(title);
    heading.append("\n\n");
    match html_to_text(content.as_bytes(), RENDER_WIDTH) {
        Some(text) => {
            if trimmed_char_len(text.as_str()) < MIN_BODY_CHARS {
                heading.append("\n\nEmpty content. Press 'o' to open in browser.");
                heading
            } else {
                heading.append(text.as_str());
                heading
            }
        },
        None => {
            heading.append("\n\nEmpty content. Press 'o' to open in browser.");
            heading
        },
    }
}

/// Render the raw-markup fallback for display.
pub fn render_fallback(html: &str) -> (r: String)
    ensures
        r@ == spec_render_fallback(html.spec_bytes()),
{
    let mut out: String = "Extraction failed. Raw text:\n\n".to_owned();
    match html_to_text(html.as_bytes(), RENDER_WIDTH) {
        Some(text) => {
            out.append(text.as_str());
            out
        },
        None => out,
    }
}

/// The whole three-tier decision on given inputs. A media content type
/// short-circuits with the fixed advisory; otherwise the first tier renders
/// whatever the extractor isolates, and the second tier takes over when it
/// isolates nothing.
pub open spec fn spec_article_text(
    html: &str,
    content_type: Option<&str>,
    base_url: Seq<char>,
) -> Seq<char> {
    if match content_type {
        Some(ct) => spec_is_media(ct),
        None => false,
    } {
        spec_media_advisory()
    } else {
        match extracted_of(html@, base_url) {
            Some(p) => spec_render_extracted(p.0, vstd::utf8::encode_utf8(p.1)),
            None => spec_render_fallback(html.spec_bytes()),
        }
    }
}

/// The pipeline after transport: given the response body, its declared
/// content type and the final (post-redirect) URL, produce the display text.
/// A media content type short-circuits with the fixed advisory and no
/// extraction is attempted; otherwise the result is the first tier for the
/// title and content the extractor isolated, or the second tier when it
/// isolated nothing.
pub fn extract_article_text(html: &str, content_type: Option<&str>, base_url: &str) -> (r: String)
    ensures
        r@ == spec_article_text(html, content_type, base_url@),
{
    if let Some(ct) = content_type {
        if is_media_type(ct) {
            return "Media file. Press 'o' to open in browser.".to_owned();
        }
    }
    match extract_readable(html, base_url) {
        Some((title, content)) => {
            let r = render_extracted(title.as_str(), content.as_str());
            proof {
                assert(r@ == spec_render_extracted(title@, vstd::utf8::encode_utf8(content@)));
            }
            r
        },
        None => render_fallback(html),
    }
}

} // verus!
