//! Result normalization: turn one raw search hit into zero or one displayable
//! image card, applying the format-exclusion and URL-rewrite rules.

use std::io::Write;
use vstd::prelude::*;
use vstd::string::StrSliceExecFns;
use vstd::string::StringExecFns;

use crate::model::ImageCard;
use crate::model::ImageCardV;
use crate::model::SearchHit;
use crate::model::SearchHitV;

verus! {

/// Display hint for both card dimensions.
pub const CARD_DIMENSION: u32 = 500;

/// Holds when the hit's format label marks an animated image: the label is
/// present and equals `"gif"`.
pub open spec fn format_marks_gif(format: Option<Seq<char>>) -> bool {
    format matches Some(f) && f == "gif"@
}

/// Holds when a URL ends in the literal suffix `.gif`.
pub open spec fn ends_in_gif(s: Seq<char>) -> bool {
    &&& s.len() >= 4
    &&& s[s.len() - 4] == '.'
    &&& s[s.len() - 3] == 'g'
    &&& s[s.len() - 2] == 'i'
    &&& s[s.len() - 1] == 'f'
}

/// A hit is excluded when either of two independent checks fires: its format
/// label is `"gif"`, or its icon URL ends in `.gif` (checked even when the
/// format label is absent or has some other value).
pub open spec fn hit_excluded(h: SearchHitV) -> bool {
    format_marks_gif(h.format) || ends_in_gif(h.icon_url)
}

/// The proxied image URL: the proxy base address, a path separator, the raw
/// icon URL, and the suffix selecting JPEG transcoding output.
pub open spec fn proxied_url_spec(base: Seq<char>, icon: Seq<char>) -> Seq<char> {
    base + "/"@ + icon + "@jpg"@
}

/// What the normalizer returns for one hit: nothing for an excluded hit;
/// otherwise exactly one card that reuses the hit's document identifier,
/// carries the proxied photo URL, an identical thumbnail URL, and the fixed
/// display dimensions.
pub open spec fn normalize_spec(h: SearchHitV, base: Seq<char>) -> Option<ImageCardV> {
    if hit_excluded(h) {
        None
    } else {
        Some(
            ImageCardV {
                id: h.docid,
                photo_url: proxied_url_spec(base, h.icon_url),
                thumb_url: proxied_url_spec(base, h.icon_url),
                width: CARD_DIMENSION,
                height: CARD_DIMENSION,
            },
        )
    }
}

/// The view of an optional card.
pub open spec fn card_opt_view(r: Option<ImageCard>) -> Option<ImageCardV> {
    match r {
        Some(c) => Some(c@),
        None => None,
    }
}

/// The normalizer is a pure function of the hit and the proxy base: equal
/// inputs give equal output, so running it twice on the same hit yields
/// identical cards.
pub proof fn lemma_normalize_pure(h1: SearchHitV, h2: SearchHitV, b1: Seq<char>, b2: Seq<char>)
    requires
        h1 == h2,
        b1 == b2,
    ensures
        normalize_spec(h1, b1) == normalize_spec(h2, b2),
{
}

/// Whether the string ends in the literal suffix `.gif`.
fn ends_with_gif(s: &str) -> (b: bool)
    ensures
        b == ends_in_gif(s@),
{
    let n = s.unicode_len();
    if n < 4 {
        false
    } else {
        s.get_char(n - 4) == '.' && s.get_char(n - 3) == 'g' && s.get_char(n - 2) == 'i'
            && s.get_char(n - 1) == 'f'
    }
}

/// Whether the optional format label is present and equals `"gif"`.
fn format_is_gif(format: &Option<String>) -> (b: bool)
    ensures
        b == format_marks_gif(
            match format {
                Some(f) => Some(f@),
                None => None,
            },
        ),
{
    match format {
        Some(f) => {
            let gif = String::from_str("gif");
            *f == gif
        },
        None => false,
    }
}

/// Builds the proxied image URL for one icon URL.
fn build_proxied_url(proxy_base: &str, icon_url: &str) -> (r: String)
    ensures
        r@ == proxied_url_spec(proxy_base@, icon_url@),
{
    let mut url = proxy_base.to_owned();
    url.append("/");
    url.append(icon_url);
    url.append("@jpg");
    url
}

/// Relies on `std::io::stdout` with the `writeln` macro: emits one
/// best-effort diagnostic line; the write's result is discarded, so a failure
/// to log never aborts processing.
#[verifier::external_body]
fn log_line(s: &str) {
    let _ = writeln!(&mut std::io::stdout(), "{}", s);
}

/// Converts one raw search hit into zero or one displayable image card.
///
/// A hit whose format label is `"gif"`, or whose icon URL ends in `.gif`, is
/// dropped. A surviving hit yields exactly one card whose photo URL routes
/// the icon through the image proxy with JPEG output, whose thumbnail URL is
/// the same string, and whose dimensions are the fixed display hint. The
/// resolved photo URL of each constructed card is emitted to the diagnostic
/// log.
pub fn normalize_hit(hit: &SearchHit, proxy_base: &str) -> (r: Option<ImageCard>)
    ensures
        card_opt_view(r) == normalize_spec(hit@, proxy_base@),
{
    let gif_format = format_is_gif(&hit.format);
    let gif_suffix = ends_with_gif(hit.icon_url.as_str());
    if gif_format || gif_suffix {
        None
    } else {
        let photo_url = build_proxied_url(proxy_base, hit.icon_url.as_str());
        log_line(photo_url.as_str());
        let thumb_url = photo_url.clone();
        Some(
            ImageCard {
                id: hit.docid.clone(),
                photo_url,
                thumb_url,
                width: CARD_DIMENSION,
                height: CARD_DIMENSION,
            },
        )
    }
}

} // verus!
