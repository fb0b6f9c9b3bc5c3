//! Query dispatch planning: build the two backend request URLs for one
//! non-empty user query.

use vstd::prelude::*;
use vstd::string::StringExecFns;

verus! {

/// What `qstring` renders for a list of key/value pairs: the pairs joined
/// with `&`, each as `key=value` with key and value percent-encoded. The
/// output is a function of the pairs alone.
pub uninterp spec fn query_string_of(pairs: Seq<(Seq<char>, Seq<char>)>) -> Seq<char>;

/// The view of a list of key/value string pairs.
pub open spec fn pairs_view(pairs: Seq<(String, String)>) -> Seq<(Seq<char>, Seq<char>)> {
    pairs.map_values(|p: (String, String)| (p.0@, p.1@))
}

/// Relies on `qstring::QString` and its `Display` rendering: the pairs are
/// joined with `&`, each written `key=value` with key and value
/// percent-encoded, a deterministic function of the pairs alone.
#[verifier::external_body]
fn render_query_string(pairs: Vec<(String, String)>) -> (r: String)
    ensures
        r@ == query_string_of(pairs_view(pairs@)),
{
    format!("{}", qstring::QString::new(pairs))
}

/// The fixed instant-match endpoint.
pub open spec fn instant_endpoint() -> Seq<char> {
    "https://rkgk.api.searchify.com/v1/indexes/kym_production/instantlinks"@
}

/// The fixed photo-search endpoint.
pub open spec fn search_endpoint() -> Seq<char> {
    "https://rkgk.api.searchify.com/v1/indexes/kym_production/search"@
}

/// The query-string pairs of the instant-match request.
pub open spec fn instant_pairs(q: Seq<char>) -> Seq<(Seq<char>, Seq<char>)> {
    seq![("query"@, q), ("fetch"@, "icon_url,format"@), ("len"@, "50"@)]
}

/// The query-string pairs of the photo-search request.
pub open spec fn photos_pairs(q: Seq<char>) -> Seq<(Seq<char>, Seq<char>)> {
    seq![
        ("q"@, q),
        ("fetch"@, "icon_url,format,title"@),
        ("__type"@, "Photo"@),
        ("len"@, "50"@),
    ]
}

/// The full instant-match request URL for one query.
pub open spec fn instant_url_spec(q: Seq<char>) -> Seq<char> {
    instant_endpoint() + "?"@ + query_string_of(instant_pairs(q))
}

/// The full photo-search request URL for one query.
pub open spec fn photos_url_spec(q: Seq<char>) -> Seq<char> {
    search_endpoint() + "?"@ + query_string_of(photos_pairs(q))
}

/// The two backend request URLs planned for one query: an instant-match
/// lookup and a photo-typed full-text search. Neither request depends on the
/// other's result.
pub struct QueryPlan {
    pub instant_url: String,
    pub photos_url: String,
}

/// Builds the two backend request URLs for one query.
///
/// The instant-match URL asks the instant endpoint for `query=<text>` with
/// `fetch=icon_url,format` and `len=50`; the photo-search URL asks the
/// search endpoint for `q=<text>` with `fetch=icon_url,format,title`,
/// `__type=Photo` and `len=50`.
pub fn build_query_plan(query: &str) -> (plan: QueryPlan)
    ensures
        plan.instant_url@ == instant_url_spec(query@),
        plan.photos_url@ == photos_url_spec(query@),
{
    let mut instant_pairs_v: Vec<(String, String)> = Vec::new();
    instant_pairs_v.push((String::from_str("query"), query.to_owned()));
    instant_pairs_v.push((String::from_str("fetch"), String::from_str("icon_url,format")));
    instant_pairs_v.push((String::from_str("len"), String::from_str("50")));
    proof {
        assert(pairs_view(instant_pairs_v@) =~= instant_pairs(query@));
    }
    let instant_qs = render_query_string(instant_pairs_v);
    let mut instant_url =
        "https://rkgk.api.searchify.com/v1/indexes/kym_production/instantlinks".to_owned();
    instant_url.append("?");
    instant_url.append(instant_qs.as_str());

    let mut photos_pairs_v: Vec<(String, String)> = Vec::new();
    photos_pairs_v.push((String::from_str("q"), query.to_owned()));
    photos_pairs_v.push((String::from_str("fetch"), String::from_str("icon_url,format,title")));
    photos_pairs_v.push((String::from_str("__type"), String::from_str("Photo")));
    photos_pairs_v.push((String::from_str("len"), String::from_str("50")));
    proof {
        assert(pairs_view(photos_pairs_v@) =~= photos_pairs(query@));
    }
    let photos_qs = render_query_string(photos_pairs_v);
    let mut photos_url =
        "https://rkgk.api.searchify.com/v1/indexes/kym_production/search".to_owned();
    photos_url.append("?");
    photos_url.append(photos_qs.as_str());

    QueryPlan { instant_url, photos_url }
}

} // verus!
