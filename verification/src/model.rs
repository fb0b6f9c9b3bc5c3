//! Data model: raw search hits, backend responses, and displayable image cards.

use vstd::prelude::*;

verus! {

/// One raw result from the search backend: a document identifier, the URL of
/// its icon image, and an optional format label (for example `"gif"`).
pub struct SearchHit {
    pub docid: String,
    pub icon_url: String,
    pub format: Option<String>,
}

/// Mathematical view of a [`SearchHit`]: each string as a sequence of
/// characters.
pub struct SearchHitV {
    pub docid: Seq<char>,
    pub icon_url: Seq<char>,
    pub format: Option<Seq<char>>,
}

impl View for SearchHit {
    type V = SearchHitV;

    open spec fn view(&self) -> SearchHitV {
        SearchHitV {
            docid: self.docid@,
            icon_url: self.icon_url@,
            format: match self.format {
                Some(f) => Some(f@),
                None => None,
            },
        }
    }
}

/// One backend response: an optional ordered list of hits. An absent list
/// means zero results, not an error.
pub struct SearchResponse {
    pub results: Option<Vec<SearchHit>>,
}

/// Mathematical view of a [`SearchResponse`].
pub struct SearchResponseV {
    pub results: Option<Seq<SearchHitV>>,
}

/// The view of a sequence of hits: each hit replaced by its view.
pub open spec fn hits_view(hits: Seq<SearchHit>) -> Seq<SearchHitV> {
    hits.map_values(|h: SearchHit| h@)
}

impl View for SearchResponse {
    type V = SearchResponseV;

    open spec fn view(&self) -> SearchResponseV {
        SearchResponseV {
            results: match self.results {
                Some(hits) => Some(hits_view(hits@)),
                None => None,
            },
        }
    }
}

/// One displayable result card: the document identifier of the hit it came
/// from, a proxied photo URL, a thumbnail URL equal to the photo URL, and
/// fixed display dimensions.
pub struct ImageCard {
    pub id: String,
    pub photo_url: String,
    pub thumb_url: String,
    pub width: u32,
    pub height: u32,
}

/// Mathematical view of an [`ImageCard`].
pub struct ImageCardV {
    pub id: Seq<char>,
    pub photo_url: Seq<char>,
    pub thumb_url: Seq<char>,
    pub width: u32,
    pub height: u32,
}

impl View for ImageCard {
    type V = ImageCardV;

    open spec fn view(&self) -> ImageCardV {
        ImageCardV {
            id: self.id@,
            photo_url: self.photo_url@,
            thumb_url: self.thumb_url@,
            width: self.width,
            height: self.height,
        }
    }
}

/// The view of a sequence of cards: each card replaced by its view.
pub open spec fn cards_view(cards: Seq<ImageCard>) -> Seq<ImageCardV> {
    cards.map_values(|c: ImageCard| c@)
}

} // verus!
