//! Result aggregation: run every hit of both backend responses through the
//! normalizer in order, instant-match hits first, and cap the combined list.

use vstd::prelude::*;

use crate::model::ImageCard;
use crate::model::ImageCardV;
use crate::model::SearchHit;
use crate::model::SearchHitV;
use crate::model::SearchResponse;
use crate::model::SearchResponseV;
use crate::model::cards_view;
use crate::model::hits_view;
use crate::normalize::normalize_hit;
use crate::normalize::normalize_spec;

verus! {

/// The most cards one reply may carry.
pub const MAX_CARDS: usize = 50;

/// The hits a backend response carries: an absent list means zero results.
pub open spec fn response_hits(r: SearchResponseV) -> Seq<SearchHitV> {
    match r.results {
        Some(hits) => hits,
        None => Seq::empty(),
    }
}

/// The cards that survive normalization of a hit sequence, in order.
pub open spec fn survivors(hits: Seq<SearchHitV>, base: Seq<char>) -> Seq<ImageCardV>
    decreases hits.len(),
{
    if hits.len() == 0 {
        Seq::empty()
    } else {
        survivors(hits.drop_last(), base) + (match normalize_spec(hits.last(), base) {
            Some(c) => seq![c],
            None => Seq::empty(),
        })
    }
}

/// The first `n` elements of a card sequence, or all of it when it is
/// shorter.
pub open spec fn take_at_most(s: Seq<ImageCardV>, n: int) -> Seq<ImageCardV> {
    if s.len() <= n {
        s
    } else {
        s.subrange(0, n)
    }
}

/// What aggregation returns: the survivors of the instant-match response, in
/// their returned order, followed by the survivors of the photo-search
/// response, in their returned order, truncated to the first [`MAX_CARDS`]
/// cards.
pub open spec fn aggregate_spec(
    instant: SearchResponseV,
    photos: SearchResponseV,
    base: Seq<char>,
) -> Seq<ImageCardV> {
    take_at_most(
        survivors(response_hits(instant), base) + survivors(response_hits(photos), base),
        MAX_CARDS as int,
    )
}

/// The aggregate's length is the number of surviving hits across both
/// responses, capped at [`MAX_CARDS`].
pub proof fn lemma_aggregate_len(
    instant: SearchResponseV,
    photos: SearchResponseV,
    base: Seq<char>,
)
    ensures
        aggregate_spec(instant, photos, base).len() == if survivors(response_hits(instant), base).len()
            + survivors(response_hits(photos), base).len() <= MAX_CARDS {
            survivors(response_hits(instant), base).len() + survivors(
                response_hits(photos),
                base,
            ).len()
        } else {
            MAX_CARDS as nat
        },
{
}

/// Aggregation preserves relative order: within the cap, the card at
/// position `k` is the `k`-th instant-match survivor while those last, and
/// after that the photo-search survivors follow in order. In particular
/// every surviving instant-match card appears before every surviving
/// photo-search card.
pub proof fn lemma_aggregate_order(
    instant: SearchResponseV,
    photos: SearchResponseV,
    base: Seq<char>,
)
    ensures
        forall|k: int|
            0 <= k < aggregate_spec(instant, photos, base).len() ==> aggregate_spec(
                instant,
                photos,
                base,
            )[k] == if k < survivors(response_hits(instant), base).len() {
                survivors(response_hits(instant), base)[k]
            } else {
                survivors(response_hits(photos), base)[k - survivors(
                    response_hits(instant),
                    base,
                ).len()]
            },
{
}

/// Appends to `out` the cards surviving normalization of `hits`, in order.
fn push_survivors(out: &mut Vec<ImageCard>, hits: &Vec<SearchHit>, proxy_base: &str)
    ensures
        cards_view(final(out)@) == cards_view(old(out)@) + survivors(
            hits_view(hits@),
            proxy_base@,
        ),
{
    let ghost all_hits = hits_view(hits@);
    let mut i: usize = 0;
    proof {
        assert(all_hits.take(0) =~= Seq::<SearchHitV>::empty());
        assert(cards_view(out@) =~= cards_view(old(out)@) + survivors(
            all_hits.take(0),
            proxy_base@,
        ));
    }
    while i < hits.len()
        invariant
            i <= hits.len(),
            all_hits == hits_view(hits@),
            cards_view(out@) == cards_view(old(out)@) + survivors(
                all_hits.take(i as int),
                proxy_base@,
            ),
        decreases hits.len() - i,
    {
        let ghost prev = out@;
        match normalize_hit(&hits[i], proxy_base) {
            Some(card) => {
                out.push(card);
                proof {
                    assert(cards_view(out@) =~= cards_view(prev) + seq![card@]);
                }
            },
            None => {},
        }
        proof {
            assert(all_hits.take(i + 1).drop_last() =~= all_hits.take(i as int));
            assert(all_hits.take(i + 1).last() == hits@[i as int]@);
        }
        i = i + 1;
    }
    proof {
        assert(all_hits.take(hits@.len() as int) =~= all_hits);
    }
}

/// Merges the two backend responses into the ordered, capped card list.
///
/// Every hit of the instant-match response is run through the normalizer in
/// its returned order, then every hit of the photo-search response in its
/// returned order; rejected hits are discarded, and the concatenated list is
/// truncated to the first [`MAX_CARDS`] surviving cards.
pub fn aggregate(
    instant: &SearchResponse,
    photos: &SearchResponse,
    proxy_base: &str,
) -> (cards: Vec<ImageCard>)
    ensures
        cards_view(cards@) == aggregate_spec(instant@, photos@, proxy_base@),
{
    let mut cards: Vec<ImageCard> = Vec::new();
    match &instant.results {
        Some(hits) => push_survivors(&mut cards, hits, proxy_base),
        None => {},
    }
    match &photos.results {
        Some(hits) => push_survivors(&mut cards, hits, proxy_base),
        None => {},
    }
    let ghost before = cards@;
    cards.truncate(MAX_CARDS);
    proof {
        if before.len() > MAX_CARDS {
            assert(cards_view(cards@) =~= take_at_most(cards_view(before), MAX_CARDS as int));
        }
        assert(cards_view(Seq::<ImageCard>::empty()) =~= Seq::<ImageCardV>::empty());
    }
    cards
}

} // verus!
