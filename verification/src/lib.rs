//! Inline image-card bot core: the verified query-dispatch and
//! result-normalization pipeline of an inline-query image search bot.
//!
//! An inbound inline-query event is turned into a plan of two backend
//! request URLs ([`build_query_plan`], [`handle_event`]); the two backend
//! responses are normalized hit by hit ([`normalize_hit`]) and merged into
//! an ordered, capped card list ([`aggregate`], [`build_reply`]). The
//! surrounding process performs the network calls and drives the stream;
//! every decision and transformation is made and proved here.

mod aggregate;
mod event;
mod model;
mod normalize;
mod query;

pub use model::ImageCard;
pub use model::ImageCardV;
pub use model::SearchHit;
pub use model::SearchHitV;
pub use model::SearchResponse;
pub use model::SearchResponseV;
pub use model::cards_view;
pub use model::hits_view;

pub use normalize::CARD_DIMENSION;
pub use normalize::card_opt_view;
pub use normalize::ends_in_gif;
pub use normalize::format_marks_gif;
pub use normalize::hit_excluded;
pub use normalize::lemma_normalize_pure;
pub use normalize::normalize_hit;
pub use normalize::normalize_spec;
pub use normalize::proxied_url_spec;

pub use aggregate::MAX_CARDS;
pub use aggregate::aggregate;
pub use aggregate::aggregate_spec;
pub use aggregate::lemma_aggregate_len;
pub use aggregate::lemma_aggregate_order;
pub use aggregate::response_hits;
pub use aggregate::survivors;
pub use aggregate::take_at_most;

pub use query::QueryPlan;
pub use query::build_query_plan;
pub use query::instant_endpoint;
pub use query::instant_pairs;
pub use query::instant_url_spec;
pub use query::pairs_view;
pub use query::photos_pairs;
pub use query::photos_url_spec;
pub use query::query_string_of;
pub use query::search_endpoint;

pub use event::ErrorKind;
pub use event::EventAction;
pub use event::InboundEvent;
pub use event::InlineReply;
pub use event::build_reply;
pub use event::error_is_fatal;
pub use event::handle_event;
