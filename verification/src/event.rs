//! Event-loop decisions: which inbound events get a reply, what to ask the
//! backends, and how the reply is assembled. The surrounding process drives
//! the stream and performs the network calls; every decision is made here.

use vstd::prelude::*;

use crate::aggregate::aggregate;
use crate::aggregate::aggregate_spec;
use crate::model::ImageCard;
use crate::model::SearchResponse;
use crate::model::cards_view;
use crate::query::QueryPlan;
use crate::query::build_query_plan;
use crate::query::instant_url_spec;
use crate::query::photos_url_spec;

verus! {

/// One inbound event from the chat-platform stream, as the pipeline sees
/// it: an inline query carrying the user's free text, or any other kind of
/// event, which the pipeline ignores.
pub enum InboundEvent {
    InlineQuery { query: String },
    Other,
}

/// What the event loop decides for one inbound event: ignore it and send no
/// reply, or dispatch the two backend requests of a query plan and answer
/// from their responses.
pub enum EventAction {
    Ignore,
    Dispatch { plan: QueryPlan },
}

/// Decides what to do with one inbound event.
///
/// An event that is not an inline query, or whose query text is empty, is
/// ignored: no backend call is made and no reply is sent. Any other event is
/// answered by dispatching the two backend requests planned for its query
/// text.
pub fn handle_event(event: &InboundEvent) -> (action: EventAction)
    ensures
        match event {
            InboundEvent::InlineQuery { query } => if query@.len() == 0 {
                action is Ignore
            } else {
                action matches EventAction::Dispatch { plan } && plan.instant_url@
                    == instant_url_spec(query@) && plan.photos_url@ == photos_url_spec(query@)
            },
            InboundEvent::Other => action is Ignore,
        },
{
    match event {
        InboundEvent::InlineQuery { query } => {
            if query.as_str().is_empty() {
                EventAction::Ignore
            } else {
                EventAction::Dispatch { plan: build_query_plan(query.as_str()) }
            }
        },
        InboundEvent::Other => EventAction::Ignore,
    }
}

/// The reply sent back for one answered inline query: the ordered, capped
/// card list, and the cache duration the chat platform is told to keep the
/// answer for.
pub struct InlineReply {
    pub cards: Vec<ImageCard>,
    pub cache_seconds: u32,
}

/// Assembles the reply for one answered query from the two backend
/// responses.
///
/// The cards are the aggregate of both responses — instant-match survivors
/// first, then photo-search survivors, capped — and caching is disabled:
/// the chat platform must treat every keystroke-driven query as fresh. A
/// reply is assembled even when both responses are empty; a zero-card reply
/// is still sent.
pub fn build_reply(
    instant: &SearchResponse,
    photos: &SearchResponse,
    proxy_base: &str,
) -> (reply: InlineReply)
    ensures
        cards_view(reply.cards@) == aggregate_spec(instant@, photos@, proxy_base@),
        reply.cache_seconds == 0,
{
    InlineReply { cards: aggregate(instant, photos, proxy_base), cache_seconds: 0 }
}

/// The distinguishable ways one pass of the pipeline can fail: a required
/// configuration value missing at startup, the chat-platform stream yielding
/// an error, a backend request failing at transport level, a backend
/// response not matching the expected shape, and the reply send failing.
pub enum ErrorKind {
    StartupConfig,
    Stream,
    BackendRequest,
    BackendParse,
    ReplySend,
}

/// Whether a failure of this kind ends the process.
///
/// Every kind is fatal: there is no local recovery anywhere in the
/// pipeline, no retry, and no per-event isolation. The loop's driver exits
/// on the first failure of any kind.
pub fn error_is_fatal(kind: &ErrorKind) -> (fatal: bool)
    ensures
        fatal,
{
    match kind {
        ErrorKind::StartupConfig => true,
        ErrorKind::Stream => true,
        ErrorKind::BackendRequest => true,
        ErrorKind::BackendParse => true,
        ErrorKind::ReplySend => true,
    }
}

} // verus!
