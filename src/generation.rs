use vstd::prelude::*;
use crate::aggregator::{concat, ChunkAggregator};
use crate::models::{Message, MessageChunk, Sender};
use crate::session::{Resource, SessionController, SessionHandle, AcquireError};
use crate::store::{ConversationStore, joined, prompt_separator, set_content, touch, user_texts};

verus! {

/// Why a generation request was rejected.
#[derive(Debug)]
pub enum GenerationError {
    /// A generation session is already active.
    ResourceBusy,
    /// The engine could not be reached; the reason it gave.
    EngineUnavailable(String),
}

/// A generation session that is streaming.
pub struct ActiveGeneration {
    /// Ownership of the generation path.
    pub handle: SessionHandle,
    /// The bot message that the streamed text fills.
    pub message_id: u64,
    /// Chunking of the streamed text.
    pub aggregator: ChunkAggregator,
}

/// Takes the generation path for conversation `cid` and gives the prompt to
/// send, made of the user's messages; fails with `ResourceBusy`, changing
/// nothing, when a generation is active.
pub fn request_generation(controller: &mut SessionController, store: &ConversationStore, cid: u64) -> (r: Result<
    (SessionHandle, String),
    GenerationError,
>)
    ensures
        old(controller).active(Resource::Generation) is Some <==> r is Err,
        r is Err ==> (r matches Err(GenerationError::ResourceBusy)) && *final(controller) == *old(controller),
        r matches Ok((h, prompt)) ==> {
            &&& h.resource == Resource::Generation
            &&& final(controller).active(Resource::Generation) == Some(h.token)
            &&& final(controller).active(Resource::Transcription) == old(controller).active(Resource::Transcription)
            &&& prompt@ == joined(user_texts(store.messages_view(), cid), prompt_separator())
        },
{
    match controller.acquire(Resource::Generation) {
        Err(AcquireError::Busy) => Err(GenerationError::ResourceBusy),
        Ok(h) => Ok((h, store.user_prompt(cid))),
    }
}

/// The engine answered the request of `handle` with `opened`. If it could
/// not be reached the request is rejected: the session is released and no
/// message is created. Otherwise the empty bot message is added, with id and
/// time `now`, and chunking starts.
pub fn engine_opened(
    controller: &mut SessionController,
    store: &mut ConversationStore,
    handle: SessionHandle,
    opened: Result<(), String>,
    cid: u64,
    now: u64,
    buffer_size: usize,
    send_interval_ms: u64,
) -> (r: Result<ActiveGeneration, GenerationError>)
    requires
        old(store).wf(),
    ensures
        final(store).wf(),
        opened is Err <==> r is Err,
        opened matches Err(e) ==> {
            &&& r matches Err(GenerationError::EngineUnavailable(m)) && m == e
            &&& *final(store) == *old(store)
            &&& old(controller).active(handle.resource) == Some(handle.token) ==> final(controller).active(handle.resource) is None
        },
        r matches Ok(g) ==> {
            &&& g.handle == handle
            &&& g.message_id == now
            &&& *final(controller) == *old(controller)
            &&& final(store).conversations_view() == old(store).conversations_view()
            &&& final(store).messages_view().len() == old(store).messages_view().len() + 1
            &&& final(store).messages_view().drop_last() == old(store).messages_view()
            &&& placeholder(final(store).messages_view().last(), cid, now)
            &&& g.aggregator.wf() && !g.aggregator.finished()
            &&& g.aggregator.cid() == cid
            &&& g.aggregator.size_limit() == buffer_size
            &&& g.aggregator.interval() == send_interval_ms
            &&& g.aggregator.fragments_view().len() == 0
            &&& g.aggregator.last_flush() == now
        },
{
    match opened {
        Err(e) => {
            controller.release(&handle);
            Err(GenerationError::EngineUnavailable(e))
        },
        Ok(()) => {
            let m = store.start_bot_message(cid, now);
            let aggregator = ChunkAggregator::new(cid, buffer_size, send_interval_ms, now);
            proof {
                assert(store.messages_view().drop_last() == old(store).messages_view());
            }
            Ok(ActiveGeneration { handle, message_id: m.id, aggregator })
        },
    }
}

/// Completes the session once the fragment stream is exhausted: the whole
/// response becomes the content of the bot message and the last message of
/// the conversation, dated `now`; the session is released; and the chunks
/// still to send are returned, the terminal chunk last.
pub fn complete_generation(
    controller: &mut SessionController,
    store: &mut ConversationStore,
    g: &mut ActiveGeneration,
    now: u64,
) -> (r: Vec<MessageChunk>)
    requires
        old(store).wf(),
        old(g).aggregator.wf(),
        !old(g).aggregator.finished(),
    ensures
        final(store).wf(),
        old(g).aggregator.response_string()@ == concat(old(g).aggregator.fragments_view()),
        final(store).conversations_view() == touch(
            old(store).conversations_view(),
            old(g).aggregator.cid(),
            old(g).aggregator.response_string(),
            now,
        ),
        final(store).messages_view() == set_content(
            old(store).messages_view(),
            old(g).message_id,
            old(g).aggregator.response_string(),
        ),
        old(controller).active(old(g).handle.resource) == Some(old(g).handle.token) ==> final(controller).active(old(g).handle.resource) is None,
        final(g).aggregator.finished(),
        r@.len() >= 1,
        r@.last().is_complete && r@.last().content@ == Seq::<char>::empty(),
        forall|i: int| 0 <= i < r@.len() - 1 ==> !(#[trigger] r@[i]).is_complete,
{
    let cid = g.aggregator.conversation_id();
    store.finish_generation(cid, g.message_id, g.aggregator.full_response(), now);
    let chunks = g.aggregator.finish(now);
    controller.release(&g.handle);
    chunks
}

/// A bot message with no content yet, for conversation `cid`, made at `now`.
pub open spec fn placeholder(m: Message, cid: u64, now: u64) -> bool {
    &&& m.id == now
    &&& m.timestamp == now
    &&& m.sender == Sender::Bot
    &&& m.conversation_id == cid
    &&& m.content@ == Seq::<char>::empty()
}

} // verus!
