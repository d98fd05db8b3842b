use vstd::prelude::*;
use vstd::string::*;
use crate::models::MessageChunk;

verus! {

/// Every this many fragments, the in-progress message is brought up to date
/// with the text generated so far.
pub const CHECKPOINT_EVERY: u64 = 10;

/// The parts laid end to end.
pub open spec fn concat(parts: Seq<Seq<char>>) -> Seq<char>
    decreases parts.len(),
{
    if parts.len() == 0 {
        Seq::empty()
    } else {
        concat(parts.drop_last()) + parts.last()
    }
}

/// Milliseconds from `last` to `now`; zero if `now` is earlier.
pub open spec fn elapsed(last: u64, now: u64) -> nat {
    if now >= last {
        (now - last) as nat
    } else {
        0
    }
}

/// Whether a buffer of `len` characters is flushed at `now`: it is not
/// empty, and it has reached `buffer_size` characters or `send_interval_ms`
/// has passed since the last flush.
pub open spec fn flush_due(len: nat, buffer_size: usize, send_interval_ms: u64, last: u64, now: u64) -> bool {
    len > 0 && (len >= buffer_size || elapsed(last, now) >= send_interval_ms)
}

/// The flushed chunks, the buffer and the time of the last flush after the
/// first `n` fragments, `frags[i]` arriving at `times[i]`, every flush
/// delivered.
pub open spec fn run(
    frags: Seq<Seq<char>>,
    times: Seq<u64>,
    n: nat,
    buffer_size: usize,
    send_interval_ms: u64,
    start: u64,
) -> (Seq<Seq<char>>, Seq<char>, u64)
    decreases n,
{
    if n == 0 {
        (Seq::empty(), Seq::empty(), start)
    } else {
        let prev = run(frags, times, (n - 1) as nat, buffer_size, send_interval_ms, start);
        let buf = prev.1 + frags[n - 1];
        let now = times[n - 1];
        if flush_due(buf.len(), buffer_size, send_interval_ms, prev.2, now) {
            (prev.0.push(buf), Seq::empty(), now)
        } else {
            (prev.0, buf, prev.2)
        }
    }
}

/// The contents of the chunks that a whole session emits, terminal chunk
/// included: the flushed chunks, then what was left in the buffer if
/// anything, then the empty terminal content.
pub open spec fn session_contents(
    frags: Seq<Seq<char>>,
    times: Seq<u64>,
    buffer_size: usize,
    send_interval_ms: u64,
    start: u64,
) -> Seq<Seq<char>> {
    let st = run(frags, times, frags.len(), buffer_size, send_interval_ms, start);
    let flushed = if st.1.len() > 0 {
        st.0.push(st.1)
    } else {
        st.0
    };
    flushed.push(Seq::empty())
}

/// The contents of the chunks, in order.
pub open spec fn chunk_contents(chunks: Seq<MessageChunk>) -> Seq<Seq<char>> {
    chunks.map_values(|c: MessageChunk| c.content@)
}

/// The views of the strings, in order.
pub open spec fn text_views(v: Seq<String>) -> Seq<Seq<char>> {
    v.map_values(|s: String| s@)
}

proof fn lemma_concat_push(parts: Seq<Seq<char>>, x: Seq<char>)
    ensures
        concat(parts.push(x)) == concat(parts) + x,
{
    assert(parts.push(x).drop_last() == parts);
}

/// What one fragment did.
pub struct FragmentStep {
    /// The chunk to send now, if a flush is due. The buffer is cleared only
    /// when its delivery is confirmed.
    pub chunk: Option<MessageChunk>,
    /// Whether the in-progress message should now be updated with the text
    /// generated so far.
    pub checkpoint: bool,
}

/// Turns a stream of text fragments into size- or time-bounded chunks,
/// keeping the whole response.
pub struct ChunkAggregator {
    conversation_id: u64,
    buffer_size: usize,
    send_interval_ms: u64,
    buffer: String,
    full_response: String,
    fragment_count: u64,
    last_flush_ms: u64,
    finished: bool,
    fragments: Ghost<Seq<Seq<char>>>,
    delivered: Ghost<Seq<Seq<char>>>,
}

impl ChunkAggregator {
    /// What was delivered and what waits in the buffer make up exactly the
    /// fragments received, and the full response is all of them.
    pub open spec fn wf(&self) -> bool {
        &&& concat(self.delivered_view()) + self.buffer_view() == concat(self.fragments_view())
        &&& self.response_view() == concat(self.fragments_view())
        &&& self.fragment_count() as nat == self.fragments_view().len()
        &&& self.finished() ==> self.buffer_view().len() == 0
    }

    pub closed spec fn fragments_view(&self) -> Seq<Seq<char>> {
        self.fragments@
    }

    pub closed spec fn delivered_view(&self) -> Seq<Seq<char>> {
        self.delivered@
    }

    pub closed spec fn buffer_view(&self) -> Seq<char> {
        self.buffer@
    }

    pub open spec fn response_view(&self) -> Seq<char> {
        self.response_string()@
    }

    /// The text generated so far.
    pub closed spec fn response_string(&self) -> String {
        self.full_response
    }

    pub closed spec fn fragment_count(&self) -> u64 {
        self.fragment_count
    }

    pub closed spec fn last_flush(&self) -> u64 {
        self.last_flush_ms
    }

    pub closed spec fn finished(&self) -> bool {
        self.finished
    }

    pub closed spec fn cid(&self) -> u64 {
        self.conversation_id
    }

    pub closed spec fn size_limit(&self) -> usize {
        self.buffer_size
    }

    pub closed spec fn interval(&self) -> u64 {
        self.send_interval_ms
    }

    /// A fresh aggregator for conversation `conversation_id`, started at
    /// `start_ms`.
    pub fn new(conversation_id: u64, buffer_size: usize, send_interval_ms: u64, start_ms: u64) -> (r: Self)
        ensures
            r.wf(),
            r.cid() == conversation_id,
            r.size_limit() == buffer_size,
            r.interval() == send_interval_ms,
            r.last_flush() == start_ms,
            r.fragments_view() == Seq::<Seq<char>>::empty(),
            r.delivered_view() == Seq::<Seq<char>>::empty(),
            r.buffer_view() == Seq::<char>::empty(),
            !r.finished(),
    {
        ChunkAggregator {
            conversation_id,
            buffer_size,
            send_interval_ms,
            buffer: String::new(),
            full_response: String::new(),
            fragment_count: 0,
            last_flush_ms: start_ms,
            finished: false,
            fragments: Ghost(Seq::empty()),
            delivered: Ghost(Seq::empty()),
        }
    }

    /// The conversation this aggregator works for.
    pub fn conversation_id(&self) -> (r: u64)
        ensures
            r == self.cid(),
    {
        self.conversation_id
    }

    /// How many fragments were received.
    pub fn fragments_received(&self) -> (r: u64)
        ensures
            r == self.fragment_count(),
    {
        self.fragment_count
    }

    /// The text generated so far.
    pub fn full_response(&self) -> (r: &String)
        ensures
            *r == self.response_string(),
    {
        &self.full_response
    }

    /// Whether the terminal chunk was produced.
    pub fn is_finished(&self) -> (r: bool)
        ensures
            r == self.finished(),
    {
        self.finished
    }

    /// Takes the fragment that arrived at `now_ms`. The result holds the
    /// chunk to send if a flush is due, and says whether this fragment is a
    /// checkpoint (every tenth).
    pub fn push_fragment(&mut self, fragment: &str, now_ms: u64) -> (r: FragmentStep)
        requires
            old(self).wf(),
            !old(self).finished(),
            old(self).fragment_count() < u64::MAX,
        ensures
            final(self).wf(),
            !final(self).finished(),
            final(self).cid() == old(self).cid(),
            final(self).size_limit() == old(self).size_limit(),
            final(self).interval() == old(self).interval(),
            final(self).last_flush() == old(self).last_flush(),
            final(self).delivered_view() == old(self).delivered_view(),
            final(self).fragments_view() == old(self).fragments_view().push(fragment@),
            final(self).buffer_view() == old(self).buffer_view() + fragment@,
            final(self).fragment_count() == old(self).fragment_count() + 1,
            r.checkpoint == (final(self).fragment_count() % CHECKPOINT_EVERY == 0),
            r.chunk is Some <==> flush_due(
                final(self).buffer_view().len(),
                old(self).size_limit(),
                old(self).interval(),
                old(self).last_flush(),
                now_ms,
            ),
            r.chunk matches Some(c) ==> c.conversation_id == old(self).cid() && c.content@ == final(self).buffer_view() && !c.is_complete,
    {
        let ghost old_buf = self.buffer@;
        proof {
            assert(concat(self.delivered@) + (old_buf + fragment@) =~= (concat(self.delivered@) + old_buf) + fragment@);
        }
        self.full_response.append(fragment);
        self.buffer.append(fragment);
        self.fragment_count = self.fragment_count + 1;
        proof {
            lemma_concat_push(self.fragments@, fragment@);
            self.fragments@ = self.fragments@.push(fragment@);
        }
        let len = self.buffer.as_str().unicode_len();
        let waited: u64 = if now_ms >= self.last_flush_ms {
            now_ms - self.last_flush_ms
        } else {
            0
        };
        let due = len > 0 && (len >= self.buffer_size || waited >= self.send_interval_ms);
        let chunk = if due {
            Some(MessageChunk { conversation_id: self.conversation_id, content: self.buffer.clone(), is_complete: false })
        } else {
            None
        };
        FragmentStep { chunk, checkpoint: self.fragment_count % CHECKPOINT_EVERY == 0 }
    }

    /// Records that the chunk holding the whole buffer was delivered at
    /// `now_ms`: the buffer is cleared and the flush time advances.
    pub fn confirm_flush(&mut self, now_ms: u64)
        requires
            old(self).wf(),
        ensures
            final(self).wf(),
            final(self).finished() == old(self).finished(),
            final(self).cid() == old(self).cid(),
            final(self).size_limit() == old(self).size_limit(),
            final(self).interval() == old(self).interval(),
            final(self).last_flush() == now_ms,
            final(self).fragments_view() == old(self).fragments_view(),
            final(self).fragment_count() == old(self).fragment_count(),
            final(self).delivered_view() == old(self).delivered_view().push(old(self).buffer_view()),
            final(self).buffer_view() == Seq::<char>::empty(),
    {
        proof {
            lemma_concat_push(self.delivered@, self.buffer@);
            self.delivered@ = self.delivered@.push(self.buffer@);
        }
        self.buffer = String::new();
        self.last_flush_ms = now_ms;
    }

    /// Ends the session once the fragment stream is exhausted: the chunk
    /// holding what is left in the buffer, if anything, then the one
    /// terminal chunk, complete and empty.
    pub fn finish(&mut self, now_ms: u64) -> (r: Vec<MessageChunk>)
        requires
            old(self).wf(),
            !old(self).finished(),
        ensures
            final(self).wf(),
            final(self).finished(),
            final(self).fragments_view() == old(self).fragments_view(),
            final(self).buffer_view() == Seq::<char>::empty(),
            old(self).buffer_view().len() > 0 ==> final(self).delivered_view() == old(self).delivered_view().push(old(self).buffer_view()),
            old(self).buffer_view().len() == 0 ==> final(self).delivered_view() == old(self).delivered_view(),
            r@.len() == if old(self).buffer_view().len() > 0 { 2int } else { 1int },
            r@.len() == 2 ==> !r@[0].is_complete && r@[0].content@ == old(self).buffer_view(),
            r@.last().is_complete && r@.last().content@ == Seq::<char>::empty(),
            forall|i: int| 0 <= i < r@.len() ==> #[trigger] r@[i].conversation_id == old(self).cid(),
    {
        let mut r: Vec<MessageChunk> = Vec::new();
        if !self.buffer.as_str().is_empty() {
            r.push(MessageChunk { conversation_id: self.conversation_id, content: self.buffer.clone(), is_complete: false });
            self.confirm_flush(now_ms);
        }
        r.push(MessageChunk { conversation_id: self.conversation_id, content: String::new(), is_complete: true });
        self.finished = true;
        r
    }
}

/// Runs a whole session over `fragments`, the `i`th arriving at
/// `arrivals_ms[i]`, every chunk delivered, and returns the chunks in
/// emission order, the terminal chunk last.
pub fn aggregate(
    conversation_id: u64,
    fragments: &Vec<String>,
    arrivals_ms: &Vec<u64>,
    buffer_size: usize,
    send_interval_ms: u64,
    start_ms: u64,
) -> (r: Vec<MessageChunk>)
    requires
        arrivals_ms@.len() == fragments@.len(),
    ensures
        chunk_contents(r@) == session_contents(
            text_views(fragments@),
            arrivals_ms@,
            buffer_size,
            send_interval_ms,
            start_ms,
        ),
        concat(chunk_contents(r@)) == concat(text_views(fragments@)),
        r@.len() >= 1,
        r@.last().is_complete && r@.last().content@ == Seq::<char>::empty(),
        forall|i: int| 0 <= i < r@.len() - 1 ==> !(#[trigger] r@[i]).is_complete && r@[i].content@.len() > 0,
        forall|i: int| 0 <= i < r@.len() ==> #[trigger] r@[i].conversation_id == conversation_id,
{
    let ghost frags = text_views(fragments@);
    let ghost times = arrivals_ms@;
    let mut agg = ChunkAggregator::new(conversation_id, buffer_size, send_interval_ms, start_ms);
    let mut out: Vec<MessageChunk> = Vec::new();
    let mut now: u64 = start_ms;
    let mut i: usize = 0;
    while i < fragments.len()
        invariant
            frags == text_views(fragments@),
            times == arrivals_ms@,
            times.len() == frags.len(),
            i <= frags.len(),
            agg.wf(),
            !agg.finished(),
            agg.cid() == conversation_id,
            agg.size_limit() == buffer_size,
            agg.interval() == send_interval_ms,
            agg.fragment_count() == i,
            agg.fragments_view() == frags.subrange(0, i as int),
            ({
                let st = run(frags, times, i as nat, buffer_size, send_interval_ms, start_ms);
                &&& agg.delivered_view() == st.0
                &&& agg.buffer_view() == st.1
                &&& agg.last_flush() == st.2
            }),
            chunk_contents(out@) == agg.delivered_view(),
            forall|k: int| 0 <= k < out@.len() ==> !(#[trigger] out@[k]).is_complete && out@[k].content@.len() > 0,
            forall|k: int| 0 <= k < out@.len() ==> #[trigger] out@[k].conversation_id == conversation_id,
        decreases frags.len() - i,
    {
        now = arrivals_ms[i];
        let step = agg.push_fragment(fragments[i].as_str(), now);
        assert(frags.subrange(0, i + 1) == frags.subrange(0, i as int).push(frags[i as int]));
        match step.chunk {
            Some(c) => {
                let ghost before = out@;
                out.push(c);
                agg.confirm_flush(now);
                assert(chunk_contents(out@) == chunk_contents(before).push(c.content@));
            },
            None => {},
        }
        i += 1;
    }
    let ghost before = out@;
    let ghost left = agg.buffer_view();
    let tail = agg.finish(now);
    let mut j: usize = 0;
    while j < tail.len()
        invariant
            0 <= j <= tail@.len(),
            out@ == before + tail@.subrange(0, j as int),
        decreases tail@.len() - j,
    {
        let c = MessageChunk {
            conversation_id: tail[j].conversation_id,
            content: tail[j].content.clone(),
            is_complete: tail[j].is_complete,
        };
        assert(c == tail@[j as int]);
        out.push(c);
        assert(tail@.subrange(0, j + 1) == tail@.subrange(0, j as int).push(tail@[j as int]));
        j += 1;
    }
    proof {
        assert(tail@.subrange(0, j as int) == tail@);
        assert(frags.subrange(0, frags.len() as int) == frags);
        let st = run(frags, times, frags.len(), buffer_size, send_interval_ms, start_ms);
        if left.len() > 0 {
            assert(tail@ == seq![tail@[0], tail@[1]]);
            assert(chunk_contents(out@) == chunk_contents(before).push(left).push(Seq::<char>::empty()));
            lemma_concat_push(st.0, left);
        } else {
            assert(tail@ == seq![tail@[0]]);
            assert(chunk_contents(out@) == chunk_contents(before).push(Seq::<char>::empty()));
            assert(concat(st.0) + left == concat(st.0));
        }
        let d = agg.delivered_view();
        assert(chunk_contents(out@) == d.push(Seq::<char>::empty()));
        lemma_concat_push(d, Seq::<char>::empty());
        assert(concat(d) + Seq::<char>::empty() =~= concat(d));
        assert(agg.fragments_view() == frags);
    }
    out
}

} // verus!
