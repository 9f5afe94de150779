//! The body of an upstream error: the chunks of it that are kept.

use vstd::prelude::*;

use crate::text;

verus! {

/// The most bytes of an error body that are kept.
pub const MAX_UPSTREAM_ERROR_BODY_BYTES: usize = 65_536;

/// What the upstream connection yields: a piece of the body, or the text of the
/// error that broke it.
pub enum BodyChunk {
    Data(Vec<u8>),
    Failed(String),
}

/// `BodyChunk`, over sequences.
pub enum ChunkView {
    Data(Seq<u8>),
    Failed(Seq<char>),
}

impl View for BodyChunk {
    type V = ChunkView;

    open spec fn view(&self) -> ChunkView {
        match self {
            BodyChunk::Data(bytes) => ChunkView::Data(bytes@),
            BodyChunk::Failed(error) => ChunkView::Failed(error@),
        }
    }
}

/// What was kept of an error body, why the connection broke where it did, and
/// whether something of the body was dropped.
pub struct ErrorBody {
    pub body: Vec<u8>,
    pub transport_err: Option<String>,
    pub truncated: bool,
}

/// `ErrorBody`, over sequences.
#[verifier::ext_equal]
pub struct BodyView {
    pub body: Seq<u8>,
    pub transport_err: Option<Seq<char>>,
    pub truncated: bool,
}

impl View for ErrorBody {
    type V = BodyView;

    open spec fn view(&self) -> BodyView {
        BodyView {
            body: self.body@,
            transport_err: text::string_chars(self.transport_err),
            truncated: self.truncated,
        }
    }
}

/// Nothing read yet.
pub open spec fn nothing_read() -> BodyView {
    BodyView { body: Seq::empty(), transport_err: None, truncated: false }
}

/// Whether more chunks are wanted: not after one was cut off or the connection
/// broke.
pub open spec fn wants_more(read: BodyView) -> bool {
    !read.truncated && read.transport_err is None
}

/// What is kept once a chunk has come. Bytes beyond the limit are dropped, which
/// counts as truncated; so does any chunk that comes when the body is full.
pub open spec fn with_chunk(read: BodyView, chunk: ChunkView) -> BodyView {
    let room = MAX_UPSTREAM_ERROR_BODY_BYTES - read.body.len();
    if !wants_more(read) {
        read
    } else {
        match chunk {
            ChunkView::Failed(error) => BodyView { transport_err: Some(error), ..read },
            ChunkView::Data(bytes) => if room <= 0 {
                BodyView { truncated: true, ..read }
            } else if bytes.len() <= room {
                BodyView { body: read.body + bytes, ..read }
            } else {
                BodyView { body: read.body + bytes.take(room), truncated: true, ..read }
            },
        }
    }
}

/// What is kept of a body that came in these chunks.
pub open spec fn kept_of(chunks: Seq<ChunkView>) -> BodyView
    decreases chunks.len(),
{
    if chunks.len() == 0 {
        nothing_read()
    } else {
        with_chunk(kept_of(chunks.drop_last()), chunks.last())
    }
}

/// The chunks of a list, over sequences.
pub open spec fn chunk_views(chunks: Seq<BodyChunk>) -> Seq<ChunkView> {
    Seq::new(chunks.len(), |i: int| chunks[i]@)
}

impl ErrorBody {
    /// Whether no more is held than may be.
    pub open spec fn wf(&self) -> bool {
        self.body@.len() <= MAX_UPSTREAM_ERROR_BODY_BYTES
    }

    /// Nothing read yet.
    pub fn new() -> (read: ErrorBody)
        ensures
            read.wf(),
            read@ == nothing_read(),
    {
        ErrorBody { body: Vec::with_capacity(1024), transport_err: None, truncated: false }
    }

    /// Takes in the next chunk, and says whether more are wanted.
    pub fn accept(&mut self, chunk: BodyChunk) -> (more: bool)
        ensures
            old(self).wf() ==> final(self).wf(),
            final(self)@ == with_chunk(old(self)@, chunk@),
            more == wants_more(final(self)@),
    {
        if self.truncated || self.transport_err.is_some() {
            return false;
        }
        match chunk {
            BodyChunk::Failed(error) => {
                self.transport_err = Some(error);
                false
            },
            BodyChunk::Data(bytes) => {
                if self.body.len() >= MAX_UPSTREAM_ERROR_BODY_BYTES {
                    self.truncated = true;
                    return false;
                }
                let remaining: usize = MAX_UPSTREAM_ERROR_BODY_BYTES - self.body.len();
                let take: usize = if bytes.len() <= remaining {
                    bytes.len()
                } else {
                    remaining
                };
                let kept: &[u8] = &bytes.as_slice()[0..take];
                self.body.extend_from_slice(kept);
                assert(self.body@ =~= old(self).body@ + bytes@.take(take as int));
                if take < bytes.len() {
                    self.truncated = true;
                    false
                } else {
                    assert(bytes@.take(take as int) =~= bytes@);
                    true
                }
            },
        }
    }

    /// Reads a body from the chunks that it comes in.
    pub fn read(chunks: Vec<BodyChunk>) -> (read: ErrorBody)
        ensures
            read.wf(),
            read@ == kept_of(chunk_views(chunks@)),
    {
        let ghost views = chunk_views(chunks@);
        let mut read = ErrorBody::new();
        assert(views.take(0) =~= Seq::empty());
        for chunk in it: chunks
            invariant
                read.wf(),
                views == chunk_views(it.seq()),
                read@ == kept_of(views.take(it.index() as int)),
        {
            let ghost i = it.index() as int;
            assert(views.take(i + 1).drop_last() =~= views.take(i));
            read.accept(chunk);
        }
        assert(views.take(views.len() as int) =~= views);
        read
    }
}

/// The error of the first chunk that failed.
pub open spec fn first_failure(chunks: Seq<ChunkView>) -> Option<Seq<char>>
    decreases chunks.len(),
{
    if chunks.len() == 0 {
        None
    } else {
        match (first_failure(chunks.drop_last()), chunks.last()) {
            (None, ChunkView::Failed(error)) => Some(error),
            (found, _) => found,
        }
    }
}

/// The data of the chunks before the first that failed, joined.
pub open spec fn sent_data(chunks: Seq<ChunkView>) -> Seq<u8>
    decreases chunks.len(),
{
    if chunks.len() == 0 {
        Seq::empty()
    } else {
        let before = sent_data(chunks.drop_last());
        match (first_failure(chunks.drop_last()), chunks.last()) {
            (None, ChunkView::Data(bytes)) => before + bytes,
            _ => before,
        }
    }
}

/// Whether no chunk of data is empty.
pub open spec fn no_empty_data(chunks: Seq<ChunkView>) -> bool {
    forall|i: int|
        0 <= i < chunks.len() ==> ((#[trigger] chunks[i]) matches ChunkView::Data(bytes)
            ==> bytes.len() > 0)
}

/// However a body comes in, exactly its first bytes are kept, up to the limit; a
/// body below the limit is never truncated, one above it always is, and one that
/// just reaches it is not where no chunk of data is empty; and unless the body was
/// truncated, all that was sent is kept and the failure of the connection, if there
/// was one, is known.
pub proof fn law_kept_body(chunks: Seq<ChunkView>)
    ensures
        kept_of(chunks).body == sent_data(chunks).take(
            vstd::math::min(
                sent_data(chunks).len() as int,
                MAX_UPSTREAM_ERROR_BODY_BYTES as int,
            ),
        ),
        kept_of(chunks).body.len() <= MAX_UPSTREAM_ERROR_BODY_BYTES,
        sent_data(chunks).len() < MAX_UPSTREAM_ERROR_BODY_BYTES ==> !kept_of(chunks).truncated,
        sent_data(chunks).len() > MAX_UPSTREAM_ERROR_BODY_BYTES ==> kept_of(chunks).truncated,
        no_empty_data(chunks) ==> (kept_of(chunks).truncated <==> sent_data(chunks).len()
            > MAX_UPSTREAM_ERROR_BODY_BYTES),
        !kept_of(chunks).truncated ==> {
            &&& kept_of(chunks).body == sent_data(chunks)
            &&& kept_of(chunks).transport_err == first_failure(chunks)
        },
    decreases chunks.len(),
{
    if chunks.len() > 0 {
        let before = chunks.drop_last();
        law_kept_body(before);
        let read = kept_of(before);
        let sent = sent_data(before);
        assert(no_empty_data(chunks) ==> no_empty_data(before)) by {
            assert(forall|i: int| 0 <= i < before.len() ==> #[trigger] before[i] == chunks[i]);
        }
        assert(chunks.last() == chunks[chunks.len() - 1]);
        if let ChunkView::Data(bytes) = chunks.last() {
            let room = MAX_UPSTREAM_ERROR_BODY_BYTES - read.body.len();
            if wants_more(read) && room > 0 && bytes.len() > room {
                assert(read.body + bytes.take(room) =~= (sent + bytes).take(
                    MAX_UPSTREAM_ERROR_BODY_BYTES as int,
                ));
            }
        }
        assert(kept_of(chunks).body =~= sent_data(chunks).take(
            vstd::math::min(
                sent_data(chunks).len() as int,
                MAX_UPSTREAM_ERROR_BODY_BYTES as int,
            ),
        ));
    }
}

/// What a chunk does to what was read. It fills up the body to 65536 bytes and no
/// further; where something of it does not fit, or the body was full before, the
/// body counts as truncated. A failure is kept, and changes nothing else.
pub proof fn law_chunk_fills_up_the_body(read: BodyView, bytes: Seq<u8>, error: Seq<char>)
    requires
        !read.truncated,
        read.transport_err is None,
        read.body.len() <= 65_536,
    ensures
        ({
            let all = read.body + bytes;
            let next = with_chunk(read, ChunkView::Data(bytes));
            &&& all.len() <= 65_536 ==> next.body == all
            &&& all.len() > 65_536 ==> next.body == all.take(65_536)
            &&& next.truncated <==> all.len() > 65_536 || read.body.len() == 65_536
            &&& next.transport_err is None
        }),
        ({
            let next = with_chunk(read, ChunkView::Failed(error));
            &&& next.body == read.body
            &&& next.transport_err == Some(error)
            &&& !next.truncated
        }),
{
    let all = read.body + bytes;
    let next = with_chunk(read, ChunkView::Data(bytes));
    if all.len() > 65_536 {
        assert(next.body =~= all.take(65_536));
    } else {
        assert(next.body =~= all);
    }
}

/// Reading ends with the first chunk that is cut off or fails: more is wanted exactly
/// until then, and what comes later changes nothing.
pub proof fn law_reading_ends_once(read: BodyView, chunk: ChunkView)
    ensures
        wants_more(read) <==> !read.truncated && read.transport_err is None,
        read.truncated || read.transport_err is Some ==> with_chunk(read, chunk) == read,
{
}

/// Of a body exactly the first 65536 bytes are kept, in whatever chunks it comes,
/// and a body is never both truncated and broken off.
pub proof fn law_body_is_kept_to_its_limit(chunks: Seq<ChunkView>)
    ensures
        sent_data(chunks).len() <= 65_536 ==> kept_of(chunks).body == sent_data(chunks),
        sent_data(chunks).len() > 65_536 ==> kept_of(chunks).body == sent_data(chunks).take(65_536)
            && kept_of(chunks).truncated,
        sent_data(chunks).len() < 65_536 ==> !kept_of(chunks).truncated,
        !(kept_of(chunks).truncated && kept_of(chunks).transport_err is Some),
    decreases chunks.len(),
{
    law_kept_body(chunks);
    if sent_data(chunks).len() <= 65_536 {
        assert(sent_data(chunks).take(sent_data(chunks).len() as int) =~= sent_data(chunks));
    }
    if chunks.len() > 0 {
        law_body_is_kept_to_its_limit(chunks.drop_last());
    }
}

/// The chunks of a list are taken as they are, each in its place.
pub proof fn law_chunks_keep_their_order(chunks: Seq<BodyChunk>, i: int)
    requires
        0 <= i < chunks.len(),
    ensures
        chunk_views(chunks).len() == chunks.len(),
        match chunks[i] {
            BodyChunk::Data(bytes) => chunk_views(chunks)[i] == ChunkView::Data(bytes@),
            BodyChunk::Failed(error) => chunk_views(chunks)[i] == ChunkView::Failed(error@),
        },
{
}

} // verus!
