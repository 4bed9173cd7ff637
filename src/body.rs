use vstd::prelude::*;

use crate::config::{limit_in_force, BincodeConfig};
use crate::error::BincodePayloadError;

verus! {

/// The only content type under which a request body is read as bincode.
pub const BINARY_MEDIA_TYPE: &'static str = "application/octet-stream";

/// The bytes of each chunk, in order.
pub open spec fn chunk_views(chunks: Seq<Vec<u8>>) -> Seq<Seq<u8>> {
    chunks.map_values(|c: Vec<u8>| c@)
}

/// The body that a stream of chunks delivers: the chunks one after another.
pub open spec fn body_of(chunks: Seq<Seq<u8>>) -> Seq<u8> {
    chunks.flatten()
}

/// Whether a request that declares `content_type` carries a bincode body.
pub open spec fn accepts_content_type(content_type: Seq<char>) -> bool {
    content_type == BINARY_MEDIA_TYPE@
}

/// A body that is still being received, bounded by a limit.
pub struct BodyReader {
    limit: usize,
    buffer: Vec<u8>,
}

impl BodyReader {
    /// The largest number of bytes that the body may hold.
    pub closed spec fn max_len(&self) -> usize {
        self.limit
    }

    /// The bytes received so far.
    pub closed spec fn received(&self) -> Seq<u8> {
        self.buffer@
    }

    /// What was received stays within the limit.
    pub closed spec fn wf(&self) -> bool {
        self.buffer@.len() <= self.limit
    }

    /// An empty body bounded by `config.limit`, with `config.buf_size` bytes
    /// reserved up front.
    pub fn new(config: &BincodeConfig) -> (r: Self)
        ensures
            r.wf(),
            r.max_len() == config.limit,
            r.received() == Seq::<u8>::empty(),
    {
        BodyReader { limit: config.limit, buffer: Vec::with_capacity(config.buf_size) }
    }

    /// The limit, in bytes.
    pub fn limit(&self) -> (r: usize)
        ensures
            r == self.max_len(),
    {
        self.limit
    }

    /// The number of bytes received so far.
    pub fn len(&self) -> (r: usize)
        ensures
            r == self.received().len(),
    {
        self.buffer.len()
    }

    /// Takes the next chunk of the stream. Where the body would then exceed the
    /// limit, the chunk is refused with `Overflow(limit)` and nothing changes;
    /// otherwise it is appended.
    pub fn push_chunk(&mut self, chunk: &[u8]) -> (r: Result<(), BincodePayloadError>)
        requires
            old(self).wf(),
        ensures
            final(self).wf(),
            final(self).max_len() == old(self).max_len(),
            old(self).received().len() + chunk@.len() > old(self).max_len() ==> r == Err::<
                (),
                BincodePayloadError,
            >(BincodePayloadError::Overflow(old(self).max_len())) && final(self).received() == old(
                self,
            ).received(),
            old(self).received().len() + chunk@.len() <= old(self).max_len() ==> r is Ok
                && final(self).received() == old(self).received() + chunk@,
    {
        if chunk.len() > self.limit - self.buffer.len() {
            return Err(BincodePayloadError::Overflow(self.limit));
        }
        let ghost before = self.buffer@;
        let mut i: usize = 0;
        while i < chunk.len()
            invariant
                i <= chunk@.len(),
                self.limit == old(self).limit,
                before == old(self).buffer@,
                before.len() + chunk@.len() <= self.limit,
                self.buffer@ == before + chunk@.take(i as int),
            decreases chunk@.len() - i,
        {
            self.buffer.push(chunk[i]);
            i = i + 1;
            assert(chunk@.take(i as int) == chunk@.take(i - 1).push(chunk@[i - 1]));
        }
        assert(chunk@.take(chunk@.len() as int) == chunk@);
        Ok(())
    }

    /// The complete body.
    pub fn into_body(self) -> (r: Vec<u8>)
        ensures
            r@ == self.received(),
    {
        self.buffer
    }
}

/// Checks the declared content type of a request: anything other than
/// `application/octet-stream` is refused with `ContentType`, which carries it.
pub fn check_content_type(content_type: &str) -> (r: Result<(), BincodePayloadError>)
    ensures
        r is Ok <==> accepts_content_type(content_type@),
        r matches Err(e) ==> e matches BincodePayloadError::ContentType(s) && s@
            == content_type@,
{
    let given: String = content_type.to_owned();
    let expected: String = BINARY_MEDIA_TYPE.to_owned();
    if given == expected {
        Ok(())
    } else {
        Err(BincodePayloadError::ContentType(given))
    }
}

/// Starts reading a request body: checks the content type before any byte is
/// read, then bounds the body by the route's config, or the default one.
pub fn start(content_type: &str, registered: Option<BincodeConfig>) -> (r: Result<
    BodyReader,
    BincodePayloadError,
>)
    ensures
        r is Ok <==> accepts_content_type(content_type@),
        r matches Err(e) ==> e matches BincodePayloadError::ContentType(s) && s@
            == content_type@,
        r matches Ok(reader) ==> {
            &&& reader.wf()
            &&& reader.max_len() == limit_in_force(registered)
            &&& reader.received() == Seq::<u8>::empty()
        },
{
    match check_content_type(content_type) {
        Err(e) => Err(e),
        Ok(()) => {
            let config = BincodeConfig::resolve(registered);
            Ok(BodyReader::new(&config))
        },
    }
}

/// A prefix of a stream never delivers more bytes than the whole stream.
pub proof fn lemma_prefix_body_len(chunks: Seq<Seq<u8>>, j: int)
    requires
        0 <= j <= chunks.len(),
    ensures
        body_of(chunks.take(j)).len() <= body_of(chunks).len(),
    decreases chunks.len() - j,
{
    if j == chunks.len() {
        assert(chunks.take(j) == chunks);
    } else {
        assert(chunks.take(j + 1) == chunks.take(j).push(chunks[j]));
        chunks.take(j).lemma_flatten_push(chunks[j]);
        lemma_prefix_body_len(chunks, j + 1);
    }
}

/// Reads a whole request body from its chunks, in order: the content type is
/// checked first, and a body longer than the route's limit is refused with
/// `Overflow(limit)` as soon as a chunk takes it over.
pub fn read_body(
    content_type: &str,
    registered: Option<BincodeConfig>,
    chunks: &Vec<Vec<u8>>,
) -> (r: Result<Vec<u8>, BincodePayloadError>)
    ensures
        !accepts_content_type(content_type@) ==> (r matches Err(
            BincodePayloadError::ContentType(s),
        ) && s@ == content_type@),
        accepts_content_type(content_type@) && body_of(chunk_views(chunks@)).len()
            > limit_in_force(registered) ==> r == Err::<Vec<u8>, BincodePayloadError>(
            BincodePayloadError::Overflow(limit_in_force(registered)),
        ),
        accepts_content_type(content_type@) && body_of(chunk_views(chunks@)).len()
            <= limit_in_force(registered) ==> (r matches Ok(b) && b@ == body_of(
            chunk_views(chunks@),
        )),
{
    let mut reader = match start(content_type, registered) {
        Err(e) => return Err(e),
        Ok(reader) => reader,
    };
    let ghost views = chunk_views(chunks@);
    let ghost limit = limit_in_force(registered);
    let mut i: usize = 0;
    while i < chunks.len()
        invariant
            accepts_content_type(content_type@),
            views == chunk_views(chunks@),
            limit == limit_in_force(registered),
            reader.wf(),
            reader.max_len() == limit,
            i <= chunks@.len(),
            reader.received() == body_of(views.take(i as int)),
        decreases chunks@.len() - i,
    {
        assert(views.take(i + 1) == views.take(i as int).push(views[i as int]));
        proof {
            views.take(i as int).lemma_flatten_push(views[i as int]);
        }
        match reader.push_chunk(chunks[i].as_slice()) {
            Err(e) => {
                proof {
                    lemma_prefix_body_len(views, i + 1);
                }
                return Err(e);
            },
            Ok(()) => {},
        }
        i = i + 1;
    }
    assert(views.take(chunks@.len() as int) == views);
    Ok(reader.into_body())
}

} // verus!
