//! Accounting for an artifact as it arrives in chunks: how much has come,
//! when the bytes held back are to be written out, and when the artifact has
//! grown past its ceiling and is to be thrown away.

use vstd::prelude::*;

verus! {

/// The most bytes that an artifact of a participant may have.
pub const MAX_FILE_SIZE: u64 = 300 * 1024 * 1024;

/// The most bytes that a resource file may have.
pub const MAX_SOAL_SIZE: u64 = 300 * 1024 * 1024;

/// The bytes that are held back at most before they are written out.
pub const FLUSH_THRESHOLD: usize = 4 * 1024 * 1024;

/// The account of one artifact while it arrives.
#[derive(Clone, Debug, PartialEq, Eq)]
pub struct UploadBuffer {
    /// The ceiling: the most bytes that the artifact may have.
    pub limit: u64,
    /// The bytes taken in so far.
    pub received: u64,
    /// Whether a chunk has taken the artifact past its ceiling.
    pub rejected: bool,
    /// Whether the transfer broke off before the artifact was whole.
    pub interrupted: bool,
    /// The bytes taken in and not yet handed out to be written.
    pub pending: Vec<u8>,
}

/// What is to be done with a chunk that was fed in.
#[derive(Clone, Debug, PartialEq, Eq)]
pub enum ChunkAction {
    /// The chunk is held back; nothing is to be written yet.
    Keep,
    /// These bytes are to be written out now.
    Write(Vec<u8>),
    /// The artifact is past its ceiling, or its transfer has broken off:
    /// stop and throw it away.
    Reject,
}

/// How the arrival of an artifact ended.
#[derive(Clone, Debug, PartialEq, Eq)]
pub enum UploadEnd {
    /// The artifact was past its ceiling; nothing of it may stay.
    Rejected,
    /// The transfer broke off; nothing of the artifact may stay.
    Interrupted,
    /// The artifact is whole: `size` bytes, of which `rest` are still to be
    /// written out.
    Complete { size: u64, rest: Vec<u8> },
}

/// The account as plain values.
pub struct UploadModel {
    pub limit: nat,
    pub received: nat,
    pub rejected: bool,
    pub interrupted: bool,
    pub pending: Seq<u8>,
}

impl UploadModel {
    /// The account of an artifact of which nothing has come yet.
    pub open spec fn fresh(limit: nat) -> UploadModel {
        UploadModel {
            limit,
            received: 0,
            rejected: false,
            interrupted: false,
            pending: Seq::empty(),
        }
    }

    /// Nothing more is taken in: the artifact is past its ceiling, or its
    /// transfer has broken off.
    pub open spec fn closed(self) -> bool {
        self.rejected || self.interrupted
    }

    /// `len` more bytes would take the artifact past its ceiling.
    pub open spec fn past_limit(self, len: nat) -> bool {
        self.received + len > self.limit
    }

    /// The chunk lets the bytes held back reach the threshold.
    pub open spec fn fills(self, chunk: Seq<u8>) -> bool {
        !self.closed() && !self.past_limit(chunk.len()) && self.pending.len() + chunk.len()
            >= FLUSH_THRESHOLD
    }

    /// The account after a chunk: a closed account stays as it is; a chunk
    /// that takes the artifact past its ceiling rejects it and is not taken
    /// in; any other chunk is counted and held back, unless the bytes held
    /// back reach the threshold with it and all go out.
    pub open spec fn fed(self, chunk: Seq<u8>) -> UploadModel {
        if self.closed() {
            self
        } else if self.past_limit(chunk.len()) {
            UploadModel { rejected: true, ..self }
        } else {
            UploadModel {
                received: self.received + chunk.len(),
                pending: if self.fills(chunk) {
                    Seq::empty()
                } else {
                    self.pending + chunk
                },
                ..self
            }
        }
    }

    /// The bytes that go out to be written when the chunk is fed in.
    pub open spec fn released(self, chunk: Seq<u8>) -> Seq<u8> {
        if self.fills(chunk) {
            self.pending + chunk
        } else {
            Seq::empty()
        }
    }

    /// The account after a run of chunks, first to last.
    pub open spec fn fed_all(self, chunks: Seq<Seq<u8>>) -> UploadModel
        decreases chunks.len(),
    {
        if chunks.len() == 0 {
            self
        } else {
            self.fed_all(chunks.drop_last()).fed(chunks.last())
        }
    }

    /// All the bytes that go out to be written over a run of chunks.
    pub open spec fn released_all(self, chunks: Seq<Seq<u8>>) -> Seq<u8>
        decreases chunks.len(),
    {
        if chunks.len() == 0 {
            Seq::empty()
        } else {
            self.released_all(chunks.drop_last()) + self.fed_all(chunks.drop_last()).released(
                chunks.last(),
            )
        }
    }
}

/// The chunks laid end to end.
pub open spec fn joined(chunks: Seq<Seq<u8>>) -> Seq<u8>
    decreases chunks.len(),
{
    if chunks.len() == 0 {
        Seq::empty()
    } else {
        joined(chunks.drop_last()) + chunks.last()
    }
}

impl View for UploadBuffer {
    type V = UploadModel;

    open spec fn view(&self) -> UploadModel {
        UploadModel {
            limit: self.limit as nat,
            received: self.received as nat,
            rejected: self.rejected,
            interrupted: self.interrupted,
            pending: self.pending@,
        }
    }
}

impl UploadBuffer {
    /// The account of an artifact of one participant of which nothing has
    /// come yet: its ceiling is the one for participants.
    pub fn for_participant() -> (r: UploadBuffer)
        ensures
            r@ == UploadModel::fresh(MAX_FILE_SIZE as nat),
    {
        UploadBuffer::new(MAX_FILE_SIZE)
    }

    /// The account of a resource file of which nothing has come yet: its
    /// ceiling is the one for resource files.
    pub fn for_resource() -> (r: UploadBuffer)
        ensures
            r@ == UploadModel::fresh(MAX_SOAL_SIZE as nat),
    {
        UploadBuffer::new(MAX_SOAL_SIZE)
    }

    /// The account of an artifact of which nothing has come yet, with the
    /// given ceiling.
    pub fn new(limit: u64) -> (r: UploadBuffer)
        ensures
            r@ == UploadModel::fresh(limit as nat),
    {
        UploadBuffer {
            limit,
            received: 0,
            rejected: false,
            interrupted: false,
            pending: Vec::new(),
        }
    }

    /// Takes in one chunk and says what is to be done. The bytes handed out
    /// by `Write` are all the bytes held back, the chunk last.
    pub fn feed(&mut self, chunk: &[u8]) -> (action: ChunkAction)
        ensures
            final(self)@ == old(self)@.fed(chunk@),
            match action {
                ChunkAction::Reject => final(self)@.closed(),
                ChunkAction::Write(bytes) => !final(self)@.closed() && old(self)@.fills(chunk@)
                    && bytes@ == old(self)@.released(chunk@),
                ChunkAction::Keep => !final(self)@.closed() && !old(self)@.fills(chunk@),
            },
    {
        if self.rejected || self.interrupted {
            return ChunkAction::Reject;
        }
        let len = chunk.len() as u64;
        if self.received > self.limit || len > self.limit - self.received {
            self.rejected = true;
            return ChunkAction::Reject;
        }
        self.received = self.received + len;
        let ghost before = self.pending@;
        self.pending.extend_from_slice(chunk);
        assert(self.pending@ =~= before + chunk@);
        if self.pending.len() >= FLUSH_THRESHOLD {
            let mut bytes: Vec<u8> = Vec::new();
            bytes.append(&mut self.pending);
            ChunkAction::Write(bytes)
        } else {
            ChunkAction::Keep
        }
    }

    /// Notes that the transfer has broken off. The artifact is not whole
    /// and nothing more is taken in.
    pub fn interrupt(&mut self)
        ensures
            final(self)@ == (UploadModel { interrupted: true, ..old(self)@ }),
    {
        self.interrupted = true;
    }

    /// Closes the account: an artifact past its ceiling ends rejected, one
    /// whose transfer broke off interrupted, any other whole, with its size
    /// and the bytes that are still held back.
    pub fn finish(self) -> (end: UploadEnd)
        ensures
            match end {
                UploadEnd::Rejected => self.rejected,
                UploadEnd::Interrupted => !self.rejected && self.interrupted,
                UploadEnd::Complete { size, rest } => !self@.closed() && size == self.received
                    && rest@ == self.pending@,
            },
    {
        if self.rejected {
            UploadEnd::Rejected
        } else if self.interrupted {
            UploadEnd::Interrupted
        } else {
            UploadEnd::Complete { size: self.received, rest: self.pending }
        }
    }
}

/// Of an artifact fed in chunk by chunk from a fresh account: where the
/// chunks together are past the ceiling, the account ends rejected; where
/// they are not, it ends with every byte counted, and the bytes handed out
/// followed by the bytes held back are the chunks laid end to end. Never
/// are more bytes taken in than the ceiling allows.
pub proof fn lemma_ceiling_decides(limit: nat, chunks: Seq<Seq<u8>>)
    ensures
        ({
            let end = UploadModel::fresh(limit).fed_all(chunks);
            let total = joined(chunks).len();
            &&& end.limit == limit
            &&& !end.interrupted
            &&& end.rejected <==> total > limit
            &&& !end.rejected ==> end.received == total && UploadModel::fresh(limit).released_all(
                chunks,
            ) + end.pending == joined(chunks)
            &&& end.received <= limit
        }),
    decreases chunks.len(),
{
    if chunks.len() > 0 {
        lemma_ceiling_decides(limit, chunks.drop_last());
    }
}

} // verus!
