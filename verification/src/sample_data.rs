//! Where the sample data of a bank lies in its file.

use crate::error::Error;
use crate::riff::{tag_list, tag_sdta, tag_sm24, tag_smpl, Chunk, ChunkId};
use vstd::prelude::*;

verus! {

/// Where a run of sample data lies: the offset of its first byte from the
/// start of the file, and its length in bytes. The data itself is not held;
/// a reader seeks to `offset` and reads `len` bytes.
#[derive(PartialEq, Eq, Debug, Clone, Copy, Structural)]
pub struct SampleChunk {
    pub offset: u64,
    pub len: u32,
}

impl SampleChunk {
    /// The place of the content of `chunk`.
    pub open spec fn of(chunk: Chunk) -> SampleChunk {
        SampleChunk { offset: chunk.content_offset, len: chunk.len }
    }

    pub fn new(chunk: Chunk) -> (r: SampleChunk)
        ensures
            r == SampleChunk::of(chunk),
    {
        SampleChunk { offset: chunk.content_offset(), len: chunk.len() }
    }
}

/// The sample data of a bank.
#[derive(Debug, Clone, Copy, PartialEq, Eq)]
pub struct SampleData {
    /// The `smpl` chunk, if there is one: the samples as signed 16-bit words,
    /// low byte first.
    pub smpl: Option<SampleChunk>,
    /// The `sm24` chunk, if there is one: one more low-order byte for each
    /// word of `smpl`, for 24 bits in all. Whether its length fits that of
    /// `smpl` is not looked at here; a consumer for which it does not fit
    /// passes it over.
    pub sm24: Option<SampleChunk>,
}

/// Whether `chunk` is one of the two that a sample-data section may hold.
pub open spec fn is_sample_member(chunk: Chunk) -> bool {
    chunk.id@ == tag_smpl() || chunk.id@ == tag_sm24()
}

/// The first of `children`, in file order, that a sample-data section may
/// not hold, if there is one.
pub open spec fn first_unexpected(children: Seq<Chunk>) -> Option<Chunk>
    decreases children.len(),
{
    if children.len() == 0 {
        None
    } else {
        match first_unexpected(children.drop_last()) {
            Some(chunk) => Some(chunk),
            None => if is_sample_member(children.last()) {
                None
            } else {
                Some(children.last())
            },
        }
    }
}

/// The place of the last of `children`, in file order, whose tag is `tag`,
/// if there is one.
pub open spec fn last_tagged(children: Seq<Chunk>, tag: Seq<u8>) -> Option<SampleChunk>
    decreases children.len(),
{
    if children.len() == 0 {
        None
    } else if children.last().id@ == tag {
        Some(SampleChunk::of(children.last()))
    } else {
        last_tagged(children.drop_last(), tag)
    }
}

/// What the sample-data section `sdta` of type `ty` with the sub-chunks
/// `children` gives. A chunk that is no list of type `sdta` is refused
/// before its sub-chunks are looked at; then the first sub-chunk that is
/// neither `smpl` nor `sm24` is refused; else the last `smpl` and the last
/// `sm24` are recorded, each absent where there is none.
pub open spec fn locate_sample_data(sdta: Chunk, ty: ChunkId, children: Seq<Chunk>) -> Result<
    SampleData,
    Error,
> {
    if sdta.id@ != tag_list() || ty@ != tag_sdta() {
        Err(Error::StructuralMismatch(sdta))
    } else {
        match first_unexpected(children) {
            Some(chunk) => Err(Error::UnexpectedMemberOfSampleData(chunk)),
            None => Ok(
                SampleData {
                    smpl: last_tagged(children, tag_smpl()),
                    sm24: last_tagged(children, tag_sm24()),
                },
            ),
        }
    }
}

/// An unexpected chunk among the first few of `children` is the first
/// unexpected one of all of them.
pub proof fn lemma_first_unexpected_stays(children: Seq<Chunk>, n: int)
    requires
        0 <= n <= children.len(),
        first_unexpected(children.take(n)) is Some,
    ensures
        first_unexpected(children) == first_unexpected(children.take(n)),
    decreases children.len() - n,
{
    if n == children.len() {
        assert(children.take(n) =~= children);
    } else {
        assert(children.take(n + 1).drop_last() =~= children.take(n));
        lemma_first_unexpected_stays(children, n + 1);
    }
}

impl SampleData {
    /// What is known of a section before any of its sub-chunks has been
    /// seen: nothing, if `sdta` is a list of type `ty == sdta`; else the
    /// chunk is refused.
    pub open spec fn opening(sdta: Chunk, ty: ChunkId) -> Result<SampleData, Error> {
        locate_sample_data(sdta, ty, Seq::empty())
    }

    /// What is known after the sub-chunk `chunk` has been seen as well: its
    /// place, in the field that its tag names, instead of an earlier one; a
    /// chunk with another tag is refused.
    pub open spec fn taking(self, chunk: Chunk) -> Result<SampleData, Error> {
        if chunk.id@ == tag_smpl() {
            Ok(SampleData { smpl: Some(SampleChunk::of(chunk)), sm24: self.sm24 })
        } else if chunk.id@ == tag_sm24() {
            Ok(SampleData { smpl: self.smpl, sm24: Some(SampleChunk::of(chunk)) })
        } else {
            Err(Error::UnexpectedMemberOfSampleData(chunk))
        }
    }

    /// Checks that `sdta`, whose type is `ty`, is a sample-data section, and
    /// gives the record of it in which no sub-chunk has been seen yet.
    pub fn begin(sdta: &Chunk, ty: ChunkId) -> (r: Result<SampleData, Error>)
        ensures
            r == SampleData::opening(*sdta, ty),
            sdta.id@ == tag_list() && ty@ == tag_sdta() ==> r == Ok::<SampleData, Error>(
                SampleData { smpl: None, sm24: None },
            ),
            !(sdta.id@ == tag_list() && ty@ == tag_sdta()) ==> r == Err::<SampleData, Error>(
                Error::StructuralMismatch(*sdta),
            ),
    {
        if !(sdta.id() == ChunkId::LIST()) || !(ty == ChunkId::sdta()) {
            return Err(Error::StructuralMismatch(*sdta));
        }
        Ok(SampleData { smpl: None, sm24: None })
    }

    /// Takes the next sub-chunk of the section into the record. A chunk that
    /// the section may not hold is refused, and the record stays as it was.
    pub fn record(&mut self, chunk: Chunk) -> (r: Result<(), Error>)
        ensures
            match old(self).taking(chunk) {
                Ok(next) => r is Ok && *final(self) == next,
                Err(e) => r == Err::<(), Error>(e) && *final(self) == *old(self),
            },
    {
        proof {
            lemma_tags_differ();
        }
        let id: ChunkId = chunk.id();
        if id == ChunkId::smpl() {
            self.smpl = Some(SampleChunk::new(chunk));
            Ok(())
        } else if id == ChunkId::sm24() {
            self.sm24 = Some(SampleChunk::new(chunk));
            Ok(())
        } else {
            Err(Error::UnexpectedMemberOfSampleData(chunk))
        }
    }

    /// Locates the sample data in the section `sdta`, whose type is `ty` and
    /// whose sub-chunks, in file order, are `children`.
    pub fn read(sdta: &Chunk, ty: ChunkId, children: &[Chunk]) -> (r: Result<SampleData, Error>)
        ensures
            r == locate_sample_data(*sdta, ty, children@),
    {
        let mut data: SampleData = match SampleData::begin(sdta, ty) {
            Ok(data) => data,
            Err(e) => {
                return Err(e);
            },
        };
        let mut i: usize = 0;
        while i < children.len()
            invariant
                i <= children.len(),
                locate_sample_data(*sdta, ty, children@.take(i as int)) == Ok::<SampleData, Error>(
                    data,
                ),
            decreases children.len() - i,
        {
            proof {
                lemma_locate_step(*sdta, ty, children@.take(i as int), children@[i as int]);
                assert(children@.take(i as int).push(children@[i as int]) =~= children@.take(
                    i + 1,
                ));
            }
            match data.record(children[i]) {
                Ok(()) => {},
                Err(e) => {
                    proof {
                        lemma_refusal_stays(*sdta, ty, children@, i + 1);
                    }
                    return Err(e);
                },
            }
            i = i + 1;
        }
        proof {
            assert(children@.take(i as int) =~= children@);
        }
        Ok(data)
    }
}

/// The tags of the two sample chunks differ.
proof fn lemma_tags_differ()
    ensures
        tag_smpl() != tag_sm24(),
{
    assert(tag_smpl()[2] != tag_sm24()[2]);
}

/// Locating is taking the sub-chunks into the record one by one: what a
/// section gives with one more sub-chunk at its end is what it gave without,
/// with that chunk taken in; a refusal stays a refusal.
pub proof fn lemma_locate_step(sdta: Chunk, ty: ChunkId, children: Seq<Chunk>, chunk: Chunk)
    ensures
        locate_sample_data(sdta, ty, children.push(chunk)) == (match locate_sample_data(
            sdta,
            ty,
            children,
        ) {
            Ok(data) => data.taking(chunk),
            Err(e) => Err(e),
        }),
{
    lemma_tags_differ();
    assert(children.push(chunk).drop_last() =~= children);
    assert(children.push(chunk).last() == chunk);
}

/// A section that is refused for its first few sub-chunks is refused in the
/// same way for all of them.
pub proof fn lemma_refusal_stays(sdta: Chunk, ty: ChunkId, children: Seq<Chunk>, n: int)
    requires
        0 <= n <= children.len(),
        locate_sample_data(sdta, ty, children.take(n)) is Err,
    ensures
        locate_sample_data(sdta, ty, children) == locate_sample_data(sdta, ty, children.take(n)),
{
    if sdta.id@ == tag_list() && ty@ == tag_sdta() {
        lemma_first_unexpected_stays(children, n);
    }
}

/// No sub-chunk is refused exactly when every sub-chunk is `smpl` or
/// `sm24`; the one that is refused is the first, in file order, that is
/// neither.
pub proof fn lemma_first_unexpected(children: Seq<Chunk>)
    ensures
        first_unexpected(children) is None <==> forall|i: int|
            0 <= i < children.len() ==> is_sample_member(#[trigger] children[i]),
        first_unexpected(children) matches Some(chunk) ==> exists|i: int|
            0 <= i < children.len() && #[trigger] children[i] == chunk && !is_sample_member(chunk)
                && forall|j: int| 0 <= j < i ==> is_sample_member(#[trigger] children[j]),
    decreases children.len(),
{
    if children.len() > 0 {
        let front = children.drop_last();
        lemma_first_unexpected(front);
        assert(forall|i: int| 0 <= i < front.len() ==> front[i] == children[i]);
        match first_unexpected(front) {
            Some(chunk) => {
                let i = choose|i: int|
                    0 <= i < front.len() && #[trigger] front[i] == chunk && !is_sample_member(chunk)
                        && forall|j: int| 0 <= j < i ==> is_sample_member(#[trigger] front[j]);
                assert(children[i] == chunk);
                assert(forall|j: int| 0 <= j < i ==> front[j] == children[j]);
            },
            None => {
                if !is_sample_member(children.last()) {
                    let i = children.len() - 1;
                    assert(children[i] == children.last());
                }
            },
        }
    }
}

/// A tag has no place recorded exactly when no sub-chunk has it; the place
/// that is recorded is that of the last sub-chunk, in file order, that has
/// it.
pub proof fn lemma_last_tagged(children: Seq<Chunk>, tag: Seq<u8>)
    ensures
        last_tagged(children, tag) is None <==> forall|i: int|
            0 <= i < children.len() ==> (#[trigger] children[i]).id@ != tag,
        last_tagged(children, tag) matches Some(place) ==> exists|i: int|
            0 <= i < children.len() && (#[trigger] children[i]).id@ == tag && place
                == SampleChunk::of(children[i]) && forall|j: int|
                i < j < children.len() ==> (#[trigger] children[j]).id@ != tag,
    decreases children.len(),
{
    if children.len() > 0 {
        let front = children.drop_last();
        lemma_last_tagged(front, tag);
        assert(forall|i: int| 0 <= i < front.len() ==> front[i] == children[i]);
        if children.last().id@ == tag {
            let i = children.len() - 1;
            assert(children[i] == children.last());
        } else {
            match last_tagged(front, tag) {
                Some(place) => {
                    let i = choose|i: int|
                        0 <= i < front.len() && (#[trigger] front[i]).id@ == tag && place
                            == SampleChunk::of(front[i]) && forall|j: int|
                            i < j < front.len() ==> (#[trigger] front[j]).id@ != tag;
                    assert(children[i] == front[i]);
                    assert forall|j: int| i < j < children.len() implies (
                    #[trigger] children[j]).id@ != tag by {
                        if j < front.len() {
                            assert(front[j] == children[j]);
                        }
                    }
                },
                None => {},
            }
        }
    }
}

/// A sample-data section is located exactly when it is a list of type
/// `sdta` and holds nothing but `smpl` and `sm24` chunks. One without
/// sub-chunks is located, with both places absent.
pub proof fn lemma_located_iff(sdta: Chunk, ty: ChunkId, children: Seq<Chunk>)
    ensures
        locate_sample_data(sdta, ty, children) is Ok <==> sdta.id@ == tag_list() && ty@
            == tag_sdta() && forall|i: int|
            0 <= i < children.len() ==> is_sample_member(#[trigger] children[i]),
        sdta.id@ == tag_list() && ty@ == tag_sdta() && children.len() == 0
            ==> locate_sample_data(sdta, ty, children) == Ok::<SampleData, Error>(
            SampleData { smpl: None, sm24: None },
        ),
{
    lemma_first_unexpected(children);
}

/// Locating the same section twice gives the same result: two outcomes of
/// `SampleData::read` on the same arguments are equal.
pub proof fn lemma_read_is_deterministic(
    sdta: Chunk,
    ty: ChunkId,
    children: Seq<Chunk>,
    first: Result<SampleData, Error>,
    second: Result<SampleData, Error>,
)
    requires
        first == locate_sample_data(sdta, ty, children),
        second == locate_sample_data(sdta, ty, children),
    ensures
        first == second,
{
}

} // verus!
