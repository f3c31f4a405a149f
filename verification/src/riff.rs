//! Chunk headers as the decoders see them.

use vstd::prelude::*;
use vstd::std_specs::cmp::PartialEqSpecImpl;

verus! {

/// The four-character tag that names a chunk.
#[derive(Clone, Copy, Debug, Eq)]
pub struct ChunkId {
    pub value: [u8; 4],
}

impl View for ChunkId {
    type V = Seq<u8>;

    open spec fn view(&self) -> Seq<u8> {
        self.value@
    }
}

impl PartialEq for ChunkId {
    fn eq(&self, other: &ChunkId) -> (r: bool) {
        let r = self.value[0] == other.value[0] && self.value[1] == other.value[1]
            && self.value[2] == other.value[2] && self.value[3] == other.value[3];
        proof {
            if r {
                assert(self.value@ =~= other.value@);
            }
        }
        r
    }
}

/// Two tags are equal when their four bytes are.
impl PartialEqSpecImpl for ChunkId {
    open spec fn obeys_eq_spec() -> bool {
        true
    }

    open spec fn eq_spec(&self, other: &ChunkId) -> bool {
        self@ == other@
    }
}

/// The bytes of `LIST`, the tag of a compound chunk.
pub open spec fn tag_list() -> Seq<u8> {
    seq![0x4cu8, 0x49u8, 0x53u8, 0x54u8]
}

/// The bytes of `sdta`, the type of the sample-data section.
pub open spec fn tag_sdta() -> Seq<u8> {
    seq![0x73u8, 0x64u8, 0x74u8, 0x61u8]
}

/// The bytes of `smpl`, the tag of the 16-bit sample pool.
pub open spec fn tag_smpl() -> Seq<u8> {
    seq![0x73u8, 0x6du8, 0x70u8, 0x6cu8]
}

/// The bytes of `sm24`, the tag of the low-order byte extension.
pub open spec fn tag_sm24() -> Seq<u8> {
    seq![0x73u8, 0x6du8, 0x32u8, 0x34u8]
}

/// The bytes of `pgen`, the tag of the preset generator list.
pub open spec fn tag_pgen() -> Seq<u8> {
    seq![0x70u8, 0x67u8, 0x65u8, 0x6eu8]
}

/// The bytes of `igen`, the tag of the instrument generator list.
pub open spec fn tag_igen() -> Seq<u8> {
    seq![0x69u8, 0x67u8, 0x65u8, 0x6eu8]
}

impl ChunkId {
    /// The tag made of the four given bytes.
    pub fn new(value: [u8; 4]) -> (r: ChunkId)
        ensures
            r.value == value,
    {
        ChunkId { value }
    }

    #[allow(non_snake_case)]
    pub fn LIST() -> (r: ChunkId)
        ensures
            r@ == tag_list(),
    {
        let r = ChunkId { value: [0x4c, 0x49, 0x53, 0x54] };
        assert(r@ =~= tag_list());
        r
    }

    pub fn sdta() -> (r: ChunkId)
        ensures
            r@ == tag_sdta(),
    {
        let r = ChunkId { value: [0x73, 0x64, 0x74, 0x61] };
        assert(r@ =~= tag_sdta());
        r
    }

    pub fn smpl() -> (r: ChunkId)
        ensures
            r@ == tag_smpl(),
    {
        let r = ChunkId { value: [0x73, 0x6d, 0x70, 0x6c] };
        assert(r@ =~= tag_smpl());
        r
    }

    pub fn sm24() -> (r: ChunkId)
        ensures
            r@ == tag_sm24(),
    {
        let r = ChunkId { value: [0x73, 0x6d, 0x32, 0x34] };
        assert(r@ =~= tag_sm24());
        r
    }

    pub fn pgen() -> (r: ChunkId)
        ensures
            r@ == tag_pgen(),
    {
        let r = ChunkId { value: [0x70, 0x67, 0x65, 0x6e] };
        assert(r@ =~= tag_pgen());
        r
    }

    pub fn igen() -> (r: ChunkId)
        ensures
            r@ == tag_igen(),
    {
        let r = ChunkId { value: [0x69, 0x67, 0x65, 0x6e] };
        assert(r@ =~= tag_igen());
        r
    }
}

/// The header of one chunk: its tag, the declared length of its content in
/// bytes, and the offset of that content from the start of the file.
#[derive(Clone, Copy, Debug, PartialEq, Eq)]
pub struct Chunk {
    pub id: ChunkId,
    pub len: u32,
    pub content_offset: u64,
}

impl Chunk {
    pub fn new(id: ChunkId, len: u32, content_offset: u64) -> (r: Chunk)
        ensures
            r == (Chunk { id, len, content_offset }),
    {
        Chunk { id, len, content_offset }
    }

    pub fn id(&self) -> (r: ChunkId)
        ensures
            r == self.id,
    {
        self.id
    }

    pub fn len(&self) -> (r: u32)
        ensures
            r == self.len,
    {
        self.len
    }

    pub fn content_offset(&self) -> (r: u64)
        ensures
            r == self.content_offset,
    {
        self.content_offset
    }
}

} // verus!
