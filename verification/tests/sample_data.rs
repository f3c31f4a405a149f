use soundfont::error::Error;
use soundfont::riff::{Chunk, ChunkId};
use soundfont::sample_data::{SampleChunk, SampleData};

fn section() -> Chunk {
    Chunk::new(ChunkId::LIST(), 3012, 20)
}

#[test]
fn both_chunks_are_located() {
    let children = [
        Chunk::new(ChunkId::smpl(), 2000, 100),
        Chunk::new(ChunkId::sm24(), 1000, 2100),
    ];
    let data = SampleData::read(&section(), ChunkId::sdta(), &children).unwrap();
    assert_eq!(data.smpl, Some(SampleChunk { offset: 100, len: 2000 }));
    assert_eq!(data.sm24, Some(SampleChunk { offset: 2100, len: 1000 }));
}

#[test]
fn an_empty_section_has_neither() {
    let data = SampleData::read(&section(), ChunkId::sdta(), &[]);
    assert_eq!(data, Ok(SampleData { smpl: None, sm24: None }));
}

#[test]
fn one_chunk_alone_is_located() {
    let smpl = [Chunk::new(ChunkId::smpl(), 2000, 100)];
    assert_eq!(
        SampleData::read(&section(), ChunkId::sdta(), &smpl),
        Ok(SampleData {
            smpl: Some(SampleChunk { offset: 100, len: 2000 }),
            sm24: None,
        })
    );
    let sm24 = [Chunk::new(ChunkId::sm24(), 1000, 2100)];
    assert_eq!(
        SampleData::read(&section(), ChunkId::sdta(), &sm24),
        Ok(SampleData {
            smpl: None,
            sm24: Some(SampleChunk { offset: 2100, len: 1000 }),
        })
    );
}

#[test]
fn an_unexpected_chunk_is_refused() {
    let stray = Chunk::new(ChunkId::new(*b"junk"), 12, 2108);
    let children = [
        Chunk::new(ChunkId::smpl(), 2000, 100),
        stray,
        Chunk::new(ChunkId::sm24(), 1000, 2128),
    ];
    assert_eq!(
        SampleData::read(&section(), ChunkId::sdta(), &children),
        Err(Error::UnexpectedMemberOfSampleData(stray))
    );
}

#[test]
fn the_first_unexpected_chunk_is_reported() {
    let first = Chunk::new(ChunkId::pgen(), 8, 40);
    let second = Chunk::new(ChunkId::LIST(), 16, 56);
    assert_eq!(
        SampleData::read(&section(), ChunkId::sdta(), &[first, second]),
        Err(Error::UnexpectedMemberOfSampleData(first))
    );
    assert_eq!(
        SampleData::read(&section(), ChunkId::sdta(), &[second, first]),
        Err(Error::UnexpectedMemberOfSampleData(second))
    );
}

#[test]
fn a_repeated_chunk_replaces_the_earlier_one() {
    let children = [
        Chunk::new(ChunkId::smpl(), 2000, 100),
        Chunk::new(ChunkId::sm24(), 1000, 2108),
        Chunk::new(ChunkId::smpl(), 40, 3116),
        Chunk::new(ChunkId::sm24(), 20, 3164),
        Chunk::new(ChunkId::smpl(), 60, 3192),
    ];
    assert_eq!(
        SampleData::read(&section(), ChunkId::sdta(), &children),
        Ok(SampleData {
            smpl: Some(SampleChunk { offset: 3192, len: 60 }),
            sm24: Some(SampleChunk { offset: 3164, len: 20 }),
        })
    );
}

#[test]
fn sizes_that_do_not_fit_are_still_recorded() {
    let children = [
        Chunk::new(ChunkId::smpl(), 2000, 100),
        Chunk::new(ChunkId::sm24(), 7, 2108),
    ];
    assert_eq!(
        SampleData::read(&section(), ChunkId::sdta(), &children),
        Ok(SampleData {
            smpl: Some(SampleChunk { offset: 100, len: 2000 }),
            sm24: Some(SampleChunk { offset: 2108, len: 7 }),
        })
    );
}

#[test]
fn a_chunk_that_is_no_sample_section_is_refused() {
    let children = [Chunk::new(ChunkId::smpl(), 2000, 100)];
    let not_a_list = Chunk::new(ChunkId::smpl(), 3012, 20);
    assert_eq!(
        SampleData::read(&not_a_list, ChunkId::sdta(), &children),
        Err(Error::StructuralMismatch(not_a_list))
    );
    assert_eq!(
        SampleData::read(&section(), ChunkId::new(*b"pdta"), &children),
        Err(Error::StructuralMismatch(section()))
    );
    let stray = [Chunk::new(ChunkId::new(*b"junk"), 12, 2108)];
    assert_eq!(
        SampleData::read(&section(), ChunkId::new(*b"INFO"), &stray),
        Err(Error::StructuralMismatch(section()))
    );
}

#[test]
fn a_place_is_the_content_of_the_chunk() {
    let chunk = Chunk::new(ChunkId::smpl(), 77, 123_456_789_012);
    assert_eq!(
        SampleChunk::new(chunk),
        SampleChunk { offset: 123_456_789_012, len: 77 }
    );
    assert_eq!(chunk.id(), ChunkId::smpl());
    assert_eq!(chunk.len(), 77);
    assert_eq!(chunk.content_offset(), 123_456_789_012);
}

#[test]
fn locating_twice_gives_equal_results() {
    let children = [
        Chunk::new(ChunkId::smpl(), 2000, 100),
        Chunk::new(ChunkId::sm24(), 1000, 2100),
    ];
    assert_eq!(
        SampleData::read(&section(), ChunkId::sdta(), &children),
        SampleData::read(&section(), ChunkId::sdta(), &children)
    );
}

#[test]
fn tags_are_their_four_characters() {
    assert_eq!(ChunkId::LIST(), ChunkId::new(*b"LIST"));
    assert_eq!(ChunkId::sdta(), ChunkId::new(*b"sdta"));
    assert_eq!(ChunkId::smpl(), ChunkId::new(*b"smpl"));
    assert_eq!(ChunkId::sm24(), ChunkId::new(*b"sm24"));
    assert_eq!(ChunkId::pgen(), ChunkId::new(*b"pgen"));
    assert_eq!(ChunkId::igen(), ChunkId::new(*b"igen"));
    assert_ne!(ChunkId::smpl(), ChunkId::sm24());
    assert_ne!(ChunkId::new(*b"smpl"), ChunkId::new(*b"smpL"));
    assert_ne!(ChunkId::new(*b"smpl"), ChunkId::new(*b"Smpl"));
}

#[test]
fn chunks_are_taken_in_one_by_one() {
    let mut data = SampleData::begin(&section(), ChunkId::sdta()).unwrap();
    assert_eq!(data, SampleData { smpl: None, sm24: None });
    assert_eq!(data.record(Chunk::new(ChunkId::smpl(), 2000, 100)), Ok(()));
    assert_eq!(
        data,
        SampleData {
            smpl: Some(SampleChunk { offset: 100, len: 2000 }),
            sm24: None,
        }
    );
    assert_eq!(data.record(Chunk::new(ChunkId::sm24(), 1000, 2100)), Ok(()));
    let both = SampleData {
        smpl: Some(SampleChunk { offset: 100, len: 2000 }),
        sm24: Some(SampleChunk { offset: 2100, len: 1000 }),
    };
    assert_eq!(data, both);
    let stray = Chunk::new(ChunkId::igen(), 4, 3108);
    assert_eq!(
        data.record(stray),
        Err(Error::UnexpectedMemberOfSampleData(stray))
    );
    assert_eq!(data, both);
}

#[test]
fn a_wrong_section_does_not_begin() {
    let not_a_list = Chunk::new(ChunkId::sdta(), 3012, 20);
    assert_eq!(
        SampleData::begin(&not_a_list, ChunkId::sdta()),
        Err(Error::StructuralMismatch(not_a_list))
    );
    assert_eq!(
        SampleData::begin(&section(), ChunkId::LIST()),
        Err(Error::StructuralMismatch(section()))
    );
}
