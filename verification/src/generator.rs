//! Generator records and the lists that hold them.

use crate::error::Error;
use crate::generator_type::{kind_of, lemma_kind_of_keeps_code, GeneratorType};
use crate::reader::{le_i16, le_u16, Reader};
use crate::riff::{tag_igen, tag_pgen, Chunk, ChunkId};
use crate::sf_enum::SfEnum;
use vstd::prelude::*;

verus! {

/// The number of bytes that one generator record takes.
pub const GENERATOR_SIZE: u32 = 4;

/// A pair of bounds, as the key range and the velocity range have them.
#[derive(Clone, Copy, Debug, PartialEq, Eq, Structural)]
pub struct GeneratorAmountRange {
    pub low: u8,
    pub high: u8,
}

/// The value of a generator, in the form that its kind asks for.
#[derive(Clone, Copy, Debug, PartialEq, Eq, Structural)]
pub enum GeneratorAmount {
    I16(i16),
    U16(u16),
    Range(GeneratorAmountRange),
}

/// The value of a generator without its tag, for callers that know the form
/// from the kind.
pub union GeneratorAmountUnion {
    pub sword: i16,
    pub uword: u16,
    pub range: GeneratorAmountRange,
}

impl GeneratorAmount {
    pub fn get_union(&self) -> (r: GeneratorAmountUnion)
        ensures
            match *self {
                GeneratorAmount::I16(v) => is_variant(r, "sword") && get_union_field::<
                    GeneratorAmountUnion,
                    i16,
                >(r, "sword") == v,
                GeneratorAmount::U16(v) => is_variant(r, "uword") && get_union_field::<
                    GeneratorAmountUnion,
                    u16,
                >(r, "uword") == v,
                GeneratorAmount::Range(v) => is_variant(r, "range") && get_union_field::<
                    GeneratorAmountUnion,
                    GeneratorAmountRange,
                >(r, "range") == v,
            },
    {
        match *self {
            GeneratorAmount::I16(sword) => GeneratorAmountUnion { sword },
            GeneratorAmount::U16(uword) => GeneratorAmountUnion { uword },
            GeneratorAmount::Range(range) => GeneratorAmountUnion { range },
        }
    }

    pub fn as_i16(&self) -> (r: Option<&i16>)
        ensures
            r == (match *self {
                GeneratorAmount::I16(v) => Some(&v),
                _ => None::<&i16>,
            }),
    {
        if let Self::I16(v) = self {
            Some(v)
        } else {
            None
        }
    }

    pub fn as_u16(&self) -> (r: Option<&u16>)
        ensures
            r == (match *self {
                GeneratorAmount::U16(v) => Some(&v),
                _ => None::<&u16>,
            }),
    {
        if let Self::U16(v) = self {
            Some(v)
        } else {
            None
        }
    }

    pub fn as_range(&self) -> (r: Option<&GeneratorAmountRange>)
        ensures
            r == (match *self {
                GeneratorAmount::Range(v) => Some(&v),
                _ => None::<&GeneratorAmountRange>,
            }),
    {
        if let Self::Range(r) = self {
            Some(r)
        } else {
            None
        }
    }
}

/// One generator: what it sets, and the value that it sets it to.
#[derive(Clone, Copy, Debug, PartialEq, Eq, Structural)]
pub struct Generator {
    pub ty: SfEnum<GeneratorType, u16>,
    pub amount: GeneratorAmount,
}

/// The value that the two bytes `lo` and `hi` hold for a generator of kind
/// `ty`: a pair of bounds for the two range kinds, an unsigned index for the
/// two kinds that refer to an instrument or a sample, and a signed value for
/// every other kind, known or not.
pub open spec fn decode_amount(ty: SfEnum<GeneratorType, u16>, lo: u8, hi: u8) -> GeneratorAmount {
    match ty {
        SfEnum::Value(GeneratorType::KeyRange) | SfEnum::Value(GeneratorType::VelRange) => {
            GeneratorAmount::Range(GeneratorAmountRange { low: lo, high: hi })
        },
        SfEnum::Value(GeneratorType::Instrument) | SfEnum::Value(GeneratorType::SampleID) => {
            GeneratorAmount::U16(le_u16(lo, hi))
        },
        _ => GeneratorAmount::I16(le_i16(lo, hi)),
    }
}

/// The generator that the first four bytes of `bytes` encode: the code of the
/// kind in the first two, low byte first, and the value in the other two.
pub open spec fn decode_generator(bytes: Seq<u8>) -> Generator
    recommends
        bytes.len() >= GENERATOR_SIZE,
{
    let ty = kind_of(le_u16(bytes[0], bytes[1]));
    Generator { ty, amount: decode_amount(ty, bytes[2], bytes[3]) }
}

/// The generators that the first `count` records of `data` encode, in the
/// order of the records.
pub open spec fn decode_generators(data: Seq<u8>, count: nat) -> Seq<Generator>
    recommends
        data.len() >= GENERATOR_SIZE * count,
{
    Seq::new(
        count,
        |i: int| decode_generator(data.subrange(GENERATOR_SIZE * i, GENERATOR_SIZE * i + GENERATOR_SIZE)),
    )
}

/// Whether `id` names one of the two chunks that hold a generator list.
pub open spec fn is_generator_list(id: ChunkId) -> bool {
    id@ == tag_pgen() || id@ == tag_igen()
}

/// How many records the generator list `pmod` declares. A chunk that is no
/// generator list is refused first, then a declared length that is zero or
/// no multiple of the record size.
pub open spec fn generator_count(pmod: Chunk) -> Result<u32, Error> {
    if !is_generator_list(pmod.id) {
        Err(Error::StructuralMismatch(pmod))
    } else if pmod.len % GENERATOR_SIZE != 0 || pmod.len == 0 {
        Err(Error::InvalidGeneratorChunkSize(pmod.len))
    } else {
        Ok(pmod.len / GENERATOR_SIZE)
    }
}

/// What the generator list `pmod` with the content `data` decodes to: the
/// records that `pmod` declares, in file order, or the reason why there are
/// none. Content that ends before the declared length is truncated; content
/// beyond it is not looked at.
pub open spec fn decode_generator_list(pmod: Chunk, data: Seq<u8>) -> Result<
    Seq<Generator>,
    Error,
> {
    match generator_count(pmod) {
        Err(e) => Err(e),
        Ok(count) => if data.len() < pmod.len {
            Err(Error::TruncatedRecord)
        } else {
            Ok(decode_generators(data, count as nat))
        },
    }
}

/// A decoding result with the list taken as the sequence of its records.
pub open spec fn list_view(r: Result<Vec<Generator>, Error>) -> Result<Seq<Generator>, Error> {
    match r {
        Ok(list) => Ok(list@),
        Err(e) => Err(e),
    }
}

impl Generator {
    /// Whether the value has the form that the kind asks for.
    pub open spec fn well_shaped(self) -> bool {
        match self.ty {
            SfEnum::Value(GeneratorType::KeyRange) | SfEnum::Value(GeneratorType::VelRange) => {
                self.amount is Range
            },
            SfEnum::Value(GeneratorType::Instrument) | SfEnum::Value(GeneratorType::SampleID) => {
                self.amount is U16
            },
            _ => self.amount is I16,
        }
    }

    /// Reads one record at the position of `reader`. With four bytes or more
    /// left, the record is decoded and the position moves past it; with
    /// fewer, the read fails and the position stays.
    pub fn read(reader: &mut Reader) -> (r: Result<Generator, Error>)
        ensures
            final(reader).bytes() == old(reader).bytes(),
            old(reader).rest().len() >= GENERATOR_SIZE ==> r == Ok::<Generator, Error>(
                decode_generator(old(reader).rest()),
            ) && final(reader).position() == old(reader).position() + GENERATOR_SIZE,
            old(reader).rest().len() < GENERATOR_SIZE ==> r == Err::<Generator, Error>(
                Error::TruncatedRecord,
            ) && final(reader).position() == old(reader).position(),
    {
        if reader.remaining() < GENERATOR_SIZE as usize {
            return Err(Error::TruncatedRecord);
        }
        let id: u16 = reader.read_u16()?;

        let ty = SfEnum::<GeneratorType, u16>::from_raw(id);

        let amount = match ty {
            SfEnum::Value(GeneratorType::KeyRange) | SfEnum::Value(GeneratorType::VelRange) => {
                let low: u8 = reader.read_u8()?;
                let high: u8 = reader.read_u8()?;
                GeneratorAmount::Range(GeneratorAmountRange { low, high })
            },
            SfEnum::Value(GeneratorType::Instrument) | SfEnum::Value(GeneratorType::SampleID) => {
                GeneratorAmount::U16(reader.read_u16()?)
            },
            _ => GeneratorAmount::I16(reader.read_i16()?),
        };

        Ok(Generator { ty, amount })
    }

    /// The number of records that the generator list `pmod` declares.
    pub fn count(pmod: &Chunk) -> (r: Result<u32, Error>)
        ensures
            r == generator_count(*pmod),
    {
        if !(pmod.id() == ChunkId::pgen() || pmod.id() == ChunkId::igen()) {
            return Err(Error::StructuralMismatch(*pmod));
        }
        let size: u32 = pmod.len();
        if size % GENERATOR_SIZE != 0 || size == 0 {
            Err(Error::InvalidGeneratorChunkSize(size))
        } else {
            Ok(size / GENERATOR_SIZE)
        }
    }

    /// Decodes the generator list `pmod`, whose content is `data`.
    pub fn read_all(pmod: &Chunk, data: Vec<u8>) -> (r: Result<Vec<Generator>, Error>)
        ensures
            list_view(r) == decode_generator_list(*pmod, data@),
    {
        let amount: u32 = Generator::count(pmod)?;
        let ghost bytes = data@;
        let mut reader = Reader::new(data);
        let mut list: Vec<Generator> = Vec::new();
        let mut i: u32 = 0;
        while i < amount
            invariant
                i <= amount,
                bytes == data@,
                generator_count(*pmod) == Ok::<u32, Error>(amount),
                reader.bytes() == bytes,
                reader.position() == GENERATOR_SIZE * i,
                reader.position() <= bytes.len(),
                list@.len() == i,
                forall|j: int|
                    0 <= j < i ==> list@[j] == decode_generator(
                        #[trigger] bytes.subrange(
                            GENERATOR_SIZE * j,
                            GENERATOR_SIZE * j + GENERATOR_SIZE,
                        ),
                    ),
            decreases amount - i,
        {
            let generator = match Generator::read(&mut reader) {
                Ok(generator) => generator,
                Err(e) => {
                    return Err(e);
                },
            };
            list.push(generator);
            i = i + 1;
        }
        proof {
            assert(list@ =~= decode_generators(bytes, amount as nat));
        }
        Ok(list)
    }
}

/// Every decoded generator has its value in the form that its kind asks for:
/// the form never depends on the two bytes of the value.
pub proof fn lemma_decoded_is_well_shaped(bytes: Seq<u8>)
    ensures
        decode_generator(bytes).well_shaped(),
        decode_generator(bytes).ty.raw() == le_u16(bytes[0], bytes[1]),
{
    lemma_kind_of_keeps_code(le_u16(bytes[0], bytes[1]));
}

/// A generator list decodes exactly when its chunk is a generator list, its
/// declared length is a positive multiple of four, and its content is at
/// least as long as declared.
pub proof fn lemma_list_decodes_iff(pmod: Chunk, data: Seq<u8>)
    ensures
        decode_generator_list(pmod, data) is Ok <==> is_generator_list(pmod.id) && pmod.len > 0
            && pmod.len % GENERATOR_SIZE == 0 && data.len() >= pmod.len,
{
}

/// A generator list whose content has the declared length, a positive
/// multiple of four, decodes to one record for every four bytes of the
/// content, in the order of the bytes, and the records take up all of it.
pub proof fn lemma_list_takes_whole_content(pmod: Chunk, data: Seq<u8>)
    requires
        is_generator_list(pmod.id),
        data.len() == pmod.len,
        pmod.len > 0,
        pmod.len % GENERATOR_SIZE == 0,
    ensures
        decode_generator_list(pmod, data) is Ok,
        decode_generator_list(pmod, data)->Ok_0.len() == data.len() / (GENERATOR_SIZE as nat),
        decode_generator_list(pmod, data)->Ok_0.len() * GENERATOR_SIZE == data.len(),
        forall|i: int|
            0 <= i < data.len() / (GENERATOR_SIZE as nat) ==> decode_generator_list(
                pmod,
                data,
            )->Ok_0[i] == decode_generator(
                #[trigger] data.subrange(GENERATOR_SIZE * i, GENERATOR_SIZE * i + GENERATOR_SIZE),
            ),
{
}

/// A generator list whose declared length is zero or no multiple of four is
/// refused whatever its content, and the error carries that length.
pub proof fn lemma_bad_length_is_refused(pmod: Chunk, data: Seq<u8>)
    requires
        is_generator_list(pmod.id),
        pmod.len == 0 || pmod.len % GENERATOR_SIZE != 0,
    ensures
        decode_generator_list(pmod, data) == Err::<Seq<Generator>, Error>(
            Error::InvalidGeneratorChunkSize(pmod.len),
        ),
{
}

/// Decoding the same list twice gives the same result: two outcomes of
/// `Generator::read_all` on one chunk and one content agree, in success or
/// failure, record by record.
pub proof fn lemma_read_all_is_deterministic(
    pmod: Chunk,
    data: Seq<u8>,
    first: Result<Vec<Generator>, Error>,
    second: Result<Vec<Generator>, Error>,
)
    requires
        list_view(first) == decode_generator_list(pmod, data),
        list_view(second) == decode_generator_list(pmod, data),
    ensures
        list_view(first) == list_view(second),
        first is Ok <==> second is Ok,
        first is Ok ==> first->Ok_0@ == second->Ok_0@,
        first is Err ==> first->Err_0 == second->Err_0,
{
}

} // verus!
