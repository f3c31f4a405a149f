//! The kinds of generator and their numeric codes.

use crate::error::Error;
use crate::sf_enum::SfEnum;
use vstd::prelude::*;
use vstd::std_specs::convert::TryFromSpecImpl;

verus! {

/// What a generator sets. The variants stand in the order of their codes,
/// from 0 to 60.
#[derive(Clone, Copy, Debug, PartialEq, Eq, Structural)]
pub enum GeneratorType {
    /// Sample start address offset (0-32767)
    StartAddrsOffset,
    /// Sample end address offset (-32767-0)
    EndAddrsOffset,
    /// Sample loop start address offset (-32767-32767)
    StartloopAddrsOffset,
    /// Sample loop end address offset (-32767-32767)
    EndloopAddrsOffset,
    /// Sample start address coarse offset (X 32768)
    StartAddrsCoarseOffset,
    /// Modulation LFO to pitch
    ModLfoToPitch,
    /// Vibrato LFO to pitch
    VibLfoToPitch,
    /// Modulation envelope to pitch
    ModEnvToPitch,
    /// Filter cutoff
    InitialFilterFc,
    /// Filter Q
    InitialFilterQ,
    /// Modulation LFO to filter cutoff
    ModLfoToFilterFc,
    /// Modulation envelope to filter cutoff
    ModEnvToFilterFc,
    /// Sample end address coarse offset (X 32768)
    EndAddrsCoarseOffset,
    /// Modulation LFO to volume
    ModLfoToVolume,
    /// Unused
    Unused1,
    /// Chorus send amount
    ChorusEffectsSend,
    /// Reverb send amount
    ReverbEffectsSend,
    /// Stereo panning
    Pan,
    /// Unused
    Unused2,
    /// Unused
    Unused3,
    /// Unused
    Unused4,
    /// Modulation LFO delay
    DelayModLFO,
    /// Modulation LFO frequency
    FreqModLFO,
    /// Vibrato LFO delay
    DelayVibLFO,
    /// Vibrato LFO frequency
    FreqVibLFO,
    /// Modulation envelope delay
    DelayModEnv,
    /// Modulation envelope attack
    AttackModEnv,
    /// Modulation envelope hold
    HoldModEnv,
    /// Modulation envelope decay
    DecayModEnv,
    /// Modulation envelope sustain
    SustainModEnv,
    /// Modulation envelope release
    ReleaseModEnv,
    /// Key to modulation envelope hold
    KeynumToModEnvHold,
    /// Key to modulation envelope decay
    KeynumToModEnvDecay,
    /// Volume envelope delay
    DelayVolEnv,
    /// Volume envelope attack
    AttackVolEnv,
    /// Volume envelope hold
    HoldVolEnv,
    /// Volume envelope decay
    DecayVolEnv,
    /// Volume envelope sustain
    SustainVolEnv,
    /// Volume envelope release
    ReleaseVolEnv,
    /// Key to volume envelope hold
    KeynumToVolEnvHold,
    /// Key to volume envelope decay
    KeynumToVolEnvDecay,
    /// Instrument ID (shouldn't be set by user)
    Instrument,
    /// Reserved
    Reserved1,
    /// MIDI note range
    KeyRange,
    /// MIDI velocity range
    VelRange,
    /// Sample start loop address coarse offset (X 32768)
    StartloopAddrsCoarseOffset,
    /// Fixed MIDI note number
    Keynum,
    /// Fixed MIDI velocity value
    Velocity,
    /// Initial volume attenuation
    InitialAttenuation,
    /// Reserved
    Reserved2,
    /// Sample end loop address coarse offset (X 32768)
    EndloopAddrsCoarseOffset,
    /// Coarse tuning
    CoarseTune,
    /// Fine tuning
    FineTune,
    /// Sample ID (shouldn't be set by user)
    SampleID,
    /// Sample mode flags
    SampleModes,
    /// Reserved
    Reserved3,
    /// Scale tuning
    ScaleTuning,
    /// Exclusive class number
    ExclusiveClass,
    /// Sample root note override
    OverridingRootKey,
    /// Unused
    Unused5,
    /// End of a generator list
    EndOper,
}

/// The largest code that names a kind.
pub const LAST_GENERATOR_CODE: u16 = 60;

impl GeneratorType {
    /// The numeric code of this kind.
    pub open spec fn code(self) -> u16 {
        self as u16
    }

    /// The kind that `code` names, if it names one.
    pub open spec fn from_code(code: u16) -> Option<GeneratorType> {
        match code {
            0u16 => Some(GeneratorType::StartAddrsOffset),
            1u16 => Some(GeneratorType::EndAddrsOffset),
            2u16 => Some(GeneratorType::StartloopAddrsOffset),
            3u16 => Some(GeneratorType::EndloopAddrsOffset),
            4u16 => Some(GeneratorType::StartAddrsCoarseOffset),
            5u16 => Some(GeneratorType::ModLfoToPitch),
            6u16 => Some(GeneratorType::VibLfoToPitch),
            7u16 => Some(GeneratorType::ModEnvToPitch),
            8u16 => Some(GeneratorType::InitialFilterFc),
            9u16 => Some(GeneratorType::InitialFilterQ),
            10u16 => Some(GeneratorType::ModLfoToFilterFc),
            11u16 => Some(GeneratorType::ModEnvToFilterFc),
            12u16 => Some(GeneratorType::EndAddrsCoarseOffset),
            13u16 => Some(GeneratorType::ModLfoToVolume),
            14u16 => Some(GeneratorType::Unused1),
            15u16 => Some(GeneratorType::ChorusEffectsSend),
            16u16 => Some(GeneratorType::ReverbEffectsSend),
            17u16 => Some(GeneratorType::Pan),
            18u16 => Some(GeneratorType::Unused2),
            19u16 => Some(GeneratorType::Unused3),
            20u16 => Some(GeneratorType::Unused4),
            21u16 => Some(GeneratorType::DelayModLFO),
            22u16 => Some(GeneratorType::FreqModLFO),
            23u16 => Some(GeneratorType::DelayVibLFO),
            24u16 => Some(GeneratorType::FreqVibLFO),
            25u16 => Some(GeneratorType::DelayModEnv),
            26u16 => Some(GeneratorType::AttackModEnv),
            27u16 => Some(GeneratorType::HoldModEnv),
            28u16 => Some(GeneratorType::DecayModEnv),
            29u16 => Some(GeneratorType::SustainModEnv),
            30u16 => Some(GeneratorType::ReleaseModEnv),
            31u16 => Some(GeneratorType::KeynumToModEnvHold),
            32u16 => Some(GeneratorType::KeynumToModEnvDecay),
            33u16 => Some(GeneratorType::DelayVolEnv),
            34u16 => Some(GeneratorType::AttackVolEnv),
            35u16 => Some(GeneratorType::HoldVolEnv),
            36u16 => Some(GeneratorType::DecayVolEnv),
            37u16 => Some(GeneratorType::SustainVolEnv),
            38u16 => Some(GeneratorType::ReleaseVolEnv),
            39u16 => Some(GeneratorType::KeynumToVolEnvHold),
            40u16 => Some(GeneratorType::KeynumToVolEnvDecay),
            41u16 => Some(GeneratorType::Instrument),
            42u16 => Some(GeneratorType::Reserved1),
            43u16 => Some(GeneratorType::KeyRange),
            44u16 => Some(GeneratorType::VelRange),
            45u16 => Some(GeneratorType::StartloopAddrsCoarseOffset),
            46u16 => Some(GeneratorType::Keynum),
            47u16 => Some(GeneratorType::Velocity),
            48u16 => Some(GeneratorType::InitialAttenuation),
            49u16 => Some(GeneratorType::Reserved2),
            50u16 => Some(GeneratorType::EndloopAddrsCoarseOffset),
            51u16 => Some(GeneratorType::CoarseTune),
            52u16 => Some(GeneratorType::FineTune),
            53u16 => Some(GeneratorType::SampleID),
            54u16 => Some(GeneratorType::SampleModes),
            55u16 => Some(GeneratorType::Reserved3),
            56u16 => Some(GeneratorType::ScaleTuning),
            57u16 => Some(GeneratorType::ExclusiveClass),
            58u16 => Some(GeneratorType::OverridingRootKey),
            59u16 => Some(GeneratorType::Unused5),
            60u16 => Some(GeneratorType::EndOper),
            _ => None,
        }
    }
}

impl TryFrom<u16> for GeneratorType {
    type Error = Error;

    /// The kind that `id` names; fails with the code where it names none.
    fn try_from(id: u16) -> (r: Result<GeneratorType, Error>) {
        match id {
            0 => Ok(GeneratorType::StartAddrsOffset),
            1 => Ok(GeneratorType::EndAddrsOffset),
            2 => Ok(GeneratorType::StartloopAddrsOffset),
            3 => Ok(GeneratorType::EndloopAddrsOffset),
            4 => Ok(GeneratorType::StartAddrsCoarseOffset),
            5 => Ok(GeneratorType::ModLfoToPitch),
            6 => Ok(GeneratorType::VibLfoToPitch),
            7 => Ok(GeneratorType::ModEnvToPitch),
            8 => Ok(GeneratorType::InitialFilterFc),
            9 => Ok(GeneratorType::InitialFilterQ),
            10 => Ok(GeneratorType::ModLfoToFilterFc),
            11 => Ok(GeneratorType::ModEnvToFilterFc),
            12 => Ok(GeneratorType::EndAddrsCoarseOffset),
            13 => Ok(GeneratorType::ModLfoToVolume),
            14 => Ok(GeneratorType::Unused1),
            15 => Ok(GeneratorType::ChorusEffectsSend),
            16 => Ok(GeneratorType::ReverbEffectsSend),
            17 => Ok(GeneratorType::Pan),
            18 => Ok(GeneratorType::Unused2),
            19 => Ok(GeneratorType::Unused3),
            20 => Ok(GeneratorType::Unused4),
            21 => Ok(GeneratorType::DelayModLFO),
            22 => Ok(GeneratorType::FreqModLFO),
            23 => Ok(GeneratorType::DelayVibLFO),
            24 => Ok(GeneratorType::FreqVibLFO),
            25 => Ok(GeneratorType::DelayModEnv),
            26 => Ok(GeneratorType::AttackModEnv),
            27 => Ok(GeneratorType::HoldModEnv),
            28 => Ok(GeneratorType::DecayModEnv),
            29 => Ok(GeneratorType::SustainModEnv),
            30 => Ok(GeneratorType::ReleaseModEnv),
            31 => Ok(GeneratorType::KeynumToModEnvHold),
            32 => Ok(GeneratorType::KeynumToModEnvDecay),
            33 => Ok(GeneratorType::DelayVolEnv),
            34 => Ok(GeneratorType::AttackVolEnv),
            35 => Ok(GeneratorType::HoldVolEnv),
            36 => Ok(GeneratorType::DecayVolEnv),
            37 => Ok(GeneratorType::SustainVolEnv),
            38 => Ok(GeneratorType::ReleaseVolEnv),
            39 => Ok(GeneratorType::KeynumToVolEnvHold),
            40 => Ok(GeneratorType::KeynumToVolEnvDecay),
            41 => Ok(GeneratorType::Instrument),
            42 => Ok(GeneratorType::Reserved1),
            43 => Ok(GeneratorType::KeyRange),
            44 => Ok(GeneratorType::VelRange),
            45 => Ok(GeneratorType::StartloopAddrsCoarseOffset),
            46 => Ok(GeneratorType::Keynum),
            47 => Ok(GeneratorType::Velocity),
            48 => Ok(GeneratorType::InitialAttenuation),
            49 => Ok(GeneratorType::Reserved2),
            50 => Ok(GeneratorType::EndloopAddrsCoarseOffset),
            51 => Ok(GeneratorType::CoarseTune),
            52 => Ok(GeneratorType::FineTune),
            53 => Ok(GeneratorType::SampleID),
            54 => Ok(GeneratorType::SampleModes),
            55 => Ok(GeneratorType::Reserved3),
            56 => Ok(GeneratorType::ScaleTuning),
            57 => Ok(GeneratorType::ExclusiveClass),
            58 => Ok(GeneratorType::OverridingRootKey),
            59 => Ok(GeneratorType::Unused5),
            60 => Ok(GeneratorType::EndOper),
            _ => Err(Error::UnknownGeneratorType(id)),
        }
    }
}

impl TryFromSpecImpl<u16> for GeneratorType {
    open spec fn obeys_try_from_spec() -> bool {
        true
    }

    open spec fn try_from_spec(id: u16) -> Result<GeneratorType, Error> {
        match GeneratorType::from_code(id) {
            Some(kind) => Ok(kind),
            None => Err(Error::UnknownGeneratorType(id)),
        }
    }
}

/// The kind for `code`: the member that it names, or the code itself where it
/// names none.
pub open spec fn kind_of(code: u16) -> SfEnum<GeneratorType, u16> {
    match GeneratorType::from_code(code) {
        Some(kind) => SfEnum::Value(kind),
        None => SfEnum::Unknown(code),
    }
}

impl SfEnum<GeneratorType, u16> {
    /// The code that this kind was read from.
    pub open spec fn raw(self) -> u16 {
        match self {
            SfEnum::Value(kind) => kind.code(),
            SfEnum::Unknown(code) => code,
        }
    }

    /// The kind for `code`. Codes up to 60 give a known kind, every other code
    /// is kept as it is.
    pub fn from_raw(code: u16) -> (r: SfEnum<GeneratorType, u16>)
        ensures
            r == kind_of(code),
    {
        match GeneratorType::try_from(code) {
            Ok(kind) => SfEnum::Value(kind),
            Err(_) => SfEnum::Unknown(code),
        }
    }

    #[inline]
    pub fn as_raw(&self) -> (r: u16)
        ensures
            r == self.raw(),
    {
        match *self {
            SfEnum::Value(v) => v as u16,
            SfEnum::Unknown(v) => v,
        }
    }

    #[inline]
    pub fn into_result(&self) -> (r: Result<GeneratorType, Error>)
        ensures
            r == (match *self {
                SfEnum::Value(v) => Ok::<GeneratorType, Error>(v),
                SfEnum::Unknown(v) => Err::<GeneratorType, Error>(Error::UnknownGeneratorType(v)),
            }),
    {
        match *self {
            SfEnum::Value(v) => Ok(v),
            SfEnum::Unknown(v) => Err(Error::UnknownGeneratorType(v)),
        }
    }
}

/// Every kind has a code of at most 60, and that code names the kind again.
pub proof fn lemma_code_names_kind(kind: GeneratorType)
    ensures
        kind.code() <= LAST_GENERATOR_CODE,
        GeneratorType::from_code(kind.code()) == Some(kind),
        kind_of(kind.code()) == SfEnum::<GeneratorType, u16>::Value(kind),
{
}

/// A code names a kind exactly when it is at most 60, and the kind that it
/// names has that code.
pub proof fn lemma_kind_has_code(code: u16)
    ensures
        GeneratorType::from_code(code) is Some <==> code <= LAST_GENERATOR_CODE,
        GeneratorType::from_code(code) matches Some(kind) ==> kind.code() == code,
{
}

/// The kind for a code keeps the code: known or not, its raw value is the
/// code that it came from, and it is known exactly for the codes up to 60.
pub proof fn lemma_kind_of_keeps_code(code: u16)
    ensures
        kind_of(code).raw() == code,
        kind_of(code) is Value <==> code <= LAST_GENERATOR_CODE,
        code > LAST_GENERATOR_CODE ==> kind_of(code) == SfEnum::<GeneratorType, u16>::Unknown(code),
{
    lemma_kind_has_code(code);
}

/// Two kinds with the same code are the same kind.
pub proof fn lemma_code_injective(a: GeneratorType, b: GeneratorType)
    requires
        a.code() == b.code(),
    ensures
        a == b,
{
    lemma_code_names_kind(a);
    lemma_code_names_kind(b);
}

} // verus!
