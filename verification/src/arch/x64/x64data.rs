//! The flags and features of the opcode table.
use vstd::prelude::*;

verus! {

/// How an entry of the opcode table is to be encoded: a set of the bits that are named here.
#[derive(Debug, Clone, Copy, PartialEq, Eq, Hash, Structural)]
pub struct Flags {
    pub bits: u32,
}

impl Flags {
    /// This instruction has default encoding.
    pub const DEFAULT: u32 = 0x0000_0000;

    /// This instruction requires a VEX prefix to be encoded.
    pub const VEX_OP: u32 = 0x0000_0001;

    /// This instruction requires a XOP prefix to be encoded.
    pub const XOP_OP: u32 = 0x0000_0002;

    /// This instruction encodes the final opcode byte in the immediate position, like 3DNow! ops.
    pub const IMM_OP: u32 = 0x0000_0004;

    /// 16 bit -> OPSIZE , 32-bit -> None     , 64-bit -> REX.W/VEX.W/XOP.W.
    pub const AUTO_SIZE: u32 = 0x0000_0008;

    /// 16 bit -> OPSIZE , 32-bit -> None(x86), 64-bit -> None(x64).
    pub const AUTO_NO32: u32 = 0x0000_0010;

    /// 16 bit -> illegal, 32-bit -> None     , 64-bit -> REX.W/VEX.W/XOP.W.
    pub const AUTO_REXW: u32 = 0x0000_0020;

    /// 128bit -> None   , 256bit -> VEX.L.
    pub const AUTO_VEXL: u32 = 0x0000_0040;

    /// Implies opsize prefix.
    pub const WORD_SIZE: u32 = 0x0000_0080;

    /// Implies REX.W/VEX.W/XOP.W.
    pub const WITH_REXW: u32 = 0x0000_0100;

    /// Implies VEX.L/XOP.L.
    pub const WITH_VEXL: u32 = 0x0000_0200;

    /// Operands with unknown sizes cannot be assumed to match.
    pub const EXACT_SIZE: u32 = 0x0000_0400;

    /// Mandatory prefix (same as WORD_SIZE).
    pub const PREF_66: u32 = 0x0000_0080;

    /// Mandatory prefix (same as SMALL_ADDRESS).
    pub const PREF_67: u32 = 0x0000_0800;

    /// Mandatory prefix (same as LOCK).
    pub const PREF_F0: u32 = 0x0000_1000;

    /// Mandatory prefix (REPNE).
    pub const PREF_F2: u32 = 0x0000_2000;

    /// Mandatory prefix (REP).
    pub const PREF_F3: u32 = 0x0000_4000;

    /// User lock prefix is valid with this instruction.
    pub const LOCK: u32 = 0x0000_8000;

    /// User rep prefix is valid with this instruction.
    pub const REP: u32 = 0x0001_0000;

    /// User repe/repz prefix is valid with this instruction.
    pub const REPE: u32 = 0x0002_0000;

    /// A register argument is encoded in the last byte of the opcode.
    pub const SHORT_ARG: u32 = 0x0004_0000;

    /// Select alternate arg encoding.
    pub const ENC_MR: u32 = 0x0008_0000;

    /// Select alternate arg encoding.
    pub const ENC_VM: u32 = 0x0010_0000;

    /// A special encoding using the SIB to specify an immediate and two registers.
    pub const ENC_MIB: u32 = 0x0020_0000;

    /// Instructions available in protected mode, but not long mode.
    pub const X86_ONLY: u32 = 0x0040_0000;

    /// Whether all the bits of `mask` are set.
    pub open spec fn spec_contains(self, mask: u32) -> bool {
        self.bits & mask == mask
    }

    /// Whether one of the bits of `mask` is set.
    pub open spec fn spec_intersects(self, mask: u32) -> bool {
        self.bits & mask != 0
    }

    pub fn from_bits(bits: u32) -> (r: Flags)
        ensures
            r.bits == bits,
    {
        Flags { bits }
    }

    pub fn contains(&self, mask: u32) -> (r: bool)
        ensures
            r == self.spec_contains(mask),
    {
        self.bits & mask == mask
    }

    pub fn intersects(&self, mask: u32) -> (r: bool)
        ensures
            r == self.spec_intersects(mask),
    {
        self.bits & mask != 0
    }
}

/// A set of processor features: one bit for each of the features that are named here.
#[derive(Debug, Clone, Copy, PartialEq, Eq, Hash, Structural)]
pub struct Features {
    pub bits: u32,
}

impl Features {
    /// What every processor of the family has.
    pub const X64_IMPLICIT: u32 = 0x0000_0000;

    pub const FPU: u32 = 0x0000_0001;

    pub const MMX: u32 = 0x0000_0002;

    pub const TDNOW: u32 = 0x0000_0004;

    pub const SSE: u32 = 0x0000_0008;

    pub const SSE2: u32 = 0x0000_0010;

    pub const SSE3: u32 = 0x0000_0020;

    pub const VMX: u32 = 0x0000_0040;

    pub const SSSE3: u32 = 0x0000_0080;

    pub const SSE4A: u32 = 0x0000_0100;

    pub const SSE41: u32 = 0x0000_0200;

    pub const SSE42: u32 = 0x0000_0400;

    pub const SSE5: u32 = 0x0000_0800;

    pub const AVX: u32 = 0x0000_1000;

    pub const AVX2: u32 = 0x0000_2000;

    pub const FMA: u32 = 0x0000_4000;

    pub const BMI1: u32 = 0x0000_8000;

    pub const BMI2: u32 = 0x0001_0000;

    pub const TBM: u32 = 0x0002_0000;

    pub const RTM: u32 = 0x0004_0000;

    pub const INVPCID: u32 = 0x0008_0000;

    pub const MPX: u32 = 0x0010_0000;

    pub const SHA: u32 = 0x0020_0000;

    pub const PREFETCHWT1: u32 = 0x0040_0000;

    pub const CYRIX: u32 = 0x0080_0000;

    pub const AMD: u32 = 0x0100_0000;

    /// The bits of all the features.
    pub const ALL: u32 = 0x01FF_FFFF;

    /// The set of all the features.
    pub open spec fn spec_all() -> Features {
        Features { bits: Features::ALL }
    }

    /// Whether all the features of `other` are in this set.
    pub open spec fn spec_contains(self, other: Features) -> bool {
        self.bits & other.bits == other.bits
    }

    /// The features of this set that are not in `other`.
    pub open spec fn spec_difference(self, other: Features) -> Features {
        Features { bits: self.bits & !other.bits }
    }

    /// The features of this set and those of `other`.
    pub open spec fn spec_union(self, other: Features) -> Features {
        Features { bits: self.bits | other.bits }
    }

    /// The feature with a name, for the names that are known.
    pub open spec fn of_name(name: Seq<char>) -> Option<Features> {
        if name == "fpu"@ {
            Some(Features { bits: Features::FPU })
        }
        else if name == "mmx"@ {
            Some(Features { bits: Features::MMX })
        }
        else if name == "tdnow"@ {
            Some(Features { bits: Features::TDNOW })
        }
        else if name == "sse"@ {
            Some(Features { bits: Features::SSE })
        }
        else if name == "sse2"@ {
            Some(Features { bits: Features::SSE2 })
        }
        else if name == "sse3"@ {
            Some(Features { bits: Features::SSE3 })
        }
        else if name == "vmx"@ {
            Some(Features { bits: Features::VMX })
        }
        else if name == "ssse3"@ {
            Some(Features { bits: Features::SSSE3 })
        }
        else if name == "sse4a"@ {
            Some(Features { bits: Features::SSE4A })
        }
        else if name == "sse41"@ {
            Some(Features { bits: Features::SSE41 })
        }
        else if name == "sse42"@ {
            Some(Features { bits: Features::SSE42 })
        }
        else if name == "sse5"@ {
            Some(Features { bits: Features::SSE5 })
        }
        else if name == "avx"@ {
            Some(Features { bits: Features::AVX })
        }
        else if name == "avx2"@ {
            Some(Features { bits: Features::AVX2 })
        }
        else if name == "fma"@ {
            Some(Features { bits: Features::FMA })
        }
        else if name == "bmi1"@ {
            Some(Features { bits: Features::BMI1 })
        }
        else if name == "bmi2"@ {
            Some(Features { bits: Features::BMI2 })
        }
        else if name == "tbm"@ {
            Some(Features { bits: Features::TBM })
        }
        else if name == "rtm"@ {
            Some(Features { bits: Features::RTM })
        }
        else if name == "invpcid"@ {
            Some(Features { bits: Features::INVPCID })
        }
        else if name == "mpx"@ {
            Some(Features { bits: Features::MPX })
        }
        else if name == "sha"@ {
            Some(Features { bits: Features::SHA })
        }
        else if name == "prefetchwt1"@ {
            Some(Features { bits: Features::PREFETCHWT1 })
        }
        else if name == "cyrix"@ {
            Some(Features { bits: Features::CYRIX })
        }
        else if name == "amd"@ {
            Some(Features { bits: Features::AMD })
        }
        else {
            None
        }
    }

    /// The features that a list of names gives: those of the names that are known.
    pub open spec fn of_names(names: Seq<Seq<char>>) -> Features
        decreases names.len(),
    {
        if names.len() == 0 {
            Features { bits: 0 }
        } else {
            let rest = Features::of_names(names.drop_last());
            match Features::of_name(names.last()) {
                Some(feature) => rest.spec_union(feature),
                None => rest,
            }
        }
    }

    /// The names of a list that are not known, in their order.
    pub open spec fn unknown_names(names: Seq<Seq<char>>) -> Seq<Seq<char>>
        decreases names.len(),
    {
        if names.len() == 0 {
            seq![]
        } else {
            let rest = Features::unknown_names(names.drop_last());
            match Features::of_name(names.last()) {
                Some(_) => rest,
                None => rest.push(names.last()),
            }
        }
    }

    /// The features that a list of names gives, and the names of the list that are not known.
    pub fn from_names(names: &[String]) -> (r: (Features, Vec<String>))
        ensures
            r.0 == Features::of_names(crate::arch::string_views(names@)),
            crate::arch::string_views(r.1@) == Features::unknown_names(crate::arch::string_views(names@)),
    {
        let mut features = Features::empty();
        let mut unknown: Vec<String> = Vec::new();
        let ghost views = crate::arch::string_views(names@);
        let mut i: usize = 0;
        assert(views.take(0) =~= Seq::empty());
        assert(crate::arch::string_views(unknown@) =~= Seq::empty());
        while i < names.len()
            invariant
                i <= names.len(),
                views == crate::arch::string_views(names@),
                features == Features::of_names(views.take(i as int)),
                crate::arch::string_views(unknown@) == Features::unknown_names(views.take(i as int)),
            decreases names.len() - i,
        {
            assert(views[i as int] == names@[i as int]@);
            assert(views.take(i + 1).drop_last() =~= views.take(i as int));
            assert(views.take(i + 1).last() == views[i as int]);
            match Features::from_str(names[i].as_str()) {
                Some(feature) => {
                    features = features.union(feature);
                },
                None => {
                    let ghost before = crate::arch::string_views(unknown@);
                    let name = names[i].clone();
                    unknown.push(name);
                    assert(crate::arch::string_views(unknown@) =~= before.push(views[i as int]));
                },
            }
            i += 1;
        }
        assert(views.take(i as int) =~= views);
        (features, unknown)
    }

    pub fn from_bits(bits: u32) -> (r: Features)
        ensures
            r.bits == bits,
    {
        Features { bits }
    }

    pub fn empty() -> (r: Features)
        ensures
            r.bits == 0,
    {
        Features { bits: 0 }
    }

    pub fn all() -> (r: Features)
        ensures
            r.bits == Features::ALL,
    {
        Features { bits: Features::ALL }
    }

    pub fn bits(&self) -> (r: u32)
        ensures
            r == self.bits,
    {
        self.bits
    }

    pub fn is_empty(&self) -> (r: bool)
        ensures
            r == (self.bits == 0),
    {
        self.bits == 0
    }

    pub fn contains(&self, other: Features) -> (r: bool)
        ensures
            r == self.spec_contains(other),
    {
        self.bits & other.bits == other.bits
    }

    pub fn difference(&self, other: Features) -> (r: Features)
        ensures
            r == self.spec_difference(other),
    {
        Features { bits: self.bits & !other.bits }
    }

    pub fn union(&self, other: Features) -> (r: Features)
        ensures
            r == self.spec_union(other),
    {
        Features { bits: self.bits | other.bits }
    }

    /// The feature with a name, if the name is known.
    pub fn from_str(name: &str) -> (r: Option<Features>)
        ensures
            r == Features::of_name(name@),
    {
        if str_eq(name, "fpu") {
            Some(Features { bits: Features::FPU })
        }
        else if str_eq(name, "mmx") {
            Some(Features { bits: Features::MMX })
        }
        else if str_eq(name, "tdnow") {
            Some(Features { bits: Features::TDNOW })
        }
        else if str_eq(name, "sse") {
            Some(Features { bits: Features::SSE })
        }
        else if str_eq(name, "sse2") {
            Some(Features { bits: Features::SSE2 })
        }
        else if str_eq(name, "sse3") {
            Some(Features { bits: Features::SSE3 })
        }
        else if str_eq(name, "vmx") {
            Some(Features { bits: Features::VMX })
        }
        else if str_eq(name, "ssse3") {
            Some(Features { bits: Features::SSSE3 })
        }
        else if str_eq(name, "sse4a") {
            Some(Features { bits: Features::SSE4A })
        }
        else if str_eq(name, "sse41") {
            Some(Features { bits: Features::SSE41 })
        }
        else if str_eq(name, "sse42") {
            Some(Features { bits: Features::SSE42 })
        }
        else if str_eq(name, "sse5") {
            Some(Features { bits: Features::SSE5 })
        }
        else if str_eq(name, "avx") {
            Some(Features { bits: Features::AVX })
        }
        else if str_eq(name, "avx2") {
            Some(Features { bits: Features::AVX2 })
        }
        else if str_eq(name, "fma") {
            Some(Features { bits: Features::FMA })
        }
        else if str_eq(name, "bmi1") {
            Some(Features { bits: Features::BMI1 })
        }
        else if str_eq(name, "bmi2") {
            Some(Features { bits: Features::BMI2 })
        }
        else if str_eq(name, "tbm") {
            Some(Features { bits: Features::TBM })
        }
        else if str_eq(name, "rtm") {
            Some(Features { bits: Features::RTM })
        }
        else if str_eq(name, "invpcid") {
            Some(Features { bits: Features::INVPCID })
        }
        else if str_eq(name, "mpx") {
            Some(Features { bits: Features::MPX })
        }
        else if str_eq(name, "sha") {
            Some(Features { bits: Features::SHA })
        }
        else if str_eq(name, "prefetchwt1") {
            Some(Features { bits: Features::PREFETCHWT1 })
        }
        else if str_eq(name, "cyrix") {
            Some(Features { bits: Features::CYRIX })
        }
        else if str_eq(name, "amd") {
            Some(Features { bits: Features::AMD })
        }
        else {
            None
        }
    }
}

/// Whether two strings hold the same characters.
pub fn str_eq(a: &str, b: &str) -> (r: bool)
    ensures
        r == (a@ == b@),
{
    let left = String::from_str(a);
    let right = String::from_str(b);
    left == right
}

} // verus!
