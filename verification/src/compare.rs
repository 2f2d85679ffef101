use vstd::prelude::*;

verus! {

/// Comparison function used for depth and stencil operations.
///
/// Each variant has a fixed numeric code (its C representation): `Undefined`
/// is 0, `Never` 1, `Less` 2, `Equal` 3, `LessEqual` 4, `Greater` 5,
/// `NotEqual` 6, `GreaterEqual` 7 and `Always` 8.
#[derive(Clone, Copy, Debug, Hash, PartialEq, Eq, Structural)]
pub enum CompareFunction {
    Undefined,
    Never,
    Less,
    Equal,
    LessEqual,
    Greater,
    NotEqual,
    GreaterEqual,
    Always,
}

/// The largest numeric code of a `CompareFunction`.
pub const MAX_COMPARE_CODE: u32 = 8;

impl CompareFunction {
    /// The numeric code of a variant.
    pub open spec fn code(self) -> nat {
        match self {
            CompareFunction::Undefined => 0,
            CompareFunction::Never => 1,
            CompareFunction::Less => 2,
            CompareFunction::Equal => 3,
            CompareFunction::LessEqual => 4,
            CompareFunction::Greater => 5,
            CompareFunction::NotEqual => 6,
            CompareFunction::GreaterEqual => 7,
            CompareFunction::Always => 8,
        }
    }

    /// The variant whose numeric code is `n`, if there is one.
    pub open spec fn from_code(n: nat) -> Option<CompareFunction> {
        if n == 0 {
            Some(CompareFunction::Undefined)
        } else if n == 1 {
            Some(CompareFunction::Never)
        } else if n == 2 {
            Some(CompareFunction::Less)
        } else if n == 3 {
            Some(CompareFunction::Equal)
        } else if n == 4 {
            Some(CompareFunction::LessEqual)
        } else if n == 5 {
            Some(CompareFunction::Greater)
        } else if n == 6 {
            Some(CompareFunction::NotEqual)
        } else if n == 7 {
            Some(CompareFunction::GreaterEqual)
        } else if n == 8 {
            Some(CompareFunction::Always)
        } else {
            None
        }
    }

    /// Returns the numeric code of this variant.
    pub fn discriminant(self) -> (n: u32)
        ensures
            n == self.code(),
            n <= MAX_COMPARE_CODE,
    {
        match self {
            CompareFunction::Undefined => 0,
            CompareFunction::Never => 1,
            CompareFunction::Less => 2,
            CompareFunction::Equal => 3,
            CompareFunction::LessEqual => 4,
            CompareFunction::Greater => 5,
            CompareFunction::NotEqual => 6,
            CompareFunction::GreaterEqual => 7,
            CompareFunction::Always => 8,
        }
    }

    /// Returns the variant with numeric code `n`, or `None` when `n` is
    /// greater than 8.
    pub fn from_discriminant(n: u32) -> (r: Option<CompareFunction>)
        ensures
            r == Self::from_code(n as nat),
            r is None <==> n > MAX_COMPARE_CODE,
    {
        match n {
            0 => Some(CompareFunction::Undefined),
            1 => Some(CompareFunction::Never),
            2 => Some(CompareFunction::Less),
            3 => Some(CompareFunction::Equal),
            4 => Some(CompareFunction::LessEqual),
            5 => Some(CompareFunction::Greater),
            6 => Some(CompareFunction::NotEqual),
            7 => Some(CompareFunction::GreaterEqual),
            8 => Some(CompareFunction::Always),
            _ => None,
        }
    }
}

/// Reading back the code of a variant gives that variant again.
pub proof fn lemma_code_round_trip(c: CompareFunction)
    ensures
        CompareFunction::from_code(c.code()) == Some(c),
{
}

/// Every code that names a variant is that variant's code.
pub proof fn lemma_from_code_round_trip(n: nat)
    ensures
        CompareFunction::from_code(n) matches Some(c) ==> c.code() == n,
{
}

/// Two variants with the same code are the same variant.
pub proof fn lemma_code_injective(a: CompareFunction, b: CompareFunction)
    ensures
        a.code() == b.code() ==> a == b,
{
}

} // verus!
