//! The boolean behavior switches of an argument, packed into a bitset.

use vstd::prelude::*;

verus! {

/// A named boolean behavior switch of an argument.
#[derive(Debug, Clone, Copy, PartialEq, Eq, Structural)]
pub enum ArgSettings {
    /// The argument must be present at runtime.
    Required,
    /// The argument may occur, or take values, more than once.
    Multiple,
    /// Empty values such as `--option ""` are accepted.
    EmptyValues,
    /// The argument propagates down to subcommands.
    Global,
    /// The argument is left out of help text.
    Hidden,
    /// The argument takes a value at runtime.
    TakesValue,
    /// One supplied token may be split into several values at a delimiter.
    UseValueDelimiter,
    /// Help text starts on the line after the argument column.
    NextLineHelp,
}

/// Bit position of each switch inside [`ArgFlags`].
pub open spec fn spec_bit(s: ArgSettings) -> u8 {
    match s {
        ArgSettings::Required => 0,
        ArgSettings::Multiple => 1,
        ArgSettings::EmptyValues => 2,
        ArgSettings::Global => 3,
        ArgSettings::Hidden => 4,
        ArgSettings::TakesValue => 5,
        ArgSettings::UseValueDelimiter => 6,
        ArgSettings::NextLineHelp => 7,
    }
}

/// The settings of one argument: bit `spec_bit(s)` is set iff switch `s` is
/// active.
#[derive(Debug, Clone, Copy, PartialEq, Eq, Structural)]
pub struct ArgFlags {
    pub bits: u8,
}

impl ArgFlags {
    /// Whether switch `s` is active.
    pub open spec fn spec_is_set(self, s: ArgSettings) -> bool {
        self.bits & (1u8 << spec_bit(s)) != 0
    }

    /// The flags with switch `s` turned on.
    pub open spec fn spec_set(self, s: ArgSettings) -> ArgFlags {
        ArgFlags { bits: self.bits | (1u8 << spec_bit(s)) }
    }

    /// The flags with switch `s` turned off.
    pub open spec fn spec_unset(self, s: ArgSettings) -> ArgFlags {
        ArgFlags { bits: self.bits & !(1u8 << spec_bit(s)) }
    }

    /// The settings a freshly constructed argument starts from: empty values
    /// are accepted and a delimiter may split supplied tokens.
    pub open spec fn spec_default() -> ArgFlags {
        ArgFlags { bits: 68 }
    }

    pub fn new() -> (r: ArgFlags)
        ensures
            r == ArgFlags::spec_default(),
    {
        ArgFlags { bits: 68 }
    }

    fn mask(s: ArgSettings) -> (r: u8)
        ensures
            r == 1u8 << spec_bit(s),
    {
        let r: u8 = match s {
            ArgSettings::Required => 1,
            ArgSettings::Multiple => 2,
            ArgSettings::EmptyValues => 4,
            ArgSettings::Global => 8,
            ArgSettings::Hidden => 16,
            ArgSettings::TakesValue => 32,
            ArgSettings::UseValueDelimiter => 64,
            ArgSettings::NextLineHelp => 128,
        };
        proof {
            assert(1u8 << 0 == 1 && 1u8 << 1 == 2 && 1u8 << 2 == 4 && 1u8 << 3 == 8 && 1u8 << 4
                == 16 && 1u8 << 5 == 32 && 1u8 << 6 == 64 && 1u8 << 7 == 128) by (bit_vector);
        }
        r
    }

    /// Whether switch `s` is active.
    pub fn is_set(&self, s: ArgSettings) -> (r: bool)
        ensures
            r == self.spec_is_set(s),
    {
        self.bits & Self::mask(s) != 0
    }

    /// Turn switch `s` on; every other switch keeps its state.
    pub fn set(&mut self, s: ArgSettings)
        ensures
            *final(self) == old(self).spec_set(s),
    {
        self.bits = self.bits | Self::mask(s);
    }

    /// Turn switch `s` off; every other switch keeps its state.
    pub fn unset(&mut self, s: ArgSettings)
        ensures
            *final(self) == old(self).spec_unset(s),
    {
        self.bits = self.bits & !Self::mask(s);
    }
}

/// Distinct switches sit on distinct bits.
pub proof fn lemma_bit_injective(s: ArgSettings, t: ArgSettings)
    ensures
        (spec_bit(s) == spec_bit(t)) == (s == t),
        spec_bit(s) < 8,
{
}

/// Turning a switch on activates it and nothing else: afterwards a switch is
/// active iff it is the one set or was active before.
pub proof fn lemma_set_is_set(f: ArgFlags, s: ArgSettings, t: ArgSettings)
    ensures
        f.spec_set(s).spec_is_set(t) == (s == t || f.spec_is_set(t)),
{
    lemma_bit_injective(s, t);
    let b = f.bits;
    let i = spec_bit(s);
    let j = spec_bit(t);
    assert(i < 8 && j < 8 ==> ((b | (1u8 << i)) & (1u8 << j) != 0) == (i == j || b & (1u8 << j)
        != 0)) by (bit_vector);
}

/// Turning a switch off deactivates it and nothing else.
pub proof fn lemma_unset_is_set(f: ArgFlags, s: ArgSettings, t: ArgSettings)
    ensures
        f.spec_unset(s).spec_is_set(t) == (s != t && f.spec_is_set(t)),
{
    lemma_bit_injective(s, t);
    let b = f.bits;
    let i = spec_bit(s);
    let j = spec_bit(t);
    assert(i < 8 && j < 8 ==> ((b & !(1u8 << i)) & (1u8 << j) != 0) == (i != j && b & (1u8 << j)
        != 0)) by (bit_vector);
}

/// Turning the same switch on twice leaves the same state as turning it on
/// once.
pub proof fn lemma_set_idempotent(f: ArgFlags, s: ArgSettings)
    ensures
        f.spec_set(s).spec_set(s) == f.spec_set(s),
{
    let b = f.bits;
    let m = 1u8 << spec_bit(s);
    assert((b | m) | m == b | m) by (bit_vector);
}

/// Turning the same switch off twice leaves the same state as turning it off
/// once.
pub proof fn lemma_unset_idempotent(f: ArgFlags, s: ArgSettings)
    ensures
        f.spec_unset(s).spec_unset(s) == f.spec_unset(s),
{
    let b = f.bits;
    let m = 1u8 << spec_bit(s);
    assert((b & !m) & !m == b & !m) by (bit_vector);
}

/// In the fresh default settings, exactly `EmptyValues` and
/// `UseValueDelimiter` are active.
pub proof fn lemma_default_flags(s: ArgSettings)
    ensures
        ArgFlags::spec_default().spec_is_set(s) == (s == ArgSettings::EmptyValues || s
            == ArgSettings::UseValueDelimiter),
{
    let j = spec_bit(s);
    assert(j < 8 ==> (68u8 & (1u8 << j) != 0) == (j == 2 || j == 6)) by (bit_vector);
}

} // verus!
