use vstd::prelude::*;

verus! {

/// One of the four general-purpose registers of the CPU.
#[derive(PartialEq, Eq, Structural, Clone, Copy, Debug, Hash)]
pub enum GeneralRegister {
    A,
    B,
    C,
    D,
}

impl GeneralRegister {
    /// The register's 2-bit encoding.
    pub open spec fn spec_index(self) -> u8 {
        match self {
            GeneralRegister::A => 0,
            GeneralRegister::B => 1,
            GeneralRegister::C => 2,
            GeneralRegister::D => 3,
        }
    }

    /// The register whose 2-bit encoding is `value`.
    pub open spec fn spec_from_index(value: u8) -> GeneralRegister {
        if value == 0 {
            GeneralRegister::A
        } else if value == 1 {
            GeneralRegister::B
        } else if value == 2 {
            GeneralRegister::C
        } else {
            GeneralRegister::D
        }
    }

    pub fn index(&self) -> (r: u8)
        ensures
            r == self.spec_index(),
            r < 4,
    {
        match self {
            GeneralRegister::A => 0,
            GeneralRegister::B => 1,
            GeneralRegister::C => 2,
            GeneralRegister::D => 3,
        }
    }

    pub fn from_index(value: u8) -> (r: GeneralRegister)
        requires
            value < 4,
        ensures
            r == GeneralRegister::spec_from_index(value),
            r.spec_index() == value,
    {
        if value == 0 {
            GeneralRegister::A
        } else if value == 1 {
            GeneralRegister::B
        } else if value == 2 {
            GeneralRegister::C
        } else {
            GeneralRegister::D
        }
    }
}

} // verus!

verus! {

/// A register as written in assembly: one of the letters `A` to `D`.
#[derive(PartialEq, Eq, Structural, Clone, Copy, Debug)]
pub enum AssemblyRegister {
    A,
    B,
    C,
    D,
}

impl AssemblyRegister {
    pub open spec fn spec_general(self) -> GeneralRegister {
        match self {
            AssemblyRegister::A => GeneralRegister::A,
            AssemblyRegister::B => GeneralRegister::B,
            AssemblyRegister::C => GeneralRegister::C,
            AssemblyRegister::D => GeneralRegister::D,
        }
    }

    /// The general register this letter names.
    pub fn general(&self) -> (r: GeneralRegister)
        ensures
            r == self.spec_general(),
    {
        match self {
            AssemblyRegister::A => GeneralRegister::A,
            AssemblyRegister::B => GeneralRegister::B,
            AssemblyRegister::C => GeneralRegister::C,
            AssemblyRegister::D => GeneralRegister::D,
        }
    }
}

} // verus!
