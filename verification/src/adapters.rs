use vstd::prelude::*;

verus! {

/// Code model for generated code.
///
/// Each variant corresponds to one member of the backend's code-model
/// enumeration; `native` yields that member's numeric value. The backend
/// also has a `Tiny` model, not exposed here, whose value the mapping
/// skips.
#[derive(Clone, Copy, Debug, PartialEq, Eq, Structural)]
pub enum CodeModel {
    Default,
    JIT,
    Small,
    Kernel,
    Medium,
    Large,
}

impl CodeModel {
    /// The backend-native numeric value of this code model.
    pub open spec fn spec_native(self) -> u32 {
        match self {
            CodeModel::Default => 0,
            CodeModel::JIT => 1,
            CodeModel::Small => 3,
            CodeModel::Kernel => 4,
            CodeModel::Medium => 5,
            CodeModel::Large => 6,
        }
    }

    /// Maps this code model to the backend-native numeric value.
    ///
    /// Total over the variants, and the result depends on the variant alone.
    pub fn native(&self) -> (r: u32)
        ensures
            r == self.spec_native(),
    {
        match self {
            CodeModel::Default => 0,
            CodeModel::JIT => 1,
            CodeModel::Small => 3,
            CodeModel::Kernel => 4,
            CodeModel::Medium => 5,
            CodeModel::Large => 6,
        }
    }
}

impl Default for CodeModel {
    /// The documented default code model is `CodeModel::Default`.
    fn default() -> (r: CodeModel)
        ensures
            r == CodeModel::Default,
    {
        CodeModel::Default
    }
}

/// Distinct code models map to distinct backend-native values.
pub proof fn lemma_code_model_native_injective(a: CodeModel, b: CodeModel)
    ensures
        a.spec_native() == b.spec_native() ==> a == b,
{
}

/// Relocation mode for generated code.
///
/// Each variant corresponds to one member of the backend's relocation-mode
/// enumeration; `native` yields that member's numeric value.
#[derive(Clone, Copy, Debug, PartialEq, Eq, Structural)]
pub enum Reloc {
    Default,
    Static,
    PIC,
    DynamicNoPic,
}

impl Reloc {
    /// The backend-native numeric value of this relocation mode.
    pub open spec fn spec_native(self) -> u32 {
        match self {
            Reloc::Default => 0,
            Reloc::Static => 1,
            Reloc::PIC => 2,
            Reloc::DynamicNoPic => 3,
        }
    }

    /// Maps this relocation mode to the backend-native numeric value.
    ///
    /// Total over the variants, and the result depends on the variant alone.
    pub fn native(&self) -> (r: u32)
        ensures
            r == self.spec_native(),
    {
        match self {
            Reloc::Default => 0,
            Reloc::Static => 1,
            Reloc::PIC => 2,
            Reloc::DynamicNoPic => 3,
        }
    }
}

impl Default for Reloc {
    /// The documented default relocation mode is `Reloc::Default`.
    fn default() -> (r: Reloc)
        ensures
            r == Reloc::Default,
    {
        Reloc::Default
    }
}

/// Distinct relocation modes map to distinct backend-native values.
pub proof fn lemma_reloc_native_injective(a: Reloc, b: Reloc)
    ensures
        a.spec_native() == b.spec_native() ==> a == b,
{
}

/// Optimization level for code generation.
///
/// Each variant corresponds to one member of the backend's
/// optimization-level enumeration; `native` yields that member's numeric
/// value.
#[derive(Clone, Copy, Debug, PartialEq, Eq, Structural)]
pub enum Opt {
    Off,
    Less,
    Default,
    Aggressive,
}

impl Opt {
    /// The backend-native numeric value of this optimization level.
    pub open spec fn spec_native(self) -> u32 {
        match self {
            Opt::Off => 0,
            Opt::Less => 1,
            Opt::Default => 2,
            Opt::Aggressive => 3,
        }
    }

    /// Maps this optimization level to the backend-native numeric value.
    ///
    /// Total over the variants, and the result depends on the variant alone.
    pub fn native(&self) -> (r: u32)
        ensures
            r == self.spec_native(),
    {
        match self {
            Opt::Off => 0,
            Opt::Less => 1,
            Opt::Default => 2,
            Opt::Aggressive => 3,
        }
    }
}

impl Default for Opt {
    /// The default optimization level of this library is `Opt::Off`:
    /// unoptimized output, chosen deliberately over the backend's own
    /// default level.
    fn default() -> (r: Opt)
        ensures
            r == Opt::Off,
    {
        Opt::Off
    }
}

/// Distinct optimization levels map to distinct backend-native values.
pub proof fn lemma_opt_native_injective(a: Opt, b: Opt)
    ensures
        a.spec_native() == b.spec_native() ==> a == b,
{
}

} // verus!
