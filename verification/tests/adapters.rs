use llvm_obj::{CodeModel, Opt, Reloc};
use llvm_sys::target_machine::{LLVMCodeGenOptLevel, LLVMCodeModel, LLVMRelocMode};

#[test]
fn code_model_matches_backend_values() {
    assert_eq!(
        CodeModel::Default.native(),
        LLVMCodeModel::LLVMCodeModelDefault as u32
    );
    assert_eq!(
        CodeModel::JIT.native(),
        LLVMCodeModel::LLVMCodeModelJITDefault as u32
    );
    assert_eq!(
        CodeModel::Small.native(),
        LLVMCodeModel::LLVMCodeModelSmall as u32
    );
    assert_eq!(
        CodeModel::Kernel.native(),
        LLVMCodeModel::LLVMCodeModelKernel as u32
    );
    assert_eq!(
        CodeModel::Medium.native(),
        LLVMCodeModel::LLVMCodeModelMedium as u32
    );
    assert_eq!(
        CodeModel::Large.native(),
        LLVMCodeModel::LLVMCodeModelLarge as u32
    );
}

#[test]
fn reloc_matches_backend_values() {
    assert_eq!(Reloc::Default.native(), LLVMRelocMode::LLVMRelocDefault as u32);
    assert_eq!(Reloc::Static.native(), LLVMRelocMode::LLVMRelocStatic as u32);
    assert_eq!(Reloc::PIC.native(), LLVMRelocMode::LLVMRelocPIC as u32);
    assert_eq!(
        Reloc::DynamicNoPic.native(),
        LLVMRelocMode::LLVMRelocDynamicNoPic as u32
    );
}

#[test]
fn opt_matches_backend_values() {
    assert_eq!(
        Opt::Off.native(),
        LLVMCodeGenOptLevel::LLVMCodeGenLevelNone as u32
    );
    assert_eq!(
        Opt::Less.native(),
        LLVMCodeGenOptLevel::LLVMCodeGenLevelLess as u32
    );
    assert_eq!(
        Opt::Default.native(),
        LLVMCodeGenOptLevel::LLVMCodeGenLevelDefault as u32
    );
    assert_eq!(
        Opt::Aggressive.native(),
        LLVMCodeGenOptLevel::LLVMCodeGenLevelAggressive as u32
    );
}

#[test]
fn mappings_are_stable_across_calls() {
    assert_eq!(CodeModel::Kernel.native(), CodeModel::Kernel.native());
    assert_eq!(Reloc::PIC.native(), Reloc::PIC.native());
    assert_eq!(Opt::Less.native(), Opt::Less.native());
}

#[test]
fn defaults_are_the_documented_variants() {
    assert!(matches!(CodeModel::default(), CodeModel::Default));
    assert!(matches!(Reloc::default(), Reloc::Default));
    assert!(matches!(Opt::default(), Opt::Off));
    assert_eq!(
        Opt::default().native(),
        LLVMCodeGenOptLevel::LLVMCodeGenLevelNone as u32
    );
    assert_ne!(
        Opt::default().native(),
        LLVMCodeGenOptLevel::LLVMCodeGenLevelDefault as u32
    );
}
