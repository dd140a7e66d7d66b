//! Safety-oriented facade over a native compiler backend.
//!
//! The library holds the logic of the facade: enumeration adapters that map
//! code models, relocation modes and optimization levels to the backend's
//! native values; owned nul-terminated buffers that back every string the
//! backend may borrow; translation of backend error reports into a typed
//! fault value; and resolution of target-platform options. The backend calls
//! themselves, which go through raw pointers, live in the thin unverified
//! shell around this crate.

mod adapters;
mod cbuf;
mod fault;
mod module;
mod platform;

pub use adapters::lemma_code_model_native_injective;
pub use adapters::lemma_opt_native_injective;
pub use adapters::lemma_reloc_native_injective;
pub use adapters::CodeModel;
pub use adapters::Opt;
pub use adapters::Reloc;
pub use cbuf::lemma_content_decodes_back;
pub use cbuf::lemma_nul_byte_iff_nul_char;
pub use cbuf::str_has_nul;
pub use cbuf::CBuf;
pub use fault::build_fault;
pub use fault::is_translation_of;
pub use fault::lemma_translation_preserves_text;
pub use fault::msg_bytes;
pub use fault::translate_outcome;
pub use fault::Fault;
pub use module::LLVMod;
pub use platform::spec_generic_cpu;
pub use platform::Platform;
