use crate::adapters::CodeModel;
use crate::adapters::Opt;
use crate::adapters::Reloc;
use crate::cbuf::CBuf;
use crate::fault::Fault;
use vstd::prelude::*;
use vstd::string::StringSliceAdditionalSpecFns;
use vstd::utf8::encode_utf8;
use vstd::utf8::is_ascii_chars;
use vstd::utf8::is_ascii_chars_encode_utf8;

verus! {

/// A compilation target, fully resolved: the buffers and native option
/// values from which the unverified shell constructs the backend's
/// target-machine handle.
///
/// `triple` is `None` when the host's own default triple is to be used;
/// resolving that default is the backend's job.
pub struct Platform {
    /// The target triple, or `None` for the host's default.
    pub triple: Option<CBuf>,
    /// The target processor; defaults to `generic`.
    pub cpu: CBuf,
    /// The processor feature string; defaults to empty.
    pub features: CBuf,
    /// Backend-native optimization level.
    pub opt: u32,
    /// Backend-native relocation mode.
    pub reloc: u32,
    /// Backend-native code model.
    pub model: u32,
}

/// The bytes of the default processor name, `generic`.
pub open spec fn spec_generic_cpu() -> Seq<u8> {
    "generic".spec_bytes()
}

proof fn lemma_generic_has_no_nul()
    ensures
        !spec_generic_cpu().contains(0u8),
{
    let s = "generic"@;
    reveal_strlit("generic");
    assert(is_ascii_chars(s));
    is_ascii_chars_encode_utf8(s);
    assert forall|i: int| 0 <= i < encode_utf8(s).len() implies encode_utf8(s)[i] != 0u8 by {
        assert(encode_utf8(s)[i] == s[i] as u8);
        assert(s[i] != '\0');
    }
    assert(!encode_utf8(s).contains(0u8));
}

proof fn lemma_empty_str_bytes()
    ensures
        "".spec_bytes() == Seq::<u8>::empty(),
{
    reveal_strlit("");
    assert(""@.len() == 0);
    assert("".spec_bytes() =~= Seq::<u8>::empty());
}

impl Platform {
    /// Every buffer of the configuration is well-formed.
    pub open spec fn wf(&self) -> bool {
        &&& (self.triple matches Some(t) ==> t.wf())
        &&& self.cpu.wf()
        &&& self.features.wf()
    }

    /// Resolves target options into a platform configuration.
    ///
    /// Absent options take their documented defaults: the host's triple,
    /// the `generic` processor, no features, `Opt::Off`, `Reloc::Default`
    /// and `CodeModel::Default`. Fails with `Fault::NullPtr` exactly when
    /// a given triple, processor or feature string holds an embedded nul,
    /// which no nul-terminated buffer can carry.
    pub fn new(
        triple: Option<&str>,
        cpu: Option<&str>,
        features: Option<&str>,
        codegen: Option<CodeModel>,
        relocmodel: Option<Reloc>,
        codemodel: Option<Opt>,
    ) -> (r: Result<Platform, Fault>)
        ensures
            r is Ok <==> ((triple matches Some(t) ==> !t.spec_bytes().contains(0u8)) && (
            cpu matches Some(c) ==> !c.spec_bytes().contains(0u8)) && (
            features matches Some(f) ==> !f.spec_bytes().contains(0u8))),
            r is Ok <==> ((triple matches Some(t) ==> !t@.contains('\0')) && (
            cpu matches Some(c) ==> !c@.contains('\0')) && (
            features matches Some(f) ==> !f@.contains('\0'))),
            r matches Err(f) ==> f is NullPtr,
            r matches Ok(p) ==> p.wf(),
            r matches Ok(p) ==> match triple {
                Some(t) => p.triple matches Some(b) && b@ == t.spec_bytes(),
                None => p.triple is None,
            },
            r matches Ok(p) ==> p.cpu@ == match cpu {
                Some(c) => c.spec_bytes(),
                None => spec_generic_cpu(),
            },
            r matches Ok(p) ==> p.features@ == match features {
                Some(f) => f.spec_bytes(),
                None => Seq::<u8>::empty(),
            },
            r matches Ok(p) ==> p.opt == match codemodel {
                Some(o) => o.spec_native(),
                None => Opt::Off.spec_native(),
            },
            r matches Ok(p) ==> p.reloc == match relocmodel {
                Some(m) => m.spec_native(),
                None => Reloc::Default.spec_native(),
            },
            r matches Ok(p) ==> p.model == match codegen {
                Some(m) => m.spec_native(),
                None => CodeModel::Default.spec_native(),
            },
    {
        let trip = match triple {
            Some(t) => match CBuf::new(t) {
                Ok(c) => Some(c),
                Err(f) => {
                    return Err(f);
                },
            },
            None => None,
        };
        let cpu_buf = match cpu {
            Some(c) => match CBuf::new(c) {
                Ok(b) => b,
                Err(f) => {
                    return Err(f);
                },
            },
            None => {
                proof {
                    lemma_generic_has_no_nul();
                }
                match CBuf::new("generic") {
                    Ok(b) => b,
                    Err(f) => {
                        return Err(f);
                    },
                }
            },
        };
        let features_buf = match features {
            Some(f) => match CBuf::new(f) {
                Ok(b) => b,
                Err(f) => {
                    return Err(f);
                },
            },
            None => {
                proof {
                    lemma_empty_str_bytes();
                }
                match CBuf::new("") {
                    Ok(b) => b,
                    Err(f) => {
                        return Err(f);
                    },
                }
            },
        };
        let opt_code = match codemodel {
            Some(o) => o.native(),
            None => Opt::default().native(),
        };
        let reloc_code = match relocmodel {
            Some(m) => m.native(),
            None => Reloc::default().native(),
        };
        let model_code = match codegen {
            Some(m) => m.native(),
            None => CodeModel::default().native(),
        };
        Ok(
            Platform {
                triple: trip,
                cpu: cpu_buf,
                features: features_buf,
                opt: opt_code,
                reloc: reloc_code,
                model: model_code,
            },
        )
    }
}

} // verus!
