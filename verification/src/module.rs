use crate::cbuf::CBuf;
use crate::fault::Fault;
use vstd::prelude::*;
use vstd::string::StringSliceAdditionalSpecFns;

verus! {

/// The owned half of an in-memory IR unit: every string buffer the unit
/// has been given ownership of, in the order it received them.
///
/// The backend may keep borrowed pointers into any buffer handed to it,
/// and when it lets go cannot be observed from here; so buffers are only
/// ever appended, never released one by one, and all of them live exactly
/// as long as the value does. The backend's module handle is a raw pointer
/// and lives in the unverified shell, beside a value of this type.
pub struct LLVMod {
    data: Vec<CBuf>,
}

impl LLVMod {
    /// Every owned buffer is well-formed.
    pub closed spec fn wf(&self) -> bool {
        forall|i: int| 0 <= i < self.data@.len() ==> (#[trigger] self.data@[i]).wf()
    }

    /// The contents of the owned buffers, oldest first.
    pub closed spec fn bufs(&self) -> Seq<Seq<u8>> {
        self.data@.map(|i: int, c: CBuf| c@)
    }

    /// Creates the unit under `name`, retaining the name as its first
    /// owned buffer.
    ///
    /// Fails with `Fault::NullPtr` exactly when the bytes of `name` hold an
    /// embedded nul; the empty name is valid.
    pub fn new(name: &str) -> (r: Result<LLVMod, Fault>)
        ensures
            r is Ok <==> !name.spec_bytes().contains(0u8),
            r is Ok <==> !name@.contains('\0'),
            r matches Ok(m) ==> m.wf() && m.bufs() == seq![name.spec_bytes()],
            r matches Err(f) ==> f is NullPtr,
    {
        let name_buf = match CBuf::new(name) {
            Ok(c) => c,
            Err(f) => {
                return Err(f);
            },
        };
        let mut data: Vec<CBuf> = Vec::new();
        data.push(name_buf);
        let m = LLVMod { data };
        proof {
            assert(m.bufs() =~= seq![name.spec_bytes()]);
        }
        Ok(m)
    }

    /// Takes ownership of the bytes of `s` as a new nul-terminated buffer
    /// and returns its index; the buffer stays valid as long as `self`
    /// does. The buffer list only grows: nothing else changes.
    ///
    /// Fails with `Fault::NullPtr`, leaving `self` unchanged, exactly when
    /// the bytes of `s` hold an embedded nul.
    pub fn add_str(&mut self, s: &str) -> (r: Result<usize, Fault>)
        requires
            old(self).wf(),
        ensures
            final(self).wf(),
            r is Ok <==> !s.spec_bytes().contains(0u8),
            r is Ok <==> !s@.contains('\0'),
            r matches Ok(i) ==> i == old(self).bufs().len() && final(self).bufs() == old(
                self,
            ).bufs().push(s.spec_bytes()),
            r matches Err(f) ==> f is NullPtr && final(self).bufs() == old(self).bufs(),
    {
        let c = match CBuf::new(s) {
            Ok(c) => c,
            Err(f) => {
                return Err(f);
            },
        };
        let i = self.data.len();
        self.data.push(c);
        proof {
            assert(self.bufs() =~= old(self).bufs().push(s.spec_bytes()));
        }
        Ok(i)
    }

    /// How many buffers the unit owns.
    pub fn buffer_count(&self) -> (r: usize)
        ensures
            r == self.bufs().len(),
    {
        self.data.len()
    }

    /// The buffer at index `i`: what a backend call borrows from.
    pub fn buffer(&self, i: usize) -> (r: &CBuf)
        requires
            self.wf(),
            i < self.bufs().len(),
        ensures
            r.wf(),
            r@ == self.bufs()[i as int],
    {
        &self.data[i]
    }
}

} // verus!
