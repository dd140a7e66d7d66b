use crate::fault::Fault;
use vstd::prelude::*;
use vstd::slice::slice_index_get;
use vstd::string::StrSliceExecFns;
use vstd::string::StringSliceAdditionalSpecFns;
use vstd::utf8::char_is_scalar;
use vstd::utf8::char_u32_cast;
use vstd::utf8::decode_utf8;
use vstd::utf8::encode_scalar;
use vstd::utf8::encode_utf8;
use vstd::utf8::has_width_1_encoding;
use vstd::utf8::has_width_2_encoding;
use vstd::utf8::has_width_3_encoding;
use vstd::utf8::is_scalar;
use vstd::utf8::encode_utf8_decode_utf8;
use vstd::utf8::encode_utf8_valid_utf8;
use vstd::utf8::valid_utf8;

verus! {

/// An owned, nul-terminated byte buffer.
///
/// The backend borrows pointers into such buffers without copying, so a
/// `CBuf` is kept alive, unmoved and unmodified, by whichever value owns
/// it. Its view is the content: the bytes before the terminator, none of
/// which is nul.
pub struct CBuf {
    bytes: Vec<u8>,
}

impl View for CBuf {
    type V = Seq<u8>;

    /// The content of the buffer: its bytes before the nul terminator.
    closed spec fn view(&self) -> Seq<u8> {
        self.bytes@.take(self.bytes@.len() - 1)
    }
}

impl CBuf {
    /// Well-formed: at least the terminator, which is the only nul byte.
    pub closed spec fn wf(&self) -> bool {
        &&& self.bytes@.len() >= 1
        &&& self.bytes@[self.bytes@.len() - 1] == 0
        &&& forall|i: int| 0 <= i < self.bytes@.len() - 1 ==> self.bytes@[i] != 0
    }

    /// Builds a buffer owning `bytes` plus a nul terminator.
    ///
    /// Fails with `Fault::NullPtr` exactly when `bytes` already holds a nul
    /// byte, which no nul-terminated buffer can carry as content.
    pub fn from_bytes(bytes: Vec<u8>) -> (r: Result<CBuf, Fault>)
        ensures
            r is Ok <==> !bytes@.contains(0u8),
            r matches Ok(c) ==> c.wf() && c@ == bytes@,
            r matches Err(f) ==> f is NullPtr,
    {
        let n = bytes.len();
        let mut i: usize = 0;
        while i < n
            invariant
                n == bytes@.len(),
                i <= n,
                forall|j: int| 0 <= j < i ==> bytes@[j] != 0,
            decreases n - i,
        {
            if bytes[i] == 0 {
                return Err(Fault::NullPtr);
            }
            i += 1;
        }
        let mut owned = bytes;
        owned.push(0);
        let c = CBuf { bytes: owned };
        proof {
            assert(!bytes@.contains(0u8));
            assert(c@ =~= bytes@);
        }
        Ok(c)
    }

    /// Builds a buffer owning the bytes of `s` plus a nul terminator.
    ///
    /// Fails with `Fault::NullPtr` exactly when the bytes of `s` hold an
    /// embedded nul; otherwise the content is the bytes of `s`, unchanged.
    pub fn new(s: &str) -> (r: Result<CBuf, Fault>)
        ensures
            r is Ok <==> !s.spec_bytes().contains(0u8),
            r is Ok <==> !s@.contains('\0'),
            r matches Ok(c) ==> c.wf() && c@ == s.spec_bytes(),
            r matches Err(f) ==> f is NullPtr,
    {
        proof {
            lemma_nul_byte_iff_nul_char(s@);
            assert(s.spec_bytes() == encode_utf8(s@));
        }
        CBuf::from_bytes(s.as_bytes_vec())
    }

    /// All owned bytes, the nul terminator last: what a backend call that
    /// expects a borrowed C string reads.
    pub fn as_bytes_with_nul(&self) -> (r: &[u8])
        requires
            self.wf(),
        ensures
            r@ == self@.push(0u8),
            r@.len() == self@.len() + 1,
    {
        proof {
            assert(self.bytes@ =~= self@.push(0u8));
        }
        self.bytes.as_slice()
    }
}

/// Whether the bytes of `s` hold a nul: such a string cannot become the
/// content of a nul-terminated buffer.
pub fn str_has_nul(s: &str) -> (b: bool)
    ensures
        b == s.spec_bytes().contains(0u8),
        b == s@.contains('\0'),
{
    let bytes = s.as_bytes();
    let n = bytes.len();
    let mut i: usize = 0;
    while i < n
        invariant
            n == bytes@.len(),
            i <= n,
            bytes@ == s.spec_bytes(),
            forall|j: int| 0 <= j < i ==> bytes@[j] != 0,
        decreases n - i,
    {
        if *slice_index_get(bytes, i) == 0 {
            proof {
                lemma_nul_byte_iff_nul_char(s@);
            }
            return true;
        }
        i += 1;
    }
    proof {
        lemma_nul_byte_iff_nul_char(s@);
    }
    false
}

/// The encoding of one scalar holds the nul byte exactly when the scalar
/// is nul itself.
proof fn lemma_encode_scalar_nul(c: u32)
    requires
        is_scalar(c),
    ensures
        encode_scalar(c).contains(0u8) <==> c == 0,
{
    if has_width_1_encoding(c) {
        assert(c <= 0x7F ==> ((((c & 0x7F) as u8) == 0) <==> c == 0)) by (bit_vector);
        if c == 0 {
            assert(encode_scalar(c)[0] == 0);
        }
    } else if has_width_2_encoding(c) {
        assert((0xC0 | (((c >> 6) & 0x1F) as u8)) != 0) by (bit_vector);
        assert((0x80 | ((c & 0x3F) as u8)) != 0) by (bit_vector);
    } else if has_width_3_encoding(c) {
        assert((0xE0 | (((c >> 12) & 0x0F) as u8)) != 0) by (bit_vector);
        assert((0x80 | (((c >> 6) & 0x3F) as u8)) != 0) by (bit_vector);
        assert((0x80 | ((c & 0x3F) as u8)) != 0) by (bit_vector);
    } else {
        assert((0xF0 | (((c >> 18) & 0x7) as u8)) != 0) by (bit_vector);
        assert((0x80 | (((c >> 12) & 0x3F) as u8)) != 0) by (bit_vector);
        assert((0x80 | (((c >> 6) & 0x3F) as u8)) != 0) by (bit_vector);
        assert((0x80 | ((c & 0x3F) as u8)) != 0) by (bit_vector);
    }
}

/// The encoding of a character sequence holds an embedded nul byte exactly
/// when the sequence holds the nul character: checking the bytes of a
/// string for nul is checking its characters.
pub proof fn lemma_nul_byte_iff_nul_char(s: Seq<char>)
    ensures
        encode_utf8(s).contains(0u8) <==> s.contains('\0'),
    decreases s.len(),
{
    broadcast use vstd::seq_lib::lemma_seq_concat_contains_all_elements;

    if s.len() == 0 {
    } else {
        let c = s[0] as u32;
        char_is_scalar(s[0]);
        char_u32_cast(s[0], c);
        lemma_encode_scalar_nul(c);
        lemma_nul_byte_iff_nul_char(s.drop_first());
        assert(encode_utf8(s) == encode_scalar(c) + encode_utf8(s.drop_first()));
        assert(c == 0 <==> s[0] == '\0') by {
            if c == 0 {
                assert(s[0] == (0u32 as char));
            }
        }
        assert(s.contains('\0') <==> (s[0] == '\0' || s.drop_first().contains('\0'))) by {
            if s[0] == '\0' {
                assert(s.contains('\0'));
            }
            if s.drop_first().contains('\0') {
                let j = choose|j: int| 0 <= j < s.drop_first().len() && s.drop_first()[j] == '\0';
                assert(s[j + 1] == '\0');
            }
            if s.contains('\0') {
                let i = choose|i: int| 0 <= i < s.len() && s[i] == '\0';
                if i > 0 {
                    assert(s.drop_first()[i - 1] == '\0');
                }
            }
        }
    }
}

/// A buffer whose content is the encoding of a character sequence decodes
/// back to exactly those characters: the buffer preserves its string.
pub proof fn lemma_content_decodes_back(s: Seq<char>, bytes: Seq<u8>)
    requires
        bytes == encode_utf8(s),
    ensures
        valid_utf8(bytes),
        decode_utf8(bytes) == s,
{
    encode_utf8_valid_utf8(s);
    encode_utf8_decode_utf8(s);
}

} // verus!
