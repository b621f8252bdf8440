//! The description of a metric: its identifier, its name and its units.
use super::Units;
use vstd::prelude::*;
use vstd::string::StringSliceAdditionalSpecFns;
use vstd::utf8::{is_char_boundary, length_of_first_scalar, pop_first_scalar, valid_utf8};

verus! {

broadcast use vstd::string::is_ascii_spec_bytes;

/// Whether `bytes` end in a nul byte and hold no other: the shape of a C
/// string.
pub open spec fn spec_nul_terminated(bytes: Seq<u8>) -> bool {
    &&& bytes.len() > 0
    &&& bytes.last() == 0
    &&& forall|i: int| 0 <= i < bytes.len() - 1 ==> #[trigger] bytes[i] != 0
}

/// The description of a metric.
#[derive(Copy, Clone, Debug)]
#[non_exhaustive]
pub struct Info {
    pub id: usize,
    pub name: Str,
    pub units: Units,
}

/// The fields of an `Info`, before it is built.
pub struct Builder {
    pub id: usize,
    pub name: Str,
    pub units: Units,
}

impl Builder {
    pub fn build(self) -> (r: Info)
        ensures
            r.id == self.id,
            r.name == self.name,
            r.units == self.units,
    {
        Info { id: self.id, name: self.name, units: self.units }
    }
}

/// The description of one variant of a nominal metric.
#[derive(Copy, Clone, Debug)]
#[non_exhaustive]
pub struct Variant {
    pub id: usize,
    pub name: Str,
}

pub mod variant;

/// A string that is also a C string: it ends in a nul byte and holds no
/// other. Read as a `str`, it is the text before the nul byte.
#[derive(Copy, Clone, Debug)]
pub struct Str {
    raw: &'static str,
    text: &'static str,
}

impl Str {
    #[verifier::type_invariant]
    closed spec fn inv(self) -> bool {
        &&& spec_nul_terminated(self.raw.spec_bytes())
        &&& self.text.spec_bytes() == self.raw.spec_bytes().drop_last()
    }

    /// The bytes of the string, its nul terminator included.
    pub closed spec fn spec_raw(self) -> Seq<u8> {
        self.raw.spec_bytes()
    }

    /// Creates a new `Str` value. The provided string must end in a nul
    /// byte and hold no other.
    pub fn new(value: &'static str) -> (r: Str)
        requires
            spec_nul_terminated(value.spec_bytes()),
        ensures
            r.spec_raw() == value.spec_bytes(),
    {
        let len: usize = value.as_bytes().len();
        proof {
            vstd::utf8::encode_utf8_valid_utf8(value@);
            lemma_boundary_before_ascii_end(value.spec_bytes());
        }
        let (text, _nul) = value.split_at(len - 1);
        Str { raw: value, text }
    }

    /// The text before the nul byte.
    pub fn as_str(&self) -> (r: &'static str)
        ensures
            r.spec_bytes() == self.spec_raw().drop_last(),
    {
        proof {
            use_type_invariant(self);
        }
        self.text
    }
}

impl core::ops::Deref for Str {
    type Target = str;

    fn deref(&self) -> (r: &str)
        ensures
            r.spec_bytes() == self.spec_raw().drop_last(),
    {
        self.as_str()
    }
}

impl AsRef<str> for Str {
    fn as_ref(&self) -> (r: &str)
        ensures
            r.spec_bytes() == self.spec_raw().drop_last(),
    {
        self.as_str()
    }
}

/// In valid UTF-8 that ends in an ASCII byte, a character starts at that
/// last byte.
proof fn lemma_boundary_before_ascii_end(bytes: Seq<u8>)
    requires
        valid_utf8(bytes),
        bytes.len() > 0,
        bytes.last() <= 0x7f,
    ensures
        is_char_boundary(bytes, bytes.len() - 1),
    decreases bytes.len(),
{
    if bytes.len() - 1 != 0 {
        let n = length_of_first_scalar(bytes);
        let tail = pop_first_scalar(bytes);
        assert(n < bytes.len());
        assert(tail.len() == bytes.len() - n);
        assert(tail.last() == bytes.last());
        lemma_boundary_before_ascii_end(tail);
    }
}

} // verus!
