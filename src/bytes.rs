use vstd::prelude::*;
use vstd::slice::slice_to_vec;
use vstd::std_specs::cmp::PartialEqSpec;
use vstd::utf8::{encode_utf8, valid_utf8};
use vstd::string::StringSliceAdditionalSpecFns;

verus! {

/// A byte string, either borrowed from a longer-lived buffer or owned.
#[derive(Debug)]
pub enum Bytes<'a> {
    /// Borrowed byte string.
    Borrowed(&'a [u8]),
    /// Owned byte string.
    Owned(Box<[u8]>),
}

impl<'a> View for Bytes<'a> {
    type V = Seq<u8>;

    /// The content of the byte string, whichever way it is held.
    open spec fn view(&self) -> Seq<u8> {
        match self {
            Bytes::Borrowed(b) => b@,
            Bytes::Owned(b) => b@,
        }
    }
}

/// Relies on `Vec::into_boxed_slice`: the boxed slice holds the same elements.
#[verifier::external_body]
fn boxed_bytes(v: Vec<u8>) -> (r: Box<[u8]>)
    ensures
        r@ == v@,
{
    v.into_boxed_slice()
}

/// Relies on `<[u8] as Hash>::hash`: feeds the slice into the hasher; nothing
/// is claimed of the hasher's state.
#[verifier::external_body]
fn hash_slice<H: std::hash::Hasher>(b: &[u8], state: &mut H) {
    std::hash::Hash::hash(b, state)
}

/// Relies on `std::str::from_utf8`: it succeeds exactly on valid UTF-8 and
/// then views the very same bytes as text.
#[verifier::external_body]
fn utf8_text(b: &[u8]) -> (r: Option<&str>)
    ensures
        r.is_some() == valid_utf8(b@),
        r matches Some(s) ==> s.spec_bytes() == b@,
{
    std::str::from_utf8(b).ok()
}

impl<'a> Bytes<'a> {
    /// The bytes as a slice.
    pub fn as_slice(&self) -> (r: &[u8])
        ensures
            r@ == self@,
    {
        match self {
            Bytes::Borrowed(b) => b,
            Bytes::Owned(b) => b,
        }
    }

    /// Number of bytes.
    pub fn len(&self) -> (r: usize)
        ensures
            r == self@.len(),
    {
        self.as_slice().len()
    }

    /// Whether the byte string holds no byte.
    pub fn is_empty(&self) -> (r: bool)
        ensures
            r == (self@.len() == 0),
    {
        self.len() == 0
    }

    /// Whether the bytes are held by this value rather than borrowed.
    pub fn is_owned(&self) -> (r: bool)
        ensures
            r == self is Owned,
    {
        match self {
            Bytes::Borrowed(_) => false,
            Bytes::Owned(_) => true,
        }
    }

    /// Clones self into a fully owned byte string.
    pub fn to_owned(&self) -> (r: Bytes<'static>)
        ensures
            r is Owned,
            r@ == self@,
    {
        Bytes::Owned(boxed_bytes(slice_to_vec(self.as_slice())))
    }

    /// Converts self into a fully owned byte string; an owned buffer is handed
    /// over without copying.
    pub fn into_owned(self) -> (r: Box<[u8]>)
        ensures
            r@ == self@,
            self matches Bytes::Owned(b) ==> r == b,
    {
        match self {
            Bytes::Borrowed(b) => boxed_bytes(slice_to_vec(b)),
            Bytes::Owned(b) => b,
        }
    }

    /// Converts self into an owned byte string if necessary and returns a
    /// mutable reference to the bytes. An owned value is not copied again.
    pub fn to_mut(&mut self) -> (r: &mut [u8])
        ensures
            r@ == old(self)@,
            *final(self) is Owned,
            final(self)@ == final(r)@,
    {
        if let Bytes::Borrowed(b) = self {
            *self = Bytes::Owned(boxed_bytes(slice_to_vec(b)));
        }
        match self {
            Bytes::Owned(b) => b,
            Bytes::Borrowed(_) => {
                proof {
                    assert(false);
                }
                &mut []
            },
        }
    }

    /// Shortens the byte string, keeping only the first `len` bytes. A
    /// borrowed value stays borrowed: its view is narrowed.
    pub fn truncate(&mut self, len: usize)
        requires
            len <= old(self)@.len(),
        ensures
            final(self)@ == old(self)@.subrange(0, len as int),
            (*final(self) is Borrowed) == (*old(self) is Borrowed),
    {
        match self {
            Bytes::Borrowed(slice) => {
                *slice = &slice[0..len];
            },
            Bytes::Owned(data) => {
                let mut taken = boxed_bytes(Vec::new());
                std::mem::swap(data, &mut taken);
                let mut vec = taken.into_vec();
                vec.truncate(len);
                *data = boxed_bytes(vec);
            },
        }
    }
}

/// How a byte string goes on the wire: as text where its bytes are valid
/// UTF-8, else as a raw byte sequence.
pub enum WireForm<'a> {
    /// The bytes read as text.
    Text(&'a str),
    /// The bytes themselves.
    Raw(&'a [u8]),
}

impl<'a> WireForm<'a> {
    /// The bytes that this wire form carries.
    pub open spec fn carried(&self) -> Seq<u8> {
        match self {
            WireForm::Text(s) => s.spec_bytes(),
            WireForm::Raw(b) => b@,
        }
    }

    /// Whether this is the form chosen for the content `b`: text exactly
    /// when `b` is valid UTF-8, carrying `b` either way.
    pub open spec fn is_form_of(&self, b: Seq<u8>) -> bool {
        &&& self.carried() == b
        &&& (self is Text <==> valid_utf8(b))
    }
}

/// Decoding the wire form chosen for any content gives that content back,
/// valid UTF-8 or not.
pub proof fn lemma_wire_round_trip(b: Seq<u8>, w: WireForm)
    requires
        w.is_form_of(b),
    ensures
        w.carried() == b,
        w is Text ==> valid_utf8(b),
{
}

/// Whether two slices hold the same bytes.
fn same_bytes(a: &[u8], b: &[u8]) -> (r: bool)
    ensures
        r == (a@ == b@),
{
    if a.len() != b.len() {
        return false;
    }
    let mut i: usize = 0;
    while i < a.len()
        invariant
            a@.len() == b@.len(),
            i <= a@.len(),
            a@.subrange(0, i as int) == b@.subrange(0, i as int),
        decreases a@.len() - i,
    {
        if a[i] != b[i] {
            return false;
        }
        assert(a@.subrange(0, i + 1) == a@.subrange(0, i as int).push(a@[i as int]));
        assert(b@.subrange(0, i + 1) == b@.subrange(0, i as int).push(b@[i as int]));
        i = i + 1;
    }
    assert(a@ == a@.subrange(0, a@.len() as int));
    assert(b@ == b@.subrange(0, b@.len() as int));
    true
}

impl<'a> PartialEq for Bytes<'a> {
    /// Content equality, whether each side is borrowed or owned.
    fn eq(&self, other: &Bytes<'a>) -> (r: bool) {
        same_bytes(self.as_slice(), other.as_slice())
    }
}

impl<'a> vstd::std_specs::cmp::PartialEqSpecImpl for Bytes<'a> {
    open spec fn obeys_eq_spec() -> bool {
        true
    }

    open spec fn eq_spec(&self, other: &Bytes<'a>) -> bool {
        self@ == other@
    }
}

impl<'a> Clone for Bytes<'a> {
    /// A borrowed value is cloned as a borrow, an owned one by copying.
    fn clone(&self) -> (r: Bytes<'a>)
        ensures
            r@ == self@,
            (r is Owned) == (self is Owned),
    {
        match self {
            Bytes::Borrowed(b) => Bytes::Borrowed(b),
            Bytes::Owned(b) => Bytes::Owned(boxed_bytes(slice_to_vec(b))),
        }
    }
}

impl<'a> std::ops::Deref for Bytes<'a> {
    type Target = [u8];

    fn deref(&self) -> (r: &[u8])
        ensures
            r@ == self@,
    {
        self.as_slice()
    }
}

impl<'a> AsRef<[u8]> for Bytes<'a> {
    fn as_ref(&self) -> (r: &[u8])
        ensures
            r@ == self@,
    {
        self.as_slice()
    }
}

impl<'a> PartialEq<[u8]> for Bytes<'a> {
    /// Content equality against a plain slice.
    fn eq(&self, other: &[u8]) -> (r: bool) {
        same_bytes(self.as_slice(), other)
    }
}

impl<'a> vstd::std_specs::cmp::PartialEqSpecImpl<[u8]> for Bytes<'a> {
    open spec fn obeys_eq_spec() -> bool {
        true
    }

    open spec fn eq_spec(&self, other: &[u8]) -> bool {
        self@ == other@
    }
}

impl<'a> Eq for Bytes<'a> {
}

impl<'a> std::hash::Hash for Bytes<'a> {
    /// Hashes the content only, so that equal values hash alike.
    fn hash<H: std::hash::Hasher>(&self, state: &mut H) {
        hash_slice(self.as_slice(), state)
    }
}

/// Two byte strings are equal exactly when their bytes are, however each
/// was built.
pub proof fn lemma_eq_is_content_eq(a: Bytes, b: Bytes)
    ensures
        a.eq_spec(&b) <==> a@ == b@,
{
}

impl<'a> Bytes<'a> {
    /// Picks the wire form: text where the bytes are valid UTF-8, else raw.
    pub fn wire_form(&self) -> (r: WireForm<'_>)
        ensures
            r.is_form_of(self@),
    {
        let b = self.as_slice();
        match utf8_text(b) {
            Some(s) => WireForm::Text(s),
            None => WireForm::Raw(b),
        }
    }

    /// Rebuilds a byte string from a wire form: text becomes its UTF-8
    /// bytes, borrowed from the source; raw bytes are borrowed as they are.
    pub fn from_wire(w: WireForm<'a>) -> (r: Bytes<'a>)
        ensures
            r@ == w.carried(),
            r is Borrowed,
    {
        match w {
            WireForm::Text(s) => Bytes::Borrowed(s.as_bytes()),
            WireForm::Raw(b) => Bytes::Borrowed(b),
        }
    }
}

impl<'a> From<&'a [u8]> for Bytes<'a> {
    fn from(value: &'a [u8]) -> (r: Bytes<'a>) {
        Bytes::Borrowed(value)
    }
}

impl<'a> vstd::std_specs::convert::FromSpecImpl<&'a [u8]> for Bytes<'a> {
    open spec fn obeys_from_spec() -> bool {
        true
    }

    open spec fn from_spec(value: &'a [u8]) -> Bytes<'a> {
        Bytes::Borrowed(value)
    }
}

impl From<Box<[u8]>> for Bytes<'static> {
    fn from(value: Box<[u8]>) -> (r: Bytes<'static>) {
        Bytes::Owned(value)
    }
}

impl vstd::std_specs::convert::FromSpecImpl<Box<[u8]>> for Bytes<'static> {
    open spec fn obeys_from_spec() -> bool {
        true
    }

    open spec fn from_spec(value: Box<[u8]>) -> Bytes<'static> {
        Bytes::Owned(value)
    }
}

impl<'a> Bytes<'a> {
    /// Takes ownership of the bytes of `value`.
    pub fn from_vec(value: Vec<u8>) -> (r: Bytes<'static>)
        ensures
            r is Owned,
            r@ == value@,
    {
        Bytes::Owned(boxed_bytes(value))
    }

    /// Borrows the UTF-8 bytes of `value`.
    pub fn from_text(value: &'a str) -> (r: Bytes<'a>)
        ensures
            r is Borrowed,
            r@ == value.spec_bytes(),
    {
        Bytes::Borrowed(value.as_bytes())
    }

    /// An owned copy of the UTF-8 bytes of `value`.
    pub fn from_string(value: &String) -> (r: Bytes<'static>)
        ensures
            r is Owned,
            r@ == encode_utf8(value@),
    {
        Bytes::from_vec(slice_to_vec(value.as_str().as_bytes()))
    }
}

} // verus!
