use vstd::prelude::*;
use memchr::memmem::{Finder, FinderBuilder};
use sliceslice::MemchrSearcher;
use crate::bytes::Bytes;

verus! {

#[verifier::external_type_specification]
#[verifier::external_body]
pub struct ExFinder<'n>(Finder<'n>);

#[verifier::external_type_specification]
#[verifier::external_body]
pub struct ExMemchrSearcher(MemchrSearcher);

/// `p` occurs in `h` starting at index `i`.
pub open spec fn occurs_at(h: Seq<u8>, p: Seq<u8>, i: int) -> bool {
    &&& 0 <= i
    &&& i + p.len() <= h.len()
    &&& h.subrange(i, i + p.len()) == p
}

/// `p` occurs in `h` as a contiguous run of bytes.
pub open spec fn contains_subslice(h: Seq<u8>, p: Seq<u8>) -> bool {
    exists|i: int| occurs_at(h, p, i)
}

/// The needle that a memmem finder was built for.
pub uninterp spec fn memmem_needle(f: Finder<'static>) -> Seq<u8>;

/// The byte that a single-byte searcher looks for.
pub uninterp spec fn memchr_needle(s: MemchrSearcher) -> u8;

/// Relies on `memchr::memmem::FinderBuilder::build_forward_owned`: the finder
/// keeps the needle that it is given.
#[verifier::external_body]
fn build_finder(needle: Box<[u8]>) -> (r: Finder<'static>)
    ensures
        memmem_needle(r) == needle@,
{
    FinderBuilder::new().build_forward_owned(needle)
}

/// Relies on `memchr::memmem::Finder::find`: the index of the first
/// occurrence of the finder's needle in the haystack, if any.
#[verifier::external_body]
fn finder_find(f: &Finder<'static>, haystack: &[u8]) -> (r: Option<usize>)
    ensures
        match r {
            Some(i) => occurs_at(haystack@, memmem_needle(*f), i as int) && forall|j: int|
                0 <= j < i ==> !occurs_at(haystack@, memmem_needle(*f), j),
            None => !contains_subslice(haystack@, memmem_needle(*f)),
        },
{
    f.find(haystack)
}

/// Relies on `sliceslice::MemchrSearcher::new`: the searcher keeps its byte.
pub assume_specification[ MemchrSearcher::new ](needle: u8) -> (r: MemchrSearcher)
    ensures
        memchr_needle(r) == needle,
;

/// Relies on `sliceslice::MemchrSearcher::search_in`: whether the byte occurs
/// in the haystack (never in an empty one).
pub assume_specification[ MemchrSearcher::search_in ](
    s: &MemchrSearcher,
    haystack: &[u8],
) -> (r: bool)
    ensures
        r == contains_subslice(haystack@, seq![memchr_needle(*s)]),
;

/// Every haystack contains the empty needle, at its start.
pub proof fn lemma_empty_needle_always_found(h: Seq<u8>)
    ensures
        contains_subslice(h, Seq::empty()),
{
    assert(h.subrange(0, 0) =~= Seq::<u8>::empty());
    assert(occurs_at(h, Seq::empty(), 0));
}

/// The strategy for an empty pattern: every value matches.
pub struct EmptySearcher;

impl EmptySearcher {
    /// Whether the empty pattern occurs in `value`: always.
    pub fn compare(&self, value: &Bytes) -> (r: bool)
        ensures
            r == contains_subslice(value@, Seq::empty()),
            r,
    {
        proof {
            lemma_empty_needle_always_found(value@);
        }
        true
    }
}

/// The general-purpose substring search strategy, linear in the haystack.
pub struct MemmemSearcher(Finder<'static>);

impl MemmemSearcher {
    /// The pattern searched for.
    pub closed spec fn needle(&self) -> Seq<u8> {
        memmem_needle(self.0)
    }

    /// Builds the searcher for `needle`.
    pub fn new(needle: Box<[u8]>) -> (r: Self)
        ensures
            r.needle() == needle@,
    {
        MemmemSearcher(build_finder(needle))
    }

    /// Whether the needle occurs in `value`.
    pub fn compare(&self, value: &Bytes) -> (r: bool)
        ensures
            r == contains_subslice(value@, self.needle()),
    {
        finder_find(&self.0, value.as_slice()).is_some()
    }
}

/// The strategy chosen for one compiled substring predicate, fixed once the
/// predicate is built.
pub enum Searcher {
    /// Empty needle: always true.
    Empty(EmptySearcher),
    /// Needle of one byte: a vectorised byte scan.
    Byte(MemchrSearcher),
    /// Longer needle: general substring search.
    Memmem(MemmemSearcher),
}

impl Searcher {
    /// The pattern searched for.
    pub open spec fn needle(&self) -> Seq<u8> {
        match self {
            Searcher::Empty(_) => Seq::empty(),
            Searcher::Byte(s) => seq![memchr_needle(*s)],
            Searcher::Memmem(m) => m.needle(),
        }
    }

    /// Picks the strategy for `needle` from its length: none for an empty
    /// needle, a byte scan for one byte, a substring search otherwise.
    pub fn new(needle: Box<[u8]>) -> (r: Self)
        ensures
            r.needle() == needle@,
            r is Empty <==> needle@.len() == 0,
            r is Byte <==> needle@.len() == 1,
            r is Memmem <==> needle@.len() > 1,
    {
        if needle.len() == 0 {
            Searcher::Empty(EmptySearcher)
        } else if needle.len() == 1 {
            let s = MemchrSearcher::new(needle[0]);
            proof {
                assert(seq![needle@[0]] == needle@);
            }
            Searcher::Byte(s)
        } else {
            Searcher::Memmem(MemmemSearcher::new(needle))
        }
    }

    /// Whether the needle occurs in `value`; the same answer for every
    /// strategy.
    pub fn compare(&self, value: &Bytes) -> (r: bool)
        ensures
            r == contains_subslice(value@, self.needle()),
    {
        match self {
            Searcher::Empty(s) => s.compare(value),
            Searcher::Byte(s) => s.search_in(value.as_slice()),
            Searcher::Memmem(m) => m.compare(value),
        }
    }
}

} // verus!
