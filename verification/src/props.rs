//! Property capsules: a properties value that crosses the boundary between a
//! parent and a child component together with the tag of the component type
//! it is meant for.

use vstd::prelude::*;

verus! {

/// What a capsule carries: the tag of a component type and the bytes of a
/// properties value of that component.
pub struct Capsule {
    pub tag: u64,
    pub payload: Seq<u8>,
}

/// The capsule that packing `payload` for the component type `tag` gives.
pub open spec fn packed(tag: u64, payload: Seq<u8>) -> Capsule {
    Capsule { tag, payload }
}

/// What unpacking `capsule` for the component type `expected` gives: the
/// payload where the tags agree, nothing where they do not.
pub open spec fn unpacked(capsule: Capsule, expected: u64) -> Option<Seq<u8>> {
    if capsule.tag == expected {
        Some(capsule.payload)
    } else {
        None
    }
}

/// A properties value with its type erased. It is unpacked by value, so it
/// can be unpacked once only.
#[derive(Debug)]
pub struct AnyProps {
    tag: u64,
    payload: Vec<u8>,
}

impl View for AnyProps {
    type V = Capsule;

    closed spec fn view(&self) -> Capsule {
        Capsule { tag: self.tag, payload: self.payload@ }
    }
}

impl AnyProps {
    /// Packs a properties value for the component type `tag`.
    pub fn pack(tag: u64, payload: Vec<u8>) -> (capsule: AnyProps)
        ensures
            capsule@ == packed(tag, payload@),
    {
        AnyProps { tag, payload }
    }

    /// The tag of the component type that the capsule was packed for.
    pub fn tag(&self) -> (tag: u64)
        ensures
            tag == self@.tag,
    {
        self.tag
    }

    /// Whether the capsule was packed for the component type `expected`,
    /// that is, whether it can be unpacked for it.
    pub fn is_for(&self, expected: u64) -> (fits: bool)
        ensures
            fits == (unpacked(self@, expected) is Some),
    {
        self.tag == expected
    }

    /// Takes the properties value out of the capsule. Unpacking for another
    /// component type than the capsule was packed for is a programming error
    /// and is excluded.
    pub fn unpack(self, expected: u64) -> (payload: Vec<u8>)
        requires
            unpacked(self@, expected) is Some,
        ensures
            unpacked(self@, expected) == Some(payload@),
    {
        self.payload
    }
}

/// Unpacking what was packed gives the packed value back when the tags agree,
/// and gives nothing when they differ.
pub proof fn lemma_pack_then_unpack(tag: u64, payload: Seq<u8>, expected: u64)
    ensures
        unpacked(packed(tag, payload), tag) == Some(payload),
        expected != tag ==> unpacked(packed(tag, payload), expected) is None,
{
}

/// Decides whether two byte strings hold the same bytes.
pub fn bytes_equal(a: &Vec<u8>, b: &Vec<u8>) -> (same: bool)
    ensures
        same == (a@ == b@),
{
    if a.len() != b.len() {
        return false;
    }
    let mut i: usize = 0;
    while i < a.len()
        invariant
            i <= a.len(),
            a.len() == b.len(),
            forall|j: int| 0 <= j < i ==> a@[j] == b@[j],
        decreases a.len() - i,
    {
        if a[i] != b[i] {
            return false;
        }
        i = i + 1;
    }
    assert(a@ =~= b@);
    true
}

} // verus!
