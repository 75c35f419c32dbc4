//! Field elements of the Goldilocks field and four-element words.

use vstd::prelude::*;

verus! {

/// The order of the Goldilocks field, `2^64 - 2^32 + 1`.
pub const FELT_MODULUS: u64 = 0xffff_ffff_0000_0001;

/// An element of the Goldilocks field, kept in canonical form (`0 <= value < FELT_MODULUS`).
#[derive(Clone, Copy, Debug, PartialEq, Eq, PartialOrd, Ord, Hash)]
pub struct Felt {
    value: u64,
}

impl View for Felt {
    type V = u64;

    /// The canonical integer that the element stands for.
    closed spec fn view(&self) -> u64 {
        self.value
    }
}

impl Felt {
    #[verifier::type_invariant]
    spec fn canonical(self) -> bool {
        self.value < FELT_MODULUS
    }

    /// Builds the element that stands for `value`, reduced modulo the field order.
    pub fn new(value: u64) -> (f: Felt)
        ensures
            f@ == value % FELT_MODULUS,
    {
        if value < FELT_MODULUS {
            Felt { value }
        } else {
            Felt { value: value - FELT_MODULUS }
        }
    }

    /// Builds the element whose canonical form is `value`.
    pub fn from_canonical(value: u64) -> (f: Felt)
        requires
            value < FELT_MODULUS,
        ensures
            f@ == value,
    {
        Felt { value }
    }

    /// Builds the element that stands for a `u32`.
    pub fn from_u32(value: u32) -> (f: Felt)
        ensures
            f@ == value as u64,
    {
        Felt { value: value as u64 }
    }

    /// The canonical integer of this element.
    pub fn as_canonical_u64(&self) -> (r: u64)
        ensures
            r == self@,
            r < FELT_MODULUS,
    {
        proof {
            use_type_invariant(self);
        }
        self.value
    }

    /// Whether two elements are the same field element.
    pub fn same_as(&self, other: &Felt) -> (r: bool)
        ensures
            r == (self@ == other@),
    {
        self.value == other.value
    }
}

impl From<u32> for Felt {
    fn from(value: u32) -> (f: Felt)
        ensures
            f@ == value as u64,
    {
        Felt::from_u32(value)
    }
}

impl vstd::std_specs::convert::FromSpecImpl<u32> for Felt {
    open spec fn obeys_from_spec() -> bool {
        true
    }

    closed spec fn from_spec(v: u32) -> Felt {
        Felt { value: v as u64 }
    }
}

/// A sequence of four field elements.
#[derive(Clone, Copy, Debug, PartialEq, Eq, PartialOrd, Ord, Hash)]
pub struct Word {
    elements: [Felt; 4],
}

impl View for Word {
    type V = Seq<u64>;

    /// The canonical integers of the four elements, in order.
    closed spec fn view(&self) -> Seq<u64> {
        Seq::new(4, |i: int| self.elements@[i]@)
    }
}

/// The view of the word whose elements are the given `u32` values.
pub open spec fn word_of_u32s(a: u32, b: u32, c: u32, d: u32) -> Seq<u64> {
    seq![a as u64, b as u64, c as u64, d as u64]
}

/// The view of the word whose elements are the given field elements.
pub open spec fn word_of_felts(a: Felt, b: Felt, c: Felt, d: Felt) -> Seq<u64> {
    seq![a@, b@, c@, d@]
}

impl Word {
    /// The word made of the four given elements.
    pub fn new(elements: [Felt; 4]) -> (w: Word)
        ensures
            w@ == word_of_felts(elements@[0], elements@[1], elements@[2], elements@[3]),
    {
        let w = Word { elements };
        assert(w@ =~= word_of_felts(elements@[0], elements@[1], elements@[2], elements@[3]));
        w
    }

    /// The word whose elements stand for the four given `u32` values.
    pub fn from_u32s(values: [u32; 4]) -> (w: Word)
        ensures
            w@ == word_of_u32s(values@[0], values@[1], values@[2], values@[3]),
    {
        let w = Word {
            elements: [
                Felt::from_u32(values[0]),
                Felt::from_u32(values[1]),
                Felt::from_u32(values[2]),
                Felt::from_u32(values[3]),
            ],
        };
        assert(w@ =~= word_of_u32s(values@[0], values@[1], values@[2], values@[3]));
        w
    }

    /// The word of four zero elements.
    pub fn empty() -> (w: Word)
        ensures
            w@ == word_of_u32s(0, 0, 0, 0),
    {
        Word::from_u32s([0, 0, 0, 0])
    }

    /// The element at position `index`.
    pub fn get(&self, index: usize) -> (f: Felt)
        requires
            index < 4,
        ensures
            f@ == self@[index as int],
    {
        self.elements[index]
    }

    /// The four elements of the word.
    pub fn as_elements(&self) -> (r: [Felt; 4])
        ensures
            forall|i: int| 0 <= i < 4 ==> #[trigger] r@[i]@ == self@[i],
    {
        self.elements
    }

    /// Whether two words hold the same field elements.
    pub fn same_as(&self, other: &Word) -> (r: bool)
        ensures
            r == (self@ == other@),
    {
        let e0 = self.elements[0].same_as(&other.elements[0]);
        let e1 = self.elements[1].same_as(&other.elements[1]);
        let e2 = self.elements[2].same_as(&other.elements[2]);
        let e3 = self.elements[3].same_as(&other.elements[3]);
        proof {
            if e0 && e1 && e2 && e3 {
                assert(self@ =~= other@);
            } else if !e0 {
                assert(self@[0] != other@[0]);
            } else if !e1 {
                assert(self@[1] != other@[1]);
            } else if !e2 {
                assert(self@[2] != other@[2]);
            } else {
                assert(self@[3] != other@[3]);
            }
        }
        e0 && e1 && e2 && e3
    }

    /// Every word view has four elements.
    pub proof fn lemma_len(w: Word)
        ensures
            w@.len() == 4,
    {
    }
}

impl From<[u32; 4]> for Word {
    fn from(values: [u32; 4]) -> (w: Word)
        ensures
            w@ == word_of_u32s(values@[0], values@[1], values@[2], values@[3]),
    {
        Word {
            elements: [
                Felt { value: values[0] as u64 },
                Felt { value: values[1] as u64 },
                Felt { value: values[2] as u64 },
                Felt { value: values[3] as u64 },
            ],
        }
    }
}

impl vstd::std_specs::convert::FromSpecImpl<[u32; 4]> for Word {
    open spec fn obeys_from_spec() -> bool {
        true
    }

    closed spec fn from_spec(v: [u32; 4]) -> Word {
        Word {
            elements: [
                Felt { value: v@[0] as u64 },
                Felt { value: v@[1] as u64 },
                Felt { value: v@[2] as u64 },
                Felt { value: v@[3] as u64 },
            ],
        }
    }
}

impl From<[Felt; 4]> for Word {
    fn from(elements: [Felt; 4]) -> (w: Word)
        ensures
            w@ == word_of_felts(elements@[0], elements@[1], elements@[2], elements@[3]),
    {
        let w = Word { elements };
        assert(w@ =~= word_of_felts(elements@[0], elements@[1], elements@[2], elements@[3]));
        w
    }
}

impl vstd::std_specs::convert::FromSpecImpl<[Felt; 4]> for Word {
    open spec fn obeys_from_spec() -> bool {
        true
    }

    closed spec fn from_spec(v: [Felt; 4]) -> Word {
        Word { elements: v }
    }
}

} // verus!
