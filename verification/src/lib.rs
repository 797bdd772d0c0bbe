//! Delimiters of an X12 EDI interchange.
//!
//! An interchange opens with a fixed-layout ISA segment. Three of its bytes
//! name the characters that end a segment, separate the elements of a segment
//! and separate the components of a composite element. [`Delimiters`] holds
//! such a triple and reads it from the raw bytes of an ISA segment.

use vstd::prelude::*;

pub mod errors;

use crate::errors::DelimiterError;

verus! {

/// Segment terminator of the conventional delimiter set: ASCII `~`.
pub const DEFAULT_SEGMENT_TERMINATOR: u8 = 0x7E;

/// Element separator of the conventional delimiter set: ASCII `*`.
pub const DEFAULT_ELEMENT_SEPARATOR: u8 = 0x2A;

/// Sub-element separator of the conventional delimiter set: ASCII `:`.
pub const DEFAULT_SUB_ELEMENT_SEPARATOR: u8 = 0x3A;

/// Number of leading bytes of an ISA segment that must be present.
pub const ISA_MIN_LENGTH: usize = 106;

/// Position of the element separator in an ISA segment.
pub const ISA_ELEMENT_SEPARATOR_INDEX: usize = 3;

/// Position of the sub-element separator in an ISA segment.
pub const ISA_SUB_ELEMENT_SEPARATOR_INDEX: usize = 104;

/// Position of the segment terminator in an ISA segment.
pub const ISA_SEGMENT_TERMINATOR_INDEX: usize = 105;

/// The mathematical value of a [`Delimiters`]: three character codes, each
/// named by its role.
pub ghost struct DelimitersView {
    pub segment_terminator: u8,
    pub element_separator: u8,
    pub sub_element_separator: u8,
}

impl DelimitersView {
    /// No character code serves two roles.
    pub open spec fn pairwise_distinct(self) -> bool {
        &&& self.segment_terminator != self.element_separator
        &&& self.segment_terminator != self.sub_element_separator
        &&& self.element_separator != self.sub_element_separator
    }

    /// The conventional triple: `~` ends a segment, `*` separates elements,
    /// `:` separates sub-elements.
    pub open spec fn conventional() -> DelimitersView {
        DelimitersView {
            segment_terminator: DEFAULT_SEGMENT_TERMINATOR,
            element_separator: DEFAULT_ELEMENT_SEPARATOR,
            sub_element_separator: DEFAULT_SUB_ELEMENT_SEPARATOR,
        }
    }
}

/// The three delimiters that govern the syntax of an X12 interchange.
///
/// Any three bytes can be held; [`Delimiters::are_valid`] tells whether they
/// can serve a tokenizer.
#[derive(Debug, PartialEq, Eq, Clone, Copy, Structural)]
pub struct Delimiters {
    segment_terminator: u8,
    element_separator: u8,
    sub_element_separator: u8,
}

impl View for Delimiters {
    type V = DelimitersView;

    closed spec fn view(&self) -> DelimitersView {
        DelimitersView {
            segment_terminator: self.segment_terminator,
            element_separator: self.element_separator,
            sub_element_separator: self.sub_element_separator,
        }
    }
}

impl Delimiters {
    /// Builds a delimiter set from the three given bytes, unchecked.
    pub fn new(segment_terminator: u8, element_separator: u8, sub_element_separator: u8) -> (delimiters: Self)
        ensures
            delimiters@ == (DelimitersView {
                segment_terminator,
                element_separator,
                sub_element_separator,
            }),
    {
        Delimiters { segment_terminator, element_separator, sub_element_separator }
    }

    /// Reads the delimiters out of the leading bytes of an ISA segment.
    ///
    /// The segment must reach the position of the segment terminator;
    /// otherwise nothing is read and `InvalidIsaLength` is returned. Only the
    /// three delimiter positions are looked at: what the bytes are, what the
    /// rest of the segment holds and what follows it make no difference.
    pub fn from_isa(isa_segment: &[u8]) -> (result: Result<Self, DelimiterError>)
        ensures
            result is Ok <==> isa_segment@.len() >= ISA_MIN_LENGTH,
            match result {
                Ok(delimiters) => delimiters@ == isa_delimiters(isa_segment@),
                Err(error) => error == DelimiterError::InvalidIsaLength,
            },
    {
        if isa_segment.len() < ISA_MIN_LENGTH {
            return Err(DelimiterError::InvalidIsaLength);
        }
        let element_separator = isa_segment[ISA_ELEMENT_SEPARATOR_INDEX];
        let sub_element_separator = isa_segment[ISA_SUB_ELEMENT_SEPARATOR_INDEX];
        let segment_terminator = isa_segment[ISA_SEGMENT_TERMINATOR_INDEX];

        Ok(Delimiters { element_separator, sub_element_separator, segment_terminator })
    }

    /// The byte that ends a segment.
    pub fn segment_terminator(&self) -> (code: u8)
        ensures
            code == self@.segment_terminator,
    {
        self.segment_terminator
    }

    /// The byte that separates the elements of a segment.
    pub fn element_separator(&self) -> (code: u8)
        ensures
            code == self@.element_separator,
    {
        self.element_separator
    }

    /// The byte that separates the components of a composite element.
    pub fn sub_element_separator(&self) -> (code: u8)
        ensures
            code == self@.sub_element_separator,
    {
        self.sub_element_separator
    }

    /// Tells whether the three delimiters differ from one another, as a
    /// tokenizer needs them to.
    pub fn are_valid(&self) -> (valid: bool)
        ensures
            valid <==> self@.pairwise_distinct(),
            self@.segment_terminator == self@.element_separator
                || self@.segment_terminator == self@.sub_element_separator
                || self@.element_separator == self@.sub_element_separator ==> !valid,
    {
        self.segment_terminator != self.element_separator
            && self.segment_terminator != self.sub_element_separator
            && self.element_separator != self.sub_element_separator
    }

    /// Two delimiter sets are equal exactly when they agree in all three
    /// roles; a difference in any single role makes them unequal.
    pub proof fn lemma_equality_is_structural(self, other: Delimiters)
        ensures
            self == other <==> {
                &&& self@.segment_terminator == other@.segment_terminator
                &&& self@.element_separator == other@.element_separator
                &&& self@.sub_element_separator == other@.sub_element_separator
            },
            self == other <==> self@ == other@,
            self@.segment_terminator != other@.segment_terminator ==> self != other,
            self@.element_separator != other@.element_separator ==> self != other,
            self@.sub_element_separator != other@.sub_element_separator ==> self != other,
    {
    }

    /// A set rebuilt from the three values read out of another set, each in
    /// its own role, is equal to that set.
    pub proof fn lemma_rebuilt_set_is_equal(self, rebuilt: Delimiters)
        requires
            rebuilt@ == (DelimitersView {
                segment_terminator: self@.segment_terminator,
                element_separator: self@.element_separator,
                sub_element_separator: self@.sub_element_separator,
            }),
        ensures
            rebuilt == self,
    {
    }
}

impl Default for Delimiters {
    /// The conventional delimiter set, which is always valid.
    fn default() -> (delimiters: Self)
        ensures
            delimiters@ == DelimitersView::conventional(),
            delimiters@.pairwise_distinct(),
    {
        Delimiters {
            segment_terminator: DEFAULT_SEGMENT_TERMINATOR,
            element_separator: DEFAULT_ELEMENT_SEPARATOR,
            sub_element_separator: DEFAULT_SUB_ELEMENT_SEPARATOR,
        }
    }
}

/// What an ISA segment names as its delimiters: the bytes at the three fixed
/// positions, each in its role. Meaningful for segments of at least
/// [`ISA_MIN_LENGTH`] bytes.
pub open spec fn isa_delimiters(isa_segment: Seq<u8>) -> DelimitersView
    recommends
        isa_segment.len() >= ISA_MIN_LENGTH,
{
    DelimitersView {
        segment_terminator: isa_segment[ISA_SEGMENT_TERMINATOR_INDEX as int],
        element_separator: isa_segment[ISA_ELEMENT_SEPARATOR_INDEX as int],
        sub_element_separator: isa_segment[ISA_SUB_ELEMENT_SEPARATOR_INDEX as int],
    }
}

/// Segments that are long enough and agree at the three delimiter positions
/// name the same delimiters, whatever their lengths and their other bytes.
pub proof fn lemma_isa_delimiters_depend_on_three_bytes(first: Seq<u8>, second: Seq<u8>)
    requires
        first.len() >= ISA_MIN_LENGTH,
        second.len() >= ISA_MIN_LENGTH,
        first[ISA_ELEMENT_SEPARATOR_INDEX as int] == second[ISA_ELEMENT_SEPARATOR_INDEX as int],
        first[ISA_SUB_ELEMENT_SEPARATOR_INDEX as int] == second[ISA_SUB_ELEMENT_SEPARATOR_INDEX as int],
        first[ISA_SEGMENT_TERMINATOR_INDEX as int] == second[ISA_SEGMENT_TERMINATOR_INDEX as int],
    ensures
        isa_delimiters(first) == isa_delimiters(second),
{
}

/// The conventional triple assigns a different character to each role.
pub proof fn lemma_conventional_is_pairwise_distinct()
    ensures
        DelimitersView::conventional().pairwise_distinct(),
{
}

} // verus!
