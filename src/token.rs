//! The tokens of a data set stream, their equality, and the promotion of an
//! element header to the token that opens the element.
use vstd::prelude::*;
use crate::header::{DataElementHeader, Length, PrimitiveValue, Tag, VR, u8_vec_eq};

verus! {

/// A token of a DICOM data set stream: either a data header or value data.
#[derive(Debug, Clone)]
pub enum DataToken {
    /// A data header of a primitive value.
    ElementHeader(DataElementHeader),
    /// The beginning of a sequence element.
    SequenceStart { tag: Tag, len: Length },
    /// The beginning of an encapsulated pixel data element.
    PixelSequenceStart,
    /// The ending delimiter of a sequence or encapsulated pixel data.
    SequenceEnd,
    /// The beginning of a new item in the sequence.
    ItemStart { len: Length },
    /// The ending delimiter of an item.
    ItemEnd,
    /// A primitive data element value.
    PrimitiveValue(PrimitiveValue),
    /// An owned piece of raw data: the value of an offset table or of a
    /// compressed fragment, never a nested data set.
    ItemValue(Vec<u8>),
}

/// The tag of encapsulated pixel data, `(7FE0,0010)`.
pub open spec fn is_pixel_data_tag(tag: Tag) -> bool {
    tag.group == 0x7fe0 && tag.element == 0x0010
}

/// Whether a header opens encapsulated pixel data: VR `OB`, tag
/// `(7FE0,0010)` and an undefined length.
pub open spec fn is_pixel_sequence_header(h: DataElementHeader) -> bool {
    h.vr == VR::OB && is_pixel_data_tag(h.tag) && h.len.spec_is_undefined()
}

/// The token that a header is promoted to.
pub open spec fn header_token(h: DataElementHeader) -> DataToken {
    if is_pixel_sequence_header(h) {
        DataToken::PixelSequenceStart
    } else if h.vr == VR::SQ {
        DataToken::SequenceStart { tag: h.tag, len: h.len }
    } else {
        DataToken::ElementHeader(h)
    }
}

/// Token equality: lengths compare with `inner_eq`, values by content.
pub open spec fn token_eq(a: DataToken, b: DataToken) -> bool {
    match (a, b) {
        (DataToken::ElementHeader(h1), DataToken::ElementHeader(h2)) => h1.tag == h2.tag && h1.vr
            == h2.vr && h1.len.spec_inner_eq(h2.len),
        (
            DataToken::SequenceStart { tag: t1, len: l1 },
            DataToken::SequenceStart { tag: t2, len: l2 },
        ) => t1 == t2 && l1.spec_inner_eq(l2),
        (DataToken::ItemStart { len: l1 }, DataToken::ItemStart { len: l2 }) => l1.spec_inner_eq(
            l2,
        ),
        (DataToken::PrimitiveValue(v1), DataToken::PrimitiveValue(v2)) => v1.same_content(&v2),
        (DataToken::ItemValue(v1), DataToken::ItemValue(v2)) => v1@ == v2@,
        (DataToken::ItemEnd, DataToken::ItemEnd) => true,
        (DataToken::SequenceEnd, DataToken::SequenceEnd) => true,
        (DataToken::PixelSequenceStart, DataToken::PixelSequenceStart) => true,
        _ => false,
    }
}

impl PartialEq for DataToken {
    fn eq(&self, other: &DataToken) -> (r: bool) {
        match (self, other) {
            (DataToken::ElementHeader(h1), DataToken::ElementHeader(h2)) => h1.tag == h2.tag
                && h1.vr == h2.vr && h1.len.inner_eq(h2.len),
            (
                DataToken::SequenceStart { tag: t1, len: l1 },
                DataToken::SequenceStart { tag: t2, len: l2 },
            ) => *t1 == *t2 && l1.inner_eq(*l2),
            (DataToken::ItemStart { len: l1 }, DataToken::ItemStart { len: l2 }) => l1.inner_eq(
                *l2,
            ),
            (DataToken::PrimitiveValue(v1), DataToken::PrimitiveValue(v2)) => *v1 == *v2,
            (DataToken::ItemValue(v1), DataToken::ItemValue(v2)) => u8_vec_eq(v1, v2),
            (DataToken::ItemEnd, DataToken::ItemEnd) => true,
            (DataToken::SequenceEnd, DataToken::SequenceEnd) => true,
            (DataToken::PixelSequenceStart, DataToken::PixelSequenceStart) => true,
            _ => false,
        }
    }
}

impl vstd::std_specs::cmp::PartialEqSpecImpl for DataToken {
    open spec fn obeys_eq_spec() -> bool {
        true
    }

    open spec fn eq_spec(&self, other: &DataToken) -> bool {
        token_eq(*self, *other)
    }
}

impl From<DataElementHeader> for DataToken {
    fn from(header: DataElementHeader) -> (r: DataToken) {
        if header.vr == VR::OB && header.tag.group == 0x7fe0 && header.tag.element == 0x0010
            && header.len.is_undefined() {
            DataToken::PixelSequenceStart
        } else if header.vr == VR::SQ {
            DataToken::SequenceStart { tag: header.tag, len: header.len }
        } else {
            DataToken::ElementHeader(header)
        }
    }
}

impl vstd::std_specs::convert::FromSpecImpl<DataElementHeader> for DataToken {
    open spec fn obeys_from_spec() -> bool {
        true
    }

    open spec fn from_spec(header: DataElementHeader) -> DataToken {
        header_token(header)
    }
}

impl DataToken {
    pub open spec fn spec_is_sequence_start(self) -> bool {
        self is SequenceStart
    }

    pub open spec fn spec_is_sequence_end(self) -> bool {
        self is SequenceEnd
    }

    /// Whether this token opens a sequence of nested data sets.
    pub fn is_sequence_start(&self) -> (r: bool)
        ensures
            r == self.spec_is_sequence_start(),
    {
        match self {
            DataToken::SequenceStart { .. } => true,
            _ => false,
        }
    }

    /// Whether this token closes a sequence or encapsulated pixel data.
    pub fn is_sequence_end(&self) -> (r: bool)
        ensures
            r == self.spec_is_sequence_end(),
    {
        match self {
            DataToken::SequenceEnd => true,
            _ => false,
        }
    }
}

/// The type of delimiter: sequence or item.
#[derive(Debug, Clone, Copy, PartialEq, Eq, Structural)]
pub enum SeqTokenType {
    Sequence,
    Item,
}

/// Header promotion is total and picks exactly one rule: encapsulated pixel
/// data, else a sequence for VR `SQ`, else a plain element header.
pub proof fn lemma_header_promotion(h: DataElementHeader)
    ensures
        (header_token(h) == DataToken::PixelSequenceStart) == is_pixel_sequence_header(h),
        (header_token(h) == (DataToken::SequenceStart { tag: h.tag, len: h.len })) == (h.vr
            == VR::SQ),
        (header_token(h) == DataToken::ElementHeader(h)) == (!is_pixel_sequence_header(h) && h.vr
            != VR::SQ),
        is_pixel_sequence_header(h) ==> h.vr != VR::SQ,
{
}

/// Tokens that differ only in how an undefined length is written are equal:
/// element headers, sequence starts and item starts alike.
pub proof fn lemma_undefined_lengths_equal(tag: Tag, vr: VR, l1: Length, l2: Length)
    requires
        l1.spec_is_undefined(),
        l2.spec_is_undefined(),
    ensures
        token_eq(
            DataToken::ElementHeader(DataElementHeader { tag, vr, len: l1 }),
            DataToken::ElementHeader(DataElementHeader { tag, vr, len: l2 }),
        ),
        token_eq(
            DataToken::SequenceStart { tag, len: l1 },
            DataToken::SequenceStart { tag, len: l2 },
        ),
        token_eq(DataToken::ItemStart { len: l1 }, DataToken::ItemStart { len: l2 }),
{
}

} // verus!
