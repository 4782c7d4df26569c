//! Structured data elements and the token sequence that each one stands for.
use vstd::prelude::*;
use crate::header::{DataElementHeader, Length, PrimitiveValue, UNDEFINED_LEN};
use crate::token::{DataToken, is_pixel_sequence_header};

verus! {

broadcast use vstd::std_specs::vec::axiom_vec_decreases_to_view, vstd::seq::axiom_seq_index_decreases, vstd::seq::axiom_seq_subrange_decreases;

/// The value of a data element.
#[derive(Debug)]
pub enum Value {
    /// A primitive value.
    Primitive(PrimitiveValue),
    /// A sequence of nested data sets, each an ordered list of elements.
    Sequence { items: Vec<Vec<DataElement>>, size: Length },
    /// Encapsulated pixel data: a basic offset table and the fragments.
    PixelSequence { offset_table: Vec<u8>, fragments: Vec<Vec<u8>> },
}

/// A data element: a header and a value that agrees with it.
#[derive(Debug)]
pub struct DataElement {
    pub header: DataElementHeader,
    pub value: Value,
}

/// A byte buffer whose length can be written as a defined item length.
pub open spec fn fits_item(b: Seq<u8>) -> bool {
    b.len() < UNDEFINED_LEN
}

/// Every fragment fits in an item.
pub open spec fn fragments_fit(f: Seq<Vec<u8>>) -> bool {
    forall|i: int| 0 <= i < f.len() ==> fits_item(#[trigger] f[i]@)
}

/// The value agrees with the header, at every level of nesting, and every
/// pixel item fits a defined length.
pub open spec fn element_wf(e: DataElement) -> bool
    decreases e,
{
    if is_pixel_sequence_header(e.header) {
        match e.value {
            Value::PixelSequence { offset_table, fragments } => fits_item(offset_table@)
                && fragments_fit(fragments@),
            _ => false,
        }
    } else if e.header.vr == crate::header::VR::SQ {
        match e.value {
            Value::Sequence { items, .. } => items_wf(items@),
            _ => false,
        }
    } else {
        e.value is Primitive
    }
}

/// Every item of a sequence is well formed.
pub open spec fn items_wf(s: Seq<Vec<DataElement>>) -> bool
    decreases s,
{
    if s.len() == 0 {
        true
    } else {
        object_wf(s[0]@) && items_wf(s.subrange(1, s.len() as int))
    }
}

/// Every element of a data set is well formed.
pub open spec fn object_wf(s: Seq<DataElement>) -> bool
    decreases s,
{
    if s.len() == 0 {
        true
    } else {
        element_wf(s[0]) && object_wf(s.subrange(1, s.len() as int))
    }
}

/// The tokens of a raw item: its start with the buffer's length, the buffer
/// unless it is empty, and the item end.
pub open spec fn item_value_tokens(b: Vec<u8>) -> Seq<DataToken> {
    let len = Length(b@.len() as u32);
    if b@.len() == 0 {
        seq![DataToken::ItemStart { len }, DataToken::ItemEnd]
    } else {
        seq![DataToken::ItemStart { len }, DataToken::ItemValue(b), DataToken::ItemEnd]
    }
}

/// The tokens of pixel fragments, each as a raw item, in order.
pub open spec fn fragments_tokens(s: Seq<Vec<u8>>) -> Seq<DataToken>
    decreases s.len(),
{
    if s.len() == 0 {
        Seq::empty()
    } else {
        item_value_tokens(s[0]) + fragments_tokens(s.subrange(1, s.len() as int))
    }
}

/// The tokens of a data element.
pub open spec fn element_tokens(e: DataElement) -> Seq<DataToken>
    decreases e,
{
    match e.value {
        Value::PixelSequence { offset_table, fragments } => seq![DataToken::PixelSequenceStart]
            + item_value_tokens(offset_table) + fragments_tokens(fragments@) + seq![
            DataToken::SequenceEnd,
        ],
        Value::Sequence { items, .. } => seq![
            DataToken::SequenceStart { tag: e.header.tag, len: e.header.len },
        ] + items_tokens(items@) + seq![DataToken::SequenceEnd],
        Value::Primitive(v) => seq![
            DataToken::ElementHeader(e.header),
            DataToken::PrimitiveValue(v),
        ],
    }
}

/// The tokens of the items of a sequence: each item's data set between an
/// item start of undefined length and an item end.
pub open spec fn items_tokens(s: Seq<Vec<DataElement>>) -> Seq<DataToken>
    decreases s,
{
    if s.len() == 0 {
        Seq::empty()
    } else {
        seq![DataToken::ItemStart { len: Length(UNDEFINED_LEN) }] + object_tokens(s[0]@) + seq![
            DataToken::ItemEnd,
        ] + items_tokens(s.subrange(1, s.len() as int))
    }
}

/// The tokens of a data set: those of its elements, in order.
pub open spec fn object_tokens(s: Seq<DataElement>) -> Seq<DataToken>
    decreases s,
{
    if s.len() == 0 {
        Seq::empty()
    } else {
        element_tokens(s[0]) + object_tokens(s.subrange(1, s.len() as int))
    }
}

impl DataElement {
    /// A data element from its header and value.
    pub fn new(header: DataElementHeader, value: Value) -> (r: DataElement)
        ensures
            r.header == header,
            r.value == value,
    {
        DataElement { header, value }
    }

    /// The header of this element.
    pub fn header(&self) -> (r: &DataElementHeader)
        ensures
            *r == self.header,
    {
        &self.header
    }

    /// The value of this element, taking the element apart.
    pub fn into_value(self) -> (r: Value)
        ensures
            r == self.value,
    {
        self.value
    }

    /// All tokens of this element, in document order.
    pub fn into_token_vec(self) -> (r: Vec<DataToken>)
        requires
            element_wf(self),
        ensures
            r@ == element_tokens(self),
    {
        let mut out: Vec<DataToken> = Vec::new();
        push_element_tokens(self, &mut out);
        assert(out@ =~= element_tokens(self));
        out
    }
}

/// All tokens of a data set, element after element.
pub fn object_into_tokens(obj: Vec<DataElement>) -> (r: Vec<DataToken>)
    requires
        object_wf(obj@),
    ensures
        r@ == object_tokens(obj@),
{
    let mut out: Vec<DataToken> = Vec::new();
    push_object_tokens(obj, &mut out);
    assert(out@ =~= object_tokens(obj@));
    out
}

/// Appends the tokens of one raw item.
pub fn push_item_value_tokens(b: Vec<u8>, out: &mut Vec<DataToken>)
    requires
        fits_item(b@),
    ensures
        final(out)@ == old(out)@ + item_value_tokens(b),
{
    let len = Length(b.len() as u32);
    out.push(DataToken::ItemStart { len });
    if b.len() == 0 {
        out.push(DataToken::ItemEnd);
    } else {
        out.push(DataToken::ItemValue(b));
        out.push(DataToken::ItemEnd);
    }
    assert(out@ =~= old(out)@ + item_value_tokens(b));
}

/// Appends the tokens of pixel fragments, each as a raw item.
pub fn push_fragments_tokens(fragments: Vec<Vec<u8>>, out: &mut Vec<DataToken>)
    requires
        fragments_fit(fragments@),
    ensures
        final(out)@ == old(out)@ + fragments_tokens(fragments@),
{
    let mut rest = fragments;
    while rest.len() > 0
        invariant
            fragments_fit(rest@),
            out@ + fragments_tokens(rest@) == old(out)@ + fragments_tokens(fragments@),
        decreases rest.len(),
    {
        let ghost before = rest@;
        let ghost out_before = out@;
        let b = rest.remove(0);
        assert(rest@ =~= before.subrange(1, before.len() as int));
        assert(fits_item(before[0]@));
        push_item_value_tokens(b, out);
        assert(out@ + fragments_tokens(rest@) =~= out_before + fragments_tokens(before));
    }
    assert(out@ =~= old(out)@ + fragments_tokens(fragments@));
}

/// Appends the tokens of a data element.
pub fn push_element_tokens(e: DataElement, out: &mut Vec<DataToken>)
    requires
        element_wf(e),
    ensures
        final(out)@ == old(out)@ + element_tokens(e),
    decreases e,
{
    let ghost e0 = e;
    let header = e.header;
    match e.value {
        Value::PixelSequence { offset_table, fragments } => {
            out.push(DataToken::PixelSequenceStart);
            push_item_value_tokens(offset_table, out);
            push_fragments_tokens(fragments, out);
            out.push(DataToken::SequenceEnd);
        },
        Value::Sequence { items, .. } => {
            out.push(DataToken::SequenceStart { tag: header.tag, len: header.len });
            push_items_tokens(items, out);
            out.push(DataToken::SequenceEnd);
        },
        Value::Primitive(v) => {
            out.push(DataToken::ElementHeader(header));
            out.push(DataToken::PrimitiveValue(v));
        },
    }
    assert(out@ =~= old(out)@ + element_tokens(e0));
}

/// Appends the tokens of the items of a sequence, each wrapped as an item of
/// undefined length.
pub fn push_items_tokens(items: Vec<Vec<DataElement>>, out: &mut Vec<DataToken>)
    requires
        items_wf(items@),
    ensures
        final(out)@ == old(out)@ + items_tokens(items@),
    decreases items@,
{
    if items.len() == 0 {
        assert(out@ =~= old(out)@ + items_tokens(items@));
        return;
    }
    let ghost all = items@;
    let mut items = items;
    let first = items.remove(0);
    assert(items@ =~= all.subrange(1, all.len() as int));
    out.push(DataToken::ItemStart { len: Length(UNDEFINED_LEN) });
    push_object_tokens(first, out);
    out.push(DataToken::ItemEnd);
    push_items_tokens(items, out);
    assert(out@ =~= old(out)@ + items_tokens(all));
}

/// Appends the tokens of a data set.
pub fn push_object_tokens(obj: Vec<DataElement>, out: &mut Vec<DataToken>)
    requires
        object_wf(obj@),
    ensures
        final(out)@ == old(out)@ + object_tokens(obj@),
    decreases obj@,
{
    if obj.len() == 0 {
        assert(out@ =~= old(out)@ + object_tokens(obj@));
        return;
    }
    let ghost all = obj@;
    let mut obj = obj;
    let first = obj.remove(0);
    assert(obj@ =~= all.subrange(1, all.len() as int));
    push_element_tokens(first, out);
    push_object_tokens(obj, out);
    assert(out@ =~= old(out)@ + object_tokens(all));
}

} // verus!
