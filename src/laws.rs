//! Properties of the token sequences that data elements stand for.
use vstd::prelude::*;
use crate::header::{DataElementHeader, Length};
use crate::token::{DataToken, SeqTokenType, header_token, is_pixel_sequence_header};
use crate::element::{
    DataElement, Value, element_tokens, fits_item, element_wf, fragments_tokens, item_value_tokens,
    items_tokens, items_wf, object_tokens, object_wf,
};

verus! {

broadcast use vstd::std_specs::vec::axiom_vec_decreases_to_view, vstd::seq::axiom_seq_index_decreases, vstd::seq::axiom_seq_subrange_decreases;

/// The open delimiters after one more token, or `None` where a closing
/// token does not match the innermost open one.
pub open spec fn bracket_step(t: DataToken, open: Seq<SeqTokenType>) -> Option<Seq<SeqTokenType>> {
    match t {
        DataToken::SequenceStart { .. } => Some(open.push(SeqTokenType::Sequence)),
        DataToken::PixelSequenceStart => Some(open.push(SeqTokenType::Sequence)),
        DataToken::ItemStart { .. } => Some(open.push(SeqTokenType::Item)),
        DataToken::SequenceEnd => if open.len() > 0 && open.last() == SeqTokenType::Sequence {
            Some(open.drop_last())
        } else {
            None
        },
        DataToken::ItemEnd => if open.len() > 0 && open.last() == SeqTokenType::Item {
            Some(open.drop_last())
        } else {
            None
        },
        _ => Some(open),
    }
}

/// The open delimiters after a sequence of tokens, or `None` where one
/// closes what is not open.
pub open spec fn bracket_scan(s: Seq<DataToken>, open: Seq<SeqTokenType>) -> Option<
    Seq<SeqTokenType>,
>
    decreases s.len(),
{
    if s.len() == 0 {
        Some(open)
    } else {
        match bracket_step(s[0], open) {
            Some(next) => bracket_scan(s.subrange(1, s.len() as int), next),
            None => None,
        }
    }
}

/// Every sequence start is closed by a sequence end and every item start by
/// an item end, properly nested.
pub open spec fn well_bracketed(s: Seq<DataToken>) -> bool {
    bracket_scan(s, Seq::empty()) == Some(Seq::<SeqTokenType>::empty())
}

/// Scanning a concatenation scans the first part, then the second.
pub proof fn lemma_scan_concat(a: Seq<DataToken>, b: Seq<DataToken>, open: Seq<SeqTokenType>)
    ensures
        bracket_scan(a + b, open) == match bracket_scan(a, open) {
            Some(mid) => bracket_scan(b, mid),
            None => None,
        },
    decreases a.len(),
{
    if a.len() == 0 {
        assert(a + b =~= b);
    } else {
        assert((a + b)[0] == a[0]);
        assert((a + b).subrange(1, (a + b).len() as int) =~= a.subrange(1, a.len() as int) + b);
        match bracket_step(a[0], open) {
            Some(next) => lemma_scan_concat(a.subrange(1, a.len() as int), b, next),
            None => {},
        }
    }
}

proof fn lemma_scan_single(t: DataToken, open: Seq<SeqTokenType>)
    ensures
        bracket_scan(seq![t], open) == bracket_step(t, open),
{
    let s = seq![t];
    assert(s.subrange(1, 1) =~= Seq::<DataToken>::empty());
    match bracket_step(t, open) {
        Some(next) => {
            assert(bracket_scan(s.subrange(1, 1), next) == Some(next));
        },
        None => {},
    }
}

/// Opening, a balanced middle, closing with the matching kind: balanced.
proof fn lemma_scan_wrap(
    first: DataToken,
    mid: Seq<DataToken>,
    last: DataToken,
    kind: SeqTokenType,
    open: Seq<SeqTokenType>,
)
    requires
        bracket_step(first, open) == Some(open.push(kind)),
        bracket_scan(mid, open.push(kind)) == Some(open.push(kind)),
        bracket_step(last, open.push(kind)) == Some(open),
    ensures
        bracket_scan(seq![first] + mid + seq![last], open) == Some(open),
{
    lemma_scan_concat(seq![first] + mid, seq![last], open);
    lemma_scan_concat(seq![first], mid, open);
    lemma_scan_single(first, open);
    lemma_scan_single(last, open.push(kind));
}

proof fn lemma_item_value_balanced(b: Vec<u8>, open: Seq<SeqTokenType>)
    ensures
        bracket_scan(item_value_tokens(b), open) == Some(open),
{
    let st = open.push(SeqTokenType::Item);
    assert(st.drop_last() =~= open);
    let len = Length(b@.len() as u32);
    if b@.len() == 0 {
        lemma_scan_wrap(DataToken::ItemStart { len }, Seq::empty(), DataToken::ItemEnd, SeqTokenType::Item, open);
        assert(item_value_tokens(b) =~= seq![DataToken::ItemStart { len }] + Seq::empty() + seq![DataToken::ItemEnd]);
    } else {
        lemma_scan_single(DataToken::ItemValue(b), st);
        lemma_scan_wrap(DataToken::ItemStart { len }, seq![DataToken::ItemValue(b)], DataToken::ItemEnd, SeqTokenType::Item, open);
        assert(item_value_tokens(b) =~= seq![DataToken::ItemStart { len }] + seq![DataToken::ItemValue(b)] + seq![DataToken::ItemEnd]);
    }
}

proof fn lemma_fragments_balanced(f: Seq<Vec<u8>>, open: Seq<SeqTokenType>)
    ensures
        bracket_scan(fragments_tokens(f), open) == Some(open),
    decreases f.len(),
{
    if f.len() == 0 {
    } else {
        lemma_item_value_balanced(f[0], open);
        lemma_fragments_balanced(f.subrange(1, f.len() as int), open);
        lemma_scan_concat(item_value_tokens(f[0]), fragments_tokens(f.subrange(1, f.len() as int)), open);
    }
}

/// The tokens of a well-formed element leave the open delimiters as they
/// found them, whatever was open before.
pub proof fn lemma_element_balanced(e: DataElement, open: Seq<SeqTokenType>)
    requires
        element_wf(e),
    ensures
        bracket_scan(element_tokens(e), open) == Some(open),
    decreases e,
{
    let st = open.push(SeqTokenType::Sequence);
    assert(st.drop_last() =~= open);
    match e.value {
        Value::PixelSequence { offset_table, fragments } => {
            let ivt = item_value_tokens(offset_table);
            let ft = fragments_tokens(fragments@);
            lemma_item_value_balanced(offset_table, st);
            lemma_fragments_balanced(fragments@, st);
            lemma_scan_concat(ivt, ft, st);
            assert(bracket_scan(ivt + ft, st) == Some(st));
            lemma_scan_wrap(DataToken::PixelSequenceStart, ivt + ft, DataToken::SequenceEnd, SeqTokenType::Sequence, open);
            assert(element_tokens(e) == seq![DataToken::PixelSequenceStart] + ivt + ft + seq![DataToken::SequenceEnd]);
            assert(seq![DataToken::PixelSequenceStart] + ivt + ft + seq![DataToken::SequenceEnd] =~= seq![DataToken::PixelSequenceStart] + (ivt + ft) + seq![DataToken::SequenceEnd]);
        },
        Value::Sequence { items, .. } => {
            lemma_items_balanced(items@, st);
            lemma_scan_wrap(DataToken::SequenceStart { tag: e.header.tag, len: e.header.len }, items_tokens(items@), DataToken::SequenceEnd, SeqTokenType::Sequence, open);
        },
        Value::Primitive(v) => {
            let h = DataToken::ElementHeader(e.header);
            let p = DataToken::PrimitiveValue(v);
            lemma_scan_single(h, open);
            lemma_scan_single(p, open);
            lemma_scan_concat(seq![h], seq![p], open);
            assert(element_tokens(e) =~= seq![h] + seq![p]);
        },
    }
}

/// The tokens of the well-formed items of a sequence are balanced.
pub proof fn lemma_items_balanced(s: Seq<Vec<DataElement>>, open: Seq<SeqTokenType>)
    requires
        items_wf(s),
    ensures
        bracket_scan(items_tokens(s), open) == Some(open),
    decreases s,
{
    if s.len() > 0 {
        let st = open.push(SeqTokenType::Item);
        assert(st.drop_last() =~= open);
        let undefined = Length(crate::header::UNDEFINED_LEN);
        lemma_object_balanced(s[0]@, st);
        lemma_scan_wrap(DataToken::ItemStart { len: undefined }, object_tokens(s[0]@), DataToken::ItemEnd, SeqTokenType::Item, open);
        lemma_items_balanced(s.subrange(1, s.len() as int), open);
        lemma_scan_concat(seq![DataToken::ItemStart { len: undefined }] + object_tokens(s[0]@) + seq![DataToken::ItemEnd], items_tokens(s.subrange(1, s.len() as int)), open);
    }
}

/// The tokens of a well-formed data set are balanced.
pub proof fn lemma_object_balanced(s: Seq<DataElement>, open: Seq<SeqTokenType>)
    requires
        object_wf(s),
    ensures
        bracket_scan(object_tokens(s), open) == Some(open),
    decreases s,
{
    if s.len() > 0 {
        lemma_element_balanced(s[0], open);
        lemma_object_balanced(s.subrange(1, s.len() as int), open);
        lemma_scan_concat(element_tokens(s[0]), object_tokens(s.subrange(1, s.len() as int)), open);
    }
}

/// The tokens of every well-formed element are well bracketed.
pub proof fn lemma_element_well_bracketed(e: DataElement)
    requires
        element_wf(e),
    ensures
        well_bracketed(element_tokens(e)),
{
    lemma_element_balanced(e, Seq::empty());
}

/// A well-formed element's tokens begin with the token that its header is
/// promoted to, but for a primitive element, whose header token carries the
/// whole header.
pub proof fn lemma_first_token_is_header_token(e: DataElement)
    requires
        element_wf(e),
    ensures
        element_tokens(e)[0] == header_token(e.header),
{
}

/// Encapsulated pixel data gives its start, the offset table as a raw item,
/// the fragments as raw items, then the sequence end.
pub proof fn lemma_pixel_sequence_shape(
    header: DataElementHeader,
    offset_table: Vec<u8>,
    fragments: Vec<Vec<u8>>,
)
    ensures
        element_tokens(DataElement { header, value: Value::PixelSequence { offset_table, fragments } })
            == seq![DataToken::PixelSequenceStart] + item_value_tokens(offset_table)
            + fragments_tokens(fragments@) + seq![DataToken::SequenceEnd],
{
}

/// The fragments give their raw items in order: one more fragment at the end
/// adds its raw item at the end. A raw item is its start with the buffer's
/// length, then the buffer unless it is empty, then its end.
pub proof fn lemma_fragments_push(fragments: Seq<Vec<u8>>, last: Vec<u8>)
    requires
        fits_item(last@),
    ensures
        fragments_tokens(fragments.push(last)) == fragments_tokens(fragments) + item_value_tokens(
            last,
        ),
        item_value_tokens(last)[0] == (DataToken::ItemStart { len: Length(last@.len() as u32) }),
        item_value_tokens(last).last() == DataToken::ItemEnd,
        last@.len() == 0 ==> item_value_tokens(last).len() == 2,
        last@.len() > 0 ==> item_value_tokens(last).len() == 3 && item_value_tokens(last)[1]
            == DataToken::ItemValue(last),
    decreases fragments.len(),
{
    if fragments.len() > 0 {
        let rest = fragments.subrange(1, fragments.len() as int);
        lemma_fragments_push(rest, last);
        assert(fragments.push(last).subrange(1, fragments.len() as int + 1) =~= rest.push(last));
        assert(fragments.push(last)[0] == fragments[0]);
        assert(fragments_tokens(fragments.push(last)) == item_value_tokens(fragments[0]) + fragments_tokens(rest.push(last)));
        assert(fragments_tokens(fragments) == item_value_tokens(fragments[0]) + fragments_tokens(rest));
        assert(fragments_tokens(fragments.push(last)) =~= fragments_tokens(fragments) + item_value_tokens(last));
    } else {
        assert(fragments.push(last).subrange(1, 1) =~= Seq::<Vec<u8>>::empty());
        assert(fragments =~= Seq::<Vec<u8>>::empty());
        assert(fragments_tokens(fragments.push(last)) == item_value_tokens(last) + fragments_tokens(Seq::<Vec<u8>>::empty()));
        assert(fragments_tokens(fragments.push(last)) =~= fragments_tokens(fragments) + item_value_tokens(last));
    }
}

} // verus!
