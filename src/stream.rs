//! Lazy token producers: each hands out one token per call of `next`, and
//! states as `remaining` the tokens that it has yet to hand out.
use vstd::prelude::*;
use crate::header::{Length, PrimitiveValue, UNDEFINED_LEN};
use crate::token::DataToken;
use crate::element::{
    DataElement, Value, element_tokens, element_wf, fits_item, fragments_fit, fragments_tokens,
    item_value_tokens, items_tokens, items_wf, object_tokens, object_wf,
};

verus! {

/// The result of a `next` call on a producer whose tokens still to come were
/// `before` and now are `after`: the first token leaves, or nothing does.
pub open spec fn advanced(before: Seq<DataToken>, after: Seq<DataToken>, r: Option<DataToken>) -> bool {
    if before.len() == 0 {
        r is None && after.len() == 0
    } else {
        r == Some(before[0]) && after == before.subrange(1, before.len() as int)
    }
}

/// A piece of raw data to be written as an item: an item start with the
/// data's length, the data unless it is empty, then an item end.
#[derive(Debug, Clone)]
pub struct ItemValue(pub Vec<u8>);

impl ItemValue {
    /// The producer of this item's tokens.
    pub fn into_tokens(self) -> (r: ItemValueTokens)
        requires
            fits_item(self.0@),
        ensures
            r.wf(),
            r.remaining() == item_value_tokens(self.0),
    {
        ItemValueTokens::new(self.0)
    }
}

/// The tokens of a raw item, handed out one at a time.
#[derive(Debug)]
pub enum ItemValueTokens {
    /// Just started, the item start comes next.
    Start(Vec<u8>),
    /// The item's value comes next.
    Value(Vec<u8>),
    /// The item end comes next.
    Done,
    /// Nothing is left.
    End,
}

impl ItemValueTokens {
    pub open spec fn wf(self) -> bool {
        match self {
            ItemValueTokens::Start(b) => fits_item(b@),
            _ => true,
        }
    }

    pub open spec fn remaining(self) -> Seq<DataToken> {
        match self {
            ItemValueTokens::Start(b) => item_value_tokens(b),
            ItemValueTokens::Value(b) => seq![DataToken::ItemValue(b), DataToken::ItemEnd],
            ItemValueTokens::Done => seq![DataToken::ItemEnd],
            ItemValueTokens::End => Seq::empty(),
        }
    }

    /// A producer of the tokens of `value` as a raw item; it does no work yet.
    pub fn new(value: Vec<u8>) -> (r: ItemValueTokens)
        ensures
            r == ItemValueTokens::Start(value),
            fits_item(value@) ==> r.wf(),
            r.remaining() == item_value_tokens(value),
    {
        ItemValueTokens::Start(value)
    }

    /// The next token, if any is left.
    pub fn next(&mut self) -> (r: Option<DataToken>)
        requires
            old(self).wf(),
        ensures
            final(self).wf(),
            advanced(old(self).remaining(), final(self).remaining(), r),
    {
        let mut state = ItemValueTokens::End;
        std::mem::swap(self, &mut state);
        let ghost before = state.remaining();
        let (out, next_state) = match state {
            ItemValueTokens::Start(value) => {
                let len = Length(value.len() as u32);
                if value.len() == 0 {
                    (Some(DataToken::ItemStart { len }), ItemValueTokens::Done)
                } else {
                    (Some(DataToken::ItemStart { len }), ItemValueTokens::Value(value))
                }
            },
            ItemValueTokens::Value(value) => (
                Some(DataToken::ItemValue(value)),
                ItemValueTokens::Done,
            ),
            ItemValueTokens::Done => (Some(DataToken::ItemEnd), ItemValueTokens::End),
            ItemValueTokens::End => (None, ItemValueTokens::End),
        };
        *self = next_state;
        assert(self.remaining() =~= if before.len() == 0 { before } else { before.subrange(1, before.len() as int) });
        out
    }
}

/// The tokens of pixel fragments, each as a raw item, fetching the next
/// fragment only when the current one has given all its tokens.
#[derive(Debug)]
pub struct FlattenTokens {
    seq: Vec<Vec<u8>>,
    tokens: Option<ItemValueTokens>,
}

impl FlattenTokens {
    pub closed spec fn wf(self) -> bool {
        &&& fragments_fit(self.seq@)
        &&& match self.tokens {
            Some(t) => t.wf(),
            None => true,
        }
    }

    pub closed spec fn remaining(self) -> Seq<DataToken> {
        match self.tokens {
            Some(t) => t.remaining() + fragments_tokens(self.seq@),
            None => fragments_tokens(self.seq@),
        }
    }

    /// A producer of the tokens of `fragments`; it does no work yet.
    pub fn new(fragments: Vec<Vec<u8>>) -> (r: FlattenTokens)
        requires
            fragments_fit(fragments@),
        ensures
            r.wf(),
            r.remaining() == fragments_tokens(fragments@),
    {
        FlattenTokens { seq: fragments, tokens: None }
    }

    /// The next token, if any is left.
    pub fn next(&mut self) -> (r: Option<DataToken>)
        requires
            old(self).wf(),
        ensures
            final(self).wf(),
            advanced(old(self).remaining(), final(self).remaining(), r),
    {
        let ghost before = self.remaining();
        let mut current = self.tokens.take();
        if let Some(mut t) = current {
            let r = t.next();
            if r.is_some() {
                self.tokens = Some(t);
                assert(self.remaining() =~= before.subrange(1, before.len() as int));
                return r;
            }
            assert(before =~= fragments_tokens(self.seq@));
        }
        if self.seq.len() == 0 {
            return None;
        }
        let ghost all = self.seq@;
        let fragment = self.seq.remove(0);
        assert(self.seq@ =~= all.subrange(1, all.len() as int));
        assert(fits_item(all[0]@));
        let mut t = ItemValueTokens::new(fragment);
        let r = t.next();
        self.tokens = Some(t);
        assert(self.remaining() =~= before.subrange(1, before.len() as int));
        r
    }
}

/// A data set to be written as an item of the given length.
#[derive(Debug)]
pub struct AsItem(pub Length, pub Vec<DataElement>);

impl AsItem {
    /// The producer of this item's tokens; it does no work yet.
    pub fn into_tokens(self) -> (r: ItemTokens)
        requires
            object_wf(self.1@),
        ensures
            r.wf(),
            r.remaining() == seq![DataToken::ItemStart { len: self.0 }] + object_tokens(self.1@)
                + seq![DataToken::ItemEnd],
    {
        ItemTokens::new(self.0, self.1)
    }
}

/// The tokens of a data set, element after element, fetching the next
/// element only when the current one has given all its tokens.
#[derive(Debug)]
pub struct ObjectTokens {
    elements: Vec<DataElement>,
    tokens: Option<Box<DataElementTokens>>,
}

/// The tokens of a data set wrapped as an item: the item start, the data
/// set's tokens, then the item end.
#[derive(Debug)]
pub enum ItemTokens {
    /// Just started, the item start comes next.
    Start { len: Length, object: Vec<DataElement> },
    /// Giving the data set's tokens, then the item end.
    Object { object_tokens: ObjectTokens },
    /// Nothing is left.
    End,
}

impl ObjectTokens {
    pub closed spec fn wf(self) -> bool
        decreases self,
    {
        &&& object_wf(self.elements@)
        &&& match self.tokens {
            Some(t) => t.wf(),
            None => true,
        }
    }

    pub closed spec fn remaining(self) -> Seq<DataToken>
        decreases self,
    {
        match self.tokens {
            Some(t) => t.remaining() + object_tokens(self.elements@),
            None => object_tokens(self.elements@),
        }
    }

    /// How deeply the producers in progress are nested.
    pub closed spec fn depth(self) -> nat
        decreases self,
    {
        match self.tokens {
            Some(t) => 1 + t.depth(),
            None => 1,
        }
    }

    /// A producer of the tokens of `elements`; it does no work yet.
    pub fn new(elements: Vec<DataElement>) -> (r: ObjectTokens)
        requires
            object_wf(elements@),
        ensures
            r.wf(),
            r.remaining() == object_tokens(elements@),
    {
        ObjectTokens { elements, tokens: None }
    }

    /// The next token, if any is left.
    pub fn next(&mut self) -> (r: Option<DataToken>)
        requires
            old(self).wf(),
        ensures
            final(self).wf(),
            advanced(old(self).remaining(), final(self).remaining(), r),
        decreases old(self).depth(),
    {
        let ghost before = self.remaining();
        let current = self.tokens.take();
        if let Some(t) = current {
            let mut t = *t;
            let r = t.next();
            if r.is_some() {
                self.tokens = Some(Box::new(t));
                assert(self.remaining() =~= before.subrange(1, before.len() as int));
                return r;
            }
            assert(before =~= object_tokens(self.elements@));
        }
        if self.elements.len() == 0 {
            return None;
        }
        let ghost all = self.elements@;
        let e = self.elements.remove(0);
        assert(self.elements@ =~= all.subrange(1, all.len() as int));
        let mut t = e.into_tokens();
        let r = t.next();
        self.tokens = Some(Box::new(t));
        assert(self.remaining() =~= before.subrange(1, before.len() as int));
        r
    }
}

impl ItemTokens {
    pub open spec fn wf(self) -> bool
        decreases self,
    {
        match self {
            ItemTokens::Start { object, .. } => object_wf(object@),
            ItemTokens::Object { object_tokens } => object_tokens.wf(),
            ItemTokens::End => true,
        }
    }

    pub open spec fn remaining(self) -> Seq<DataToken>
        decreases self,
    {
        match self {
            ItemTokens::Start { len, object } => seq![DataToken::ItemStart { len }] + object_tokens(
                object@,
            ) + seq![DataToken::ItemEnd],
            ItemTokens::Object { object_tokens } => object_tokens.remaining() + seq![
                DataToken::ItemEnd,
            ],
            ItemTokens::End => Seq::empty(),
        }
    }

    /// How deeply the producers in progress are nested.
    pub open spec fn depth(self) -> nat
        decreases self,
    {
        match self {
            ItemTokens::Object { object_tokens } => 1 + object_tokens.depth(),
            _ => 0,
        }
    }

    /// A producer of the tokens of `object` as an item of length `len`.
    pub fn new(len: Length, object: Vec<DataElement>) -> (r: ItemTokens)
        requires
            object_wf(object@),
        ensures
            r == (ItemTokens::Start { len, object }),
            r.wf(),
            r.remaining() == seq![DataToken::ItemStart { len }] + object_tokens(object@) + seq![
                DataToken::ItemEnd,
            ],
    {
        ItemTokens::Start { len, object }
    }

    /// The next token, if any is left.
    pub fn next(&mut self) -> (r: Option<DataToken>)
        requires
            old(self).wf(),
        ensures
            final(self).wf(),
            advanced(old(self).remaining(), final(self).remaining(), r),
        decreases old(self).depth(),
    {
        let mut state = ItemTokens::End;
        std::mem::swap(self, &mut state);
        let ghost before = state.remaining();
        match state {
            ItemTokens::Start { len, object } => {
                *self = ItemTokens::Object { object_tokens: ObjectTokens::new(object) };
                assert(self.remaining() =~= before.subrange(1, before.len() as int));
                Some(DataToken::ItemStart { len })
            },
            ItemTokens::Object { object_tokens } => {
                let mut t = object_tokens;
                let r = t.next();
                if r.is_some() {
                    *self = ItemTokens::Object { object_tokens: t };
                    assert(self.remaining() =~= before.subrange(1, before.len() as int));
                    r
                } else {
                    assert(self.remaining() =~= before.subrange(1, before.len() as int));
                    Some(DataToken::ItemEnd)
                }
            },
            ItemTokens::End => None,
        }
    }
}

/// The tokens of the items of a sequence, each an item of undefined length,
/// fetching the next item only when the current one has given all its tokens.
#[derive(Debug)]
pub struct SequenceItemsTokens {
    items: Vec<Vec<DataElement>>,
    tokens: Option<ItemTokens>,
}

impl SequenceItemsTokens {
    pub closed spec fn wf(self) -> bool
        decreases self,
    {
        &&& items_wf(self.items@)
        &&& match self.tokens {
            Some(t) => t.wf(),
            None => true,
        }
    }

    pub closed spec fn remaining(self) -> Seq<DataToken>
        decreases self,
    {
        match self.tokens {
            Some(t) => t.remaining() + items_tokens(self.items@),
            None => items_tokens(self.items@),
        }
    }

    /// How deeply the producers in progress are nested.
    pub closed spec fn depth(self) -> nat
        decreases self,
    {
        match self.tokens {
            Some(t) => 1 + t.depth(),
            None => 1,
        }
    }

    /// A producer of the tokens of `items`; it does no work yet.
    pub fn new(items: Vec<Vec<DataElement>>) -> (r: SequenceItemsTokens)
        requires
            items_wf(items@),
        ensures
            r.wf(),
            r.remaining() == items_tokens(items@),
    {
        SequenceItemsTokens { items, tokens: None }
    }

    /// The next token, if any is left.
    pub fn next(&mut self) -> (r: Option<DataToken>)
        requires
            old(self).wf(),
        ensures
            final(self).wf(),
            advanced(old(self).remaining(), final(self).remaining(), r),
        decreases old(self).depth(),
    {
        let ghost before = self.remaining();
        let current = self.tokens.take();
        if let Some(mut t) = current {
            let r = t.next();
            if r.is_some() {
                self.tokens = Some(t);
                assert(self.remaining() =~= before.subrange(1, before.len() as int));
                return r;
            }
            assert(before =~= items_tokens(self.items@));
        }
        if self.items.len() == 0 {
            return None;
        }
        let ghost all = self.items@;
        let item = self.items.remove(0);
        assert(self.items@ =~= all.subrange(1, all.len() as int));
        let mut t = ItemTokens::new(Length(UNDEFINED_LEN), item);
        let r = t.next();
        self.tokens = Some(t);
        assert(self.remaining() =~= before.subrange(1, before.len() as int));
        r
    }
}

/// The tokens of one data element, handed out one at a time.
#[derive(Debug)]
pub enum DataElementTokens {
    /// At the beginning of the element.
    Start(DataElement),
    /// The header of a primitive element was given; its value comes next.
    Header(PrimitiveValue),
    /// Giving the tokens of the items of a sequence, then its end.
    Items(SequenceItemsTokens),
    /// Giving the tokens of the offset table; the fragments wait.
    PixelData(Vec<Vec<u8>>, ItemValueTokens),
    /// Giving the tokens of the fragments, then the sequence end.
    PixelDataFragments(FlattenTokens),
    /// Nothing is left.
    End,
}

impl DataElementTokens {
    pub open spec fn wf(self) -> bool
        decreases self,
    {
        match self {
            DataElementTokens::Start(e) => element_wf(e),
            DataElementTokens::Items(t) => t.wf(),
            DataElementTokens::PixelData(f, t) => fragments_fit(f@) && t.wf(),
            DataElementTokens::PixelDataFragments(t) => t.wf(),
            _ => true,
        }
    }

    pub open spec fn remaining(self) -> Seq<DataToken>
        decreases self,
    {
        match self {
            DataElementTokens::Start(e) => element_tokens(e),
            DataElementTokens::Header(v) => seq![DataToken::PrimitiveValue(v)],
            DataElementTokens::Items(t) => t.remaining() + seq![DataToken::SequenceEnd],
            DataElementTokens::PixelData(f, t) => t.remaining() + fragments_tokens(f@) + seq![
                DataToken::SequenceEnd,
            ],
            DataElementTokens::PixelDataFragments(t) => t.remaining() + seq![
                DataToken::SequenceEnd,
            ],
            DataElementTokens::End => Seq::empty(),
        }
    }

    /// How deeply the producers in progress are nested.
    pub open spec fn depth(self) -> nat
        decreases self,
    {
        match self {
            DataElementTokens::Items(t) => 1 + t.depth(),
            _ => 0,
        }
    }

    /// The next token, if any is left.
    pub fn next(&mut self) -> (r: Option<DataToken>)
        requires
            old(self).wf(),
        ensures
            final(self).wf(),
            advanced(old(self).remaining(), final(self).remaining(), r),
        decreases old(self).depth(),
    {
        let mut state = DataElementTokens::End;
        std::mem::swap(self, &mut state);
        let ghost before = state.remaining();
        match state {
            DataElementTokens::Start(e) => {
                let header = e.header;
                match e.value {
                    Value::Sequence { items, .. } => {
                        *self = DataElementTokens::Items(SequenceItemsTokens::new(items));
                        assert(self.remaining() =~= before.subrange(1, before.len() as int));
                        Some(DataToken::SequenceStart { tag: header.tag, len: header.len })
                    },
                    Value::PixelSequence { offset_table, fragments } => {
                        *self = DataElementTokens::PixelData(
                            fragments,
                            ItemValueTokens::new(offset_table),
                        );
                        assert(self.remaining() =~= before.subrange(1, before.len() as int));
                        Some(DataToken::PixelSequenceStart)
                    },
                    Value::Primitive(v) => {
                        *self = DataElementTokens::Header(v);
                        assert(self.remaining() =~= before.subrange(1, before.len() as int));
                        Some(DataToken::ElementHeader(header))
                    },
                }
            },
            DataElementTokens::Header(v) => {
                assert(self.remaining() =~= before.subrange(1, before.len() as int));
                Some(DataToken::PrimitiveValue(v))
            },
            DataElementTokens::Items(t) => {
                let mut t = t;
                let r = t.next();
                if r.is_some() {
                    *self = DataElementTokens::Items(t);
                    assert(self.remaining() =~= before.subrange(1, before.len() as int));
                    r
                } else {
                    assert(self.remaining() =~= before.subrange(1, before.len() as int));
                    Some(DataToken::SequenceEnd)
                }
            },
            DataElementTokens::PixelData(fragments, t) => {
                let mut t = t;
                let r = t.next();
                if r.is_some() {
                    *self = DataElementTokens::PixelData(fragments, t);
                    assert(self.remaining() =~= before.subrange(1, before.len() as int));
                    return r;
                }
                let mut f = FlattenTokens::new(fragments);
                let r = f.next();
                if r.is_some() {
                    *self = DataElementTokens::PixelDataFragments(f);
                    assert(self.remaining() =~= before.subrange(1, before.len() as int));
                    r
                } else {
                    assert(self.remaining() =~= before.subrange(1, before.len() as int));
                    Some(DataToken::SequenceEnd)
                }
            },
            DataElementTokens::PixelDataFragments(t) => {
                let mut t = t;
                let r = t.next();
                if r.is_some() {
                    *self = DataElementTokens::PixelDataFragments(t);
                    assert(self.remaining() =~= before.subrange(1, before.len() as int));
                    r
                } else {
                    assert(self.remaining() =~= before.subrange(1, before.len() as int));
                    Some(DataToken::SequenceEnd)
                }
            },
            DataElementTokens::End => None,
        }
    }
}

impl DataElement {
    /// The producer of this element's tokens; it does no work yet.
    pub fn into_tokens(self) -> (r: DataElementTokens)
        requires
            element_wf(self),
        ensures
            r == DataElementTokens::Start(self),
            r.wf(),
            r.remaining() == element_tokens(self),
    {
        DataElementTokens::Start(self)
    }
}

} // verus!
