use dicom_tokens::element::{object_into_tokens, DataElement, Value};
use dicom_tokens::header::{DataElementHeader, Length, PrimitiveValue, Tag, ValueType, VR};
use dicom_tokens::stream::{
    AsItem, DataElementTokens, FlattenTokens, ItemTokens, ItemValue, ItemValueTokens,
    SequenceItemsTokens,
};
use dicom_tokens::token::{DataToken, SeqTokenType};

fn header(group: u16, element: u16, vr: VR, len: Length) -> DataElementHeader {
    DataElementHeader::new(Tag::new(group, element), vr, len)
}

fn drain_element(mut t: DataElementTokens) -> Vec<DataToken> {
    let mut out = Vec::new();
    while let Some(tok) = t.next() {
        out.push(tok);
    }
    out
}

fn pixel_element(offset: Vec<u8>, fragments: Vec<Vec<u8>>) -> DataElement {
    DataElement::new(
        header(0x7fe0, 0x0010, VR::OB, Length::undefined()),
        Value::PixelSequence { offset_table: offset, fragments },
    )
}

fn patient_name() -> DataElement {
    DataElement::new(
        header(0x0010, 0x0010, VR::PN, Length(8)),
        Value::Primitive(PrimitiveValue::Str("SMITH^JOE".to_string())),
    )
}

fn code_element() -> DataElement {
    DataElement::new(
        header(0x0008, 0x0100, VR::SH, Length(6)),
        Value::Primitive(PrimitiveValue::Str("CODE1".to_string())),
    )
}

#[test]
fn primitive_element_tokens() {
    let expected = vec![
        DataToken::ElementHeader(header(0x0010, 0x0010, VR::PN, Length(8))),
        DataToken::PrimitiveValue(PrimitiveValue::Str("SMITH^JOE".to_string())),
    ];
    assert_eq!(patient_name().into_token_vec(), expected);
    assert_eq!(drain_element(patient_name().into_tokens()), expected);
}

#[test]
fn empty_sequence_tokens() {
    let make = || {
        DataElement::new(
            header(0x0040, 0x0275, VR::SQ, Length::undefined()),
            Value::Sequence { items: vec![], size: Length::undefined() },
        )
    };
    let expected = vec![
        DataToken::SequenceStart { tag: Tag::new(0x0040, 0x0275), len: Length::undefined() },
        DataToken::SequenceEnd,
    ];
    assert_eq!(make().into_token_vec(), expected);
    assert_eq!(drain_element(make().into_tokens()), expected);
}

#[test]
fn sequence_with_one_item_tokens() {
    let make = || {
        DataElement::new(
            header(0x0040, 0x0275, VR::SQ, Length::undefined()),
            Value::Sequence { items: vec![vec![code_element()]], size: Length::undefined() },
        )
    };
    let expected = vec![
        DataToken::SequenceStart { tag: Tag::new(0x0040, 0x0275), len: Length::undefined() },
        DataToken::ItemStart { len: Length::undefined() },
        DataToken::ElementHeader(header(0x0008, 0x0100, VR::SH, Length(6))),
        DataToken::PrimitiveValue(PrimitiveValue::Str("CODE1".to_string())),
        DataToken::ItemEnd,
        DataToken::SequenceEnd,
    ];
    assert_eq!(make().into_token_vec(), expected);
    assert_eq!(drain_element(make().into_tokens()), expected);
}

#[test]
fn nested_sequences_keep_document_order() {
    let inner = DataElement::new(
        header(0x0008, 0x1115, VR::SQ, Length::undefined()),
        Value::Sequence {
            items: vec![vec![code_element()], vec![]],
            size: Length::undefined(),
        },
    );
    let make = |inner: DataElement| {
        DataElement::new(
            header(0x0040, 0x0275, VR::SQ, Length(100)),
            Value::Sequence { items: vec![vec![inner, patient_name()]], size: Length(100) },
        )
    };
    let inner2 = DataElement::new(
        header(0x0008, 0x1115, VR::SQ, Length::undefined()),
        Value::Sequence {
            items: vec![vec![code_element()], vec![]],
            size: Length::undefined(),
        },
    );
    let expected = vec![
        DataToken::SequenceStart { tag: Tag::new(0x0040, 0x0275), len: Length(100) },
        DataToken::ItemStart { len: Length::undefined() },
        DataToken::SequenceStart { tag: Tag::new(0x0008, 0x1115), len: Length::undefined() },
        DataToken::ItemStart { len: Length::undefined() },
        DataToken::ElementHeader(header(0x0008, 0x0100, VR::SH, Length(6))),
        DataToken::PrimitiveValue(PrimitiveValue::Str("CODE1".to_string())),
        DataToken::ItemEnd,
        DataToken::ItemStart { len: Length::undefined() },
        DataToken::ItemEnd,
        DataToken::SequenceEnd,
        DataToken::ElementHeader(header(0x0010, 0x0010, VR::PN, Length(8))),
        DataToken::PrimitiveValue(PrimitiveValue::Str("SMITH^JOE".to_string())),
        DataToken::ItemEnd,
        DataToken::SequenceEnd,
    ];
    assert_eq!(make(inner).into_token_vec(), expected);
    assert_eq!(drain_element(make(inner2).into_tokens()), expected);
}

#[test]
fn encapsulated_pixel_data_tokens() {
    let make = || pixel_element(vec![], vec![vec![0xAA, 0xBB], vec![0xCC]]);
    let expected = vec![
        DataToken::PixelSequenceStart,
        DataToken::ItemStart { len: Length(0) },
        DataToken::ItemEnd,
        DataToken::ItemStart { len: Length(2) },
        DataToken::ItemValue(vec![0xAA, 0xBB]),
        DataToken::ItemEnd,
        DataToken::ItemStart { len: Length(1) },
        DataToken::ItemValue(vec![0xCC]),
        DataToken::ItemEnd,
        DataToken::SequenceEnd,
    ];
    assert_eq!(make().into_token_vec(), expected);
    assert_eq!(drain_element(make().into_tokens()), expected);
}

#[test]
fn pixel_data_with_offset_table_and_no_fragments() {
    let make = || pixel_element(vec![0, 0, 0, 0], vec![]);
    let expected = vec![
        DataToken::PixelSequenceStart,
        DataToken::ItemStart { len: Length(4) },
        DataToken::ItemValue(vec![0, 0, 0, 0]),
        DataToken::ItemEnd,
        DataToken::SequenceEnd,
    ];
    assert_eq!(make().into_token_vec(), expected);
    assert_eq!(drain_element(make().into_tokens()), expected);
}

#[test]
fn pixel_tag_with_defined_length_is_a_plain_element() {
    let h = header(0x7fe0, 0x0010, VR::OB, Length(3));
    let e = DataElement::new(h, Value::Primitive(PrimitiveValue::U8(vec![1, 2, 3])));
    assert_eq!(
        e.into_token_vec(),
        vec![
            DataToken::ElementHeader(h),
            DataToken::PrimitiveValue(PrimitiveValue::U8(vec![1, 2, 3])),
        ]
    );
}

#[test]
fn header_promotion_rules() {
    let pixel = header(0x7fe0, 0x0010, VR::OB, Length::undefined());
    assert_eq!(DataToken::from(pixel), DataToken::PixelSequenceStart);

    let seq = header(0x0040, 0x0275, VR::SQ, Length(20));
    assert_eq!(
        DataToken::from(seq),
        DataToken::SequenceStart { tag: Tag::new(0x0040, 0x0275), len: Length(20) }
    );

    let ob_defined = header(0x7fe0, 0x0010, VR::OB, Length(10));
    assert_eq!(DataToken::from(ob_defined), DataToken::ElementHeader(ob_defined));

    let ob_other_tag = header(0x7fe0, 0x0011, VR::OB, Length::undefined());
    assert_eq!(DataToken::from(ob_other_tag), DataToken::ElementHeader(ob_other_tag));

    let ow_pixel = header(0x7fe0, 0x0010, VR::OW, Length::undefined());
    assert_eq!(DataToken::from(ow_pixel), DataToken::ElementHeader(ow_pixel));

    let plain = header(0x0010, 0x0010, VR::PN, Length(8));
    assert_eq!(DataToken::from(plain), DataToken::ElementHeader(plain));
}

#[test]
fn undefined_lengths_compare_equal() {
    let a = DataToken::ItemStart { len: Length::undefined() };
    let b = DataToken::ItemStart { len: Length(0xFFFF_FFFF) };
    assert_eq!(a, b);
    assert_ne!(a, DataToken::ItemStart { len: Length(4) });
    assert_eq!(
        DataToken::SequenceStart { tag: Tag::new(1, 2), len: Length::undefined() },
        DataToken::SequenceStart { tag: Tag::new(1, 2), len: Length(0xFFFF_FFFF) }
    );
    assert_ne!(
        DataToken::SequenceStart { tag: Tag::new(1, 2), len: Length::undefined() },
        DataToken::SequenceStart { tag: Tag::new(1, 3), len: Length::undefined() }
    );
    assert!(Length::undefined().inner_eq(Length(0xFFFF_FFFF)));
    assert!(!Length::undefined().inner_eq(Length(7)));
    assert!(Length(7).inner_eq(Length(7)));
}

#[test]
fn token_equality_by_variant_and_content() {
    assert_eq!(DataToken::ItemEnd, DataToken::ItemEnd);
    assert_eq!(DataToken::SequenceEnd, DataToken::SequenceEnd);
    assert_eq!(DataToken::PixelSequenceStart, DataToken::PixelSequenceStart);
    assert_ne!(DataToken::ItemEnd, DataToken::SequenceEnd);
    assert_eq!(DataToken::ItemValue(vec![1, 2]), DataToken::ItemValue(vec![1, 2]));
    assert_ne!(DataToken::ItemValue(vec![1, 2]), DataToken::ItemValue(vec![1, 3]));
    assert_ne!(
        DataToken::PrimitiveValue(PrimitiveValue::U16(vec![1])),
        DataToken::PrimitiveValue(PrimitiveValue::U32(vec![1]))
    );
    assert_eq!(
        DataToken::PrimitiveValue(PrimitiveValue::U32(vec![9, 8])),
        DataToken::PrimitiveValue(PrimitiveValue::U32(vec![9, 8]))
    );
    assert_ne!(
        DataToken::ElementHeader(header(1, 1, VR::US, Length(2))),
        DataToken::ElementHeader(header(1, 1, VR::SS, Length(2)))
    );
}

#[test]
fn sequence_predicates() {
    let start = DataToken::SequenceStart { tag: Tag::new(1, 2), len: Length(0) };
    assert!(start.is_sequence_start());
    assert!(!start.is_sequence_end());
    assert!(DataToken::SequenceEnd.is_sequence_end());
    assert!(!DataToken::ItemEnd.is_sequence_end());
    assert!(!DataToken::PixelSequenceStart.is_sequence_start());
    assert!(!DataToken::PixelSequenceStart.is_sequence_end());
}

#[test]
fn item_value_tokens_of_empty_and_non_empty_buffers() {
    let mut t = ItemValueTokens::new(vec![]);
    assert_eq!(t.next(), Some(DataToken::ItemStart { len: Length(0) }));
    assert_eq!(t.next(), Some(DataToken::ItemEnd));
    assert_eq!(t.next(), None);
    assert_eq!(t.next(), None);

    let mut t = ItemValue(vec![5, 6, 7]).into_tokens();
    assert_eq!(t.next(), Some(DataToken::ItemStart { len: Length(3) }));
    assert_eq!(t.next(), Some(DataToken::ItemValue(vec![5, 6, 7])));
    assert_eq!(t.next(), Some(DataToken::ItemEnd));
    assert_eq!(t.next(), None);
}

#[test]
fn flatten_tokens_over_fragments() {
    let mut t = FlattenTokens::new(vec![vec![1], vec![], vec![2, 3]]);
    let mut out = Vec::new();
    while let Some(tok) = t.next() {
        out.push(tok);
    }
    assert_eq!(
        out,
        vec![
            DataToken::ItemStart { len: Length(1) },
            DataToken::ItemValue(vec![1]),
            DataToken::ItemEnd,
            DataToken::ItemStart { len: Length(0) },
            DataToken::ItemEnd,
            DataToken::ItemStart { len: Length(2) },
            DataToken::ItemValue(vec![2, 3]),
            DataToken::ItemEnd,
        ]
    );
    assert_eq!(t.next(), None);
    assert_eq!(FlattenTokens::new(vec![]).next(), None);
}

#[test]
fn item_tokens_wrap_a_data_set() {
    let mut t = AsItem(Length(14), vec![code_element()]).into_tokens();
    assert_eq!(t.next(), Some(DataToken::ItemStart { len: Length(14) }));
    assert_eq!(t.next(), Some(DataToken::ElementHeader(header(0x0008, 0x0100, VR::SH, Length(6)))));
    assert_eq!(
        t.next(),
        Some(DataToken::PrimitiveValue(PrimitiveValue::Str("CODE1".to_string())))
    );
    assert_eq!(t.next(), Some(DataToken::ItemEnd));
    assert_eq!(t.next(), None);

    let mut empty = ItemTokens::new(Length(0), vec![]);
    assert_eq!(empty.next(), Some(DataToken::ItemStart { len: Length(0) }));
    assert_eq!(empty.next(), Some(DataToken::ItemEnd));
    assert_eq!(empty.next(), None);
}

#[test]
fn sequence_items_tokens_in_order() {
    let mut t = SequenceItemsTokens::new(vec![vec![], vec![code_element()]]);
    let mut out = Vec::new();
    while let Some(tok) = t.next() {
        out.push(tok);
    }
    assert_eq!(out.len(), 6);
    assert_eq!(out[0], DataToken::ItemStart { len: Length::undefined() });
    assert_eq!(out[1], DataToken::ItemEnd);
    assert_eq!(out[2], DataToken::ItemStart { len: Length::undefined() });
    assert_eq!(out[5], DataToken::ItemEnd);
}

#[test]
fn one_token_per_advance_then_none() {
    let mut t = pixel_element(vec![], vec![vec![0xCC]]).into_tokens();
    let mut count = 0;
    while t.next().is_some() {
        count += 1;
    }
    assert_eq!(count, 7);
    assert_eq!(t.next(), None);
    assert_eq!(t.next(), None);
}

#[test]
fn data_set_tokens_concatenate_elements() {
    let tokens = object_into_tokens(vec![code_element(), patient_name()]);
    assert_eq!(tokens.len(), 4);
    assert_eq!(tokens[0], DataToken::ElementHeader(header(0x0008, 0x0100, VR::SH, Length(6))));
    assert_eq!(tokens[2], DataToken::ElementHeader(header(0x0010, 0x0010, VR::PN, Length(8))));
    assert!(object_into_tokens(vec![]).is_empty());
}

#[test]
fn well_bracketed_sequence_stream() {
    let e = DataElement::new(
        header(0x0040, 0x0275, VR::SQ, Length::undefined()),
        Value::Sequence {
            items: vec![vec![pixel_element(vec![1], vec![vec![2]])], vec![code_element()]],
            size: Length::undefined(),
        },
    );
    let mut open = Vec::new();
    for tok in e.into_token_vec() {
        match tok {
            DataToken::SequenceStart { .. } | DataToken::PixelSequenceStart => {
                open.push(SeqTokenType::Sequence)
            }
            DataToken::ItemStart { .. } => open.push(SeqTokenType::Item),
            DataToken::SequenceEnd => assert_eq!(open.pop(), Some(SeqTokenType::Sequence)),
            DataToken::ItemEnd => assert_eq!(open.pop(), Some(SeqTokenType::Item)),
            _ => {}
        }
    }
    assert!(open.is_empty());
}

#[test]
fn length_and_value_accessors() {
    assert!(Length::undefined().is_undefined());
    assert!(!Length(3).is_undefined());
    assert!(Length(3).is_defined());
    assert_eq!(Length(3).get(), Some(3));
    assert_eq!(Length::undefined().get(), None);
    assert_eq!(PrimitiveValue::Str("A".to_string()).value_type(), ValueType::Str);
    assert_eq!(PrimitiveValue::Empty.value_type(), ValueType::Empty);
    let h = header(0x0028, 0x0010, VR::US, Length(2));
    assert_eq!(h.tag(), Tag::new(0x0028, 0x0010));
    assert_eq!(h.vr(), VR::US);
    assert_eq!(h.len(), Length(2));
    let e = DataElement::new(h, Value::Primitive(PrimitiveValue::U16(vec![512])));
    assert_eq!(*e.header(), h);
    match e.into_value() {
        Value::Primitive(v) => assert_eq!(v, PrimitiveValue::U16(vec![512])),
        _ => panic!("expected a primitive value"),
    }
}
