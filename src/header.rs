//! The primitive DICOM types that the token layer observes: tags, value
//! representations, lengths, element headers and primitive values.
use vstd::prelude::*;

verus! {

/// The raw value that marks an undefined (delimiter-terminated) length.
pub const UNDEFINED_LEN: u32 = 0xFFFF_FFFF;

/// A DICOM tag: a `(group, element)` pair.
#[derive(Debug, Clone, Copy, PartialEq, Eq, Structural)]
pub struct Tag {
    pub group: u16,
    pub element: u16,
}

impl Tag {
    pub fn new(group: u16, element: u16) -> (r: Tag)
        ensures
            r.group == group,
            r.element == element,
    {
        Tag { group, element }
    }
}

/// A value representation: the two-letter code of how a value is encoded.
#[allow(non_camel_case_types)]
#[derive(Debug, Clone, Copy, PartialEq, Eq, Structural)]
pub enum VR {
    AE,
    AS,
    AT,
    CS,
    DA,
    DS,
    DT,
    FL,
    FD,
    IS,
    LO,
    LT,
    OB,
    OD,
    OF,
    OL,
    OW,
    PN,
    SH,
    SL,
    SQ,
    SS,
    ST,
    TM,
    UC,
    UI,
    UL,
    UN,
    UR,
    US,
    UT,
}

/// A 32-bit element or item length, where `UNDEFINED_LEN` stands for an
/// undefined length.
#[derive(Debug, Clone, Copy, PartialEq, Eq, Structural)]
pub struct Length(pub u32);

impl Length {
    pub open spec fn spec_is_undefined(self) -> bool {
        self.0 == UNDEFINED_LEN
    }

    /// The undefined length.
    pub fn undefined() -> (r: Length)
        ensures
            r.spec_is_undefined(),
    {
        Length(UNDEFINED_LEN)
    }

    /// Whether this length is undefined.
    #[verifier::when_used_as_spec(spec_is_undefined)]
    pub fn is_undefined(self) -> (r: bool)
        ensures
            r == self.spec_is_undefined(),
    {
        self.0 == UNDEFINED_LEN
    }

    /// Whether this length is defined.
    pub fn is_defined(self) -> (r: bool)
        ensures
            r == !self.spec_is_undefined(),
    {
        self.0 != UNDEFINED_LEN
    }

    /// The number of bytes, if the length is defined.
    pub fn get(self) -> (r: Option<u32>)
        ensures
            r == (if self.spec_is_undefined() { None } else { Some(self.0) }),
    {
        if self.0 == UNDEFINED_LEN {
            None
        } else {
            Some(self.0)
        }
    }

    pub open spec fn spec_inner_eq(self, other: Length) -> bool {
        (self.spec_is_undefined() && other.spec_is_undefined()) || (!self.spec_is_undefined()
            && !other.spec_is_undefined() && self.0 == other.0)
    }

    /// Length equality that holds any two undefined lengths as equal, and
    /// two defined lengths as equal when they count the same bytes.
    #[verifier::when_used_as_spec(spec_inner_eq)]
    pub fn inner_eq(self, other: Length) -> (r: bool)
        ensures
            r == self.spec_inner_eq(other),
    {
        if self.is_undefined() {
            other.is_undefined()
        } else {
            !other.is_undefined() && self.0 == other.0
        }
    }
}

/// The header of a data element.
#[derive(Debug, Clone, Copy, PartialEq, Eq, Structural)]
pub struct DataElementHeader {
    pub tag: Tag,
    pub vr: VR,
    pub len: Length,
}

impl DataElementHeader {
    pub fn new(tag: Tag, vr: VR, len: Length) -> (r: DataElementHeader)
        ensures
            r.tag == tag,
            r.vr == vr,
            r.len == len,
    {
        DataElementHeader { tag, vr, len }
    }

    pub fn tag(&self) -> (r: Tag)
        ensures
            r == self.tag,
    {
        self.tag
    }

    pub fn vr(&self) -> (r: VR)
        ensures
            r == self.vr,
    {
        self.vr
    }

    pub fn len(&self) -> (r: Length)
        ensures
            r == self.len,
    {
        self.len
    }
}

/// The kind of a primitive value, without its content.
#[derive(Debug, Clone, Copy, PartialEq, Eq, Structural)]
pub enum ValueType {
    Empty,
    Str,
    U8,
    U16,
    U32,
}

/// The value of a primitive (non-nested) data element.
#[derive(Debug, Clone)]
pub enum PrimitiveValue {
    Empty,
    Str(String),
    U8(Vec<u8>),
    U16(Vec<u16>),
    U32(Vec<u32>),
}

impl PrimitiveValue {
    pub open spec fn spec_value_type(&self) -> ValueType {
        match self {
            PrimitiveValue::Empty => ValueType::Empty,
            PrimitiveValue::Str(_) => ValueType::Str,
            PrimitiveValue::U8(_) => ValueType::U8,
            PrimitiveValue::U16(_) => ValueType::U16,
            PrimitiveValue::U32(_) => ValueType::U32,
        }
    }

    /// The discriminator of this value.
    pub fn value_type(&self) -> (r: ValueType)
        ensures
            r == self.spec_value_type(),
    {
        match self {
            PrimitiveValue::Empty => ValueType::Empty,
            PrimitiveValue::Str(_) => ValueType::Str,
            PrimitiveValue::U8(_) => ValueType::U8,
            PrimitiveValue::U16(_) => ValueType::U16,
            PrimitiveValue::U32(_) => ValueType::U32,
        }
    }

    /// Equality of content: same kind and the same sequence of values.
    pub open spec fn same_content(&self, other: &PrimitiveValue) -> bool {
        match (self, other) {
            (PrimitiveValue::Empty, PrimitiveValue::Empty) => true,
            (PrimitiveValue::Str(a), PrimitiveValue::Str(b)) => a@ == b@,
            (PrimitiveValue::U8(a), PrimitiveValue::U8(b)) => a@ == b@,
            (PrimitiveValue::U16(a), PrimitiveValue::U16(b)) => a@ == b@,
            (PrimitiveValue::U32(a), PrimitiveValue::U32(b)) => a@ == b@,
            _ => false,
        }
    }
}

/// Element-wise equality of two `u8` vectors.
pub fn u8_vec_eq(a: &Vec<u8>, b: &Vec<u8>) -> (r: bool)
    ensures
        r == (a@ == b@),
{
    if a.len() != b.len() {
        return false;
    }
    let mut i: usize = 0;
    while i < a.len()
        invariant
            a.len() == b.len(),
            i <= a.len(),
            forall|j: int| 0 <= j < i ==> a@[j] == b@[j],
        decreases a.len() - i,
    {
        if a[i] != b[i] {
            return false;
        }
        i = i + 1;
    }
    assert(a@ =~= b@);
    true
}

/// Element-wise equality of two `u16` vectors.
pub fn u16_vec_eq(a: &Vec<u16>, b: &Vec<u16>) -> (r: bool)
    ensures
        r == (a@ == b@),
{
    if a.len() != b.len() {
        return false;
    }
    let mut i: usize = 0;
    while i < a.len()
        invariant
            a.len() == b.len(),
            i <= a.len(),
            forall|j: int| 0 <= j < i ==> a@[j] == b@[j],
        decreases a.len() - i,
    {
        if a[i] != b[i] {
            return false;
        }
        i = i + 1;
    }
    assert(a@ =~= b@);
    true
}

/// Element-wise equality of two `u32` vectors.
pub fn u32_vec_eq(a: &Vec<u32>, b: &Vec<u32>) -> (r: bool)
    ensures
        r == (a@ == b@),
{
    if a.len() != b.len() {
        return false;
    }
    let mut i: usize = 0;
    while i < a.len()
        invariant
            a.len() == b.len(),
            i <= a.len(),
            forall|j: int| 0 <= j < i ==> a@[j] == b@[j],
        decreases a.len() - i,
    {
        if a[i] != b[i] {
            return false;
        }
        i = i + 1;
    }
    assert(a@ =~= b@);
    true
}

impl PartialEq for PrimitiveValue {
    fn eq(&self, other: &PrimitiveValue) -> (r: bool) {
        match (self, other) {
            (PrimitiveValue::Empty, PrimitiveValue::Empty) => true,
            (PrimitiveValue::Str(a), PrimitiveValue::Str(b)) => *a == *b,
            (PrimitiveValue::U8(a), PrimitiveValue::U8(b)) => u8_vec_eq(a, b),
            (PrimitiveValue::U16(a), PrimitiveValue::U16(b)) => u16_vec_eq(a, b),
            (PrimitiveValue::U32(a), PrimitiveValue::U32(b)) => u32_vec_eq(a, b),
            _ => false,
        }
    }
}

impl vstd::std_specs::cmp::PartialEqSpecImpl for PrimitiveValue {
    open spec fn obeys_eq_spec() -> bool {
        true
    }

    open spec fn eq_spec(&self, other: &PrimitiveValue) -> bool {
        self.same_content(other)
    }
}

} // verus!
