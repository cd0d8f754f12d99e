//! Tagged-pointer implementation for the 64-bit reference architecture.
//!
//! A pointer is one 64-bit machine word.  The top 16 bits hold a kind tag
//! deciding how the rest is interpreted, bits 32..=47 are a handle field
//! reserved for a future indirect addressing scheme, and the low bits hold
//! an address or a region-relative value.  Only a word whose tag bits are
//! exactly the `Native` encoding decodes into a real process address.

use crate::const_init::ConstInit;
use crate::pointer::traits::Pointer;
use core::cmp::Ordering;
use vstd::prelude::*;
use vstd::std_specs::cmp::PartialEqSpec;
use vstd::std_specs::cmp::PartialOrdSpec;
use vstd::string::StringExecFns;

verus! {

/// Width in bits of everything below the kind tag: the tag occupies the
/// top 16 bits of the 64-bit word.
pub const PTR_TAG_MASK_SHIFT: u64 = 48;

/// Mask of the kind-tag bits.
pub const PTR_KIND_MASK: u64 = 0xffff_0000_0000_0000;

/// Shift of the handle field, which sits in bits 32..=47.
pub const PTR_HANDLE_MASK_SHIFT: u64 = 32;

/// Mask of the handle field.
pub const PTR_HANDLE_MASK: u64 = 0x0000_ffff_0000_0000;

/// Mask of everything below the kind tag.
pub const PTR_VALUE_MASK: u64 = 0x0000_ffff_ffff_ffff;

/// Shift of the region-offset field (the low bits of the word).
pub const PTR_REGION_OFFSET_SHIFT: u64 = 0;

/// Mask of the region-offset field.
pub const PTR_REGION_OFFSET_MASK: u64 = 0x0000_0000_ffff_ffff;

/// Largest value the region-offset field can hold.
pub const PTR_REGION_OFFSET_MAX: u64 = 0xffff_ffff;

/// Tag value of the `Native` kind: all tag bits zero.
pub const TAG_NATIVE: u16 = 0x0000;

/// Tag value of the `Unknown` kind: all tag bits but the lowest set.
pub const TAG_UNKNOWN: u16 = 0xfffe;

/// Tag value of the `Dangling` kind: all tag bits set.
pub const TAG_DANGLING: u16 = 0xffff;

/// The `Native` tag placed in a word: zero.
pub const KIND_NATIVE_BITS: u64 = 0x0000_0000_0000_0000;

/// The `Unknown` tag placed in a word.
pub const KIND_UNKNOWN_BITS: u64 = 0xfffe_0000_0000_0000;

/// The `Dangling` tag placed in a word.
pub const KIND_DANGLING_BITS: u64 = 0xffff_0000_0000_0000;

/// The part of a word below the kind tag: for a `Native` word, the
/// literal address bits.
pub open spec fn data_of_word(w: u64) -> u64 {
    w & PTR_VALUE_MASK
}

/// The handle field of a word, moved down to its numeric value.
pub open spec fn handle_of_word(w: u64) -> u64 {
    (w & PTR_HANDLE_MASK) >> PTR_HANDLE_MASK_SHIFT
}

/// The region-offset field of a word, moved down to its numeric value.
pub open spec fn region_offset_of_word(w: u64) -> u64 {
    (w & PTR_REGION_OFFSET_MASK) >> PTR_REGION_OFFSET_SHIFT
}

/// The kind-tag bits of a word, moved down into a 16-bit tag value.
pub open spec fn tag_of_word(w: u64) -> u16 {
    ((w & PTR_KIND_MASK) >> PTR_TAG_MASK_SHIFT) as u16
}

/// A 16-bit tag value placed back into the tag bits of a word.
pub open spec fn word_of_tag(t: u16) -> u64 {
    (t as u64) << PTR_TAG_MASK_SHIFT
}

/// The tag value that encodes a pointer kind.
pub open spec fn tag_of_kind(k: PtrKind) -> u16 {
    match k {
        PtrKind::Native => TAG_NATIVE,
        PtrKind::Unknown => TAG_UNKNOWN,
        PtrKind::Dangling => TAG_DANGLING,
    }
}

/// The kind a 16-bit tag value decodes to, or `None` when the tag matches
/// none of the defined kinds.
pub open spec fn kind_of_tag(t: u16) -> Option<PtrKind> {
    if t == TAG_NATIVE {
        Some(PtrKind::Native)
    } else if t == TAG_UNKNOWN {
        Some(PtrKind::Unknown)
    } else if t == TAG_DANGLING {
        Some(PtrKind::Dangling)
    } else {
        None
    }
}

/// Error returned when a 16-bit tag value matches none of the defined
/// pointer kinds; it carries the offending tag bits as they would sit in a
/// machine word.
#[derive(Copy, Clone, Debug, PartialEq, Eq, Structural)]
pub struct BadPtrKind(pub u64);

/// The closed set of pointer kinds defined today.  The tag field is wider
/// than the set, on purpose: future architecture modules may add kinds
/// using previously-unused tag values.
#[derive(Copy, Clone, Debug, PartialEq, Eq, Structural, PartialOrd, Ord, Hash)]
#[non_exhaustive]
pub enum PtrKind {
    /// The remaining bits are a literal, dereferenceable process address.
    Native,
    /// The tag is recognized but its semantics are not implemented yet.
    Unknown,
    /// Reserved sentinel: a valid, non-null, never-dereferenced reference.
    Dangling,
}

/// Placing a tag value into the top 16 bits of a word loses nothing, so
/// two tag values collide on a word only when they are equal.
proof fn lemma_tag_shift(t: u16)
    by (bit_vector)
    ensures
        ((t as u64) << 48) == 0 <==> t == 0x0000,
        ((t as u64) << 48) == 0xfffe_0000_0000_0000u64 <==> t == 0xfffe,
        ((t as u64) << 48) == 0xffff_0000_0000_0000u64 <==> t == 0xffff,
{
}

impl PtrKind {
    /// The 16-bit tag value that encodes this kind.
    pub fn into_tag(self) -> (t: u16)
        ensures
            t == tag_of_kind(self),
    {
        match self {
            PtrKind::Native => TAG_NATIVE,
            PtrKind::Unknown => TAG_UNKNOWN,
            PtrKind::Dangling => TAG_DANGLING,
        }
    }

    /// Decodes a raw 16-bit tag value into a kind.  This is the one
    /// recoverable conversion: tag values may come from data this layer
    /// did not produce, so an unmapped value is reported as a typed error
    /// rather than treated as fatal.
    pub fn try_from(tag: u16) -> (r: Result<PtrKind, BadPtrKind>)
        ensures
            r is Ok <==> kind_of_tag(tag) is Some,
            r matches Ok(k) ==> Some(k) == kind_of_tag(tag),
            r matches Err(e) ==> kind_of_tag(tag) is None && e.0 == word_of_tag(tag),
    {
        proof {
            lemma_tag_shift(tag);
        }
        let value: u64 = (tag as u64) << PTR_TAG_MASK_SHIFT;
        if value == KIND_NATIVE_BITS {
            Ok(PtrKind::Native)
        } else if value == KIND_DANGLING_BITS {
            Ok(PtrKind::Dangling)
        } else if value == KIND_UNKNOWN_BITS {
            Ok(PtrKind::Unknown)
        } else {
            Err(BadPtrKind(value))
        }
    }
}

/// The untyped raw pointer of this architecture: one bit-packed machine
/// word, interpreted through its kind tag.
#[derive(Copy, Clone, Debug, PartialEq, Eq, Structural, Hash)]
pub struct RawPtr(u64);

impl RawPtr {
    /// The machine word this pointer is stored as.
    pub closed spec fn word(self) -> u64 {
        self.0
    }

    /// The kind-tag bits of this pointer, as a 16-bit tag value.
    pub open spec fn tag(self) -> u16 {
        tag_of_word(self.word())
    }

    /// The kind this pointer's tag decodes to, if any.
    pub open spec fn kind_spec(self) -> Option<PtrKind> {
        kind_of_tag(self.tag())
    }

    /// True when the tag bits are exactly the `Native` encoding: the only
    /// words guaranteed to decode into a real, dereferenceable address.
    pub open spec fn is_native(self) -> bool {
        self.tag() == TAG_NATIVE
    }

    /// True when the whole word is zero.
    pub open spec fn spec_is_null(self) -> bool {
        self.word() == 0
    }

    /// Tags a real process address as `Native`, storing it verbatim; an
    /// ordinary address has its top tag bits already zero.
    pub fn new(addr: u64) -> (r: RawPtr)
        ensures
            r.word() == addr,
    {
        RawPtr(addr)
    }

    /// The all-zero word.
    pub fn null() -> (r: RawPtr)
        ensures
            r.word() == 0,
            r.spec_is_null(),
            r.is_native(),
    {
        proof {
            lemma_word_tags(0);
        }
        RawPtr(0)
    }

    /// The all-zero word, named for call sites that hand out mutable
    /// system pointers.
    pub fn null_mut() -> (r: RawPtr)
        ensures
            r.word() == 0,
            r.spec_is_null(),
            r.is_native(),
    {
        RawPtr::null()
    }

    /// The all-one word: the reserved `Dangling` sentinel, bit-for-bit
    /// distinct from `null`.
    pub fn dangling() -> (r: RawPtr)
        ensures
            r.word() == u64::MAX,
            !r.spec_is_null(),
            r.tag() == TAG_DANGLING,
    {
        proof {
            lemma_word_tags(u64::MAX);
        }
        RawPtr(u64::MAX)
    }

    /// Pure comparison against the all-zero word, independent of how the
    /// kind tag would be interpreted.
    pub fn is_null(self) -> (r: bool)
        ensures
            r == self.spec_is_null(),
    {
        self.0 == 0
    }

    /// The encoded address as an in-memory pointer width value.  Only the
    /// `Native` kind decodes; operating on any other kind is an invariant
    /// violation, ruled out by the precondition.
    pub fn to_usize(self) -> (r: usize)
        requires
            self.is_native(),
            self.word() <= usize::MAX,
        ensures
            r == self.word(),
    {
        self.as_ptr() as usize
    }

    /// The encoded address.  Only the `Native` kind holds one; decoding
    /// any other kind would misread tag bits as address bits, so the
    /// precondition rules it out.
    pub fn as_ptr(self) -> (r: u64)
        requires
            self.is_native(),
        ensures
            r == self.word(),
    {
        self.raw_value()
    }

    /// Pointer arithmetic: adds `n` to the raw value.  Only defined for
    /// the `Native` kind — on any other kind the addition could corrupt
    /// the kind-tag bits — and the caller asserts that the resulting
    /// address is valid and fits the machine word.
    pub fn offset(self, n: i64) -> (r: RawPtr)
        requires
            self.is_native(),
            0 <= self.word() + n <= u64::MAX,
        ensures
            r.word() == self.word() + n,
    {
        if n >= 0 {
            RawPtr(self.0 + (n as u64))
        } else {
            let m: u64 = ((-(n + 1)) as u64) + 1;
            RawPtr(self.0 - m)
        }
    }

    /// Reinterprets this raw pointer as a typed pointer.  The caller
    /// asserts that the encoded address really holds a value of type `T`.
    pub fn downcast<T>(self) -> (r: Ptr<T>)
        ensures
            r.word() == self.word(),
    {
        Ptr::new(self)
    }

    /// Pointer arithmetic that reports overflow of the machine word by
    /// returning `None` instead of a result.  As with `offset`, only the
    /// `Native` kind admits arithmetic at all.
    pub fn checked_add(self, n: u64) -> (r: Option<RawPtr>)
        requires
            self.is_native(),
        ensures
            self.word() + n <= u64::MAX ==> (r matches Some(p) && p.word() == self.word() + n),
            self.word() + n > u64::MAX ==> r is None,
    {
        match self.0.checked_add(n) {
            Some(v) => Some(RawPtr(v)),
            None => None,
        }
    }

    /// Extracts the tag bits and maps them onto the kind they encode.
    /// The precondition restricts this to the three tag values defined
    /// today: a word carrying any other tag was not produced by this
    /// layer's constructors and must be treated as corrupted.
    pub fn kind(self) -> (k: PtrKind)
        requires
            self.kind_spec() is Some,
        ensures
            Some(k) == self.kind_spec(),
    {
        proof {
            lemma_word_tags(self.0);
        }
        let bits: u64 = self.0 & PTR_KIND_MASK;
        if bits == KIND_NATIVE_BITS {
            PtrKind::Native
        } else if bits == KIND_UNKNOWN_BITS {
            PtrKind::Unknown
        } else if bits == KIND_DANGLING_BITS {
            PtrKind::Dangling
        } else {
            unreached()
        }
    }

    /// The raw word, verbatim, with no interpretation applied.
    pub fn raw_value(self) -> (r: u64)
        ensures
            r == self.word(),
    {
        self.0
    }

    /// The handle field and the region-offset field, extracted from the
    /// word; today nothing beyond this extraction interprets them.
    pub fn handle_offset_pair(self) -> (r: (u64, u64))
        ensures
            r.0 == handle_of_word(self.word()),
            r.1 == region_offset_of_word(self.word()),
    {
        let value = self.raw_value();
        let handle = (value & PTR_HANDLE_MASK) >> PTR_HANDLE_MASK_SHIFT;
        let offset = (value & PTR_REGION_OFFSET_MASK) >> PTR_REGION_OFFSET_SHIFT;
        (handle, offset)
    }

    /// Everything below the kind tag: the value field of the word.
    pub fn data(self) -> (r: u64)
        ensures
            r == data_of_word(self.word()),
    {
        self.0 & PTR_VALUE_MASK
    }
}

impl PartialOrd for RawPtr {
    /// Total order on the raw bit pattern of the word.
    fn partial_cmp(&self, other: &Self) -> (r: Option<Ordering>) {
        if self.0 < other.0 {
            Some(Ordering::Less)
        } else if self.0 == other.0 {
            Some(Ordering::Equal)
        } else {
            Some(Ordering::Greater)
        }
    }
}

impl vstd::std_specs::cmp::PartialOrdSpecImpl for RawPtr {
    open spec fn obeys_partial_cmp_spec() -> bool {
        true
    }

    open spec fn partial_cmp_spec(&self, other: &Self) -> Option<Ordering> {
        if self.word() < other.word() {
            Some(Ordering::Less)
        } else if self.word() == other.word() {
            Some(Ordering::Equal)
        } else {
            Some(Ordering::Greater)
        }
    }
}

impl Pointer for RawPtr {
    open spec fn ptr_word(self) -> u64 {
        self.word()
    }

    fn null() -> (r: Self) {
        RawPtr::null()
    }

    fn dangling() -> (r: Self) {
        RawPtr::dangling()
    }

    fn as_ptr(&self) -> (r: u64) {
        RawPtr::as_ptr(*self)
    }

    fn as_mut_ptr(&self) -> (r: u64) {
        RawPtr::as_ptr(*self)
    }

    fn upcast(self) -> (r: RawPtr) {
        self
    }

    fn is_null(self) -> (r: bool) {
        RawPtr::is_null(self)
    }
}

impl ConstInit for RawPtr {
    /// The canonical default raw pointer: the all-zero word.
    closed spec fn spec_init() -> Self {
        RawPtr(0)
    }

    fn const_init() -> (r: Self)
        ensures
            r.spec_is_null(),
    {
        RawPtr::null()
    }
}

/// A typed pointer: an untyped raw pointer annotated with a marker that
/// exists only at compile time.  The marker gives call sites type-safe
/// use without changing the encoded bits, so equality and ordering are
/// exactly those of the underlying raw word.  The wrapper never owns the
/// memory it may reference.
#[derive(Debug, Hash)]
pub struct Ptr<T> {
    raw: RawPtr,
    _type: core::marker::PhantomData<T>,
}

impl<T> Ptr<T> {
    /// The untyped raw pointer underneath.
    pub closed spec fn untyped(self) -> RawPtr {
        self.raw
    }

    /// The machine word this pointer is stored as.
    pub open spec fn word(self) -> u64 {
        self.untyped().word()
    }

    /// True when the whole word is zero.
    pub open spec fn spec_is_null(self) -> bool {
        self.word() == 0
    }

    /// Wraps a raw pointer, declaring that it points to a `T`; the
    /// declaration is the caller's assertion, not checked here.
    pub fn new(raw: RawPtr) -> (r: Self)
        ensures
            r.untyped() == raw,
    {
        Ptr { raw, _type: core::marker::PhantomData }
    }

    /// The encoded address, readable; only the `Native` kind decodes.
    pub fn as_ptr(&self) -> (r: u64)
        requires
            (*self).untyped().is_native(),
        ensures
            r == (*self).word(),
    {
        self.raw.as_ptr()
    }

    /// The encoded address, for writing through; the same bits as
    /// `as_ptr` returns.
    pub fn as_mut_ptr(&self) -> (r: u64)
        requires
            (*self).untyped().is_native(),
        ensures
            r == (*self).word(),
    {
        self.raw.as_ptr()
    }

    /// The all-zero typed pointer.
    pub fn null() -> (r: Self)
        ensures
            r.word() == 0,
            r.spec_is_null(),
            r.untyped().is_native(),
    {
        Ptr { raw: RawPtr::null(), _type: core::marker::PhantomData }
    }

    /// The reserved non-dereferenceable sentinel, the all-one word: the
    /// same sentinel the raw type uses, kept bit-for-bit distinct from
    /// `null`.  Whether a typed dangling pointer must stay a reserved
    /// non-zero value or may collapse into null is an open question for
    /// whoever owns the allocator's semantics; the distinct sentinel is
    /// the conservative reading.
    pub fn dangling() -> (r: Self)
        ensures
            r.word() == u64::MAX,
            !r.spec_is_null(),
            r.untyped().tag() == TAG_DANGLING,
    {
        Ptr { raw: RawPtr::dangling(), _type: core::marker::PhantomData }
    }

    /// Pure comparison against the all-zero word.
    pub fn is_null(self) -> (r: bool)
        ensures
            r == self.spec_is_null(),
    {
        self.raw.is_null()
    }

    /// The encoded address, as a mutable system pointer would hold it.
    pub fn as_mut(self) -> (r: u64)
        requires
            self.untyped().is_native(),
        ensures
            r == self.word(),
    {
        self.raw.as_ptr()
    }

    /// Conversion from the address a mutable system pointer encodes.
    pub fn from_mut_addr(addr: u64) -> (r: Self)
        ensures
            r.word() == addr,
    {
        Ptr { raw: RawPtr::new(addr), _type: core::marker::PhantomData }
    }

    /// Conversion from the address an immutable system pointer encodes;
    /// the resulting bits are identical to `from_mut_addr`'s.
    pub fn from_const_addr(addr: u64) -> (r: Self)
        ensures
            r.word() == addr,
    {
        Ptr { raw: RawPtr::new(addr), _type: core::marker::PhantomData }
    }
}

impl<T> Clone for Ptr<T> {
    /// Copies the raw word; the type marker has no runtime form.
    fn clone(&self) -> (r: Self)
        ensures
            r == *self,
    {
        *self
    }
}

impl<T> Copy for Ptr<T> {}

impl<T> PartialEq for Ptr<T> {
    /// Equality of the underlying raw bit patterns; the type marker
    /// never takes part.
    fn eq(&self, other: &Self) -> (r: bool) {
        self.raw == other.raw
    }
}

impl<T> vstd::std_specs::cmp::PartialEqSpecImpl for Ptr<T> {
    open spec fn obeys_eq_spec() -> bool {
        true
    }

    open spec fn eq_spec(&self, other: &Self) -> bool {
        (*self).word() == (*other).word()
    }
}

impl<T> PartialOrd for Ptr<T> {
    /// The order of the underlying raw bit patterns.
    fn partial_cmp(&self, other: &Self) -> (r: Option<Ordering>) {
        self.raw.partial_cmp(&other.raw)
    }
}

impl<T> vstd::std_specs::cmp::PartialOrdSpecImpl for Ptr<T> {
    open spec fn obeys_partial_cmp_spec() -> bool {
        true
    }

    open spec fn partial_cmp_spec(&self, other: &Self) -> Option<Ordering> {
        if (*self).word() < (*other).word() {
            Some(Ordering::Less)
        } else if (*self).word() == (*other).word() {
            Some(Ordering::Equal)
        } else {
            Some(Ordering::Greater)
        }
    }
}

impl<T> Pointer for Ptr<T> {
    open spec fn ptr_word(self) -> u64 {
        self.word()
    }

    fn null() -> (r: Self) {
        Ptr::null()
    }

    fn dangling() -> (r: Self) {
        Ptr::dangling()
    }

    fn as_ptr(&self) -> (r: u64) {
        Ptr::as_ptr(self)
    }

    fn as_mut_ptr(&self) -> (r: u64) {
        Ptr::as_mut_ptr(self)
    }

    fn upcast(self) -> (r: RawPtr) {
        self.raw
    }

    fn is_null(self) -> (r: bool) {
        Ptr::is_null(self)
    }
}

impl<T> ConstInit for Ptr<T> {
    /// The canonical default typed pointer: the null-equivalent value.
    closed spec fn spec_init() -> Self {
        Ptr { raw: RawPtr(0), _type: core::marker::PhantomData }
    }

    fn const_init() -> (r: Self)
        ensures
            r.spec_is_null(),
    {
        Ptr::null()
    }
}

/// The character that writes one hexadecimal digit value.
pub open spec fn hex_digit_char(d: u64) -> char {
    if d == 0 {
        '0'
    } else if d == 1 {
        '1'
    } else if d == 2 {
        '2'
    } else if d == 3 {
        '3'
    } else if d == 4 {
        '4'
    } else if d == 5 {
        '5'
    } else if d == 6 {
        '6'
    } else if d == 7 {
        '7'
    } else if d == 8 {
        '8'
    } else if d == 9 {
        '9'
    } else if d == 10 {
        'a'
    } else if d == 11 {
        'b'
    } else if d == 12 {
        'c'
    } else if d == 13 {
        'd'
    } else if d == 14 {
        'e'
    } else {
        'f'
    }
}

/// The sixteen hexadecimal digits of a word, most significant first.
pub open spec fn hex_digits_of_word(w: u64) -> Seq<char> {
    Seq::new(16, |i: int| hex_digit_char((w >> (((15 - i) * 4) as u64)) & 0xf))
}

/// The textual form of a word: `0x` followed by its sixteen digits.
pub open spec fn hex_repr_of_word(w: u64) -> Seq<char> {
    seq!['0', 'x'] + hex_digits_of_word(w)
}

/// One hexadecimal digit value as text.
fn hex_digit_str(d: u64) -> (r: &'static str)
    requires
        d < 16,
    ensures
        r@ == seq![hex_digit_char(d)],
{
    let r: &'static str = if d == 0 {
        "0"
    } else if d == 1 {
        "1"
    } else if d == 2 {
        "2"
    } else if d == 3 {
        "3"
    } else if d == 4 {
        "4"
    } else if d == 5 {
        "5"
    } else if d == 6 {
        "6"
    } else if d == 7 {
        "7"
    } else if d == 8 {
        "8"
    } else if d == 9 {
        "9"
    } else if d == 10 {
        "a"
    } else if d == 11 {
        "b"
    } else if d == 12 {
        "c"
    } else if d == 13 {
        "d"
    } else if d == 14 {
        "e"
    } else {
        "f"
    };
    proof {
        reveal_strlit("0");
        reveal_strlit("1");
        reveal_strlit("2");
        reveal_strlit("3");
        reveal_strlit("4");
        reveal_strlit("5");
        reveal_strlit("6");
        reveal_strlit("7");
        reveal_strlit("8");
        reveal_strlit("9");
        reveal_strlit("a");
        reveal_strlit("b");
        reveal_strlit("c");
        reveal_strlit("d");
        reveal_strlit("e");
        reveal_strlit("f");
        assert(r@ =~= seq![hex_digit_char(d)]);
    }
    r
}

/// The sixteen-digit hexadecimal text of a word.
pub fn hex_string(w: u64) -> (s: String)
    ensures
        s@ == hex_repr_of_word(w),
{
    let mut s = String::from_str("0x");
    proof {
        reveal_strlit("0x");
        assert(s@ =~= seq!['0', 'x']);
    }
    let mut i: usize = 0;
    while i < 16
        invariant
            i <= 16,
            s@ == seq!['0', 'x'] + Seq::new(
                i as nat,
                |j: int| hex_digit_char((w >> (((15 - j) * 4) as u64)) & 0xf),
            ),
        decreases 16 - i,
    {
        let sh: u64 = 60 - 4 * (i as u64);
        let d: u64 = (w >> sh) & 0xf;
        assert((w >> sh) & 0xf < 16) by (bit_vector);
        s.append(hex_digit_str(d));
        proof {
            assert(sh == ((15 - i as int) * 4) as u64);
            assert(s@ =~= seq!['0', 'x'] + Seq::new(
                (i + 1) as nat,
                |j: int| hex_digit_char((w >> (((15 - j) * 4) as u64)) & 0xf),
            ));
        }
        i = i + 1;
    }
    proof {
        assert(s@ =~= hex_repr_of_word(w));
    }
    s
}

impl RawPtr {
    /// The kind-specific textual form of this pointer, as its debug
    /// rendering shows it: the kind's name, and for a kind that carries
    /// bits worth reading, the whole word in hexadecimal.
    pub fn debug_string(self) -> (r: String)
        requires
            self.kind_spec() is Some,
        ensures
            self.tag() == TAG_DANGLING ==> r@ == "Ptr(Dangling)"@,
            self.tag() == TAG_NATIVE ==> r@ == "Ptr(Native, "@ + hex_repr_of_word(self.word())
                + ")"@,
            self.tag() == TAG_UNKNOWN ==> r@ == "Ptr(Unknown, "@ + hex_repr_of_word(self.word())
                + ")"@,
    {
        match self.kind() {
            PtrKind::Dangling => String::from_str("Ptr(Dangling)"),
            PtrKind::Native => {
                let mut s = String::from_str("Ptr(Native, ");
                s.append(hex_string(self.raw_value()).as_str());
                s.append(")");
                s
            },
            PtrKind::Unknown => {
                let mut s = String::from_str("Ptr(Unknown, ");
                s.append(hex_string(self.raw_value()).as_str());
                s.append(")");
                s
            },
        }
    }
}

/// How the kind-tag bits of a word relate to its 16-bit tag value.
proof fn lemma_word_tags(w: u64)
    by (bit_vector)
    ensures
        (w & PTR_KIND_MASK == KIND_NATIVE_BITS) <==> tag_of_word(w) == TAG_NATIVE,
        (w & PTR_KIND_MASK == KIND_UNKNOWN_BITS) <==> tag_of_word(w) == TAG_UNKNOWN,
        (w & PTR_KIND_MASK == KIND_DANGLING_BITS) <==> tag_of_word(w) == TAG_DANGLING,
        tag_of_word(0) == TAG_NATIVE,
        tag_of_word(0xffff_ffff_ffff_ffffu64) == TAG_DANGLING,
{
}

/// Round trip: a word whose tag bits are exactly the `Native` encoding
/// keeps its address bits untouched — its value field is the whole word —
/// so constructing a raw pointer from such an address and decoding it
/// back yields exactly that address.
pub proof fn lemma_native_round_trip(p: RawPtr)
    requires
        p.is_native(),
    ensures
        data_of_word(p.word()) == p.word(),
        p.kind_spec() == Some(PtrKind::Native),
{
    let w = p.word();
    assert(w & PTR_VALUE_MASK == w) by (bit_vector)
        requires
            tag_of_word(w) == TAG_NATIVE,
    ;
}

/// Null invariant: whether a pointer is null depends on the whole word
/// alone, never on how the kind tag would be interpreted; the all-zero
/// word is null, and every other word is not.
pub proof fn lemma_null_invariant(p: RawPtr)
    ensures
        p.spec_is_null() <==> p.word() == 0,
        p.word() != 0 ==> !p.spec_is_null(),
{
}

/// Dangling vs null: the reserved dangling sentinel is the all-one word,
/// bit-for-bit distinct from the all-zero null word, and the two carry
/// different kind tags.
pub proof fn lemma_dangling_distinct_from_null()
    ensures
        0xffff_ffff_ffff_ffffu64 != 0u64,
        tag_of_word(0xffff_ffff_ffff_ffffu64) == TAG_DANGLING,
        tag_of_word(0) == TAG_NATIVE,
{
    lemma_word_tags(0);
}

/// Kind round trip: encoding any defined kind into its tag value and
/// decoding that tag back yields the same kind.
pub proof fn lemma_kind_round_trip(k: PtrKind)
    ensures
        kind_of_tag(tag_of_kind(k)) == Some(k),
{
}

/// Every 16-bit tag value other than the three defined constants decodes
/// to no kind at all, never silently to a default.
pub proof fn lemma_bad_tag_rejected(t: u16)
    requires
        t != TAG_NATIVE,
        t != TAG_UNKNOWN,
        t != TAG_DANGLING,
    ensures
        kind_of_tag(t) is None,
{
}

/// Placing a 16-bit tag value into a word's tag bits and extracting it
/// again yields the value unchanged: the tag field is wide enough for
/// every tag value.
pub proof fn lemma_tag_word_round_trip(t: u16)
    ensures
        tag_of_word(word_of_tag(t)) == t,
{
    assert(tag_of_word(word_of_tag(t)) == t) by (bit_vector);
}

/// The value field of a word splits exactly into the handle field and
/// the region-offset field, each within its own range.
pub proof fn lemma_field_decomposition(w: u64)
    ensures
        data_of_word(w) == handle_of_word(w) * 0x1_0000_0000 + region_offset_of_word(w),
        handle_of_word(w) <= 0xffff,
        region_offset_of_word(w) <= PTR_REGION_OFFSET_MAX,
{
    assert(data_of_word(w) == handle_of_word(w) * 0x1_0000_0000 + region_offset_of_word(w)
        && handle_of_word(w) <= 0xffff
        && region_offset_of_word(w) <= PTR_REGION_OFFSET_MAX) by (bit_vector);
}

/// Equality of raw pointers is exactly equality of their words.
pub proof fn lemma_raw_eq_is_word_eq(a: RawPtr, b: RawPtr)
    ensures
        (a == b) <==> a.word() == b.word(),
{
}

/// Equality laws for typed pointers: equality is the equality of the
/// underlying raw bit patterns, and is reflexive, symmetric and
/// transitive.
pub proof fn lemma_typed_eq_laws<T>(a: Ptr<T>, b: Ptr<T>, c: Ptr<T>)
    ensures
        PartialEqSpec::eq_spec(&a, &b) <==> a.word() == b.word(),
        PartialEqSpec::eq_spec(&a, &b) <==> (a.untyped() == b.untyped()),
        PartialEqSpec::eq_spec(&a, &a),
        PartialEqSpec::eq_spec(&a, &b) ==> PartialEqSpec::eq_spec(&b, &a),
        PartialEqSpec::eq_spec(&a, &b) && PartialEqSpec::eq_spec(&b, &c) ==> PartialEqSpec::eq_spec(
            &a,
            &c,
        ),
{
}

/// Ordering laws for typed pointers: the order is the total order on the
/// underlying raw words, so it always compares, is antisymmetric, and is
/// transitive.
pub proof fn lemma_typed_order_laws<T>(a: Ptr<T>, b: Ptr<T>, c: Ptr<T>)
    ensures
        PartialOrdSpec::partial_cmp_spec(&a, &b) is Some,
        PartialOrdSpec::partial_cmp_spec(&a, &b) == PartialOrdSpec::partial_cmp_spec(
            &a.untyped(),
            &b.untyped(),
        ),
        PartialOrdSpec::partial_cmp_spec(&a, &b) == Some(Ordering::Equal) <==> a.word()
            == b.word(),
        PartialOrdSpec::partial_cmp_spec(&a, &b) == Some(Ordering::Less) <==> a.word() < b.word(),
        PartialOrdSpec::partial_cmp_spec(&a, &b) == Some(Ordering::Less)
            <==> PartialOrdSpec::partial_cmp_spec(&b, &a) == Some(Ordering::Greater),
        PartialOrdSpec::partial_cmp_spec(&a, &b) == Some(Ordering::Less)
            && PartialOrdSpec::partial_cmp_spec(&b, &c) == Some(Ordering::Less)
            ==> PartialOrdSpec::partial_cmp_spec(&a, &c) == Some(Ordering::Less),
{
}

} // verus!
