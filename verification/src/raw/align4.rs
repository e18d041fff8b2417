//! Two-bit metadata packed into the low bits of 4-aligned addresses, and the inline storage of
//! small values next to such metadata.
use vstd::prelude::*;
use vstd::layout::{align_of, size_of};

use crate::state::State;

verus! {

/// A two-bit metadata.
#[derive(Debug, Clone, Copy, PartialEq, Eq, Structural)]
pub struct Metadata(pub u8);

impl Metadata {
    /// A metadata is well formed when only its two low bits may be set.
    pub open spec fn wf(self) -> bool {
        self.0 < 4
    }

    /// The mask of the two metadata bits.
    pub fn mask() -> (r: u8)
        ensures
            r == 3,
    {
        3
    }

    pub fn _0() -> (m: Metadata)
        ensures
            m.0 == 0,
    {
        Metadata(0)
    }

    pub fn _1() -> (m: Metadata)
        ensures
            m.0 == 1,
    {
        Metadata(1)
    }

    pub fn _2() -> (m: Metadata)
        ensures
            m.0 == 2,
    {
        Metadata(2)
    }

    pub fn _3() -> (m: Metadata)
        ensures
            m.0 == 3,
    {
        Metadata(3)
    }

    /// Sets the metadata bits in the lowest byte of an address.
    pub fn encode_to_byte(self, addr_byte: &mut u8)
        ensures
            *final(addr_byte) == *old(addr_byte) | self.0,
    {
        *addr_byte = *addr_byte | self.0;
    }

    /// Takes the metadata bits out of the lowest byte of an address, clearing them there.
    pub fn decode_from_byte(addr_byte: &mut u8) -> (m: Metadata)
        ensures
            m.0 == *old(addr_byte) & 3,
            *final(addr_byte) == *old(addr_byte) & !3u8,
            m.wf(),
    {
        let b = *addr_byte;
        let meta = b & 3;
        *addr_byte = b & !3u8;
        assert(b & 3 < 4) by (bit_vector);
        Metadata(meta)
    }
}

/// An address with a metadata in its two low bits.
#[derive(Clone, Copy)]
pub struct Align4Ptr {
    word: usize,
}

impl Align4Ptr {
    /// The encoded word.
    pub closed spec fn word(self) -> usize {
        self.word
    }

    /// The address held, without the metadata.
    pub closed spec fn addr_spec(self) -> usize {
        self.word & !3usize
    }

    /// The metadata held.
    pub closed spec fn meta_spec(self) -> u8 {
        (self.word & 3usize) as u8
    }

    /// Encodes `meta` into the low two bits of `addr`, which must be zero.
    pub fn from_parts(addr: usize, meta: Metadata) -> (p: Align4Ptr)
        requires
            addr & 3usize == 0,
            meta.wf(),
        ensures
            p.word() == addr | (meta.0 as usize),
            p.addr_spec() == addr,
            p.meta_spec() == meta.0,
    {
        let mut low: u8 = (addr & 0xffusize) as u8;
        meta.encode_to_byte(&mut low);
        let m = meta.0;
        let word = (addr & !0xffusize) | (low as usize);
        assert(low == ((addr & 0xffusize) as u8) | m);
        assert(word == addr | (m as usize)) by (bit_vector)
            requires
                low == ((addr & 0xffusize) as u8) | m,
                word == (addr & !0xffusize) | (low as usize),
                m < 4,
        ;
        assert((addr | (m as usize)) & !3usize == addr && (((addr | (m as usize)) & 3usize) as u8)
            == m) by (bit_vector)
            requires
                addr & 3usize == 0,
                m < 4,
        ;
        Align4Ptr { word }
    }

    /// Like [`Align4Ptr::from_parts`], but gives `None` for an address that is not aligned to 4.
    pub fn try_from_parts(addr: usize, meta: Metadata) -> (r: Option<Align4Ptr>)
        requires
            meta.wf(),
        ensures
            r is Some <==> addr & 3usize == 0,
            r matches Some(p) ==> p.addr_spec() == addr && p.meta_spec() == meta.0,
    {
        if addr & 3usize == 0 {
            Some(Self::from_parts(addr, meta))
        } else {
            None
        }
    }

    /// Extracts the address and the metadata.
    pub fn to_parts(self) -> (r: (usize, Metadata))
        ensures
            r.0 == self.addr_spec(),
            r.1.0 == self.meta_spec(),
            r.1.wf(),
            r.0 & 3usize == 0,
    {
        let w = self.word;
        let mut low: u8 = (w & 0xffusize) as u8;
        let meta = Metadata::decode_from_byte(&mut low);
        let m = meta.0;
        let addr = (w & !0xffusize) | (low as usize);
        assert(addr == w & !3usize && (w & !3usize) & 3usize == 0 && m == ((w & 3usize) as u8))
            by (bit_vector)
            requires
                low == ((w & 0xffusize) as u8) & !3u8,
                m == ((w & 0xffusize) as u8) & 3,
                addr == (w & !0xffusize) | (low as usize),
        ;
        (addr, meta)
    }
}

/// Decoding an encoded address gives back the address and the metadata.
pub proof fn lemma_align4_ptr_round_trip(addr: usize, meta: u8)
    requires
        addr & 3usize == 0,
        meta < 4,
    ensures
        (addr | (meta as usize)) & !3usize == addr,
        (((addr | (meta as usize)) & 3usize) as u8) == meta,
{
    assert((addr | (meta as usize)) & !3usize == addr && (((addr | (meta as usize)) & 3usize)
        as u8) == meta) by (bit_vector)
        requires
            addr & 3usize == 0,
            meta < 4,
    ;
}

/// A value whose alignment is raised to at least 4.
pub struct Align4<T>(pub T);

/// An owned value with a metadata attached.
pub struct Align4Own<T> {
    ptr: Box<Align4<T>>,
    meta: Metadata,
}

impl<T> Align4Own<T> {
    pub closed spec fn value(&self) -> T {
        self.ptr.0
    }

    pub closed spec fn meta_spec(&self) -> Metadata {
        self.meta
    }

    /// Takes ownership of a boxed value and attaches `meta`.
    pub fn from_boxed(ptr: Box<Align4<T>>, meta: Metadata) -> (r: Self)
        ensures
            r.value() == ptr.0,
            r.meta_spec() == meta,
    {
        Align4Own { ptr, meta }
    }

    /// Gives back the boxed value.
    pub fn into_boxed(self) -> (r: Box<Align4<T>>)
        ensures
            r.0 == self.value(),
    {
        self.ptr
    }

    /// Returns the attached metadata.
    pub fn metadata(&self) -> (m: Metadata)
        ensures
            m == self.meta_spec(),
    {
        self.meta
    }

    /// Returns a shared reference to the value.
    pub fn borrow(&self) -> (r: &T)
        ensures
            *r == self.value(),
    {
        &self.ptr.0
    }
}

/// A shared reference with a metadata attached.
pub struct Align4Ref<'a, T> {
    target: &'a Align4<T>,
    meta: Metadata,
}

impl<'a, T> Align4Ref<'a, T> {
    pub closed spec fn value(&self) -> T {
        self.target.0
    }

    pub closed spec fn meta_spec(&self) -> Metadata {
        self.meta
    }

    pub fn new(target: &'a Align4<T>, meta: Metadata) -> (r: Self)
        ensures
            r.value() == target.0,
            r.meta_spec() == meta,
    {
        Align4Ref { target, meta }
    }

    /// Returns the attached metadata.
    pub fn metadata(&self) -> (m: Metadata)
        ensures
            m == self.meta_spec(),
    {
        self.meta
    }

    /// Returns a shared reference to the value.
    pub fn borrow(&self) -> (r: &'a T)
        ensures
            *r == self.value(),
    {
        &self.target.0
    }

    /// Returns a shared reference to the value, with its alignment wrapper.
    pub fn borrow_raw(&self) -> (r: &'a Align4<T>)
        ensures
            r.0 == self.value(),
    {
        self.target
    }
}

/// A store offset `o` (counted from the start of the word) at which a value of `size` bytes and
/// alignment `align` fits into a word of `w` bytes whose first byte holds the metadata.
pub open spec fn offset_fits(o: int, size: int, align: int, w: int) -> bool {
    &&& 1 <= o <= w
    &&& o % align == 0
    &&& w - o >= size
}

/// Values of type `T` can be stored inline, next to the metadata byte, in one word.
pub open spec fn inlinable_spec<T>() -> bool {
    exists|o: int|
        offset_fits(o, size_of::<T>() as int, align_of::<T>() as int, size_of::<usize>() as int)
}

/// Finds the first offset into the store (the bytes of a word after the metadata byte) at which
/// a value of `size` bytes and alignment `align` fits.
pub fn store_offset(size: usize, align: usize) -> (r: Option<usize>)
    requires
        align > 0,
    ensures
        match r {
            Some(x) => {
                &&& offset_fits(x + 1, size as int, align as int, size_of::<usize>() as int)
                &&& forall|o: int|
                    1 <= o < x + 1 ==> !offset_fits(
                        o,
                        size as int,
                        align as int,
                        size_of::<usize>() as int,
                    )
            },
            None => forall|o: int|
                !offset_fits(o, size as int, align as int, size_of::<usize>() as int),
        },
{
    let w = core::mem::size_of::<usize>();
    proof {
        broadcast use vstd::layout::layout_of_primitives;

        assert(size_of::<usize>() * 8 == usize::BITS);
    }
    let mut offset: usize = 1;
    while offset <= w
        invariant
            1 <= offset <= w + 1,
            w as int == size_of::<usize>(),
            w <= 8,
            align > 0,
            forall|o: int| 1 <= o < offset ==> !offset_fits(o, size as int, align as int, w as int),
        decreases w + 1 - offset,
    {
        if offset % align == 0 && w - offset >= size {
            return Some(offset - 1);
        }
        offset = offset + 1;
    }
    None
}

/// A value of type `T` stored inline next to a metadata, in the space of one word.
pub struct Align4PtrCompat<T> {
    meta: Metadata,
    value: T,
}

impl<T> Align4PtrCompat<T> {
    pub closed spec fn value_spec(&self) -> T {
        self.value
    }

    pub closed spec fn meta_spec(&self) -> Metadata {
        self.meta
    }

    /// The offset of the value inside the store, if values of type `T` fit.
    pub fn offset() -> (r: Option<usize>)
        ensures
            r is Some <==> inlinable_spec::<T>(),
            r matches Some(x) ==> {
                &&& offset_fits(x + 1, size_of::<T>() as int, align_of::<T>() as int, size_of::<usize>() as int)
                &&& forall|o: int|
                    1 <= o < x + 1 ==> !offset_fits(
                        o,
                        size_of::<T>() as int,
                        align_of::<T>() as int,
                        size_of::<usize>() as int,
                    )
            },
    {
        proof {
            broadcast use vstd::layout::align_nonzero;

            assert(align_of::<T>() > 0);
        }
        let r = store_offset(core::mem::size_of::<T>(), core::mem::align_of::<T>());
        proof {
            if r is Some {
                let x = r->Some_0;
                assert(offset_fits(
                    x + 1,
                    size_of::<T>() as int,
                    align_of::<T>() as int,
                    size_of::<usize>() as int,
                ));
            }
        }
        r
    }

    /// Returns `true` if values of type `T` can be stored inline.
    pub fn is_inlinable() -> (r: bool)
        ensures
            r == inlinable_spec::<T>(),
    {
        Self::offset().is_some()
    }

    /// Stores `value` inline with `meta`, or gives it back if it does not fit.
    pub fn new(meta: Metadata, value: T) -> (r: Result<Self, T>)
        ensures
            r is Ok <==> inlinable_spec::<T>(),
            r matches Ok(c) ==> c.value_spec() == value && c.meta_spec() == meta,
            r matches Err(v) ==> v == value,
    {
        if Self::is_inlinable() {
            Ok(Align4PtrCompat { meta, value })
        } else {
            Err(value)
        }
    }

    /// Returns the attached metadata.
    pub fn metadata(&self) -> (m: Metadata)
        ensures
            m == self.meta_spec(),
    {
        self.meta
    }

    /// Returns a shared reference to the stored value.
    pub fn borrow_value(&self) -> (r: &T)
        ensures
            *r == self.value_spec(),
    {
        &self.value
    }

    /// Gives back the stored value.
    pub fn into_value(self) -> (r: T)
        ensures
            r == self.value_spec(),
    {
        self.value
    }

    /// Replaces the stored value, returning the previous one.
    pub fn replace_value(&mut self, value: T) -> (r: T)
        ensures
            r == old(self).value_spec(),
            final(self).value_spec() == value,
            final(self).meta_spec() == old(self).meta_spec(),
    {
        let mut v = value;
        core::mem::swap(&mut self.value, &mut v);
        v
    }
}

impl<T: State> Align4PtrCompat<T> {
    /// Erases the type of the stored value, keeping its debug text.
    pub fn erase(self) -> (r: ErasedAlign4PtrCompat)
        ensures
            r.text_spec() == self.value_spec().debug_view(),
            r.tag_spec() == T::tag_spec(),
            r.meta_spec() == self.meta_spec(),
    {
        ErasedAlign4PtrCompat::from_typed(self)
    }
}

/// An inline stored value whose type has been erased: its debug text and type tag are kept.
pub struct ErasedAlign4PtrCompat {
    meta: Metadata,
    tag: u64,
    text: String,
}

impl ErasedAlign4PtrCompat {
    pub closed spec fn text_spec(&self) -> Seq<char> {
        self.text@
    }

    pub closed spec fn tag_spec(&self) -> u64 {
        self.tag
    }

    pub closed spec fn meta_spec(&self) -> Metadata {
        self.meta
    }

    /// Erases the type of an inline stored value.
    pub fn from_typed<T: State>(value: Align4PtrCompat<T>) -> (r: Self)
        ensures
            r.text_spec() == value.value_spec().debug_view(),
            r.tag_spec() == T::tag_spec(),
            r.meta_spec() == value.meta_spec(),
    {
        let text = value.value.debug_text();
        ErasedAlign4PtrCompat { meta: value.meta, tag: T::type_tag(), text }
    }

    /// The debug text of the stored value.
    pub fn debug_text(&self) -> (r: String)
        ensures
            r@ == self.text_spec(),
    {
        self.text.clone()
    }

    /// The tag of the original type of the stored value.
    pub fn type_tag(&self) -> (t: u64)
        ensures
            t == self.tag_spec(),
    {
        self.tag
    }
}

} // verus!
