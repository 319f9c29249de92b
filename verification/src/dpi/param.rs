//! Basic-type marshaling and direction-restricted parameter wrappers.
//!
//! A closed set of host primitive types may cross the boundary directly;
//! each has exactly one wire representation of identical bit layout.  The
//! wrapper shapes [`In`], [`Out`], [`Inout`] and [`Ret`] envelop one wire
//! value each and restrict, in the type, which direction of access is
//! legal for the calling convention they stand for.

use vstd::prelude::*;

use crate::dpi::Logic;

verus! {

/// Seals [`SvBasicType`]: only this module can add marshaled types, so the
/// set of types that may cross the boundary directly stays closed.
trait SvBasicTypePriv {

}

/// A host primitive type that marshals directly across the boundary.
///
/// Each implementor has exactly one wire representation; encoding and
/// decoding are mutually inverse, and encoding only ever produces wire
/// values that decode again.  For the numeric types the wire type is the
/// type itself, so the bit-for-bit layout equivalence the calling
/// convention requires holds by construction and is checked by the
/// compiler.  The set of implementors is closed: only the defining module
/// may extend it.
#[allow(private_bounds)]
pub trait SvBasicType: Copy + SvBasicTypePriv + Sized {
    /// The wire representation the simulator's calling convention expects.
    type Underlying: Copy;

    /// The wire value this value is carried as.
    spec fn spec_to_underlying(self) -> Self::Underlying;

    /// The value a wire value decodes to.
    spec fn spec_from_underlying(u: Self::Underlying) -> Self;

    /// The wire values that decode at all.  Observing any other wire value
    /// during decode is an unrecoverable internal-invariant failure.
    spec fn underlying_valid(u: Self::Underlying) -> bool;

    /// Decoding an encoded value gives the value back unchanged, and
    /// encoding only ever produces wire values that decode.
    proof fn lemma_round_trip(self)
        ensures
            Self::spec_from_underlying(self.spec_to_underlying()) == self,
            Self::underlying_valid(self.spec_to_underlying()),
    ;

    /// Encoding a decoded wire value gives the wire value back unchanged.
    proof fn lemma_wire_round_trip(u: Self::Underlying)
        requires
            Self::underlying_valid(u),
        ensures
            Self::spec_from_underlying(u).spec_to_underlying() == u,
    ;

    /// Encode this value as its wire representation.
    fn to_underlying(self) -> (u: Self::Underlying)
        ensures
            u == self.spec_to_underlying(),
            Self::underlying_valid(u),
    ;

    /// Decode a wire value.
    fn from_underlying(u: Self::Underlying) -> (r: Self)
        requires
            Self::underlying_valid(u),
        ensures
            r == Self::spec_from_underlying(u),
    ;
}

/// Marshaling a value out and back in returns it unchanged, for every type
/// of the closed set and every representable value.
pub proof fn lemma_marshal_round_trip<T: SvBasicType>(value: T)
    ensures
        T::spec_from_underlying(value.spec_to_underlying()) == value,
{
    value.lemma_round_trip();
}

/// An input parameter: a read-only envelope holding one wire value.
///
/// The boundary fills it with an encoded value; call-site code only ever
/// decodes it with [`In::get`].  No mutation path exists, so the input
/// direction of the calling convention is enforced in the type.
pub struct In<T: SvBasicType> {
    inner: T::Underlying,
}

impl<T: SvBasicType> In<T> {
    /// The wire value decodes: established at construction, preserved
    /// thereafter because the envelope is read-only.
    pub closed spec fn wf(self) -> bool {
        T::underlying_valid(self.inner)
    }

    /// The value this envelope carries.
    pub closed spec fn value(self) -> T {
        T::spec_from_underlying(self.inner)
    }

    /// Wrap a wire value as it arrives from the boundary.
    pub fn from_underlying(u: T::Underlying) -> (r: In<T>)
        requires
            T::underlying_valid(u),
        ensures
            r.wf(),
            r.value() == T::spec_from_underlying(u),
    {
        In { inner: u }
    }

    /// Envelop a value, encoding it as the boundary would.
    pub fn new(value: T) -> (r: In<T>)
        ensures
            r.wf(),
            r.value() == value,
    {
        proof {
            value.lemma_round_trip();
        }
        In { inner: value.to_underlying() }
    }

    /// Decode and return the carried value.
    pub fn get(&self) -> (r: T)
        requires
            self.wf(),
        ensures
            r == self.value(),
    {
        T::from_underlying(self.inner)
    }
}

/// An output parameter: a write-only envelope over one wire slot.
///
/// The slot is caller-owned storage of the boundary's argument frame;
/// call-site code only ever encodes into it with [`Out::set`].  No read
/// path exists for the carried value, so the output direction of the
/// calling convention is enforced in the type.
pub struct Out<T: SvBasicType> {
    inner: T::Underlying,
}

impl<T: SvBasicType> Out<T> {
    /// The wire value the slot holds.
    pub closed spec fn wire(self) -> T::Underlying {
        self.inner
    }

    /// Wrap the slot as it arrives from the boundary; whatever wire value
    /// it holds is about to be overwritten and is never decoded.
    pub fn from_underlying(u: T::Underlying) -> (r: Out<T>)
        ensures
            r.wire() == u,
    {
        Out { inner: u }
    }

    /// Encode a value into the slot, overwriting it.
    pub fn set(&mut self, value: T)
        ensures
            final(self).wire() == value.spec_to_underlying(),
            T::underlying_valid(final(self).wire()),
    {
        self.inner = value.to_underlying();
    }

    /// Hand the slot back to the boundary.
    pub fn into_underlying(self) -> (u: T::Underlying)
        ensures
            u == self.wire(),
    {
        self.inner
    }
}

/// An input-output parameter: an envelope over one wire slot with both
/// directions of access, [`Inout::get`] and [`Inout::set`].
pub struct Inout<T: SvBasicType> {
    inner: T::Underlying,
}

impl<T: SvBasicType> Inout<T> {
    /// The wire value the slot holds decodes: established at construction
    /// and preserved by every write.
    pub closed spec fn wf(self) -> bool {
        T::underlying_valid(self.inner)
    }

    /// The value the slot currently carries.
    pub closed spec fn value(self) -> T {
        T::spec_from_underlying(self.inner)
    }

    /// The wire value the slot holds.
    pub closed spec fn wire(self) -> T::Underlying {
        self.inner
    }

    /// Wrap a wire slot as it arrives from the boundary.
    pub fn from_underlying(u: T::Underlying) -> (r: Inout<T>)
        requires
            T::underlying_valid(u),
        ensures
            r.wf(),
            r.value() == T::spec_from_underlying(u),
            r.wire() == u,
    {
        Inout { inner: u }
    }

    /// Decode and return the carried value.
    pub fn get(&self) -> (r: T)
        requires
            self.wf(),
        ensures
            r == self.value(),
    {
        T::from_underlying(self.inner)
    }

    /// Encode a value into the slot, overwriting it.
    pub fn set(&mut self, value: T)
        ensures
            final(self).wf(),
            final(self).value() == value,
            final(self).wire() == value.spec_to_underlying(),
    {
        proof {
            value.lemma_round_trip();
        }
        self.inner = value.to_underlying();
    }

    /// Hand the slot back to the boundary.
    pub fn into_underlying(self) -> (u: T::Underlying)
        ensures
            u == self.wire(),
    {
        self.inner
    }
}

/// A return value about to cross the boundary: constructed only by
/// conversion from a value, written once, and carried out as its wire
/// representation by [`Ret::into_underlying`].  It offers no further
/// accessor.
pub struct Ret<T: SvBasicType> {
    inner: T::Underlying,
}

impl<T: SvBasicType> Ret<T> {
    /// The wire value this envelope carries out.
    pub closed spec fn wire(self) -> T::Underlying {
        self.inner
    }

    /// Hand the encoded return value to the boundary.
    pub fn into_underlying(self) -> (u: T::Underlying)
        ensures
            u == self.wire(),
    {
        self.inner
    }
}

impl<T: SvBasicType> From<T> for Ret<T> {
    /// Encode a value for returning across the boundary.
    fn from(value: T) -> (r: Ret<T>) {
        Ret { inner: value.to_underlying() }
    }
}

impl<T: SvBasicType> vstd::std_specs::convert::FromSpecImpl<T> for Ret<T> {
    open spec fn obeys_from_spec() -> bool {
        true
    }

    closed spec fn from_spec(value: T) -> Ret<T> {
        Ret { inner: value.spec_to_underlying() }
    }
}

/// What conversion into [`Ret`] carries out: the wire encoding of the
/// converted value, and nothing else.
pub proof fn lemma_ret_wire<T: SvBasicType>(value: T)
    ensures
        (<Ret<T> as vstd::std_specs::convert::FromSpec<T>>::from_spec(value)).wire()
            == value.spec_to_underlying(),
        T::underlying_valid(
            (<Ret<T> as vstd::std_specs::convert::FromSpec<T>>::from_spec(value)).wire(),
        ),
        T::spec_from_underlying(
            (<Ret<T> as vstd::std_specs::convert::FromSpec<T>>::from_spec(value)).wire(),
        ) == value,
{
    value.lemma_round_trip();
}

/// An input string parameter: a borrowed view of the contents of a
/// C-style string whose storage is tied to the call frame.
///
/// That the referenced bytes really are a well-formed C-style string (no
/// embedded null before the terminator) is the simulator's contract to
/// uphold, stated here as the construction precondition.
pub struct InStr<'a> {
    bytes: &'a [u8],
}

impl<'a> InStr<'a> {
    /// The bytes of the referenced string, terminator excluded.
    pub closed spec fn bytes_spec(self) -> Seq<u8> {
        self.bytes@
    }

    /// The referenced bytes hold no embedded null.
    pub closed spec fn wf(self) -> bool {
        crate::dpi::name_ok(self.bytes@)
    }

    /// Wrap the contents of a C-style string handed in by the boundary.
    pub fn new(bytes: &'a [u8]) -> (r: InStr<'a>)
        requires
            crate::dpi::name_ok(bytes@),
        ensures
            r.wf(),
            r.bytes_spec() == bytes@,
    {
        InStr { bytes }
    }

    /// The byte-string view, borrowed for the caller-asserted lifetime of
    /// the call frame.
    pub fn get(&self) -> (r: &'a [u8])
        ensures
            r@ == self.bytes_spec(),
    {
        self.bytes
    }
}

/// A return string parameter: a view of string data that must stay valid
/// beyond the call, carried forward for the boundary.  Only
/// process-lifetime-owned data can be referenced, which the `'static`
/// bound states.
pub struct RetStr {
    bytes: &'static [u8],
}

impl RetStr {
    /// The bytes of the carried string, terminator excluded.
    pub closed spec fn bytes_spec(self) -> Seq<u8> {
        self.bytes@
    }

    /// The carried bytes hold no embedded null.
    pub closed spec fn wf(self) -> bool {
        crate::dpi::name_ok(self.bytes@)
    }

    /// Carry a statically-lived byte string toward the boundary.
    pub fn new(bytes: &'static [u8]) -> (r: RetStr)
        requires
            crate::dpi::name_ok(bytes@),
        ensures
            r.wf(),
            r.bytes_spec() == bytes@,
    {
        RetStr { bytes }
    }

    /// The carried bytes, for the boundary call.
    pub fn as_bytes(&self) -> (r: &'static [u8])
        ensures
            r@ == self.bytes_spec(),
    {
        self.bytes
    }
}

impl SvBasicTypePriv for u8 {

}

/// `u8` corresponds to an unsigned byte of the calling convention; its
/// wire type is representation-identical, so the carrier is the value
/// itself.
impl SvBasicType for u8 {
    type Underlying = u8;

    open spec fn spec_to_underlying(self) -> u8 {
        self
    }

    open spec fn spec_from_underlying(u: u8) -> u8 {
        u
    }

    open spec fn underlying_valid(u: u8) -> bool {
        true
    }

    proof fn lemma_round_trip(self) {
    }

    proof fn lemma_wire_round_trip(u: u8) {
    }

    fn to_underlying(self) -> u8 {
        self
    }

    fn from_underlying(u: u8) -> u8 {
        u
    }
}

impl SvBasicTypePriv for i8 {

}

/// `i8` corresponds to a signed byte of the calling convention.
impl SvBasicType for i8 {
    type Underlying = i8;

    open spec fn spec_to_underlying(self) -> i8 {
        self
    }

    open spec fn spec_from_underlying(u: i8) -> i8 {
        u
    }

    open spec fn underlying_valid(u: i8) -> bool {
        true
    }

    proof fn lemma_round_trip(self) {
    }

    proof fn lemma_wire_round_trip(u: i8) {
    }

    fn to_underlying(self) -> i8 {
        self
    }

    fn from_underlying(u: i8) -> i8 {
        u
    }
}

impl SvBasicTypePriv for u16 {

}

/// `u16` corresponds to an unsigned short integer of the calling
/// convention.
impl SvBasicType for u16 {
    type Underlying = u16;

    open spec fn spec_to_underlying(self) -> u16 {
        self
    }

    open spec fn spec_from_underlying(u: u16) -> u16 {
        u
    }

    open spec fn underlying_valid(u: u16) -> bool {
        true
    }

    proof fn lemma_round_trip(self) {
    }

    proof fn lemma_wire_round_trip(u: u16) {
    }

    fn to_underlying(self) -> u16 {
        self
    }

    fn from_underlying(u: u16) -> u16 {
        u
    }
}

impl SvBasicTypePriv for i16 {

}

/// `i16` corresponds to a signed short integer of the calling convention.
impl SvBasicType for i16 {
    type Underlying = i16;

    open spec fn spec_to_underlying(self) -> i16 {
        self
    }

    open spec fn spec_from_underlying(u: i16) -> i16 {
        u
    }

    open spec fn underlying_valid(u: i16) -> bool {
        true
    }

    proof fn lemma_round_trip(self) {
    }

    proof fn lemma_wire_round_trip(u: i16) {
    }

    fn to_underlying(self) -> i16 {
        self
    }

    fn from_underlying(u: i16) -> i16 {
        u
    }
}

impl SvBasicTypePriv for u32 {

}

/// `u32` corresponds to an unsigned integer of the calling convention.
impl SvBasicType for u32 {
    type Underlying = u32;

    open spec fn spec_to_underlying(self) -> u32 {
        self
    }

    open spec fn spec_from_underlying(u: u32) -> u32 {
        u
    }

    open spec fn underlying_valid(u: u32) -> bool {
        true
    }

    proof fn lemma_round_trip(self) {
    }

    proof fn lemma_wire_round_trip(u: u32) {
    }

    fn to_underlying(self) -> u32 {
        self
    }

    fn from_underlying(u: u32) -> u32 {
        u
    }
}

impl SvBasicTypePriv for i32 {

}

/// `i32` corresponds to a signed integer of the calling convention.
impl SvBasicType for i32 {
    type Underlying = i32;

    open spec fn spec_to_underlying(self) -> i32 {
        self
    }

    open spec fn spec_from_underlying(u: i32) -> i32 {
        u
    }

    open spec fn underlying_valid(u: i32) -> bool {
        true
    }

    proof fn lemma_round_trip(self) {
    }

    proof fn lemma_wire_round_trip(u: i32) {
    }

    fn to_underlying(self) -> i32 {
        self
    }

    fn from_underlying(u: i32) -> i32 {
        u
    }
}

impl SvBasicTypePriv for u64 {

}

/// `u64` corresponds to an unsigned long integer of the calling
/// convention.
impl SvBasicType for u64 {
    type Underlying = u64;

    open spec fn spec_to_underlying(self) -> u64 {
        self
    }

    open spec fn spec_from_underlying(u: u64) -> u64 {
        u
    }

    open spec fn underlying_valid(u: u64) -> bool {
        true
    }

    proof fn lemma_round_trip(self) {
    }

    proof fn lemma_wire_round_trip(u: u64) {
    }

    fn to_underlying(self) -> u64 {
        self
    }

    fn from_underlying(u: u64) -> u64 {
        u
    }
}

impl SvBasicTypePriv for i64 {

}

/// `i64` corresponds to a signed long integer of the calling convention.
impl SvBasicType for i64 {
    type Underlying = i64;

    open spec fn spec_to_underlying(self) -> i64 {
        self
    }

    open spec fn spec_from_underlying(u: i64) -> i64 {
        u
    }

    open spec fn underlying_valid(u: i64) -> bool {
        true
    }

    proof fn lemma_round_trip(self) {
    }

    proof fn lemma_wire_round_trip(u: i64) {
    }

    fn to_underlying(self) -> i64 {
        self
    }

    fn from_underlying(u: i64) -> i64 {
        u
    }
}

impl SvBasicTypePriv for bool {

}

/// `bool` marshals to a single byte: 0 for `false`, 1 for `true`.  Any
/// other byte observed during decode is an internal-invariant failure and
/// is excluded by the validity precondition.
impl SvBasicType for bool {
    type Underlying = u8;

    open spec fn spec_to_underlying(self) -> u8 {
        if self {
            1
        } else {
            0
        }
    }

    open spec fn spec_from_underlying(u: u8) -> bool {
        u == 1
    }

    open spec fn underlying_valid(u: u8) -> bool {
        u <= 1
    }

    proof fn lemma_round_trip(self) {
    }

    proof fn lemma_wire_round_trip(u: u8) {
    }

    fn to_underlying(self) -> u8 {
        if self {
            1
        } else {
            0
        }
    }

    fn from_underlying(u: u8) -> bool {
        u == 1
    }
}

/// How many 32-bit words a packed bit-vector of the given width occupies.
pub open spec fn words_for_bits(bits: nat) -> nat {
    (bits + 31) / 32
}

/// How many bytes a packed bit-vector of the given width occupies.
pub open spec fn bytes_for_bits(bits: nat) -> nat {
    (bits + 7) / 8
}

/// Byte `i` of a word buffer in little-endian layout: the `i % 4`-th
/// lowest byte of word `i / 4`.
pub open spec fn le_byte_of_words(words: Seq<u32>, i: int) -> u8 {
    (words[i / 4] >> (((i % 4) * 8) as u32)) as u8
}

/// The byte span of a packed bit-vector never reaches past its word span.
pub proof fn lemma_bytes_fit_words(bits: nat)
    ensures
        bytes_for_bits(bits) <= 4 * words_for_bits(bits),
{
}

/// The little-endian bytes of the first `len` byte positions of a word
/// buffer.
fn le_bytes_of_words(words: &[u32], len: usize) -> (r: Vec<u8>)
    requires
        len <= 4 * words@.len(),
    ensures
        r@.len() == len,
        forall|i: int| 0 <= i < len ==> r@[i] == le_byte_of_words(words@, i),
{
    let mut r: Vec<u8> = Vec::new();
    let mut i: usize = 0;
    while i < len
        invariant
            0 <= i <= len,
            len <= 4 * words@.len(),
            r@.len() == i,
            forall|j: int| 0 <= j < i ==> r@[j] == le_byte_of_words(words@, j),
        decreases len - i,
    {
        let w = words[i / 4];
        let shift: u32 = ((i % 4) as u32) * 8;
        let b = (w >> shift) as u8;
        r.push(b);
        i += 1;
    }
    r
}

/// An input bit-vector parameter of width `BITS`: a read-only view of a
/// caller-owned packed buffer of exactly `ceil(BITS / 32)` 32-bit words.
#[derive(Clone, Copy)]
pub struct InBV<'a, const BITS: usize> {
    words: &'a [u32],
}

impl<'a, const BITS: usize> InBV<'a, BITS> {
    /// The words of the referenced buffer.
    pub closed spec fn words_spec(self) -> Seq<u32> {
        self.words@
    }

    /// The buffer has exactly the word count the width calls for.
    pub closed spec fn wf(self) -> bool {
        self.words@.len() == words_for_bits(BITS as nat)
    }

    /// Wrap a caller-owned buffer; the caller-sizing contract (exactly
    /// `ceil(BITS / 32)` words) is the precondition.
    pub fn new(words: &'a [u32]) -> (r: InBV<'a, BITS>)
        requires
            words@.len() == words_for_bits(BITS as nat),
        ensures
            r.wf(),
            r.words_spec() == words@,
    {
        InBV { words }
    }

    /// Wrap a caller-owned buffer, validating its length at the view
    /// construction boundary: `None` exactly on a mis-sized buffer.
    pub fn try_new(words: &'a [u32]) -> (r: Option<InBV<'a, BITS>>)
        requires
            BITS <= usize::MAX - 31,
        ensures
            r is Some <==> words@.len() == words_for_bits(BITS as nat),
            r matches Some(bv) ==> bv.wf() && bv.words_spec() == words@,
    {
        let expect = (BITS + 31) / 32;
        if words.len() == expect {
            Some(InBV { words })
        } else {
            None
        }
    }

    /// The buffer as a word array of exactly `LEN` words.  `LEN` must
    /// equal `ceil(BITS / 32)`: the original operation fails fatally on
    /// any other `LEN`, a contract violation that the precondition
    /// excludes here.
    pub fn as_array<const LEN: usize>(&self) -> (r: &'a [u32])
        requires
            self.wf(),
            LEN == words_for_bits(BITS as nat),
        ensures
            r@ == self.words_spec(),
            r@.len() == LEN,
    {
        self.words
    }

    /// The buffer as a byte array of exactly `LEN` bytes in little-endian
    /// layout.  `LEN` must equal `ceil(BITS / 8)`: any other `LEN` is the
    /// same fatal contract violation as for [`InBV::as_array`].
    pub fn as_u8_array<const LEN: usize>(&self) -> (r: Vec<u8>)
        requires
            self.wf(),
            LEN == bytes_for_bits(BITS as nat),
        ensures
            r@.len() == LEN,
            forall|i: int| 0 <= i < r@.len() ==> r@[i] == le_byte_of_words(self.words_spec(), i),
    {
        proof {
            lemma_bytes_fit_words(BITS as nat);
        }
        le_bytes_of_words(self.words, LEN)
    }

    /// The buffer as an unsized word view; the length is fixed by the
    /// width, so no `LEN` matching contract applies.
    pub fn as_slice(&self) -> (r: &'a [u32])
        requires
            self.wf(),
        ensures
            r@ == self.words_spec(),
            r@.len() == words_for_bits(BITS as nat),
    {
        self.words
    }

    /// The buffer as an unsized little-endian byte view of
    /// `ceil(BITS / 8)` bytes.
    pub fn as_u8_slice(&self) -> (r: Vec<u8>)
        requires
            self.wf(),
            BITS <= usize::MAX - 31,
        ensures
            r@.len() == bytes_for_bits(BITS as nat),
            forall|i: int| 0 <= i < r@.len() ==> r@[i] == le_byte_of_words(self.words_spec(), i),
    {
        proof {
            lemma_bytes_fit_words(BITS as nat);
        }
        let len = (BITS + 7) / 8;
        le_bytes_of_words(self.words, len)
    }
}

/// A word with the byte at little-endian position `k` replaced by `b` and
/// every other byte kept.
pub open spec fn word_with_le_byte(w: u32, k: int, b: u8) -> u32 {
    (w & !(0xFFu32 << ((k * 8) as u32))) | ((b as u32) << ((k * 8) as u32))
}

/// Replacing one little-endian byte of a word really stores that byte
/// there and leaves the byte at any other position of the word unchanged.
proof fn lemma_word_byte_update(w: u32, k: u32, k2: u32, b: u8)
    requires
        k < 4,
        k2 < 4,
    ensures
        (word_with_le_byte(w, k as int, b) >> ((k * 8) as u32)) as u8 == b,
        k2 != k ==> (word_with_le_byte(w, k as int, b) >> ((k2 * 8) as u32)) as u8 == (w >> ((k2
            * 8) as u32)) as u8,
{
    assert((((w & !(0xFFu32 << ((k * 8) as u32))) | ((b as u32) << ((k * 8) as u32))) >> ((k
        * 8) as u32)) as u8 == b) by (bit_vector)
        requires
            k < 4,
    ;
    if k2 != k {
        assert((((w & !(0xFFu32 << ((k * 8) as u32))) | ((b as u32) << ((k * 8) as u32))) >> ((k2
            * 8) as u32)) as u8 == (w >> ((k2 * 8) as u32)) as u8) by (bit_vector)
            requires
                k < 4 && k2 < 4 && k2 != k,
        ;
    }
}

/// An output bit-vector parameter of width `BITS`: a read-write envelope
/// over a packed buffer of exactly `ceil(BITS / 32)` 32-bit words.  The
/// buffer is caller-owned and caller-sized; it goes in whole at
/// construction and comes back whole from [`OutBV::into_words`].
pub struct OutBV<const BITS: usize> {
    words: Vec<u32>,
}

/// Both directions share the same read-write capability once the buffer
/// is writable at all, so the input-output bit-vector shape is the output
/// shape.
pub type InoutBV<const BITS: usize> = OutBV<BITS>;

impl<const BITS: usize> OutBV<BITS> {
    /// The words of the buffer.
    pub closed spec fn words_spec(self) -> Seq<u32> {
        self.words@
    }

    /// The buffer has exactly the word count the width calls for.
    pub closed spec fn wf(self) -> bool {
        self.words@.len() == words_for_bits(BITS as nat)
    }

    /// Envelop a buffer; the caller-sizing contract (exactly
    /// `ceil(BITS / 32)` words) is the precondition.
    pub fn new(words: Vec<u32>) -> (r: OutBV<BITS>)
        requires
            words@.len() == words_for_bits(BITS as nat),
        ensures
            r.wf(),
            r.words_spec() == words@,
    {
        OutBV { words }
    }

    /// Envelop a buffer, validating its length at the view-construction
    /// boundary: a mis-sized buffer is refused and handed back unchanged.
    pub fn try_new(words: Vec<u32>) -> (r: Result<OutBV<BITS>, Vec<u32>>)
        requires
            BITS <= usize::MAX - 31,
        ensures
            r is Ok <==> words@.len() == words_for_bits(BITS as nat),
            r matches Ok(bv) ==> bv.wf() && bv.words_spec() == words@,
            r matches Err(w) ==> w@ == words@,
    {
        let expect = (BITS + 31) / 32;
        if words.len() == expect {
            Ok(OutBV { words })
        } else {
            Err(words)
        }
    }

    /// Hand the buffer back whole, as the boundary call passes it on.
    pub fn into_words(self) -> (r: Vec<u32>)
        ensures
            r@ == self.words_spec(),
    {
        self.words
    }

    /// The buffer as a word array of exactly `LEN` words.  `LEN` must
    /// equal `ceil(BITS / 32)`: the original operation fails fatally on
    /// any other `LEN`, a contract violation that the precondition
    /// excludes here.
    pub fn as_array<const LEN: usize>(&self) -> (r: &[u32])
        requires
            self.wf(),
            LEN == words_for_bits(BITS as nat),
        ensures
            r@ == self.words_spec(),
            r@.len() == LEN,
    {
        self.words.as_slice()
    }

    /// The buffer as a byte array of exactly `LEN` bytes in little-endian
    /// layout.  `LEN` must equal `ceil(BITS / 8)`: the same fatal
    /// contract violation applies to any other `LEN`.
    pub fn as_u8_array<const LEN: usize>(&self) -> (r: Vec<u8>)
        requires
            self.wf(),
            LEN == bytes_for_bits(BITS as nat),
        ensures
            r@.len() == LEN,
            forall|i: int| 0 <= i < r@.len() ==> r@[i] == le_byte_of_words(self.words_spec(), i),
    {
        proof {
            lemma_bytes_fit_words(BITS as nat);
        }
        le_bytes_of_words(self.words.as_slice(), LEN)
    }

    /// The buffer as an unsized word view.
    pub fn as_slice(&self) -> (r: &[u32])
        requires
            self.wf(),
        ensures
            r@ == self.words_spec(),
            r@.len() == words_for_bits(BITS as nat),
    {
        self.words.as_slice()
    }

    /// The buffer as an unsized little-endian byte view of
    /// `ceil(BITS / 8)` bytes.
    pub fn as_u8_slice(&self) -> (r: Vec<u8>)
        requires
            self.wf(),
            BITS <= usize::MAX - 31,
        ensures
            r@.len() == bytes_for_bits(BITS as nat),
            forall|i: int| 0 <= i < r@.len() ==> r@[i] == le_byte_of_words(self.words_spec(), i),
    {
        proof {
            lemma_bytes_fit_words(BITS as nat);
        }
        let len = (BITS + 7) / 8;
        le_bytes_of_words(self.words.as_slice(), len)
    }

    /// Overwrite one word of the buffer.
    pub fn set_word(&mut self, idx: usize, w: u32)
        requires
            old(self).wf(),
            idx < words_for_bits(BITS as nat),
        ensures
            final(self).wf(),
            final(self).words_spec() == old(self).words_spec().update(idx as int, w),
    {
        self.words.set(idx, w);
    }

    /// Overwrite one byte of the buffer in little-endian layout: byte
    /// `idx` lands in word `idx / 4`, and every other byte of the buffer
    /// is kept.
    pub fn set_u8(&mut self, idx: usize, b: u8)
        requires
            old(self).wf(),
            idx < bytes_for_bits(BITS as nat),
        ensures
            final(self).wf(),
            final(self).words_spec() == old(self).words_spec().update(
                idx as int / 4,
                word_with_le_byte(old(self).words_spec()[idx as int / 4], idx as int % 4, b),
            ),
            le_byte_of_words(final(self).words_spec(), idx as int) == b,
            forall|j: int|
                0 <= j < 4 * old(self).words_spec().len() && j != idx ==> le_byte_of_words(
                    final(self).words_spec(),
                    j,
                ) == le_byte_of_words(old(self).words_spec(), j),
    {
        proof {
            lemma_bytes_fit_words(BITS as nat);
        }
        let wi = idx / 4;
        let shift: u32 = ((idx % 4) as u32) * 8;
        let w = self.words[wi];
        let nw = (w & !(0xFFu32 << shift)) | ((b as u32) << shift);
        self.words.set(wi, nw);
        proof {
            let ghost ow = old(self).words_spec();
            let ghost nws = self.words@;
            lemma_word_byte_update(w, (idx % 4) as u32, 0, b);
            assert(nw == word_with_le_byte(ow[idx as int / 4], idx as int % 4, b));
            assert(le_byte_of_words(nws, idx as int) == b);
            assert forall|j: int| 0 <= j < 4 * ow.len() && j != idx implies le_byte_of_words(
                nws,
                j,
            ) == le_byte_of_words(ow, j) by {
                if j / 4 == idx as int / 4 {
                    assert(j % 4 != idx as int % 4);
                    lemma_word_byte_update(w, (idx % 4) as u32, (j % 4) as u32, b);
                    assert((word_with_le_byte(w, idx as int % 4, b) >> (((j % 4) * 8) as u32)) as u8
                        == (w >> (((j % 4) * 8) as u32)) as u8);
                } else {
                    assert(nws[j / 4] == ow[j / 4]);
                }
            }
        }
    }
}

impl SvBasicTypePriv for Logic {

}

/// [`Logic`] marshals to its fixed single-byte four-value encoding.
impl SvBasicType for Logic {
    type Underlying = u8;

    open spec fn spec_to_underlying(self) -> u8 {
        self.spec_to_byte()
    }

    open spec fn spec_from_underlying(u: u8) -> Logic {
        Logic::spec_from_byte(u)
    }

    open spec fn underlying_valid(u: u8) -> bool {
        u <= 3
    }

    proof fn lemma_round_trip(self) {
    }

    proof fn lemma_wire_round_trip(u: u8) {
    }

    fn to_underlying(self) -> u8 {
        self.to_byte()
    }

    fn from_underlying(u: u8) -> Logic {
        Logic::from_byte(u)
    }
}

} // verus!
