//! Bit-field word codec: validated packing and unpacking of three logical
//! records — call metadata, an access-rights mask, and addressing guard data —
//! each into a single machine word.
//!
//! Every accessor returns exactly the bits its field owns, masked and shifted
//! down. Every mutator checks the value against the field's maximum
//! (`2^width - 1`) and refuses out-of-range input without touching the word;
//! on success it clears exactly the field's bit span and ORs in the shifted
//! value, leaving every other bit unchanged.

use vstd::prelude::*;

verus! {

/// Error returned by a field mutator whose value exceeds the field's
/// maximum representable value. The word travels back beside it, unchanged.
#[derive(Clone, Copy, PartialEq, Eq, Structural, Debug)]
pub struct RangeError;

// ---------------------------------------------------------------------------
// Call metadata
// ---------------------------------------------------------------------------

/// Call metadata packed into one word: label in bits 12..64, unwrapped
/// capability count in bits 9..12, extra capability count in bits 7..9,
/// and message length in bits 0..7.
#[derive(Clone, Copy, PartialEq, Eq, Structural, Debug)]
pub struct MessageInfo {
    inner: u64,
}

impl View for MessageInfo {
    type V = u64;

    closed spec fn view(&self) -> u64 {
        self.inner
    }
}

/// The label field of a metadata word: bits 12..64.
pub open spec fn label_of(w: u64) -> u64 {
    (w & 0xfffffffffffff000) >> 12
}

/// The metadata word with its label field replaced by `v`'s low 52 bits.
pub open spec fn with_label(w: u64, v: u64) -> u64 {
    (w & !0xfffffffffffff000u64) | ((v << 12) & 0xfffffffffffff000)
}

/// The unwrapped-capability count of a metadata word: bits 9..12.
pub open spec fn caps_unwrapped_of(w: u64) -> u64 {
    (w & 0xe00) >> 9
}

/// The metadata word with its unwrapped-capability count replaced by `v`'s
/// low 3 bits.
pub open spec fn with_caps_unwrapped(w: u64, v: u64) -> u64 {
    (w & !0xe00u64) | ((v << 9) & 0xe00)
}

/// The extra-capability count of a metadata word: bits 7..9.
pub open spec fn extra_caps_of(w: u64) -> u64 {
    (w & 0x180) >> 7
}

/// The metadata word with its extra-capability count replaced by `v`'s low
/// 2 bits.
pub open spec fn with_extra_caps(w: u64, v: u64) -> u64 {
    (w & !0x180u64) | ((v << 7) & 0x180)
}

/// The message length of a metadata word: bits 0..7.
pub open spec fn length_of(w: u64) -> u64 {
    w & 0x7f
}

/// The metadata word with its message length replaced by `v`'s low 7 bits.
pub open spec fn with_length(w: u64, v: u64) -> u64 {
    (w & !0x7fu64) | (v & 0x7f)
}

/// Writing the label round-trips: reading it back yields the value written,
/// and the other three fields keep their bits.
pub proof fn lemma_with_label(w: u64, v: u64)
    requires
        v <= 0xfffffffffffff,
    ensures
        label_of(with_label(w, v)) == v,
        caps_unwrapped_of(with_label(w, v)) == caps_unwrapped_of(w),
        extra_caps_of(with_label(w, v)) == extra_caps_of(w),
        length_of(with_label(w, v)) == length_of(w),
{
    assert(label_of(with_label(w, v)) == v
        && caps_unwrapped_of(with_label(w, v)) == caps_unwrapped_of(w)
        && extra_caps_of(with_label(w, v)) == extra_caps_of(w)
        && length_of(with_label(w, v)) == length_of(w)) by (bit_vector)
        requires
            v <= 0xfffffffffffff,
    ;
}

/// Writing the unwrapped-capability count round-trips and leaves the other
/// three fields unchanged.
pub proof fn lemma_with_caps_unwrapped(w: u64, v: u64)
    requires
        v <= 0x7,
    ensures
        caps_unwrapped_of(with_caps_unwrapped(w, v)) == v,
        label_of(with_caps_unwrapped(w, v)) == label_of(w),
        extra_caps_of(with_caps_unwrapped(w, v)) == extra_caps_of(w),
        length_of(with_caps_unwrapped(w, v)) == length_of(w),
{
    assert(caps_unwrapped_of(with_caps_unwrapped(w, v)) == v
        && label_of(with_caps_unwrapped(w, v)) == label_of(w)
        && extra_caps_of(with_caps_unwrapped(w, v)) == extra_caps_of(w)
        && length_of(with_caps_unwrapped(w, v)) == length_of(w)) by (bit_vector)
        requires
            v <= 0x7,
    ;
}

/// Writing the extra-capability count round-trips and leaves the other
/// three fields unchanged.
pub proof fn lemma_with_extra_caps(w: u64, v: u64)
    requires
        v <= 0x3,
    ensures
        extra_caps_of(with_extra_caps(w, v)) == v,
        label_of(with_extra_caps(w, v)) == label_of(w),
        caps_unwrapped_of(with_extra_caps(w, v)) == caps_unwrapped_of(w),
        length_of(with_extra_caps(w, v)) == length_of(w),
{
    assert(extra_caps_of(with_extra_caps(w, v)) == v
        && label_of(with_extra_caps(w, v)) == label_of(w)
        && caps_unwrapped_of(with_extra_caps(w, v)) == caps_unwrapped_of(w)
        && length_of(with_extra_caps(w, v)) == length_of(w)) by (bit_vector)
        requires
            v <= 0x3,
    ;
}

/// Writing the message length round-trips and leaves the other three fields
/// unchanged.
pub proof fn lemma_with_length(w: u64, v: u64)
    requires
        v <= 0x7f,
    ensures
        length_of(with_length(w, v)) == v,
        label_of(with_length(w, v)) == label_of(w),
        caps_unwrapped_of(with_length(w, v)) == caps_unwrapped_of(w),
        extra_caps_of(with_length(w, v)) == extra_caps_of(w),
{
    assert(length_of(with_length(w, v)) == v
        && label_of(with_length(w, v)) == label_of(w)
        && caps_unwrapped_of(with_length(w, v)) == caps_unwrapped_of(w)
        && extra_caps_of(with_length(w, v)) == extra_caps_of(w)) by (bit_vector)
        requires
            v <= 0x7f,
    ;
}

/// Every metadata accessor yields only the bits its field owns: the result
/// never exceeds the field's maximum representable value.
pub proof fn lemma_message_info_fields_bounded(w: u64)
    ensures
        label_of(w) <= 0xfffffffffffff,
        caps_unwrapped_of(w) <= 0x7,
        extra_caps_of(w) <= 0x3,
        length_of(w) <= 0x7f,
{
    assert(label_of(w) <= 0xfffffffffffff
        && caps_unwrapped_of(w) <= 0x7
        && extra_caps_of(w) <= 0x3
        && length_of(w) <= 0x7f) by (bit_vector);
}

/// Packing two different metadata fields commutes: either order of the two
/// writes yields the same final word.
pub proof fn lemma_message_info_packs_commute(w: u64, a: u64, b: u64)
    ensures
        with_caps_unwrapped(with_label(w, a), b) == with_label(with_caps_unwrapped(w, b), a),
        with_extra_caps(with_label(w, a), b) == with_label(with_extra_caps(w, b), a),
        with_length(with_label(w, a), b) == with_label(with_length(w, b), a),
        with_extra_caps(with_caps_unwrapped(w, a), b) == with_caps_unwrapped(with_extra_caps(w, b), a),
        with_length(with_caps_unwrapped(w, a), b) == with_caps_unwrapped(with_length(w, b), a),
        with_length(with_extra_caps(w, a), b) == with_extra_caps(with_length(w, b), a),
{
    assert(with_caps_unwrapped(with_label(w, a), b) == with_label(with_caps_unwrapped(w, b), a)
        && with_extra_caps(with_label(w, a), b) == with_label(with_extra_caps(w, b), a)
        && with_length(with_label(w, a), b) == with_label(with_length(w, b), a)
        && with_extra_caps(with_caps_unwrapped(w, a), b) == with_caps_unwrapped(with_extra_caps(w, b), a)
        && with_length(with_caps_unwrapped(w, a), b) == with_caps_unwrapped(with_length(w, b), a)
        && with_length(with_extra_caps(w, a), b) == with_extra_caps(with_length(w, b), a))
        by (bit_vector);
}

/// A metadata word has no identity beyond its bit pattern: equal bits mean
/// equal values, so packing disjoint fields in either order — which yields
/// the same bits — yields the same word.
pub proof fn lemma_message_info_extensional(a: MessageInfo, b: MessageInfo)
    requires
        a@ == b@,
    ensures
        a == b,
{
}

/// The all-zero metadata word decodes every field to zero.
pub proof fn lemma_message_info_zero()
    ensures
        label_of(0) == 0,
        caps_unwrapped_of(0) == 0,
        extra_caps_of(0) == 0,
        length_of(0) == 0,
{
    assert(label_of(0) == 0
        && caps_unwrapped_of(0) == 0
        && extra_caps_of(0) == 0
        && length_of(0) == 0) by (bit_vector);
}

#[allow(non_snake_case)]
impl MessageInfo {
    /// The packed word itself, as transmitted in the metadata register.
    pub fn bits(&self) -> (r: u64)
        ensures
            r == self@,
    {
        self.inner
    }

    /// Wraps a word received from the metadata register for field-wise
    /// decoding.
    pub fn from_bits(w: u64) -> (r: Self)
        ensures
            r@ == w,
    {
        MessageInfo { inner: w }
    }

    /// The label field: bits 12..64 of the word.
    pub fn label(&self) -> (r: u64)
        ensures
            r == label_of(self@),
            r <= 0xfffffffffffff,
    {
        proof {
            lemma_message_info_fields_bounded(self.inner);
        }
        (self.inner & 0xfffffffffffff000) >> 12
    }

    /// Replaces the label field, refusing a value over 52 bits and leaving
    /// the word unchanged in that case.
    pub fn set_label(self, label: usize) -> (r: Result<Self, (Self, RangeError)>)
        ensures
            label as u64 <= 0xfffffffffffff ==> (r matches Ok(s)
                && s@ == with_label(self@, label as u64)
                && label_of(s@) == label as u64
                && caps_unwrapped_of(s@) == caps_unwrapped_of(self@)
                && extra_caps_of(s@) == extra_caps_of(self@)
                && length_of(s@) == length_of(self@)),
            label as u64 > 0xfffffffffffff ==> (r matches Err(e) && e.0 == self),
    {
        if label as u64 > 0xfffffffffffff {
            return Err((self, RangeError));
        }
        let mut s = self;
        s.inner = (s.inner & !0xfffffffffffff000u64) | (((label as u64) << 12) & 0xfffffffffffff000);
        proof {
            lemma_with_label(self.inner, label as u64);
        }
        Ok(s)
    }

    /// The unwrapped-capability count: bits 9..12 of the word.
    pub fn capsUnwrapped(&self) -> (r: u64)
        ensures
            r == caps_unwrapped_of(self@),
            r <= 0x7,
    {
        proof {
            lemma_message_info_fields_bounded(self.inner);
        }
        (self.inner & 0xe00) >> 9
    }

    /// Replaces the unwrapped-capability count, refusing a value over 3 bits
    /// and leaving the word unchanged in that case.
    pub fn set_capsUnwrapped(self, capsUnwrapped: usize) -> (r: Result<Self, (Self, RangeError)>)
        ensures
            capsUnwrapped as u64 <= 0x7 ==> (r matches Ok(s)
                && s@ == with_caps_unwrapped(self@, capsUnwrapped as u64)
                && caps_unwrapped_of(s@) == capsUnwrapped as u64
                && label_of(s@) == label_of(self@)
                && extra_caps_of(s@) == extra_caps_of(self@)
                && length_of(s@) == length_of(self@)),
            capsUnwrapped as u64 > 0x7 ==> (r matches Err(e) && e.0 == self),
    {
        if capsUnwrapped > 0x7 {
            return Err((self, RangeError));
        }
        let mut s = self;
        s.inner = (s.inner & !0xe00u64) | (((capsUnwrapped as u64) << 9) & 0xe00);
        proof {
            lemma_with_caps_unwrapped(self.inner, capsUnwrapped as u64);
        }
        Ok(s)
    }

    /// The extra-capability count: bits 7..9 of the word.
    pub fn extraCaps(&self) -> (r: u64)
        ensures
            r == extra_caps_of(self@),
            r <= 0x3,
    {
        proof {
            lemma_message_info_fields_bounded(self.inner);
        }
        (self.inner & 0x180) >> 7
    }

    /// Replaces the extra-capability count, refusing a value over 2 bits and
    /// leaving the word unchanged in that case.
    pub fn set_extraCaps(self, extraCaps: usize) -> (r: Result<Self, (Self, RangeError)>)
        ensures
            extraCaps as u64 <= 0x3 ==> (r matches Ok(s)
                && s@ == with_extra_caps(self@, extraCaps as u64)
                && extra_caps_of(s@) == extraCaps as u64
                && label_of(s@) == label_of(self@)
                && caps_unwrapped_of(s@) == caps_unwrapped_of(self@)
                && length_of(s@) == length_of(self@)),
            extraCaps as u64 > 0x3 ==> (r matches Err(e) && e.0 == self),
    {
        if extraCaps > 0x3 {
            return Err((self, RangeError));
        }
        let mut s = self;
        s.inner = (s.inner & !0x180u64) | (((extraCaps as u64) << 7) & 0x180);
        proof {
            lemma_with_extra_caps(self.inner, extraCaps as u64);
        }
        Ok(s)
    }

    /// The message length: bits 0..7 of the word.
    pub fn length(&self) -> (r: u64)
        ensures
            r == length_of(self@),
            r <= 0x7f,
    {
        proof {
            lemma_message_info_fields_bounded(self.inner);
        }
        self.inner & 0x7f
    }

    /// Replaces the message length, refusing a value over 7 bits and leaving
    /// the word unchanged in that case.
    pub fn set_length(self, length: usize) -> (r: Result<Self, (Self, RangeError)>)
        ensures
            length as u64 <= 0x7f ==> (r matches Ok(s)
                && s@ == with_length(self@, length as u64)
                && length_of(s@) == length as u64
                && label_of(s@) == label_of(self@)
                && caps_unwrapped_of(s@) == caps_unwrapped_of(self@)
                && extra_caps_of(s@) == extra_caps_of(self@)),
            length as u64 > 0x7f ==> (r matches Err(e) && e.0 == self),
    {
        if length > 0x7f {
            return Err((self, RangeError));
        }
        let mut s = self;
        s.inner = (s.inner & !0x7fu64) | ((length as u64) & 0x7f);
        proof {
            lemma_with_length(self.inner, length as u64);
        }
        Ok(s)
    }
}

impl Default for MessageInfo {
    /// The default metadata word is all-zero: every field decodes to zero.
    fn default() -> (r: Self)
        ensures
            r@ == 0,
    {
        MessageInfo { inner: 0 }
    }
}

// ---------------------------------------------------------------------------
// Access rights
// ---------------------------------------------------------------------------

/// An access-rights mask packed into one word: four independent boolean
/// flags in the low 4 bits — grant-with-reply in bit 3, grant in bit 2,
/// read in bit 1, write in bit 0. Bits 4..64 belong to no field and are
/// never touched by the mutators.
#[derive(Clone, Copy, PartialEq, Eq, Structural, Debug)]
pub struct CapRights {
    inner: u64,
}

impl View for CapRights {
    type V = u64;

    closed spec fn view(&self) -> u64 {
        self.inner
    }
}

/// The grant-with-reply flag of a rights word: bit 3.
pub open spec fn allow_grant_reply_of(w: u64) -> u64 {
    (w & 0x8) >> 3
}

/// The rights word with its grant-with-reply flag replaced by `v`'s low bit.
pub open spec fn with_allow_grant_reply(w: u64, v: u64) -> u64 {
    (w & !0x8u64) | ((v << 3) & 0x8)
}

/// The grant flag of a rights word: bit 2.
pub open spec fn allow_grant_of(w: u64) -> u64 {
    (w & 0x4) >> 2
}

/// The rights word with its grant flag replaced by `v`'s low bit.
pub open spec fn with_allow_grant(w: u64, v: u64) -> u64 {
    (w & !0x4u64) | ((v << 2) & 0x4)
}

/// The read flag of a rights word: bit 1.
pub open spec fn allow_read_of(w: u64) -> u64 {
    (w & 0x2) >> 1
}

/// The rights word with its read flag replaced by `v`'s low bit.
pub open spec fn with_allow_read(w: u64, v: u64) -> u64 {
    (w & !0x2u64) | ((v << 1) & 0x2)
}

/// The write flag of a rights word: bit 0.
pub open spec fn allow_write_of(w: u64) -> u64 {
    w & 0x1
}

/// The rights word with its write flag replaced by `v`'s low bit.
pub open spec fn with_allow_write(w: u64, v: u64) -> u64 {
    (w & !0x1u64) | (v & 0x1)
}

/// Writing the grant-with-reply flag round-trips and leaves the other three
/// flags, and every bit outside the mask, unchanged.
pub proof fn lemma_with_allow_grant_reply(w: u64, v: u64)
    requires
        v <= 0x1,
    ensures
        allow_grant_reply_of(with_allow_grant_reply(w, v)) == v,
        allow_grant_of(with_allow_grant_reply(w, v)) == allow_grant_of(w),
        allow_read_of(with_allow_grant_reply(w, v)) == allow_read_of(w),
        allow_write_of(with_allow_grant_reply(w, v)) == allow_write_of(w),
        with_allow_grant_reply(w, v) & !0xfu64 == w & !0xfu64,
{
    assert(allow_grant_reply_of(with_allow_grant_reply(w, v)) == v
        && allow_grant_of(with_allow_grant_reply(w, v)) == allow_grant_of(w)
        && allow_read_of(with_allow_grant_reply(w, v)) == allow_read_of(w)
        && allow_write_of(with_allow_grant_reply(w, v)) == allow_write_of(w)
        && with_allow_grant_reply(w, v) & !0xfu64 == w & !0xfu64) by (bit_vector)
        requires
            v <= 0x1,
    ;
}

/// Writing the grant flag round-trips and leaves the other three flags, and
/// every bit outside the mask, unchanged.
pub proof fn lemma_with_allow_grant(w: u64, v: u64)
    requires
        v <= 0x1,
    ensures
        allow_grant_of(with_allow_grant(w, v)) == v,
        allow_grant_reply_of(with_allow_grant(w, v)) == allow_grant_reply_of(w),
        allow_read_of(with_allow_grant(w, v)) == allow_read_of(w),
        allow_write_of(with_allow_grant(w, v)) == allow_write_of(w),
        with_allow_grant(w, v) & !0xfu64 == w & !0xfu64,
{
    assert(allow_grant_of(with_allow_grant(w, v)) == v
        && allow_grant_reply_of(with_allow_grant(w, v)) == allow_grant_reply_of(w)
        && allow_read_of(with_allow_grant(w, v)) == allow_read_of(w)
        && allow_write_of(with_allow_grant(w, v)) == allow_write_of(w)
        && with_allow_grant(w, v) & !0xfu64 == w & !0xfu64) by (bit_vector)
        requires
            v <= 0x1,
    ;
}

/// Writing the read flag round-trips and leaves the other three flags, and
/// every bit outside the mask, unchanged.
pub proof fn lemma_with_allow_read(w: u64, v: u64)
    requires
        v <= 0x1,
    ensures
        allow_read_of(with_allow_read(w, v)) == v,
        allow_grant_reply_of(with_allow_read(w, v)) == allow_grant_reply_of(w),
        allow_grant_of(with_allow_read(w, v)) == allow_grant_of(w),
        allow_write_of(with_allow_read(w, v)) == allow_write_of(w),
        with_allow_read(w, v) & !0xfu64 == w & !0xfu64,
{
    assert(allow_read_of(with_allow_read(w, v)) == v
        && allow_grant_reply_of(with_allow_read(w, v)) == allow_grant_reply_of(w)
        && allow_grant_of(with_allow_read(w, v)) == allow_grant_of(w)
        && allow_write_of(with_allow_read(w, v)) == allow_write_of(w)
        && with_allow_read(w, v) & !0xfu64 == w & !0xfu64) by (bit_vector)
        requires
            v <= 0x1,
    ;
}

/// Writing the write flag round-trips and leaves the other three flags, and
/// every bit outside the mask, unchanged.
pub proof fn lemma_with_allow_write(w: u64, v: u64)
    requires
        v <= 0x1,
    ensures
        allow_write_of(with_allow_write(w, v)) == v,
        allow_grant_reply_of(with_allow_write(w, v)) == allow_grant_reply_of(w),
        allow_grant_of(with_allow_write(w, v)) == allow_grant_of(w),
        allow_read_of(with_allow_write(w, v)) == allow_read_of(w),
        with_allow_write(w, v) & !0xfu64 == w & !0xfu64,
{
    assert(allow_write_of(with_allow_write(w, v)) == v
        && allow_grant_reply_of(with_allow_write(w, v)) == allow_grant_reply_of(w)
        && allow_grant_of(with_allow_write(w, v)) == allow_grant_of(w)
        && allow_read_of(with_allow_write(w, v)) == allow_read_of(w)
        && with_allow_write(w, v) & !0xfu64 == w & !0xfu64) by (bit_vector)
        requires
            v <= 0x1,
    ;
}

/// Every rights accessor yields only the single bit its flag owns.
pub proof fn lemma_cap_rights_fields_bounded(w: u64)
    ensures
        allow_grant_reply_of(w) <= 0x1,
        allow_grant_of(w) <= 0x1,
        allow_read_of(w) <= 0x1,
        allow_write_of(w) <= 0x1,
{
    assert(allow_grant_reply_of(w) <= 0x1
        && allow_grant_of(w) <= 0x1
        && allow_read_of(w) <= 0x1
        && allow_write_of(w) <= 0x1) by (bit_vector);
}

/// Packing two different rights flags commutes: either order of the two
/// writes yields the same final word.
pub proof fn lemma_cap_rights_packs_commute(w: u64, a: u64, b: u64)
    ensures
        with_allow_grant(with_allow_grant_reply(w, a), b) == with_allow_grant_reply(with_allow_grant(w, b), a),
        with_allow_read(with_allow_grant_reply(w, a), b) == with_allow_grant_reply(with_allow_read(w, b), a),
        with_allow_write(with_allow_grant_reply(w, a), b) == with_allow_grant_reply(with_allow_write(w, b), a),
        with_allow_read(with_allow_grant(w, a), b) == with_allow_grant(with_allow_read(w, b), a),
        with_allow_write(with_allow_grant(w, a), b) == with_allow_grant(with_allow_write(w, b), a),
        with_allow_write(with_allow_read(w, a), b) == with_allow_read(with_allow_write(w, b), a),
{
    assert(with_allow_grant(with_allow_grant_reply(w, a), b) == with_allow_grant_reply(with_allow_grant(w, b), a)
        && with_allow_read(with_allow_grant_reply(w, a), b) == with_allow_grant_reply(with_allow_read(w, b), a)
        && with_allow_write(with_allow_grant_reply(w, a), b) == with_allow_grant_reply(with_allow_write(w, b), a)
        && with_allow_read(with_allow_grant(w, a), b) == with_allow_grant(with_allow_read(w, b), a)
        && with_allow_write(with_allow_grant(w, a), b) == with_allow_grant(with_allow_write(w, b), a)
        && with_allow_write(with_allow_read(w, a), b) == with_allow_read(with_allow_write(w, b), a))
        by (bit_vector);
}

/// A rights word has no identity beyond its bit pattern: equal bits mean
/// equal values.
pub proof fn lemma_cap_rights_extensional(a: CapRights, b: CapRights)
    requires
        a@ == b@,
    ensures
        a == b,
{
}

/// The all-zero rights word decodes every flag to zero.
pub proof fn lemma_cap_rights_zero()
    ensures
        allow_grant_reply_of(0) == 0,
        allow_grant_of(0) == 0,
        allow_read_of(0) == 0,
        allow_write_of(0) == 0,
{
    assert(allow_grant_reply_of(0) == 0
        && allow_grant_of(0) == 0
        && allow_read_of(0) == 0
        && allow_write_of(0) == 0) by (bit_vector);
}

#[allow(non_snake_case)]
impl CapRights {
    /// The packed word itself, as transmitted in a register.
    pub fn bits(&self) -> (r: u64)
        ensures
            r == self@,
    {
        self.inner
    }

    /// Wraps a word received from a register for flag-wise decoding.
    pub fn from_bits(w: u64) -> (r: Self)
        ensures
            r@ == w,
    {
        CapRights { inner: w }
    }

    /// The grant-with-reply flag: bit 3 of the word.
    pub fn capAllowGrantReply(&self) -> (r: u64)
        ensures
            r == allow_grant_reply_of(self@),
            r <= 0x1,
    {
        proof {
            lemma_cap_rights_fields_bounded(self.inner);
        }
        (self.inner & 0x8) >> 3
    }

    /// Replaces the grant-with-reply flag, refusing a value over 1 bit and
    /// leaving the word unchanged in that case.
    pub fn set_capAllowGrantReply(self, capAllowGrantReply: usize) -> (r: Result<Self, (Self, RangeError)>)
        ensures
            capAllowGrantReply as u64 <= 0x1 ==> (r matches Ok(s)
                && s@ == with_allow_grant_reply(self@, capAllowGrantReply as u64)
                && allow_grant_reply_of(s@) == capAllowGrantReply as u64
                && allow_grant_of(s@) == allow_grant_of(self@)
                && allow_read_of(s@) == allow_read_of(self@)
                && allow_write_of(s@) == allow_write_of(self@)),
            capAllowGrantReply as u64 > 0x1 ==> (r matches Err(e) && e.0 == self),
    {
        if capAllowGrantReply > 0x1 {
            return Err((self, RangeError));
        }
        let mut s = self;
        s.inner = (s.inner & !0x8u64) | (((capAllowGrantReply as u64) << 3) & 0x8);
        proof {
            lemma_with_allow_grant_reply(self.inner, capAllowGrantReply as u64);
        }
        Ok(s)
    }

    /// The grant flag: bit 2 of the word.
    pub fn capAllowGrant(&self) -> (r: u64)
        ensures
            r == allow_grant_of(self@),
            r <= 0x1,
    {
        proof {
            lemma_cap_rights_fields_bounded(self.inner);
        }
        (self.inner & 0x4) >> 2
    }

    /// Replaces the grant flag, refusing a value over 1 bit and leaving the
    /// word unchanged in that case.
    pub fn set_capAllowGrant(self, capAllowGrant: usize) -> (r: Result<Self, (Self, RangeError)>)
        ensures
            capAllowGrant as u64 <= 0x1 ==> (r matches Ok(s)
                && s@ == with_allow_grant(self@, capAllowGrant as u64)
                && allow_grant_of(s@) == capAllowGrant as u64
                && allow_grant_reply_of(s@) == allow_grant_reply_of(self@)
                && allow_read_of(s@) == allow_read_of(self@)
                && allow_write_of(s@) == allow_write_of(self@)),
            capAllowGrant as u64 > 0x1 ==> (r matches Err(e) && e.0 == self),
    {
        if capAllowGrant > 0x1 {
            return Err((self, RangeError));
        }
        let mut s = self;
        s.inner = (s.inner & !0x4u64) | (((capAllowGrant as u64) << 2) & 0x4);
        proof {
            lemma_with_allow_grant(self.inner, capAllowGrant as u64);
        }
        Ok(s)
    }

    /// The read flag: bit 1 of the word.
    pub fn capAllowRead(&self) -> (r: u64)
        ensures
            r == allow_read_of(self@),
            r <= 0x1,
    {
        proof {
            lemma_cap_rights_fields_bounded(self.inner);
        }
        (self.inner & 0x2) >> 1
    }

    /// Replaces the read flag, refusing a value over 1 bit and leaving the
    /// word unchanged in that case.
    pub fn set_capAllowRead(self, capAllowRead: usize) -> (r: Result<Self, (Self, RangeError)>)
        ensures
            capAllowRead as u64 <= 0x1 ==> (r matches Ok(s)
                && s@ == with_allow_read(self@, capAllowRead as u64)
                && allow_read_of(s@) == capAllowRead as u64
                && allow_grant_reply_of(s@) == allow_grant_reply_of(self@)
                && allow_grant_of(s@) == allow_grant_of(self@)
                && allow_write_of(s@) == allow_write_of(self@)),
            capAllowRead as u64 > 0x1 ==> (r matches Err(e) && e.0 == self),
    {
        if capAllowRead > 0x1 {
            return Err((self, RangeError));
        }
        let mut s = self;
        s.inner = (s.inner & !0x2u64) | (((capAllowRead as u64) << 1) & 0x2);
        proof {
            lemma_with_allow_read(self.inner, capAllowRead as u64);
        }
        Ok(s)
    }

    /// The write flag: bit 0 of the word.
    pub fn capAllowWrite(&self) -> (r: u64)
        ensures
            r == allow_write_of(self@),
            r <= 0x1,
    {
        proof {
            lemma_cap_rights_fields_bounded(self.inner);
        }
        self.inner & 0x1
    }

    /// Replaces the write flag, refusing a value over 1 bit and leaving the
    /// word unchanged in that case.
    pub fn set_capAllowWrite(self, capAllowWrite: usize) -> (r: Result<Self, (Self, RangeError)>)
        ensures
            capAllowWrite as u64 <= 0x1 ==> (r matches Ok(s)
                && s@ == with_allow_write(self@, capAllowWrite as u64)
                && allow_write_of(s@) == capAllowWrite as u64
                && allow_grant_reply_of(s@) == allow_grant_reply_of(self@)
                && allow_grant_of(s@) == allow_grant_of(self@)
                && allow_read_of(s@) == allow_read_of(self@)),
            capAllowWrite as u64 > 0x1 ==> (r matches Err(e) && e.0 == self),
    {
        if capAllowWrite > 0x1 {
            return Err((self, RangeError));
        }
        let mut s = self;
        s.inner = (s.inner & !0x1u64) | ((capAllowWrite as u64) & 0x1);
        proof {
            lemma_with_allow_write(self.inner, capAllowWrite as u64);
        }
        Ok(s)
    }
}

impl Default for CapRights {
    /// The default rights word is all-zero: every flag decodes to zero.
    fn default() -> (r: Self)
        ensures
            r@ == 0,
    {
        CapRights { inner: 0 }
    }
}

// ---------------------------------------------------------------------------
// Addressing guard data
// ---------------------------------------------------------------------------

/// Addressing guard data packed into one word: the guard value in bits
/// 6..64 and the guard size — how many address bits a capability-table node
/// consumes — in bits 0..6.
#[allow(non_camel_case_types)]
#[derive(Clone, Copy, PartialEq, Eq, Structural, Debug)]
pub struct CNode_CapData {
    inner: u64,
}

impl View for CNode_CapData {
    type V = u64;

    closed spec fn view(&self) -> u64 {
        self.inner
    }
}

/// The guard value of a guard-data word: bits 6..64.
pub open spec fn guard_of(w: u64) -> u64 {
    (w & 0xffffffffffffffc0) >> 6
}

/// The guard-data word with its guard value replaced by `v`'s low 58 bits.
pub open spec fn with_guard(w: u64, v: u64) -> u64 {
    (w & !0xffffffffffffffc0u64) | ((v << 6) & 0xffffffffffffffc0)
}

/// The guard size of a guard-data word: bits 0..6.
pub open spec fn guard_size_of(w: u64) -> u64 {
    w & 0x3f
}

/// The guard-data word with its guard size replaced by `v`'s low 6 bits.
pub open spec fn with_guard_size(w: u64, v: u64) -> u64 {
    (w & !0x3fu64) | (v & 0x3f)
}

/// Writing the guard value round-trips and leaves the guard size unchanged.
pub proof fn lemma_with_guard(w: u64, v: u64)
    requires
        v <= 0x3ffffffffffffff,
    ensures
        guard_of(with_guard(w, v)) == v,
        guard_size_of(with_guard(w, v)) == guard_size_of(w),
{
    assert(guard_of(with_guard(w, v)) == v
        && guard_size_of(with_guard(w, v)) == guard_size_of(w)) by (bit_vector)
        requires
            v <= 0x3ffffffffffffff,
    ;
}

/// Writing the guard size round-trips and leaves the guard value unchanged.
pub proof fn lemma_with_guard_size(w: u64, v: u64)
    requires
        v <= 0x3f,
    ensures
        guard_size_of(with_guard_size(w, v)) == v,
        guard_of(with_guard_size(w, v)) == guard_of(w),
{
    assert(guard_size_of(with_guard_size(w, v)) == v
        && guard_of(with_guard_size(w, v)) == guard_of(w)) by (bit_vector)
        requires
            v <= 0x3f,
    ;
}

/// Both guard-data accessors yield only the bits their fields own.
pub proof fn lemma_cap_data_fields_bounded(w: u64)
    ensures
        guard_of(w) <= 0x3ffffffffffffff,
        guard_size_of(w) <= 0x3f,
{
    assert(guard_of(w) <= 0x3ffffffffffffff && guard_size_of(w) <= 0x3f) by (bit_vector);
}

/// Packing the two guard-data fields commutes: either order of the two
/// writes yields the same final word.
pub proof fn lemma_cap_data_packs_commute(w: u64, a: u64, b: u64)
    ensures
        with_guard_size(with_guard(w, a), b) == with_guard(with_guard_size(w, b), a),
{
    assert(with_guard_size(with_guard(w, a), b) == with_guard(with_guard_size(w, b), a))
        by (bit_vector);
}

/// A guard-data word has no identity beyond its bit pattern: equal bits
/// mean equal values.
pub proof fn lemma_cap_data_extensional(a: CNode_CapData, b: CNode_CapData)
    requires
        a@ == b@,
    ensures
        a == b,
{
}

/// The all-zero guard-data word decodes both fields to zero.
pub proof fn lemma_cap_data_zero()
    ensures
        guard_of(0) == 0,
        guard_size_of(0) == 0,
{
    assert(guard_of(0) == 0 && guard_size_of(0) == 0) by (bit_vector);
}

#[allow(non_snake_case)]
impl CNode_CapData {
    /// The packed word itself, as transmitted in a register.
    pub fn bits(&self) -> (r: u64)
        ensures
            r == self@,
    {
        self.inner
    }

    /// Wraps a word received from a register for field-wise decoding.
    pub fn from_bits(w: u64) -> (r: Self)
        ensures
            r@ == w,
    {
        CNode_CapData { inner: w }
    }

    /// The guard value: bits 6..64 of the word.
    pub fn guard(&self) -> (r: u64)
        ensures
            r == guard_of(self@),
            r <= 0x3ffffffffffffff,
    {
        proof {
            lemma_cap_data_fields_bounded(self.inner);
        }
        (self.inner & 0xffffffffffffffc0) >> 6
    }

    /// Replaces the guard value, refusing a value over 58 bits and leaving
    /// the word unchanged in that case.
    pub fn set_guard(self, guard: usize) -> (r: Result<Self, (Self, RangeError)>)
        ensures
            guard as u64 <= 0x3ffffffffffffff ==> (r matches Ok(s)
                && s@ == with_guard(self@, guard as u64)
                && guard_of(s@) == guard as u64
                && guard_size_of(s@) == guard_size_of(self@)),
            guard as u64 > 0x3ffffffffffffff ==> (r matches Err(e) && e.0 == self),
    {
        if guard as u64 > 0x3ffffffffffffff {
            return Err((self, RangeError));
        }
        let mut s = self;
        s.inner = (s.inner & !0xffffffffffffffc0u64) | (((guard as u64) << 6) & 0xffffffffffffffc0);
        proof {
            lemma_with_guard(self.inner, guard as u64);
        }
        Ok(s)
    }

    /// The guard size: bits 0..6 of the word.
    pub fn guardSize(&self) -> (r: u64)
        ensures
            r == guard_size_of(self@),
            r <= 0x3f,
    {
        proof {
            lemma_cap_data_fields_bounded(self.inner);
        }
        self.inner & 0x3f
    }

    /// Replaces the guard size, refusing a value over 6 bits and leaving the
    /// word unchanged in that case.
    pub fn set_guardSize(self, guardSize: usize) -> (r: Result<Self, (Self, RangeError)>)
        ensures
            guardSize as u64 <= 0x3f ==> (r matches Ok(s)
                && s@ == with_guard_size(self@, guardSize as u64)
                && guard_size_of(s@) == guardSize as u64
                && guard_of(s@) == guard_of(self@)),
            guardSize as u64 > 0x3f ==> (r matches Err(e) && e.0 == self),
    {
        if guardSize > 0x3f {
            return Err((self, RangeError));
        }
        let mut s = self;
        s.inner = (s.inner & !0x3fu64) | ((guardSize as u64) & 0x3f);
        proof {
            lemma_with_guard_size(self.inner, guardSize as u64);
        }
        Ok(s)
    }
}

impl Default for CNode_CapData {
    /// The default guard-data word is all-zero: both fields decode to zero.
    fn default() -> (r: Self)
        ensures
            r@ == 0,
    {
        CNode_CapData { inner: 0 }
    }
}

} // verus!
