//! Canonical value lifters: conversion of raw wire values (integer codes)
//! into validated host values.
//!
//! Every lifter exists in two forms. The checked form validates its input and
//! reports a [`CanonError`] on anything outside the wire format. The trusted
//! form assumes the input was already validated upstream: that trust boundary
//! is written down as a `requires` clause, so a caller must establish it
//! before the conversion is allowed.

use vstd::prelude::*;
use vstd::utf8::is_scalar;

verus! {

/// The failures the checked lifters and the representation slots can report.
/// Every failure of this kind marks a malformed wire value or misuse of a
/// resource, not a recoverable runtime condition.
#[derive(Clone, Copy, Debug, PartialEq, Eq, Structural)]
pub enum CanonError {
    /// A boolean wire byte other than `0` or `1`.
    InvalidBool,
    /// A 32-bit code that is not a Unicode scalar value.
    InvalidChar,
    /// A byte sequence that is not well-formed UTF-8.
    InvalidText,
    /// A tag outside the declared variants of a closed enumeration.
    InvalidDiscriminant,
    /// An access to a representation slot that was already emptied.
    EmptySlot,
}

/// Checked boolean lift: `0` is `false`, `1` is `true`, anything else is
/// rejected.
pub fn bool_lift_checked(v: u8) -> (r: Result<bool, CanonError>)
    ensures
        v == 0 ==> r == Ok::<bool, CanonError>(false),
        v == 1 ==> r == Ok::<bool, CanonError>(true),
        v >= 2 ==> r == Err::<bool, CanonError>(CanonError::InvalidBool),
{
    if v == 0 {
        Ok(false)
    } else if v == 1 {
        Ok(true)
    } else {
        Err(CanonError::InvalidBool)
    }
}

/// Trusted boolean lift: the wire is assumed to carry only `0` or `1`, and
/// the caller must justify that assumption.
pub fn bool_lift(v: u8) -> (r: bool)
    requires
        v <= 1,
    ensures
        r == (v == 1),
{
    v != 0
}

/// Relies on core's `char::from_u32`: it returns `Some` exactly on Unicode
/// scalar values (not a surrogate, at most `0x10FFFF`), and the returned
/// character carries the given code.
#[verifier::external_body]
fn char_from_u32(v: u32) -> (r: Option<char>)
    ensures
        r is Some <==> is_scalar(v),
        r matches Some(c) ==> c as u32 == v,
{
    char::from_u32(v)
}

/// Checked character lift: accepts exactly the Unicode scalar values.
pub fn char_lift_checked(v: u32) -> (r: Result<char, CanonError>)
    ensures
        is_scalar(v) ==> (r matches Ok(c) && c as u32 == v),
        !is_scalar(v) ==> r == Err::<char, CanonError>(CanonError::InvalidChar),
{
    match char_from_u32(v) {
        Some(c) => Ok(c),
        None => Err(CanonError::InvalidChar),
    }
}

/// Trusted character lift: the wire is assumed to carry only Unicode scalar
/// values, and the caller must justify that assumption.
pub fn char_lift(v: u32) -> (c: char)
    requires
        is_scalar(v),
    ensures
        c as u32 == v,
{
    match char_from_u32(v) {
        Some(c) => c,
        None => vstd::pervasive::unreached(),
    }
}

/// Checked lift of a closed enumeration's tag: a tag is accepted exactly when
/// it falls below the declared variant count; anything else is the
/// invalid-discriminant case.
pub fn enum_lift_checked(tag: u32, variant_count: u32) -> (r: Result<u32, CanonError>)
    ensures
        tag < variant_count ==> r == Ok::<u32, CanonError>(tag),
        tag >= variant_count ==> r == Err::<u32, CanonError>(CanonError::InvalidDiscriminant),
{
    if tag < variant_count {
        Ok(tag)
    } else {
        Err(CanonError::InvalidDiscriminant)
    }
}

/// Trusted lift of a closed enumeration's tag: the wire is assumed to carry
/// only declared tags, and the caller must justify that assumption.
pub fn enum_lift(tag: u32, variant_count: u32) -> (r: u32)
    requires
        tag < variant_count,
    ensures
        r == tag,
{
    tag
}

} // verus!
