//! Frequency unit conversions, made by the `bitrate` crate.

use vstd::prelude::*;

verus! {

/// The number of kHz in one MHz.
pub const KILOHERTZ_PER_MEGAHERTZ: u32 = 1_000;

/// The number of Hz in one MHz.
pub const HERTZ_PER_MEGAHERTZ: u32 = 1_000_000;

/// Converts MHz to kHz with `bitrate`'s `Into<KiloHertz<u32>>` for `MegaHertz<u32>`, which
/// multiplies by 1000 in `u32`. The product must fit: the multiplication is unchecked.
#[verifier::external_body]
pub(crate) fn megahertz_to_kilohertz(megahertz: u32) -> (kilohertz: u32)
    requires
        megahertz * KILOHERTZ_PER_MEGAHERTZ <= u32::MAX,
    ensures
        kilohertz == megahertz * KILOHERTZ_PER_MEGAHERTZ,
{
    let kilohertz: bitrate::KiloHertz<u32> = bitrate::MegaHertz(megahertz).into();
    kilohertz.0
}

/// Converts MHz to Hz with `bitrate`'s `Into<Hertz<u32>>` for `MegaHertz<u32>`, which
/// multiplies by 1 000 000 in `u32`. The product must fit: the multiplication is unchecked.
#[verifier::external_body]
pub(crate) fn megahertz_to_hertz(megahertz: u32) -> (hertz: u32)
    requires
        megahertz * HERTZ_PER_MEGAHERTZ <= u32::MAX,
    ensures
        hertz == megahertz * HERTZ_PER_MEGAHERTZ,
{
    let hertz: bitrate::Hertz<u32> = bitrate::MegaHertz(megahertz).into();
    hertz.0
}

} // verus!
