//! A volume, carried as the bits of an `f64`.
//!
//! Numbers of one sign order as their bits do, so that a volume can be compared
//! with the ends of its range without being computed with.

use vstd::prelude::*;

verus! {

/// Full volume.
pub const FULL_VOLUME: u64 = 0x3ff0_0000_0000_0000;

/// A third of it.
pub const THIRD: u64 = 0x3fd5_5555_5555_5555;

/// Two thirds of it.
pub const TWO_THIRDS: u64 = 0x3fe5_5555_5555_5555;

/// The sign, which is also the zero below which everything is negative.
pub const SIGN: u64 = 0x8000_0000_0000_0000;

/// More than any number.
pub const INFINITE: u64 = 0x7ff0_0000_0000_0000;

/// Less than any number.
pub const MINUS_INFINITE: u64 = 0xfff0_0000_0000_0000;

/// Whether a volume is below the range.
pub open spec fn is_below(volume: u64) -> bool {
    SIGN < volume <= MINUS_INFINITE
}

/// Whether a volume is above the range.
pub open spec fn is_above(volume: u64) -> bool {
    FULL_VOLUME < volume <= INFINITE
}

/// A volume brought into the range from nothing to full.
pub open spec fn clamped(volume: u64) -> u64 {
    if is_below(volume) {
        0
    } else if is_above(volume) {
        FULL_VOLUME
    } else {
        volume
    }
}

/// Bring a volume into the range from nothing to full. Steps walk off both ends
/// of it, and the player takes whatever it is told.
pub fn clamp(volume: u64) -> (r: u64)
    ensures
        r == clamped(volume),
{
    if SIGN < volume && volume <= MINUS_INFINITE {
        0
    } else if FULL_VOLUME < volume && volume <= INFINITE {
        FULL_VOLUME
    } else {
        volume
    }
}

/// The speaker that reads as a level. Silence is muted rather than low.
pub open spec fn icon_of(volume: u64) -> Seq<char> {
    if volume == 0 || volume == SIGN || is_below(volume) {
        "audio-volume-muted-symbolic"@
    } else if volume < THIRD {
        "audio-volume-low-symbolic"@
    } else if volume < TWO_THIRDS {
        "audio-volume-medium-symbolic"@
    } else {
        "audio-volume-high-symbolic"@
    }
}

/// Which speaker icon reads as this level. A volume outside the range picks one
/// all the same.
pub fn icon_for(volume: u64) -> (r: &'static str)
    ensures
        r@ == icon_of(volume),
{
    if volume == 0 || (SIGN <= volume && volume <= MINUS_INFINITE) {
        "audio-volume-muted-symbolic"
    } else if volume < THIRD {
        "audio-volume-low-symbolic"
    } else if volume < TWO_THIRDS {
        "audio-volume-medium-symbolic"
    } else {
        "audio-volume-high-symbolic"
    }
}

/// A volume that was brought into the range is within it, and stays as it is.
pub proof fn a_clamped_volume_is_in_range(volume: u64)
    ensures
        !is_below(clamped(volume)),
        !is_above(clamped(volume)),
        clamped(clamped(volume)) == clamped(volume),
{
}

/// A volume outside the range reads as the end of it that it is past.
pub proof fn a_volume_past_an_end_reads_as_that_end(volume: u64)
    ensures
        icon_of(clamped(volume)) == icon_of(volume),
{
}

/// A volume within the range is left as it is, one below it is taken for nothing, and
/// one above it for full. The bits of an `f64` that is not negative rise with it, and
/// those of a negative one begin at the sign.
pub proof fn a_volume_in_range_is_left_alone(volume: u64)
    ensures
        volume <= 0x3ff0_0000_0000_0000 ==> clamped(volume) == volume,
        0x3ff0_0000_0000_0000 < volume <= 0x7ff0_0000_0000_0000 ==> clamped(volume)
            == 0x3ff0_0000_0000_0000,
        0x8000_0000_0000_0000 < volume <= 0xfff0_0000_0000_0000 ==> clamped(volume) == 0,
{
}

/// The icon is muted for nothing, and else low, medium or high by thirds.
pub proof fn the_icon_goes_by_thirds(volume: u64)
    requires
        volume <= 0x3ff0_0000_0000_0000,
    ensures
        volume == 0 ==> icon_of(volume) == "audio-volume-muted-symbolic"@,
        0 < volume < 0x3fd5_5555_5555_5555 ==> icon_of(volume) == "audio-volume-low-symbolic"@,
        0x3fd5_5555_5555_5555 <= volume < 0x3fe5_5555_5555_5555 ==> icon_of(volume)
            == "audio-volume-medium-symbolic"@,
        0x3fe5_5555_5555_5555 <= volume ==> icon_of(volume) == "audio-volume-high-symbolic"@,
{
}

} // verus!
