//! The pin mapping table: a fixed lookup from (device variant, logical key
//! index) to the GPIO line number wired to that key position.
//!
//! The table encodes a physical wiring fact, so it is reproduced literally;
//! any index outside a variant's documented range has no mapping and is
//! rejected with [`KeypadError::InvalidIndex`].

use vstd::prelude::*;
use crate::errors::KeypadError;

verus! {

/// Which physical keypad is attached: the 3-key mini or the 12-key full
/// device. Fixed for the lifetime of a registry.
#[derive(Clone, Copy, PartialEq, Eq, Structural, Debug)]
pub enum DeviceVariant {
    Mini,
    Full,
}

/// How many logical keys the variant has; valid indices are `0 .. key_count`.
pub open spec fn key_count(variant: DeviceVariant) -> int {
    match variant {
        DeviceVariant::Mini => 3,
        DeviceVariant::Full => 12,
    }
}

/// Whether `index` is a valid logical key index for `variant`.
pub open spec fn valid_index(variant: DeviceVariant, index: int) -> bool {
    0 <= index < key_count(variant)
}

/// The wiring table: the GPIO line number for each valid (variant, index)
/// pair.
pub open spec fn pin_for(variant: DeviceVariant, index: int) -> u32
    recommends
        valid_index(variant, index),
{
    match variant {
        DeviceVariant::Mini => {
            if index == 0 {
                20
            } else if index == 1 {
                17
            } else {
                24
            }
        },
        DeviceVariant::Full => {
            if index == 0 {
                20
            } else if index == 1 {
                6
            } else if index == 2 {
                22
            } else if index == 3 {
                17
            } else if index == 4 {
                16
            } else if index == 5 {
                12
            } else if index == 6 {
                24
            } else if index == 7 {
                27
            } else if index == 8 {
                26
            } else if index == 9 {
                13
            } else if index == 10 {
                5
            } else {
                23
            }
        },
    }
}

/// Resolve a logical key index to the physical GPIO line number for the
/// given device variant.
///
/// Pure lookup: returns exactly the tabulated pin on every valid index and
/// `KeypadError::InvalidIndex` on every other index; it never clamps or
/// wraps.
pub fn resolve_pin(variant: DeviceVariant, index: usize) -> (r: Result<u32, KeypadError>)
    ensures
        valid_index(variant, index as int) ==> r == Ok::<u32, KeypadError>(
            pin_for(variant, index as int),
        ),
        !valid_index(variant, index as int) ==> r == Err::<u32, KeypadError>(
            KeypadError::InvalidIndex,
        ),
{
    match variant {
        DeviceVariant::Mini => match index {
            0 => Ok(20),
            1 => Ok(17),
            2 => Ok(24),
            _ => Err(KeypadError::InvalidIndex),
        },
        DeviceVariant::Full => match index {
            0 => Ok(20),
            1 => Ok(6),
            2 => Ok(22),
            3 => Ok(17),
            4 => Ok(16),
            5 => Ok(12),
            6 => Ok(24),
            7 => Ok(27),
            8 => Ok(26),
            9 => Ok(13),
            10 => Ok(5),
            11 => Ok(23),
            _ => Err(KeypadError::InvalidIndex),
        },
    }
}

/// Within one variant the wiring table is injective: two distinct valid
/// logical indices are always wired to distinct physical pins.
pub proof fn lemma_pin_mapping_injective(variant: DeviceVariant, i: int, j: int)
    requires
        valid_index(variant, i),
        valid_index(variant, j),
        i != j,
    ensures
        pin_for(variant, i) != pin_for(variant, j),
{
}

} // verus!
