//! The FLL external reference divider and its three-bit code.
//!
//! The hardware holds the divider as a code from 0 to 7, and what a code stands for depends
//! on the class of the crystal: for a low frequency crystal, or when the real-time clock
//! oscillator is selected, the codes stand for 1, 2, 4, ..., 128; for every other crystal
//! they stand for 32, 64, 128, 256, 512, 1024, 1280 and 1536.

use vstd::prelude::*;

verus! {

/// The values a three-bit divider code may take.
pub open spec fn is_reference_divider_code(code: int) -> bool {
    0 <= code < 8
}

/// The divider that `code` stands for in the given crystal class.
pub open spec fn reference_divider(code: int, low_frequency: bool) -> int {
    if low_frequency {
        if code == 0 {
            1
        } else if code == 1 {
            2
        } else if code == 2 {
            4
        } else if code == 3 {
            8
        } else if code == 4 {
            16
        } else if code == 5 {
            32
        } else if code == 6 {
            64
        } else {
            128
        }
    } else {
        if code == 0 {
            32
        } else if code == 1 {
            64
        } else if code == 2 {
            128
        } else if code == 3 {
            256
        } else if code == 4 {
            512
        } else if code == 5 {
            1024
        } else if code == 6 {
            1280
        } else {
            1536
        }
    }
}

/// `divider` is one of the eight dividers of the given crystal class.
pub open spec fn is_reference_divider(divider: int, low_frequency: bool) -> bool {
    exists|code: int|
        is_reference_divider_code(code) && #[trigger] reference_divider(code, low_frequency)
            == divider
}

/// The code of `divider` in the given crystal class, for a divider of that class.
pub open spec fn reference_divider_code(divider: int, low_frequency: bool) -> int {
    choose|code: int|
        is_reference_divider_code(code) && #[trigger] reference_divider(code, low_frequency)
            == divider
}

/// Different codes stand for different dividers within one crystal class, so a divider has
/// at most one code.
pub proof fn lemma_reference_divider_is_injective(first: int, second: int, low_frequency: bool)
    requires
        is_reference_divider_code(first),
        is_reference_divider_code(second),
        reference_divider(first, low_frequency) == reference_divider(second, low_frequency),
    ensures
        first == second,
{
}

/// The divider that the three-bit `code` stands for in the given crystal class.
pub fn decode_reference_divider(code: u8, low_frequency: bool) -> (divider: u16)
    requires
        is_reference_divider_code(code as int),
    ensures
        divider == reference_divider(code as int, low_frequency),
        is_reference_divider(divider as int, low_frequency),
{
    let divider: u16 = if low_frequency {
        match code {
            0 => 1,
            1 => 2,
            2 => 4,
            3 => 8,
            4 => 16,
            5 => 32,
            6 => 64,
            _ => 128,
        }
    } else {
        match code {
            0 => 32,
            1 => 64,
            2 => 128,
            3 => 256,
            4 => 512,
            5 => 1024,
            6 => 1280,
            _ => 1536,
        }
    };
    assert(reference_divider(code as int, low_frequency) == divider);
    divider
}

/// The code of `divider` in the given crystal class: the one code that decodes to it.
/// A value that is not among the eight dividers of the class has no code.
pub fn encode_reference_divider(divider: u16, low_frequency: bool) -> (code: Option<u8>)
    ensures
        match code {
            Some(c) => {
                &&& is_reference_divider(divider as int, low_frequency)
                &&& c == reference_divider_code(divider as int, low_frequency)
                &&& is_reference_divider_code(c as int)
                &&& reference_divider(c as int, low_frequency) == divider
            },
            None => !is_reference_divider(divider as int, low_frequency),
        },
{
    let code: Option<u8> = if low_frequency {
        match divider {
            1 => Some(0),
            2 => Some(1),
            4 => Some(2),
            8 => Some(3),
            16 => Some(4),
            32 => Some(5),
            64 => Some(6),
            128 => Some(7),
            _ => None,
        }
    } else {
        match divider {
            32 => Some(0),
            64 => Some(1),
            128 => Some(2),
            256 => Some(3),
            512 => Some(4),
            1024 => Some(5),
            1280 => Some(6),
            1536 => Some(7),
            _ => None,
        }
    };
    proof {
        if let Some(c) = code {
            assert(reference_divider(c as int, low_frequency) == divider);
            lemma_reference_divider_is_injective(
                c as int,
                reference_divider_code(divider as int, low_frequency),
                low_frequency,
            );
        }
    }
    code
}

/// Encoding and decoding are inverse to each other within a crystal class: a code is the
/// code of the divider it stands for.
pub proof fn lemma_reference_divider_round_trip(code: int, low_frequency: bool)
    requires
        is_reference_divider_code(code),
    ensures
        is_reference_divider(reference_divider(code, low_frequency), low_frequency),
        reference_divider_code(reference_divider(code, low_frequency), low_frequency) == code,
{
    lemma_reference_divider_is_injective(
        code,
        reference_divider_code(reference_divider(code, low_frequency), low_frequency),
        low_frequency,
    );
}

} // verus!
