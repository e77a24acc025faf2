//! The crystal oscillator: the external reference enable bit and the load capacitors.
//!
//! The oscillator control register switches four capacitors of 2, 4, 8 and 16 pF onto the
//! oscillator load, so the load is an even number of picofarads from 0 to 30.

use vstd::prelude::*;
use vstd::arithmetic::power2::{lemma2_to64, pow2};

verus! {

/// The largest load capacitance, in pF.
pub const CAPACITANCE_MAX: u8 = 30;

/// A load capacitance that the capacitors cannot add up to: an odd one, or one above 30 pF.
#[derive(Clone, Copy, Debug, PartialEq, Eq, Structural)]
pub enum OscillatorError {
    InvalidCapacitance(u8),
}

/// Bit `index` of `value`, counted from the least significant bit.
pub open spec fn bit_of(value: int, index: nat) -> bool {
    (value / pow2(index) as int) % 2 == 1
}

/// The number whose binary digits are `bits`, least significant first.
pub open spec fn bits_value(bits: Seq<bool>) -> nat
    decreases bits.len(),
{
    if bits.len() == 0 {
        0
    } else {
        bits_value(bits.drop_last()) + if bits.last() {
            pow2((bits.len() - 1) as nat)
        } else {
            0
        }
    }
}

/// The binary digits of `value`, least significant first, `len` of them.
pub open spec fn value_bits(value: int, len: nat) -> Seq<bool> {
    Seq::new(len, |i: int| bit_of(value, i as nat))
}

/// The digits of a number add up to the number, as far as the digits reach: `len` digits
/// give the number modulo `2^len`.
pub proof fn lemma_bits_value_of_value_bits(value: nat, len: nat)
    ensures
        bits_value(value_bits(value as int, len)) == value % pow2(len),
    decreases len,
{
    let bits = value_bits(value as int, len);
    if len == 0 {
        lemma2_to64();
    } else {
        let shorter = (len - 1) as nat;
        assert(bits.drop_last() =~= value_bits(value as int, shorter));
        lemma_bits_value_of_value_bits(value, shorter);
        vstd::arithmetic::power2::lemma_pow2_unfold(len);
        vstd::arithmetic::power2::lemma_pow2_pos(shorter);
        let p = pow2(shorter) as int;
        let v = value as int;
        lemma_next_digit(v, p);
    }
}

/// Taking one more binary digit into account: the remainder by `2 * p` is the remainder by
/// `p`, plus `p` if the quotient by `p` is odd.
proof fn lemma_next_digit(v: int, p: int)
    requires
        v >= 0,
        p > 0,
    ensures
        v % (2 * p) == v % p + if (v / p) % 2 == 1 {
            p
        } else {
            0
        },
{
    let q = v / p;
    let r = v % p;
    let high = q / 2;
    let digit = q % 2;
    assert(v == q * p + r && 0 <= r < p) by (nonlinear_arith)
        requires
            p > 0,
            q == v / p,
            r == v % p,
    ;
    assert(v == high * (2 * p) + (digit * p + r)) by (nonlinear_arith)
        requires
            v == q * p + r,
            q == 2 * high + digit,
    ;
    assert(0 <= digit * p + r < 2 * p) by (nonlinear_arith)
        requires
            0 <= digit <= 1,
            0 <= r < p,
    ;
    vstd::arithmetic::div_mod::lemma_fundamental_div_mod_converse(
        v,
        2 * p,
        high,
        digit * p + r,
    );
    assert(digit * p == if digit == 1 {
        p
    } else {
        0
    }) by (nonlinear_arith)
        requires
            0 <= digit <= 1,
    ;
}

/// A number below `2^len` is the value of its first `len` digits.
pub proof fn lemma_binary_round_trip(value: nat, len: nat)
    requires
        value < pow2(len),
    ensures
        bits_value(value_bits(value as int, len)) == value,
{
    lemma_bits_value_of_value_bits(value, len);
    assert(value % pow2(len) == value) by (nonlinear_arith)
        requires
            value < pow2(len),
    ;
}

/// The value of at most eight digits fits a byte.
proof fn lemma_bits_value_bound(bits: Seq<bool>)
    ensures
        bits_value(bits) < pow2(bits.len()),
    decreases bits.len(),
{
    if bits.len() == 0 {
        lemma2_to64();
    } else {
        lemma_bits_value_bound(bits.drop_last());
        vstd::arithmetic::power2::lemma_pow2_unfold(bits.len());
    }
}

/// Bit `index` of a byte, as the shift and mask compute it.
proof fn lemma_shifted_bit(decimal: u8, index: usize)
    requires
        index < 8,
    ensures
        (((decimal >> index) & 1) == 1) == bit_of(decimal as int, index as nat),
{
    lemma2_to64();
    if index == 0 {
        assert((((decimal >> 0usize) & 1) == 1) == ((decimal / 1) % 2 == 1)) by (bit_vector);
    } else if index == 1 {
        assert((((decimal >> 1usize) & 1) == 1) == ((decimal / 2) % 2 == 1)) by (bit_vector);
    } else if index == 2 {
        assert((((decimal >> 2usize) & 1) == 1) == ((decimal / 4) % 2 == 1)) by (bit_vector);
    } else if index == 3 {
        assert((((decimal >> 3usize) & 1) == 1) == ((decimal / 8) % 2 == 1)) by (bit_vector);
    } else if index == 4 {
        assert((((decimal >> 4usize) & 1) == 1) == ((decimal / 16) % 2 == 1)) by (bit_vector);
    } else if index == 5 {
        assert((((decimal >> 5usize) & 1) == 1) == ((decimal / 32) % 2 == 1)) by (bit_vector);
    } else if index == 6 {
        assert((((decimal >> 6usize) & 1) == 1) == ((decimal / 64) % 2 == 1)) by (bit_vector);
    } else {
        assert((((decimal >> 7usize) & 1) == 1) == ((decimal / 128) % 2 == 1)) by (bit_vector);
    }
}

/// Writes the binary digits of `decimal` into `binary`, least significant first: entry `i`
/// becomes bit `i` of `decimal`.
pub fn decimal_to_binary(binary: &mut [bool], decimal: u8)
    requires
        old(binary)@.len() <= 8,
    ensures
        final(binary)@ == value_bits(decimal as int, old(binary)@.len()),
{
    let len = binary.len();
    let mut i: usize = 0;
    while i < len
        invariant
            len == binary@.len(),
            len <= 8,
            i <= len,
            forall|j: int| 0 <= j < i ==> binary@[j] == bit_of(decimal as int, j as nat),
        decreases len - i,
    {
        proof {
            lemma_shifted_bit(decimal, i);
        }
        binary[i] = ((decimal >> i) & 1) == 1;
        i += 1;
    }
    assert(binary@ =~= value_bits(decimal as int, len as nat));
}

/// Reads binary digits, least significant first, as a number: the sum of `2^i` over the
/// entries `i` that are set.
pub fn binary_to_decimal(binary: &[bool]) -> (output: u8)
    requires
        binary@.len() <= 8,
    ensures
        output == bits_value(binary@),
{
    let mut output: u8 = 0;
    let mut index: usize = 0;
    while index < binary.len()
        invariant
            binary@.len() <= 8,
            index <= binary@.len(),
            output == bits_value(binary@.subrange(0, index as int)),
        decreases binary@.len() - index,
    {
        proof {
            let taken = binary@.subrange(0, index + 1);
            assert(taken.drop_last() =~= binary@.subrange(0, index as int));
            lemma_bits_value_bound(taken);
            lemma2_to64();
        }
        if binary[index] {
            if index == 0 {
                output += 1;
            } else {
                let weight: u8 = 2u8 << (index - 1);
                assert(weight == pow2(index as nat)) by {
                    lemma2_to64();
                    lemma_shifted_two(index);
                }
                output += weight;
            }
        }
        index += 1;
    }
    assert(binary@.subrange(0, index as int) =~= binary@);
    output
}

/// `2 << (index - 1)` is `2^index` for the digits of a byte.
proof fn lemma_shifted_two(index: usize)
    requires
        1 <= index < 8,
    ensures
        (2u8 << ((index - 1) as usize)) == pow2(index as nat),
{
    lemma2_to64();
    assert(2u8 << 0usize == 2) by (bit_vector);
    assert(2u8 << 1usize == 4) by (bit_vector);
    assert(2u8 << 2usize == 8) by (bit_vector);
    assert(2u8 << 3usize == 16) by (bit_vector);
    assert(2u8 << 4usize == 32) by (bit_vector);
    assert(2u8 << 5usize == 64) by (bit_vector);
    assert(2u8 << 6usize == 128) by (bit_vector);
}

/// The fields of the oscillator control register that the driver works on.
#[derive(Clone, Copy, Debug, PartialEq, Eq, Structural)]
pub struct OscillatorControl {
    /// `ERCLKEN`: the external reference clock is enabled.
    pub erclken: bool,
    /// `SC2P`: the 2 pF capacitor is on the load.
    pub sc2p: bool,
    /// `SC4P`: the 4 pF capacitor is on the load.
    pub sc4p: bool,
    /// `SC8P`: the 8 pF capacitor is on the load.
    pub sc8p: bool,
    /// `SC16P`: the 16 pF capacitor is on the load.
    pub sc16p: bool,
}

/// The loads that the four capacitors can add up to: the even numbers from 0 to 30.
pub open spec fn is_capacitance(capacitance: int) -> bool {
    0 <= capacitance <= CAPACITANCE_MAX && capacitance % 2 == 0
}

impl OscillatorControl {
    /// The load that the switched capacitors add up to, in pF.
    pub open spec fn capacitance(self) -> int {
        (if self.sc2p {
            2int
        } else {
            0
        }) + (if self.sc4p {
            4int
        } else {
            0
        }) + (if self.sc8p {
            8int
        } else {
            0
        }) + (if self.sc16p {
            16int
        } else {
            0
        })
    }

    /// The capacitor switches whose load is `capacitance`: the capacitor of `2^i` pF is on
    /// exactly when bit `i` of `capacitance` is set.
    pub open spec fn with_capacitance(self, capacitance: int) -> OscillatorControl {
        OscillatorControl {
            erclken: self.erclken,
            sc2p: bit_of(capacitance, 1),
            sc4p: bit_of(capacitance, 2),
            sc8p: bit_of(capacitance, 3),
            sc16p: bit_of(capacitance, 4),
        }
    }
}

/// Setting a legal load and reading it back gives the same load, and the load that is read
/// back is always a legal one.
pub proof fn lemma_capacitance_round_trip(control: OscillatorControl, capacitance: int)
    ensures
        is_capacitance(capacitance) ==> control.with_capacitance(capacitance).capacitance()
            == capacitance,
        is_capacitance(control.capacitance()),
        control.with_capacitance(control.capacitance()) == control,
{
    lemma2_to64();
    let c = control.capacitance();
    assert(control.with_capacitance(c) == control) by {
        assert(bit_of(c, 1) == control.sc2p);
        assert(bit_of(c, 2) == control.sc4p);
        assert(bit_of(c, 3) == control.sc8p);
        assert(bit_of(c, 4) == control.sc16p);
    }
}

/// The driver of the crystal oscillator, over the contents of its control register.
pub struct Oscillator {
    /// The oscillator control register.
    pub cr: OscillatorControl,
}

impl Oscillator {
    pub fn new(cr: OscillatorControl) -> (osc: Oscillator)
        ensures
            osc.cr == cr,
    {
        Oscillator { cr }
    }

    /// Whether the external reference clock is enabled.
    pub fn is_enabled(&self) -> (enabled: bool)
        ensures
            enabled == self.cr.erclken,
    {
        self.cr.erclken
    }

    /// Enables the external reference clock; the capacitors stay as they are.
    pub fn enable(&mut self)
        ensures
            final(self).cr == (OscillatorControl { erclken: true, ..old(self).cr }),
    {
        self.cr.erclken = true;
    }

    /// Disables the external reference clock; the capacitors stay as they are.
    pub fn disable(&mut self)
        ensures
            final(self).cr == (OscillatorControl { erclken: false, ..old(self).cr }),
    {
        self.cr.erclken = false;
    }

    /// Sets the load capacitance, in pF.
    ///
    /// An odd load and a load above 30 pF are refused, and the register is left as it was.
    /// Otherwise the four capacitors are switched so that they add up to `capacitance`;
    /// the enable bit stays as it is.
    pub fn set_capacitance(&mut self, capacitance: u8) -> (r: Result<(), OscillatorError>)
        ensures
            is_capacitance(capacitance as int) ==> r == Ok::<(), OscillatorError>(()),
            !is_capacitance(capacitance as int) ==> r == Err::<(), OscillatorError>(
                OscillatorError::InvalidCapacitance(capacitance),
            ),
            r.is_err() ==> *final(self) == *old(self),
            r.is_ok() ==> final(self).cr == old(self).cr.with_capacitance(capacitance as int)
                && final(self).cr.capacitance() == capacitance,
    {
        if capacitance % 2 == 1 || capacitance > CAPACITANCE_MAX {
            return Err(OscillatorError::InvalidCapacitance(capacitance));
        }
        let mut binary: Vec<bool> = vec![false, false, false, false, false];
        decimal_to_binary(binary.as_mut_slice(), capacitance);
        self.cr.sc2p = binary[1];
        self.cr.sc4p = binary[2];
        self.cr.sc8p = binary[3];
        self.cr.sc16p = binary[4];
        proof {
            lemma_capacitance_round_trip(old(self).cr, capacitance as int);
        }
        Ok(())
    }

    /// The load capacitance that the switched capacitors add up to, in pF.
    pub fn get_capacitance(&self) -> (capacitance: u8)
        ensures
            capacitance == self.cr.capacitance(),
            is_capacitance(capacitance as int),
    {
        let binary: [bool; 5] = [false, self.cr.sc2p, self.cr.sc4p, self.cr.sc8p, self.cr.sc16p];
        proof {
            lemma2_to64();
            let bits = binary@;
            reveal_with_fuel(bits_value, 6);
            assert(bits.drop_last().len() == 4);
            assert(bits.drop_last().drop_last().len() == 3);
            assert(bits.drop_last().drop_last().drop_last().len() == 2);
            assert(bits.drop_last().drop_last().drop_last().drop_last().len() == 1);
            assert(bits_value(bits) == self.cr.capacitance());
        }
        binary_to_decimal(binary.as_slice())
    }
}

} // verus!
