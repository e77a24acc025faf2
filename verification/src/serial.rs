//! Serial communication: the baud rate divisor of a UART, and what a receiver and a
//! transmitter answer for a sample of the UART status.

use core::marker::PhantomData;
use vstd::prelude::*;
use vstd::arithmetic::div_mod::lemma_div_multiples_vanish_quotient;
use vstd::arithmetic::power2::{lemma2_to64, pow2};
use crate::euclid::{gcd_of, lemma_exact_quotient, lemma_gcd_divides, lemma_gcd_positive};
use crate::units::{megahertz_to_hertz, HERTZ_PER_MEGAHERTZ};

verus! {

/// Interrupt event
#[derive(Clone, Copy, Debug, PartialEq, Eq, Structural)]
pub enum Event {
    /// New data has been received
    Rxne,
    /// New data can be sent
    Txe,
}

/// Serial error
#[derive(Clone, Copy, Debug, PartialEq, Eq, Structural)]
pub enum Error {
    /// Framing error
    Framing,
    /// Noise error
    Noise,
    /// RX buffer overrun
    Overrun,
    /// Parity check error
    Parity,
    /// Not an error of its own: more errors may be added.
    _Extensible,
}

/// The error of an operation that does not wait: either the operation cannot finish yet,
/// or it has failed.
#[derive(Debug, PartialEq, Eq)]
pub enum Nonblocking<E> {
    /// The operation has failed.
    Other(E),
    /// The operation cannot finish yet and is to be tried again.
    WouldBlock,
}

/// The answer of a transmitter that cannot go on yet. A transmitter has no error besides.
#[derive(Clone, Copy, Debug, PartialEq, Eq, Structural)]
pub struct Busy;

/// A pin that can carry the transmitted data of the given UART.
pub trait TxPin<UART> {

}

/// A pin that can carry the received data of the given UART.
pub trait RxPin<UART> {

}

/// Serial abstraction
pub struct Serial<UART, PINS> {
    uart: UART,
    pins: PINS,
}

/// Serial receiver
pub struct Rx<UART> {
    _uart: PhantomData<UART>,
}

/// Serial transmitter
pub struct Tx<UART> {
    _uart: PhantomData<UART>,
}

/// The flags of the UART status register 1 that the receiver and the transmitter read.
#[derive(Clone, Copy, Debug, PartialEq, Eq, Structural)]
pub struct UartStatus {
    /// `PF`: parity error.
    pub pf: bool,
    /// `FE`: framing error.
    pub fe: bool,
    /// `NF`: noise.
    pub nf: bool,
    /// `OR`: receiver overrun.
    pub or: bool,
    /// `RDRF`: the receive data register is full.
    pub rdrf: bool,
    /// `TC`: transmission complete.
    pub tc: bool,
    /// `TDRE`: the transmit data register is empty.
    pub tdre: bool,
}

/// The largest module clock divisor plus one: the divisor is a 13-bit number.
pub const MODULE_CLOCK_DIVISOR_LIMIT: u32 = 8192;

/// The number of steps of the baud rate fine adjustment in one unit of the divisor.
pub const FINE_ADJUSTMENT_STEPS: u32 = 32;

/// The contents of the baud rate registers of a UART.
#[derive(Clone, Copy, Debug, PartialEq, Eq, Structural)]
pub struct BaudRateDivisor {
    /// `BDH[SBR]`: bits 8 to 12 of the module clock divisor.
    pub high: u8,
    /// `BDL[SBR]`: bits 0 to 7 of the module clock divisor.
    pub low: u8,
    /// `C4[BRFA]`: the fraction of the divisor, in 32nds.
    pub fine_adjustment: u8,
}

/// A baud rate that the UART cannot be set to.
#[derive(Clone, Copy, Debug, PartialEq, Eq, Structural)]
pub enum BaudRateError {
    /// The PLL frequency, given in MHz, is too high to be counted in Hz.
    InvalidClockFrequency(u32),
    /// The baud rate times the crystal frequency is zero or too large.
    InvalidBaudRate { baud_rate: u32, external_crystal_frequency: u32 },
    /// The module clock divisor does not fit 13 bits.
    InvalidClockDivider(u32),
}

/// The baud rate registers for a PLL frequency and a crystal frequency in MHz.
///
/// The clock is the PLL frequency in Hz, and it is divided by the baud rate times the
/// crystal frequency. The whole part of the quotient is the module clock divisor, split
/// into its bits 8 to 12 and 0 to 7; the fine adjustment is the fraction of the quotient
/// in 32nds, rounded down.
pub open spec fn baud_rate_divisor_of(
    pll_frequency: u32,
    baud_rate: u32,
    external_crystal_frequency: u32,
) -> Result<BaudRateDivisor, BaudRateError> {
    let numerator = pll_frequency * HERTZ_PER_MEGAHERTZ;
    let denominator = baud_rate * external_crystal_frequency;
    if numerator > u32::MAX {
        Err(BaudRateError::InvalidClockFrequency(pll_frequency))
    } else if denominator == 0 || denominator > u32::MAX {
        Err(BaudRateError::InvalidBaudRate { baud_rate, external_crystal_frequency })
    } else if numerator / denominator >= MODULE_CLOCK_DIVISOR_LIMIT {
        Err(BaudRateError::InvalidClockDivider((numerator / denominator) as u32))
    } else {
        Ok(
            BaudRateDivisor {
                high: ((numerator / denominator) / 256) as u8,
                low: ((numerator / denominator) % 256) as u8,
                fine_adjustment: ((FINE_ADJUSTMENT_STEPS * (numerator % denominator))
                    / denominator) as u8,
            },
        )
    }
}

/// The greatest common divisor of `numerator` and `denominator`, by Euclid's algorithm.
pub fn gcd(numerator: u32, denominator: u32) -> (divisor: u32)
    ensures
        divisor == gcd_of(numerator as nat, denominator as nat),
{
    let mut numerator = numerator;
    let mut denominator = denominator;
    let ghost wanted = gcd_of(numerator as nat, denominator as nat);
    while denominator != 0
        invariant
            gcd_of(numerator as nat, denominator as nat) == wanted,
        decreases denominator,
    {
        let temp = denominator;
        denominator = numerator % denominator;
        numerator = temp;
    }
    numerator
}

/// Bits `start` up to, but not including, `end` of `value`, taken by `get_bits` of
/// `bit_field::BitField` for `u32`. It shifts the bits from `end` on out to the left and
/// the bits below `start` out to the right, which leaves `value` modulo `2^end`, divided by
/// `2^start`. It refuses a range that is empty or reaches past bit 32.
#[verifier::external_body]
fn get_bits(value: u32, start: usize, end: usize) -> (bits: u32)
    requires
        start < end <= 32,
    ensures
        bits == (value as int % pow2(end as nat) as int) / pow2(start as nat) as int,
{
    bit_field::BitField::get_bits(&value, start..end)
}

/// The fraction of `numerator / denominator` is the fraction of the two in lowest terms.
proof fn lemma_fine_adjustment(numerator: int, denominator: int, divisor: int)
    requires
        numerator >= 0,
        denominator > 0,
        divisor == gcd_of(numerator as nat, denominator as nat),
    ensures
        divisor > 0,
        denominator / divisor > 0,
        numerator / divisor - (numerator / denominator) * (denominator / divisor) >= 0,
        numerator / divisor - (numerator / denominator) * (denominator / divisor) < denominator
            / divisor,
        (FINE_ADJUSTMENT_STEPS * (numerator / divisor - (numerator / denominator) * (denominator
            / divisor))) / (denominator / divisor) == (FINE_ADJUSTMENT_STEPS * (numerator
            % denominator)) / denominator,
{
    lemma_gcd_positive(numerator as nat, denominator as nat);
    lemma_gcd_divides(numerator as nat, denominator as nat);
    lemma_exact_quotient(divisor, numerator);
    lemma_exact_quotient(divisor, denominator);
    let n = numerator / divisor;
    let d = denominator / divisor;
    let main = numerator / denominator;
    assert(d > 0 && n >= 0) by (nonlinear_arith)
        requires
            divisor > 0,
            denominator == divisor * d,
            numerator == divisor * n,
            denominator > 0,
            numerator >= 0,
    ;
    lemma_div_multiples_vanish_quotient(divisor, n, d);
    assert(main == n / d);
    let rest = n - main * d;
    assert(rest == n % d && 0 <= rest < d) by (nonlinear_arith)
        requires
            d > 0,
            main == n / d,
            rest == n - main * d,
    ;
    assert(numerator % denominator == divisor * rest) by (nonlinear_arith)
        requires
            denominator > 0,
            main == numerator / denominator,
            numerator == divisor * n,
            denominator == divisor * d,
            rest == n - main * d,
    ;
    lemma_div_multiples_vanish_quotient(divisor, 32 * rest, d);
    assert(divisor * (32 * rest) == 32 * (divisor * rest)) by (nonlinear_arith);
}

/// Computes the baud rate registers of a UART that is clocked by the PLL.
///
/// `pll_frequency` and `external_crystal_frequency` are in MHz, `baud_rate` in bits per
/// second. The answer is `baud_rate_divisor_of`: the request is refused when the PLL
/// frequency cannot be counted in Hz in 32 bits, when the baud rate times the crystal
/// frequency is zero or does not fit 32 bits, and when the module clock divisor is 8192 or
/// more.
pub fn baud_rate_divisor(pll_frequency: u32, baud_rate: u32, external_crystal_frequency: u32) -> (r:
    Result<BaudRateDivisor, BaudRateError>)
    ensures
        r == baud_rate_divisor_of(pll_frequency, baud_rate, external_crystal_frequency),
{
    if pll_frequency > u32::MAX / HERTZ_PER_MEGAHERTZ {
        return Err(BaudRateError::InvalidClockFrequency(pll_frequency));
    }
    let numerator = megahertz_to_hertz(pll_frequency);
    let denominator = match baud_rate.checked_mul(external_crystal_frequency) {
        Some(product) => product,
        None => {
            return Err(BaudRateError::InvalidBaudRate { baud_rate, external_crystal_frequency });
        },
    };
    if denominator == 0 {
        return Err(BaudRateError::InvalidBaudRate { baud_rate, external_crystal_frequency });
    }
    let module_clock_divisor_main = numerator / denominator;
    if module_clock_divisor_main >= MODULE_CLOCK_DIVISOR_LIMIT {
        return Err(BaudRateError::InvalidClockDivider(module_clock_divisor_main));
    }
    let module_clock_divisor_gcd = gcd(numerator, denominator);
    proof {
        lemma_fine_adjustment(
            numerator as int,
            denominator as int,
            module_clock_divisor_gcd as int,
        );
    }
    let module_clock_divisor_fine_adjustment_denominator = denominator / module_clock_divisor_gcd;
    assert(module_clock_divisor_main * module_clock_divisor_fine_adjustment_denominator
        <= numerator / module_clock_divisor_gcd);
    let module_clock_divisor_fine_adjustment_numerator = (numerator / module_clock_divisor_gcd)
        - (module_clock_divisor_main * module_clock_divisor_fine_adjustment_denominator);
    let scaled = module_clock_divisor_fine_adjustment_numerator as u64 * 32;
    let quotient = scaled / (module_clock_divisor_fine_adjustment_denominator as u64);
    assert(quotient < 32) by (nonlinear_arith)
        requires
            quotient == scaled / (module_clock_divisor_fine_adjustment_denominator as u64),
            scaled == module_clock_divisor_fine_adjustment_numerator * 32,
            module_clock_divisor_fine_adjustment_numerator
                < module_clock_divisor_fine_adjustment_denominator,
            module_clock_divisor_fine_adjustment_denominator > 0,
    ;
    let module_clock_divisor_fine_adjustment = quotient as u8;
    proof {
        lemma2_to64();
    }
    let module_clock_divisor_high = get_bits(module_clock_divisor_main, 8, 13) as u8;
    let module_clock_divisor_low = get_bits(module_clock_divisor_main, 0, 8) as u8;
    Ok(
        BaudRateDivisor {
            high: module_clock_divisor_high,
            low: module_clock_divisor_low,
            fine_adjustment: module_clock_divisor_fine_adjustment,
        },
    )
}

impl BaudRateDivisor {
    /// The module clock divisor that the two registers hold.
    pub open spec fn module_clock_divisor(self) -> int {
        self.high * 256 + self.low
    }
}

/// The two halves of the divisor put together give the whole part of the quotient, and the
/// fields fit their registers: five bits for the high half and for the fine adjustment.
pub proof fn lemma_baud_rate_divisor_parts(
    pll_frequency: u32,
    baud_rate: u32,
    external_crystal_frequency: u32,
)
    requires
        baud_rate_divisor_of(pll_frequency, baud_rate, external_crystal_frequency) is Ok,
    ensures
        ({
            let divisor = baud_rate_divisor_of(
                pll_frequency,
                baud_rate,
                external_crystal_frequency,
            )->Ok_0;
            &&& divisor.module_clock_divisor() == (pll_frequency * HERTZ_PER_MEGAHERTZ) / (
            baud_rate * external_crystal_frequency)
            &&& divisor.high < 32
            &&& divisor.fine_adjustment < 32
        }),
{
    let numerator = pll_frequency * HERTZ_PER_MEGAHERTZ;
    let denominator = baud_rate * external_crystal_frequency;
    assert((32 * (numerator % denominator)) / denominator < 32) by (nonlinear_arith)
        requires
            denominator > 0,
            numerator >= 0,
    ;
}

impl<UART, TX, RX> Serial<UART, (TX, RX)> {
    /// Puts a UART and its pins together. The pins have to be a transmit pin and a receive
    /// pin of that UART.
    pub fn new(uart: UART, pins: (TX, RX)) -> (serial: Self) where TX: TxPin<UART>, RX: RxPin<UART>
        ensures
            serial.parts() == (uart, pins),
    {
        Serial { uart, pins }
    }

    /// The UART and the pins that the abstraction holds.
    pub closed spec fn parts(self) -> (UART, (TX, RX)) {
        (self.uart, self.pins)
    }

    /// Splits the `Serial` abstraction into a transmitter and a receiver half
    pub fn split(self) -> (halves: (Tx<UART>, Rx<UART>)) {
        (Tx { _uart: PhantomData }, Rx { _uart: PhantomData })
    }

    /// Releases the UART peripheral and associated pins
    pub fn free(self) -> (parts: (UART, (TX, RX)))
        ensures
            parts == self.parts(),
    {
        (self.uart, self.pins)
    }
}

/// What the receiver answers at a status: the first of the parity, framing, noise and
/// overrun errors that is flagged; else, that nothing has arrived; else the byte received.
pub open spec fn read_of(status: UartStatus, data: u8) -> Result<u8, Nonblocking<Error>> {
    if status.pf {
        Err(Nonblocking::Other(Error::Parity))
    } else if status.fe {
        Err(Nonblocking::Other(Error::Framing))
    } else if status.nf {
        Err(Nonblocking::Other(Error::Noise))
    } else if status.or {
        Err(Nonblocking::Other(Error::Overrun))
    } else if !status.rdrf {
        Err(Nonblocking::WouldBlock)
    } else {
        Ok(data)
    }
}

impl<UART> Rx<UART> {
    /// Receives a byte, given a sample of the status and of the data register.
    pub fn read(&mut self, status: &UartStatus, data: u8) -> (r: Result<u8, Nonblocking<Error>>)
        ensures
            r == read_of(*status, data),
    {
        if status.pf {
            return Err(Nonblocking::Other(Error::Parity));
        }
        if status.fe {
            return Err(Nonblocking::Other(Error::Framing));
        }
        if status.nf {
            return Err(Nonblocking::Other(Error::Noise));
        }
        if status.or {
            return Err(Nonblocking::Other(Error::Overrun));
        }
        if !status.rdrf {
            return Err(Nonblocking::WouldBlock);
        }
        Ok(data)
    }
}

impl<UART> Tx<UART> {
    /// Whether everything written has been sent: it has when `TC` is set.
    pub fn flush(&mut self, status: &UartStatus) -> (r: Result<(), Busy>)
        ensures
            status.tc ==> r == Ok::<(), Busy>(()),
            !status.tc ==> r == Err::<(), Busy>(Busy),
    {
        if !status.tc {
            return Err(Busy);
        }
        Ok(())
    }

    /// Sends a byte: when `TDRE` is set, the byte is answered back and is to be written to
    /// the data register; when it is clear, the transmitter is busy.
    pub fn write(&mut self, status: &UartStatus, byte: u8) -> (r: Result<u8, Busy>)
        ensures
            status.tdre ==> r == Ok::<u8, Busy>(byte),
            !status.tdre ==> r == Err::<u8, Busy>(Busy),
    {
        if !status.tdre {
            return Err(Busy);
        }
        Ok(byte)
    }
}

} // verus!
