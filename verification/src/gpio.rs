//! GPIO pin function-select encoding.
//!
//! Each of the 54 pins carries a three-bit field in one of six
//! function-select registers (ten pins per register). Which three-bit value
//! selects which function on which pin is a hardware contract of the board,
//! preserved here bit for bit. The register window itself is driven by the
//! surrounding binary; this module computes the values to store in it.

use vstd::prelude::*;

use crate::errors::Errcode;

verus! {

/// The number of GPIO pins the board exposes.
pub const TOT_NUMBER_GPIO: usize = 54;

/// A pin's selectable function. Multi-instance functions carry the
/// instance number (and for SPI chip selects, the line number).
#[derive(Clone, Copy, Debug, PartialEq, Eq, Structural)]
pub enum PinMode {
    Input,
    Output,
    BscSda(usize),
    BscScl(usize),
    GpClk(usize),
    SpiCs(usize, usize),
    SpiMiso(usize),
    SpiMosi(usize),
    SpiSclk(usize),
    Pwm(usize),
    UartTxd(usize),
    UartRxd(usize),
    UartCts(usize),
    UartRts(usize),
    PcmClk,
    PcmFs,
    PcmDin,
    PcmDout,
    SmiSa(usize),
    SmiSoeNSe,
    SmiSweNSrwN,
    SmiSd(usize),
    BscSlSda,
    BscSlScl,
    SpiSlMosi,
    SpiSlMiso,
    SpiSlSclk,
    SpiSlCs,
    JtagTrst,
    JtagRtck,
    JtagTdo,
    JtagTck,
    JtagTdi,
    JtagTms,
}

/// The three-bit function-select value of `mode` on pin `pin_nb`, or
/// `None` where the board routes no such function to that pin.
pub open spec fn spec_fsel_value(mode: PinMode, pin_nb: usize) -> Option<u32> {
    match mode {
        PinMode::Input => Some(0b000u32),
        PinMode::Output => Some(0b001u32),
        PinMode::BscSda(n) => {
            if (n == 0 && pin_nb == 0) || (n == 1 && pin_nb == 2) || (n == 0 && pin_nb == 28) {
                Some(0b100u32)
            } else if (n == 0 && pin_nb == 44) {
                Some(0b101u32)
            } else if (n == 1 && pin_nb == 44) {
                Some(0b110u32)
            } else {
                None
            }
        },
        PinMode::BscScl(n) => {
            if (n == 0 && pin_nb == 1) || (n == 1 && pin_nb == 3) || (n == 0 && pin_nb == 29) {
                Some(0b100u32)
            } else if (n == 0 && pin_nb == 45) {
                Some(0b101u32)
            } else if (n == 1 && pin_nb == 45) {
                Some(0b110u32)
            } else {
                None
            }
        },
        PinMode::GpClk(n) => {
            if (n == 0 && pin_nb == 4) || (n == 1 && pin_nb == 5) || (n == 2 && pin_nb == 6) || (n == 0 && pin_nb == 32) || (n == 0 && pin_nb == 34) || (n == 1 && pin_nb == 42) || (n == 2 && pin_nb == 43) || (n == 1 && pin_nb == 44) {
                Some(0b100u32)
            } else if (n == 0 && pin_nb == 20) || (n == 1 && pin_nb == 21) {
                Some(0b010u32)
            } else {
                None
            }
        },
        PinMode::SpiCs(spin, csn) => {
            if (spin == 0 && csn == 1 && pin_nb == 7) || (spin == 0 && csn == 0 && pin_nb == 8) || (spin == 0 && csn == 1 && pin_nb == 35) || (spin == 0 && csn == 0 && pin_nb == 36) {
                Some(0b100u32)
            } else if (spin == 1 && csn == 0 && pin_nb == 18) || (spin == 1 && csn == 2 && pin_nb == 16) || (spin == 1 && csn == 1 && pin_nb == 17) {
                Some(0b011u32)
            } else {
                None
            }
        },
        PinMode::SpiMiso(n) => {
            if (n == 0 && pin_nb == 9) || (n == 0 && pin_nb == 37) {
                Some(0b100u32)
            } else if (n == 1 && pin_nb == 19) {
                Some(0b011u32)
            } else {
                None
            }
        },
        PinMode::SpiMosi(n) => {
            if (n == 0 && pin_nb == 10) || (n == 0 && pin_nb == 38) {
                Some(0b100u32)
            } else if (n == 1 && pin_nb == 20) {
                Some(0b011u32)
            } else {
                None
            }
        },
        PinMode::SpiSclk(n) => {
            if (n == 0 && pin_nb == 39) || (n == 0 && pin_nb == 11) {
                Some(0b100u32)
            } else if (n == 1 && pin_nb == 21) {
                Some(0b011u32)
            } else {
                None
            }
        },
        PinMode::Pwm(n) => {
            if (n == 0 && pin_nb == 12) || (n == 1 && pin_nb == 13) || (n == 0 && pin_nb == 40) || (n == 1 && pin_nb == 41) || (n == 1 && pin_nb == 45) {
                Some(0b100u32)
            } else if (n == 0 && pin_nb == 18) || (n == 1 && pin_nb == 19) {
                Some(0b010u32)
            } else {
                None
            }
        },
        PinMode::UartTxd(n) => {
            if (n == 0 && pin_nb == 14) {
                Some(0b100u32)
            } else if (n == 0 && pin_nb == 32) {
                Some(0b111u32)
            } else if (n == 0 && pin_nb == 36) {
                Some(0b110u32)
            } else if (n == 1 && pin_nb == 14) || (n == 1 && pin_nb == 32) || (n == 1 && pin_nb == 40) {
                Some(0b010u32)
            } else {
                None
            }
        },
        PinMode::UartRxd(n) => {
            if (n == 0 && pin_nb == 15) {
                Some(0b100u32)
            } else if (n == 1 && pin_nb == 15) || (n == 1 && pin_nb == 33) || (n == 1 && pin_nb == 40) {
                Some(0b010u32)
            } else if (n == 0 && pin_nb == 37) {
                Some(0b110u32)
            } else if (n == 0 && pin_nb == 33) {
                Some(0b111u32)
            } else {
                None
            }
        },
        PinMode::UartCts(n) => {
            if (n == 0 && pin_nb == 16) || (n == 0 && pin_nb == 30) {
                Some(0b111u32)
            } else if (n == 1 && pin_nb == 16) || (n == 1 && pin_nb == 30) || (n == 1 && pin_nb == 43) {
                Some(0b010u32)
            } else if (n == 0 && pin_nb == 39) {
                Some(0b110u32)
            } else {
                None
            }
        },
        PinMode::UartRts(n) => {
            if (n == 0 && pin_nb == 17) || (n == 0 && pin_nb == 31) {
                Some(0b111u32)
            } else if (n == 1 && pin_nb == 17) || (n == 1 && pin_nb == 31) || (n == 1 && pin_nb == 42) {
                Some(0b010u32)
            } else if (n == 0 && pin_nb == 38) {
                Some(0b110u32)
            } else {
                None
            }
        },
        PinMode::PcmClk => {
            if pin_nb == 18 {
                Some(0b100u32)
            } else if pin_nb == 28 {
                Some(0b110u32)
            } else {
                None
            }
        },
        PinMode::PcmFs => {
            if pin_nb == 19 {
                Some(0b100u32)
            } else if pin_nb == 29 {
                Some(0b110u32)
            } else {
                None
            }
        },
        PinMode::PcmDin => {
            if pin_nb == 20 {
                Some(0b100u32)
            } else if pin_nb == 30 {
                Some(0b110u32)
            } else {
                None
            }
        },
        PinMode::PcmDout => {
            if pin_nb == 21 {
                Some(0b100u32)
            } else if pin_nb == 31 {
                Some(0b110u32)
            } else {
                None
            }
        },
        PinMode::SmiSa(n) => {
            if (n == 5 && pin_nb == 0) || (n == 4 && pin_nb == 1) || (n == 3 && pin_nb == 2) || (n == 2 && pin_nb == 3) || (n == 1 && pin_nb == 4) || (n == 0 && pin_nb == 5) || (n == 5 && pin_nb == 28) || (n == 4 && pin_nb == 29) || (n == 3 && pin_nb == 30) || (n == 2 && pin_nb == 31) || (n == 1 && pin_nb == 32) || (n == 0 && pin_nb == 33) {
                Some(0b101u32)
            } else {
                None
            }
        },
        PinMode::SmiSoeNSe => {
            if pin_nb == 6 || pin_nb == 34 {
                Some(0b101u32)
            } else {
                None
            }
        },
        PinMode::SmiSweNSrwN => {
            if pin_nb == 7 || pin_nb == 35 {
                Some(0b101u32)
            } else {
                None
            }
        },
        PinMode::SmiSd(offset) => {
            if (pin_nb >= 8 && pin_nb - 8 == offset) || (pin_nb >= 36 && pin_nb - 36 == offset) {
                Some(0b101u32)
            } else {
                None
            }
        },
        PinMode::BscSlSda => {
            if pin_nb == 18 {
                Some(0b111u32)
            } else {
                None
            }
        },
        PinMode::BscSlScl => {
            if pin_nb == 19 {
                Some(0b111u32)
            } else {
                None
            }
        },
        PinMode::SpiSlMosi => {
            if pin_nb == 18 {
                Some(0b111u32)
            } else {
                None
            }
        },
        PinMode::SpiSlMiso => {
            if pin_nb == 20 {
                Some(0b111u32)
            } else {
                None
            }
        },
        PinMode::SpiSlSclk => {
            if pin_nb == 19 {
                Some(0b111u32)
            } else {
                None
            }
        },
        PinMode::SpiSlCs => {
            if pin_nb == 21 {
                Some(0b111u32)
            } else {
                None
            }
        },
        PinMode::JtagTrst => {
            if pin_nb == 22 {
                Some(0b011u32)
            } else {
                None
            }
        },
        PinMode::JtagRtck => {
            if pin_nb == 6 {
                Some(0b010u32)
            } else if pin_nb == 23 {
                Some(0b011u32)
            } else {
                None
            }
        },
        PinMode::JtagTdo => {
            if pin_nb == 5 {
                Some(0b010u32)
            } else if pin_nb == 24 {
                Some(0b011u32)
            } else {
                None
            }
        },
        PinMode::JtagTck => {
            if pin_nb == 13 {
                Some(0b010u32)
            } else if pin_nb == 25 {
                Some(0b011u32)
            } else {
                None
            }
        },
        PinMode::JtagTdi => {
            if pin_nb == 4 {
                Some(0b010u32)
            } else if pin_nb == 26 {
                Some(0b011u32)
            } else {
                None
            }
        },
        PinMode::JtagTms => {
            if pin_nb == 12 {
                Some(0b010u32)
            } else if pin_nb == 27 {
                Some(0b011u32)
            } else {
                None
            }
        },    }
}

impl PinMode {
    /// Total lookup of the function-select value: `None` where the board
    /// routes no such function to the pin.
    pub fn try_get_value(&self, pin_nb: usize) -> (r: Option<u32>)
        ensures
            r == spec_fsel_value(*self, pin_nb),
    {
        match *self {
        PinMode::Input => Some(0b000u32),
        PinMode::Output => Some(0b001u32),
        PinMode::BscSda(n) => {
            if (n == 0 && pin_nb == 0) || (n == 1 && pin_nb == 2) || (n == 0 && pin_nb == 28) {
                Some(0b100u32)
            } else if (n == 0 && pin_nb == 44) {
                Some(0b101u32)
            } else if (n == 1 && pin_nb == 44) {
                Some(0b110u32)
            } else {
                None
            }
        },
        PinMode::BscScl(n) => {
            if (n == 0 && pin_nb == 1) || (n == 1 && pin_nb == 3) || (n == 0 && pin_nb == 29) {
                Some(0b100u32)
            } else if (n == 0 && pin_nb == 45) {
                Some(0b101u32)
            } else if (n == 1 && pin_nb == 45) {
                Some(0b110u32)
            } else {
                None
            }
        },
        PinMode::GpClk(n) => {
            if (n == 0 && pin_nb == 4) || (n == 1 && pin_nb == 5) || (n == 2 && pin_nb == 6) || (n == 0 && pin_nb == 32) || (n == 0 && pin_nb == 34) || (n == 1 && pin_nb == 42) || (n == 2 && pin_nb == 43) || (n == 1 && pin_nb == 44) {
                Some(0b100u32)
            } else if (n == 0 && pin_nb == 20) || (n == 1 && pin_nb == 21) {
                Some(0b010u32)
            } else {
                None
            }
        },
        PinMode::SpiCs(spin, csn) => {
            if (spin == 0 && csn == 1 && pin_nb == 7) || (spin == 0 && csn == 0 && pin_nb == 8) || (spin == 0 && csn == 1 && pin_nb == 35) || (spin == 0 && csn == 0 && pin_nb == 36) {
                Some(0b100u32)
            } else if (spin == 1 && csn == 0 && pin_nb == 18) || (spin == 1 && csn == 2 && pin_nb == 16) || (spin == 1 && csn == 1 && pin_nb == 17) {
                Some(0b011u32)
            } else {
                None
            }
        },
        PinMode::SpiMiso(n) => {
            if (n == 0 && pin_nb == 9) || (n == 0 && pin_nb == 37) {
                Some(0b100u32)
            } else if (n == 1 && pin_nb == 19) {
                Some(0b011u32)
            } else {
                None
            }
        },
        PinMode::SpiMosi(n) => {
            if (n == 0 && pin_nb == 10) || (n == 0 && pin_nb == 38) {
                Some(0b100u32)
            } else if (n == 1 && pin_nb == 20) {
                Some(0b011u32)
            } else {
                None
            }
        },
        PinMode::SpiSclk(n) => {
            if (n == 0 && pin_nb == 39) || (n == 0 && pin_nb == 11) {
                Some(0b100u32)
            } else if (n == 1 && pin_nb == 21) {
                Some(0b011u32)
            } else {
                None
            }
        },
        PinMode::Pwm(n) => {
            if (n == 0 && pin_nb == 12) || (n == 1 && pin_nb == 13) || (n == 0 && pin_nb == 40) || (n == 1 && pin_nb == 41) || (n == 1 && pin_nb == 45) {
                Some(0b100u32)
            } else if (n == 0 && pin_nb == 18) || (n == 1 && pin_nb == 19) {
                Some(0b010u32)
            } else {
                None
            }
        },
        PinMode::UartTxd(n) => {
            if (n == 0 && pin_nb == 14) {
                Some(0b100u32)
            } else if (n == 0 && pin_nb == 32) {
                Some(0b111u32)
            } else if (n == 0 && pin_nb == 36) {
                Some(0b110u32)
            } else if (n == 1 && pin_nb == 14) || (n == 1 && pin_nb == 32) || (n == 1 && pin_nb == 40) {
                Some(0b010u32)
            } else {
                None
            }
        },
        PinMode::UartRxd(n) => {
            if (n == 0 && pin_nb == 15) {
                Some(0b100u32)
            } else if (n == 1 && pin_nb == 15) || (n == 1 && pin_nb == 33) || (n == 1 && pin_nb == 40) {
                Some(0b010u32)
            } else if (n == 0 && pin_nb == 37) {
                Some(0b110u32)
            } else if (n == 0 && pin_nb == 33) {
                Some(0b111u32)
            } else {
                None
            }
        },
        PinMode::UartCts(n) => {
            if (n == 0 && pin_nb == 16) || (n == 0 && pin_nb == 30) {
                Some(0b111u32)
            } else if (n == 1 && pin_nb == 16) || (n == 1 && pin_nb == 30) || (n == 1 && pin_nb == 43) {
                Some(0b010u32)
            } else if (n == 0 && pin_nb == 39) {
                Some(0b110u32)
            } else {
                None
            }
        },
        PinMode::UartRts(n) => {
            if (n == 0 && pin_nb == 17) || (n == 0 && pin_nb == 31) {
                Some(0b111u32)
            } else if (n == 1 && pin_nb == 17) || (n == 1 && pin_nb == 31) || (n == 1 && pin_nb == 42) {
                Some(0b010u32)
            } else if (n == 0 && pin_nb == 38) {
                Some(0b110u32)
            } else {
                None
            }
        },
        PinMode::PcmClk => {
            if pin_nb == 18 {
                Some(0b100u32)
            } else if pin_nb == 28 {
                Some(0b110u32)
            } else {
                None
            }
        },
        PinMode::PcmFs => {
            if pin_nb == 19 {
                Some(0b100u32)
            } else if pin_nb == 29 {
                Some(0b110u32)
            } else {
                None
            }
        },
        PinMode::PcmDin => {
            if pin_nb == 20 {
                Some(0b100u32)
            } else if pin_nb == 30 {
                Some(0b110u32)
            } else {
                None
            }
        },
        PinMode::PcmDout => {
            if pin_nb == 21 {
                Some(0b100u32)
            } else if pin_nb == 31 {
                Some(0b110u32)
            } else {
                None
            }
        },
        PinMode::SmiSa(n) => {
            if (n == 5 && pin_nb == 0) || (n == 4 && pin_nb == 1) || (n == 3 && pin_nb == 2) || (n == 2 && pin_nb == 3) || (n == 1 && pin_nb == 4) || (n == 0 && pin_nb == 5) || (n == 5 && pin_nb == 28) || (n == 4 && pin_nb == 29) || (n == 3 && pin_nb == 30) || (n == 2 && pin_nb == 31) || (n == 1 && pin_nb == 32) || (n == 0 && pin_nb == 33) {
                Some(0b101u32)
            } else {
                None
            }
        },
        PinMode::SmiSoeNSe => {
            if pin_nb == 6 || pin_nb == 34 {
                Some(0b101u32)
            } else {
                None
            }
        },
        PinMode::SmiSweNSrwN => {
            if pin_nb == 7 || pin_nb == 35 {
                Some(0b101u32)
            } else {
                None
            }
        },
        PinMode::SmiSd(offset) => {
            if (pin_nb >= 8 && pin_nb - 8 == offset) || (pin_nb >= 36 && pin_nb - 36 == offset) {
                Some(0b101u32)
            } else {
                None
            }
        },
        PinMode::BscSlSda => {
            if pin_nb == 18 {
                Some(0b111u32)
            } else {
                None
            }
        },
        PinMode::BscSlScl => {
            if pin_nb == 19 {
                Some(0b111u32)
            } else {
                None
            }
        },
        PinMode::SpiSlMosi => {
            if pin_nb == 18 {
                Some(0b111u32)
            } else {
                None
            }
        },
        PinMode::SpiSlMiso => {
            if pin_nb == 20 {
                Some(0b111u32)
            } else {
                None
            }
        },
        PinMode::SpiSlSclk => {
            if pin_nb == 19 {
                Some(0b111u32)
            } else {
                None
            }
        },
        PinMode::SpiSlCs => {
            if pin_nb == 21 {
                Some(0b111u32)
            } else {
                None
            }
        },
        PinMode::JtagTrst => {
            if pin_nb == 22 {
                Some(0b011u32)
            } else {
                None
            }
        },
        PinMode::JtagRtck => {
            if pin_nb == 6 {
                Some(0b010u32)
            } else if pin_nb == 23 {
                Some(0b011u32)
            } else {
                None
            }
        },
        PinMode::JtagTdo => {
            if pin_nb == 5 {
                Some(0b010u32)
            } else if pin_nb == 24 {
                Some(0b011u32)
            } else {
                None
            }
        },
        PinMode::JtagTck => {
            if pin_nb == 13 {
                Some(0b010u32)
            } else if pin_nb == 25 {
                Some(0b011u32)
            } else {
                None
            }
        },
        PinMode::JtagTdi => {
            if pin_nb == 4 {
                Some(0b010u32)
            } else if pin_nb == 26 {
                Some(0b011u32)
            } else {
                None
            }
        },
        PinMode::JtagTms => {
            if pin_nb == 12 {
                Some(0b010u32)
            } else if pin_nb == 27 {
                Some(0b011u32)
            } else {
                None
            }
        },        }
    }

    /// Whether the board routes this function to `pin_nb` at all.
    pub fn is_valid_for(&self, pin_nb: usize) -> (r: bool)
        ensures
            r == (spec_fsel_value(*self, pin_nb) is Some),
    {
        match self.try_get_value(pin_nb) {
            Some(_) => true,
            None => false,
        }
    }

    /// The function-select value of a valid (mode, pin) routing. An
    /// invalid routing is excluded by contract: reaching one is a
    /// configuration bug, fatal by the error-handling design.
    pub fn get_value(&self, pin_nb: usize) -> (r: u32)
        requires
            spec_fsel_value(*self, pin_nb) is Some,
        ensures
            Some(r) == spec_fsel_value(*self, pin_nb),
    {
        match self.try_get_value(pin_nb) {
            Some(v) => v,
            None => {
                proof {
                    assert(false);
                }
                0
            },
        }
    }
}

/// Which function-select register holds `pin_nb`'s three-bit field (ten
/// pins per register), and the field's bit shift within it.
pub fn fsel_slot(pin_nb: usize) -> (r: (usize, u32))
    requires
        pin_nb < 54,
    ensures
        r.0 == pin_nb / 10,
        r.1 == (pin_nb % 10) * 3,
        r.0 < 6,
        r.1 <= 27,
{
    (pin_nb / 10, ((pin_nb % 10) * 3) as u32)
}

/// The six function-select register values after OR-ing in each requested
/// pin's field, in request order.
pub open spec fn spec_fsel_apply(config: Seq<(usize, PinMode)>, regs: Seq<u32>) -> Seq<u32>
    decreases config.len(),
{
    if config.len() == 0 {
        regs
    } else {
        let prev = spec_fsel_apply(config.drop_last(), regs);
        let pin = config.last().0;
        let bank = pin / 10;
        let shift = ((pin % 10) * 3) as u32;
        let v = spec_fsel_value(config.last().1, pin)->0;
        prev.update(bank as int, prev[bank as int] | (v << shift))
    }
}

/// Two entries of the request name the same pin.
pub open spec fn spec_has_duplicate_pin(config: Seq<(usize, PinMode)>) -> bool {
    exists|i: int, j: int|
        0 <= i < j < config.len() && (#[trigger] config[i]).0 == (#[trigger] config[j]).0
}

/// Computes the six function-select register values for a configuration
/// request over their current contents: each pin's three-bit value is
/// OR-ed into its field. A pin named twice in one request is the typed
/// fatal configuration error.
pub fn configure_fsel(config: &Vec<(usize, PinMode)>, current: &Vec<u32>) -> (r: Result<
    Vec<u32>,
    Errcode,
>)
    requires
        current@.len() == 6,
        forall|i: int|
            0 <= i < config@.len() ==> (#[trigger] config@[i]).0 < 54 && spec_fsel_value(
                config@[i].1,
                config@[i].0,
            ) is Some,
    ensures
        !spec_has_duplicate_pin(config@) ==> (r matches Ok(regs) && regs@ == spec_fsel_apply(
            config@,
            current@,
        )),
        spec_has_duplicate_pin(config@) ==> (r matches Err(e) && e matches
            Errcode::PinAlreadyConfigured(p) && (exists|i: int, j: int|
            0 <= i < j < config@.len() && (#[trigger] config@[i]).0 == (#[trigger] config@[j]).0
                && config@[j].0 == p)),
{
    let mut used: Vec<bool> = Vec::new();
    let mut b: usize = 0;
    while b < 54
        invariant
            used@.len() == b <= 54,
            forall|p: int| 0 <= p < b ==> !(#[trigger] used@[p]),
        decreases 54 - b,
    {
        used.push(false);
        b = b + 1;
    }
    let mut regs: Vec<u32> = Vec::new();
    let mut i: usize = 0;
    while i < 6
        invariant
            current@.len() == 6,
            regs@.len() == i <= 6,
            forall|p: int| 0 <= p < i ==> regs@[p] == #[trigger] current@[p],
        decreases 6 - i,
    {
        regs.push(current[i]);
        i = i + 1;
    }
    proof {
        assert(regs@ =~= current@);
    }
    let mut k: usize = 0;
    while k < config.len()
        invariant
            current@.len() == 6,
            regs@.len() == 6,
            used@.len() == 54,
            k <= config@.len(),
            forall|i: int|
                0 <= i < config@.len() ==> (#[trigger] config@[i]).0 < 54 && spec_fsel_value(
                    config@[i].1,
                    config@[i].0,
                ) is Some,
            forall|p: usize|
                p < 54 ==> (used@[p as int] == exists|i: int|
                    0 <= i < k && (#[trigger] config@[i]).0 == p),
            forall|i: int, j: int| 0 <= i < j < k ==> config@[i].0 != config@[j].0,
            regs@ == spec_fsel_apply(config@.take(k as int), current@),
        decreases config@.len() - k,
    {
        let pin: usize = config[k].0;
        let mode: PinMode = config[k].1;
        if used[pin] {
            proof {
                let iw = choose|i: int| 0 <= i < k && (#[trigger] config@[i]).0 == pin;
                assert(0 <= iw < k < config@.len() && config@[iw].0 == config@[k as int].0);
            }
            return Err(Errcode::PinAlreadyConfigured(pin));
        }
        used.set(pin, true);
        let slot = fsel_slot(pin);
        let v: u32 = mode.get_value(pin);
        let merged: u32 = regs[slot.0] | (v << slot.1);
        regs.set(slot.0, merged);
        proof {
            assert(config@.take(k + 1).drop_last() =~= config@.take(k as int));
            assert(config@.take(k + 1).last() == config@[k as int]);
            assert(regs@ =~= spec_fsel_apply(config@.take(k + 1), current@));
        }
        k = k + 1;
    }
    proof {
        assert(config@.take(config@.len() as int) =~= config@);
    }
    Ok(regs)
}

/// The two bank masks covering a list of pins, in the layout of the
/// paired set / clear / clock registers.
pub open spec fn spec_pin_bank_masks(pins: Seq<usize>) -> (u32, u32)
    decreases pins.len(),
{
    if pins.len() == 0 {
        (0u32, 0u32)
    } else {
        let prev = spec_pin_bank_masks(pins.drop_last());
        let pin = pins.last();
        if pin < 32 {
            (prev.0 | (1u32 << pin), prev.1)
        } else {
            (prev.0, prev.1 | (1u32 << ((pin - 32) as u32)))
        }
    }
}

/// OR-accumulates the bank bits of each listed pin, as one write per bank
/// of the paired set / clear / clock registers.
pub fn pin_bank_masks(pins: &Vec<usize>) -> (r: (u32, u32))
    requires
        forall|i: int| 0 <= i < pins@.len() ==> #[trigger] pins@[i] < 54,
    ensures
        r == spec_pin_bank_masks(pins@),
{
    let mut bank0: u32 = 0;
    let mut bank1: u32 = 0;
    let mut i: usize = 0;
    while i < pins.len()
        invariant
            i <= pins@.len(),
            forall|j: int| 0 <= j < pins@.len() ==> #[trigger] pins@[j] < 54,
            (bank0, bank1) == spec_pin_bank_masks(pins@.take(i as int)),
        decreases pins@.len() - i,
    {
        proof {
            assert(pins@.take(i + 1).drop_last() =~= pins@.take(i as int));
            assert(pins@.take(i + 1).last() == pins@[i as int]);
        }
        let pin: usize = pins[i];
        let slot = pin_bank_bit(pin);
        if slot.0 == 0 {
            bank0 = bank0 | slot.1;
        } else {
            bank1 = bank1 | slot.1;
        }
        i = i + 1;
    }
    proof {
        assert(pins@.take(pins@.len() as int) =~= pins@);
    }
    (bank0, bank1)
}

/// The (bank, bit) a pin occupies in the paired set / clear / level
/// registers: pins 0–31 in the first 32-bit bank, 32–53 in the second.
pub fn pin_bank_bit(pin_nb: usize) -> (r: (usize, u32))
    requires
        pin_nb < 54,
    ensures
        pin_nb < 32 ==> r == (0usize, 1u32 << pin_nb),
        32 <= pin_nb ==> r == (1usize, 1u32 << ((pin_nb - 32) as u32)),
{
    if pin_nb < 32 {
        (0, 1u32 << (pin_nb as u32))
    } else {
        (1, 1u32 << ((pin_nb - 32) as u32))
    }
}

} // verus!
