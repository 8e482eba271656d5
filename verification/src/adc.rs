//! Analog to digital converter.
//!
//! The converter's memory-mapped registers are kept as a plain-data model:
//! each driver call is a specified transition on that model, and each
//! busy-wait point is where the modeled peripheral completes the operation
//! the driver requested. The analog level of every channel slot and the
//! converter's intrinsic offset error are part of the model, so conversions
//! and calibration are deterministic functions of the modeled state.

use vstd::prelude::*;

verus! {

/// Mask of all valid channels.
///
/// Channels 0-17, but without 15 and 16 because they are reserved.
pub const CH_MASK: u32 = 0x27FFF;

/// ADC clock mode.
///
/// In all synchronous clock modes, there is no jitter in the delay from a
/// timer trigger to the start of a conversion.
#[derive(Debug, PartialEq, Eq, Clone, Copy, Structural)]
pub enum Clk {
    /// Asynchronous clock mode HSI16.
    RccHsi,
    /// Asynchronous clock mode PLLP.
    RccPllP,
    /// Asynchronous clock mode SYSCLK.
    RccSysClk,
    /// Synchronous clock mode, pclk/2.
    PClkDiv2,
    /// Synchronous clock mode, pclk/4.
    PClkDiv4,
    /// Synchronous clock mode, pclk.
    ///
    /// This configuration must be enabled only if PCLK has a 50% duty clock
    /// cycle.
    PClk,
}

impl Clk {
    /// The clock-mode field of the converter's configuration register:
    /// 0 selects the asynchronous clock, 1 pclk/2, 2 pclk/4, 3 pclk.
    pub fn ckmode(&self) -> (r: u8)
        ensures
            r == self.spec_ckmode(),
    {
        match self {
            Clk::RccHsi | Clk::RccPllP | Clk::RccSysClk => 0,
            Clk::PClkDiv2 => 1,
            Clk::PClkDiv4 => 2,
            Clk::PClk => 3,
        }
    }

    /// The clock-mode field as a specification value.
    pub open spec fn spec_ckmode(self) -> u8 {
        match self {
            Clk::RccHsi | Clk::RccPllP | Clk::RccSysClk => 0,
            Clk::PClkDiv2 => 1,
            Clk::PClkDiv4 => 2,
            Clk::PClk => 3,
        }
    }

    /// The clock-source field of the clock controller's selection register:
    /// 0 selects no clock, 1 HSI16, 2 PLLP, 3 SYSCLK.
    ///
    /// Synchronous modes take the bus clock and need no source of their own.
    pub fn adcsel(&self) -> (r: u8)
        ensures
            r == self.spec_adcsel(),
    {
        match self {
            Clk::RccHsi => 1,
            Clk::RccPllP => 2,
            Clk::RccSysClk => 3,
            _ => 0,
        }
    }

    /// The clock-source field as a specification value.
    pub open spec fn spec_adcsel(self) -> u8 {
        match self {
            Clk::RccHsi => 1,
            Clk::RccPllP => 2,
            Clk::RccSysClk => 3,
            _ => 0,
        }
    }
}

/// ADC sample times.
#[derive(Clone, Copy, Debug, PartialEq, Eq, PartialOrd, Ord, Structural)]
pub enum Ts {
    /// 1.5 ADC clock cycles.
    Cyc1,
    /// 3.5 ADC clock cycles.
    Cyc3,
    /// 7.5 ADC clock cycles.
    Cyc7,
    /// 12.5 ADC clock cycles.
    Cyc12,
    /// 19.5 ADC clock cycles.
    Cyc19,
    /// 39.5 ADC clock cycles.
    Cyc39,
    /// 79.5 ADC clock cycles.
    Cyc79,
    /// 160.5 ADC clock cycles.
    Cyc160,
}

impl Default for Ts {
    /// Reset value of the sample time.
    fn default() -> (r: Self)
        ensures
            r == Ts::Cyc1,
    {
        Ts::Cyc1
    }
}

impl Ts {
    /// Maximum sample time, 160.5 ADC clock cycles.
    pub const MAX: Ts = Ts::Cyc160;

    /// Minimum sample time, 1.5 ADC clock cycles.
    pub const MIN: Ts = Ts::Cyc1;

    /// The three-bit selector field encoding this sample time.
    pub fn bits(self) -> (r: u8)
        ensures
            r == self.spec_bits(),
    {
        match self {
            Ts::Cyc1 => 0,
            Ts::Cyc3 => 1,
            Ts::Cyc7 => 2,
            Ts::Cyc12 => 3,
            Ts::Cyc19 => 4,
            Ts::Cyc39 => 5,
            Ts::Cyc79 => 6,
            Ts::Cyc160 => 7,
        }
    }

    /// The selector field as a specification value.
    pub open spec fn spec_bits(self) -> u8 {
        match self {
            Ts::Cyc1 => 0,
            Ts::Cyc3 => 1,
            Ts::Cyc7 => 2,
            Ts::Cyc12 => 3,
            Ts::Cyc19 => 4,
            Ts::Cyc39 => 5,
            Ts::Cyc79 => 6,
            Ts::Cyc160 => 7,
        }
    }
}

/// ADC channels.
#[derive(Debug, PartialEq, Eq, Clone, Copy, Structural)]
pub enum Ch {
    /// ADC input 0.
    In0,
    /// ADC input 1.
    In1,
    /// ADC input 2.
    In2,
    /// ADC input 3.
    In3,
    /// ADC input 4.
    In4,
    /// ADC input 5.
    In5,
    /// ADC input 6.
    In6,
    /// ADC input 7.
    In7,
    /// ADC input 8.
    In8,
    /// ADC input 9.
    In9,
    /// ADC input 10.
    In10,
    /// ADC input 11.
    In11,
    /// Junction temperature sensor.
    Vts,
    /// Internal voltage reference.
    Vref,
    /// Battery voltage divided by 3.
    Vbat,
    // slots 15 and 16 are reserved
    /// Digital to analog converter output.
    ///
    /// The DAC outputs to this internal pin only when configured to output to
    /// chip peripherals.
    Dac,
}

impl Ch {
    /// The channel's slot number in the 18-slot channel map.
    pub open spec fn spec_idx(self) -> u32 {
        match self {
            Ch::In0 => 0,
            Ch::In1 => 1,
            Ch::In2 => 2,
            Ch::In3 => 3,
            Ch::In4 => 4,
            Ch::In5 => 5,
            Ch::In6 => 6,
            Ch::In7 => 7,
            Ch::In8 => 8,
            Ch::In9 => 9,
            Ch::In10 => 10,
            Ch::In11 => 11,
            Ch::Vts => 12,
            Ch::Vref => 13,
            Ch::Vbat => 14,
            Ch::Dac => 17,
        }
    }

    /// The channel's one-bit mask as a specification value.
    pub open spec fn spec_mask(self) -> u32 {
        1u32 << self.spec_idx()
    }

    /// Whether the channel is one of the 12 pin-mapped analog inputs.
    pub open spec fn spec_is_pin(self) -> bool {
        self.spec_idx() < 12
    }

    /// The channel's slot number.
    pub fn idx(self) -> (r: u32)
        ensures
            r == self.spec_idx(),
    {
        match self {
            Ch::In0 => 0,
            Ch::In1 => 1,
            Ch::In2 => 2,
            Ch::In3 => 3,
            Ch::In4 => 4,
            Ch::In5 => 5,
            Ch::In6 => 6,
            Ch::In7 => 7,
            Ch::In8 => 8,
            Ch::In9 => 9,
            Ch::In10 => 10,
            Ch::In11 => 11,
            Ch::Vts => 12,
            Ch::Vref => 13,
            Ch::Vbat => 14,
            Ch::Dac => 17,
        }
    }

    /// Bitmask of the channel.
    pub fn mask(self) -> (r: u32)
        ensures
            r == self.spec_mask(),
    {
        let i = self.idx();
        1u32 << i
    }
}

/// Status flags of the converter, one per interrupt source.
///
/// In hardware each flag is cleared by writing 1 to it; the model clears the
/// field directly.
#[derive(Debug, Clone, Copy, PartialEq, Eq, Structural)]
pub struct Isr {
    /// The converter is ready for conversions.
    pub adrdy: bool,
    /// End of sampling phase.
    pub eosmp: bool,
    /// End of conversion: a sample waits in the data register.
    pub eoc: bool,
    /// End of conversion sequence.
    pub eos: bool,
    /// Overrun: a sample was lost.
    pub ovr: bool,
    /// Analog watchdog 1 event.
    pub awd1: bool,
    /// Analog watchdog 2 event.
    pub awd2: bool,
    /// Analog watchdog 3 event.
    pub awd3: bool,
    /// End of calibration.
    pub eocal: bool,
    /// Channel configuration ready: the selection was latched.
    pub ccrdy: bool,
}

impl Isr {
    /// All flags clear.
    pub open spec fn spec_clear() -> Isr {
        Isr {
            adrdy: false,
            eosmp: false,
            eoc: false,
            eos: false,
            ovr: false,
            awd1: false,
            awd2: false,
            awd3: false,
            eocal: false,
            ccrdy: false,
        }
    }
}

/// Interrupt enables of the converter, one per status flag.
#[derive(Debug, Clone, Copy, PartialEq, Eq, Structural)]
pub struct Ier {
    /// Interrupt when the converter becomes ready.
    pub adrdyie: bool,
    /// Interrupt at end of sampling.
    pub eosmpie: bool,
    /// Interrupt at end of conversion.
    pub eocie: bool,
    /// Interrupt at end of sequence.
    pub eosie: bool,
    /// Interrupt on overrun.
    pub ovrie: bool,
    /// Interrupt on analog watchdog 1.
    pub awd1ie: bool,
    /// Interrupt on analog watchdog 2.
    pub awd2ie: bool,
    /// Interrupt on analog watchdog 3.
    pub awd3ie: bool,
    /// Interrupt at end of calibration.
    pub eocalie: bool,
    /// Interrupt when a channel selection is latched.
    pub ccrdyie: bool,
}

impl Ier {
    /// All interrupt sources masked.
    pub open spec fn spec_clear() -> Ier {
        Ier {
            adrdyie: false,
            eosmpie: false,
            eocie: false,
            eosie: false,
            ovrie: false,
            awd1ie: false,
            awd2ie: false,
            awd3ie: false,
            eocalie: false,
            ccrdyie: false,
        }
    }
}

/// Control bits of the converter.
#[derive(Debug, Clone, Copy, PartialEq, Eq, Structural)]
pub struct Cr {
    /// Enable request; set by software, cleared by hardware on disable.
    pub aden: bool,
    /// Disable request; cleared by hardware once the converter is off.
    pub addis: bool,
    /// Conversion start request; cleared by hardware when the conversion is
    /// done.
    pub adstart: bool,
    /// Conversion stop request; cleared by hardware once the conversion is
    /// halted.
    pub adstp: bool,
    /// Internal voltage regulator enable.
    pub advregen: bool,
    /// Calibration request; cleared by hardware when calibration completes.
    pub adcal: bool,
}

/// Common configuration bits: which internal analog sources are powered.
#[derive(Debug, Clone, Copy, PartialEq, Eq, Structural)]
pub struct Ccr {
    /// Temperature sensor enable.
    pub tsen: bool,
    /// Internal voltage reference enable.
    pub vrefen: bool,
    /// Battery-voltage bridge divider enable.
    pub vbaten: bool,
}

/// The two read-only factory calibration constants burned in at manufacture,
/// plus the reference-voltage anchor, as raw converter counts.
#[derive(Debug, Clone, Copy, PartialEq, Eq, Structural)]
pub struct FactoryCal {
    /// Raw count of the temperature sensor at 30 degrees Celsius.
    pub ts_cal1: u16,
    /// Raw count of the temperature sensor at 130 degrees Celsius.
    pub ts_cal2: u16,
    /// Raw count of the internal voltage reference at 30 degrees Celsius.
    pub vref_cal: u16,
}

/// The clock controller's bits that concern the converter.
#[derive(Debug, Clone, Copy, PartialEq, Eq, Structural)]
pub struct Rcc {
    /// The converter's bus clock is enabled.
    pub adc_clock_enabled: bool,
    /// The selected asynchronous kernel clock source, as the two-bit
    /// selection field: 0 none, 1 HSI16, 2 PLLP, 3 SYSCLK.
    pub adcsel: u8,
}

/// The converter's register file and analog surroundings, as a plain-data
/// model.
///
/// `vin` holds the analog level each channel slot would convert to, and
/// `cal_offset` the intrinsic offset error the calibration procedure
/// measures; both stand for physical quantities outside software's reach.
#[derive(Debug, Clone, Copy, PartialEq, Eq)]
pub struct AdcRegs {
    /// Status flags.
    pub isr: Isr,
    /// Interrupt enables.
    pub ier: Ier,
    /// Control bits.
    pub cr: Cr,
    /// DMA enable bit of the first configuration register.
    pub dmaen: bool,
    /// Clock-mode field of the second configuration register.
    pub ckmode: u8,
    /// Sample-time register word.
    pub smpr: u32,
    /// Latched channel-selection mask; only the 18 channel bits exist.
    pub chselr: u32,
    /// Data register: the last converted sample.
    pub dr: u16,
    /// The 7-bit calibration factor applied by hardware to every sample.
    pub calfact: u8,
    /// Common configuration bits.
    pub ccr: Ccr,
    /// Analog level per channel slot.
    pub vin: [u16; 18],
    /// Intrinsic offset error, measured by the calibration procedure.
    pub cal_offset: u8,
}

impl AdcRegs {
    /// The register file after a peripheral reset, for a given clock mode,
    /// in surroundings `vin` / `cal_offset`.
    pub open spec fn spec_reset(ckmode: u8, vin: [u16; 18], cal_offset: u8) -> AdcRegs {
        AdcRegs {
            isr: Isr::spec_clear(),
            ier: Ier::spec_clear(),
            cr: Cr {
                aden: false,
                addis: false,
                adstart: false,
                adstp: false,
                advregen: false,
                adcal: false,
            },
            dmaen: false,
            ckmode,
            smpr: 0,
            chselr: 0,
            dr: 0,
            calfact: 0,
            ccr: Ccr { tsen: false, vrefen: false, vbaten: false },
            vin,
            cal_offset,
        }
    }
}

/// The lowest selected slot of a channel-selection mask: the hardware scans
/// upward and converts the lowest selected channel. Slot 0 when no slot is
/// selected at all.
pub open spec fn spec_low_channel(m: u32) -> u32 {
    if m & 0x1 != 0 {
        0
    } else if m & 0x2 != 0 {
        1
    } else if m & 0x4 != 0 {
        2
    } else if m & 0x8 != 0 {
        3
    } else if m & 0x10 != 0 {
        4
    } else if m & 0x20 != 0 {
        5
    } else if m & 0x40 != 0 {
        6
    } else if m & 0x80 != 0 {
        7
    } else if m & 0x100 != 0 {
        8
    } else if m & 0x200 != 0 {
        9
    } else if m & 0x400 != 0 {
        10
    } else if m & 0x800 != 0 {
        11
    } else if m & 0x1000 != 0 {
        12
    } else if m & 0x2000 != 0 {
        13
    } else if m & 0x4000 != 0 {
        14
    } else if m & 0x8000 != 0 {
        15
    } else if m & 0x10000 != 0 {
        16
    } else if m & 0x20000 != 0 {
        17
    } else {
        0
    }
}

/// The interrupt-status word: the status flags packed at their register bit
/// positions. It is 0 exactly when every flag is clear.
pub open spec fn spec_isr_word(i: Isr) -> int {
    (if i.adrdy {
        1int
    } else {
        0
    }) + (if i.eosmp {
        2int
    } else {
        0
    }) + (if i.eoc {
        4int
    } else {
        0
    }) + (if i.eos {
        8int
    } else {
        0
    }) + (if i.ovr {
        16int
    } else {
        0
    }) + (if i.awd1 {
        128int
    } else {
        0
    }) + (if i.awd2 {
        256int
    } else {
        0
    }) + (if i.awd3 {
        512int
    } else {
        0
    }) + (if i.eocal {
        2048int
    } else {
        0
    }) + (if i.ccrdy {
        8192int
    } else {
        0
    })
}

/// The single shared interrupt-to-task mailbox.
///
/// One result slot holding the latest posted interrupt-status word, with 0
/// reserved as the empty sentinel, and one waiter slot where the last
/// registered waiter wins. It is a single slot, not a queue: only one
/// asynchronous operation may be outstanding peripheral-wide.
///
/// Abandoning a pending wait before it resolves leaves the interrupt
/// sources armed; the next firing posts a result nobody consumes, and the
/// next unrelated operation would mistake it for its own outcome.
#[derive(Debug, Clone, Copy, PartialEq, Eq, Structural)]
pub struct Mailbox {
    /// Latest posted interrupt-status word; 0 means empty.
    pub result: u32,
    /// Whether a waiter is currently registered.
    pub waiter: bool,
}

/// The mailbox after a post: the result slot holds the new word whatever it
/// held before (the last write wins), and the waiter is woken, leaving the
/// waiter slot empty.
pub open spec fn spec_post(m: Mailbox, status: u32) -> Mailbox {
    Mailbox { result: status, waiter: false }
}

/// The mailbox and the outcome after a poll: the caller is registered as the
/// waiter, then the result slot is read and cleared; a non-zero word is
/// delivered, an empty slot leaves the caller registered and pending.
pub open spec fn spec_poll(m: Mailbox) -> (Mailbox, Option<u32>) {
    if m.result == 0 {
        (Mailbox { result: 0, waiter: true }, None)
    } else {
        (Mailbox { result: 0, waiter: false }, Some(m.result))
    }
}

impl Mailbox {
    /// An empty mailbox with no waiter.
    pub fn new() -> (r: Mailbox)
        ensures
            r == (Mailbox { result: 0, waiter: false }),
    {
        Mailbox { result: 0, waiter: false }
    }

    /// Post a result word and wake the registered waiter.
    ///
    /// A word already in the slot is overwritten: the last write wins. That
    /// is caller misuse (two operations outstanding at once) but must not
    /// stall or corrupt the mailbox itself.
    pub fn post(&mut self, status: u32)
        ensures
            *final(self) == spec_post(*old(self), status),
    {
        self.result = status;
        self.waiter = false;
    }
}

/// Register the current waiter, replacing any previous one, then atomically
/// read and clear the result slot: a non-zero word means ready with that
/// word, zero means still pending.
pub fn poll(mb: &mut Mailbox) -> (r: Option<u32>)
    ensures
        *final(mb) == spec_poll(*old(mb)).0,
        r == spec_poll(*old(mb)).1,
{
    mb.waiter = true;
    if mb.result != 0 {
        mb.waiter = false;
        let isr: u32 = mb.result;
        mb.result = 0;
        Some(isr)
    } else {
        None
    }
}

/// Law: a result posted while the mailbox is empty, even before any waiter
/// is registered, is delivered on the very next poll.
pub proof fn lemma_mailbox_pending_result_delivered(m: Mailbox, status: u32)
    requires
        m.result == 0,
        !m.waiter,
        status != 0,
    ensures
        spec_poll(spec_post(m, status)).1 == Some(status),
        spec_poll(spec_post(m, status)).0.result == 0,
{
}

/// Law: posting twice without an intervening poll overwrites the first word;
/// the second post is the one delivered, and nothing stalls.
pub proof fn lemma_mailbox_last_write_wins(m: Mailbox, first: u32, second: u32)
    requires
        second != 0,
    ensures
        spec_poll(spec_post(spec_post(m, first), second)).1 == Some(second),
{
}

/// A blocking delay capability, injected by the caller: the driver itself
/// owns no timer. Implementors pause for at least the requested time.
pub trait DelayUs {
    /// Pause for at least `us` microseconds.
    fn delay_us(&mut self, us: u8);
}

/// Voltage regulator setup time, in microseconds: the wait the caller owes
/// between enabling the regulator and triggering calibration.
pub const T_ADCVREG_SETUP_MICROS: u8 = 20;

/// Temperature sensor minimum sampling time, in microseconds.
pub const TS_MIN_SAMPLE_MICROS: u32 = 5;

/// Temperature sensor typical startup time, in microseconds: the wait the
/// caller owes between enabling the sensor and an accurate sample.
pub const TS_START_TYP_MICROS: u32 = 70;

/// Temperature sensor maximum startup time, in microseconds.
pub const TS_START_MAX_MICROS: u32 = 120;

// Lifecycle state, derived from the control and status bits on demand; the
// driver caches no copy of it.

/// Lifecycle of the converter. It is never stored: every query derives it
/// afresh from the register file, so software cannot diverge from hardware
/// truth after an externally triggered reset.
#[derive(Debug, PartialEq, Eq, Clone, Copy, Structural)]
pub enum LifecycleState {
    /// Off, with no disable in flight.
    Disabled,
    /// Enable requested, the ready flag not yet risen.
    Enabling,
    /// Enabled and ready for conversions.
    Ready,
    /// Disable requested, the converter not yet off.
    Disabling,
    /// Calibration in progress.
    Calibrating,
}

/// The lifecycle state the register bits denote.
pub open spec fn spec_lifecycle(r: AdcRegs) -> LifecycleState {
    if r.cr.adcal {
        LifecycleState::Calibrating
    } else if r.cr.addis {
        LifecycleState::Disabling
    } else if !r.cr.aden {
        LifecycleState::Disabled
    } else if !r.isr.adrdy {
        LifecycleState::Enabling
    } else {
        LifecycleState::Ready
    }
}

/// The converter accepted an enable request and has not been asked to
/// disable.
pub open spec fn spec_is_enabled(r: AdcRegs) -> bool {
    r.cr.aden
}

/// The converter is fully off: neither enabled nor on its way to disabled.
pub open spec fn spec_is_disabled(r: AdcRegs) -> bool {
    !r.cr.aden && !r.cr.addis
}

// Transitions of the modeled register file. Each driver call's effect is one
// of these, so that laws about call sequences can be stated and proved over
// plain functions.

/// Begin the enable procedure: clear the ready flag, then request enable.
/// A no-op when the converter is already enabled.
pub open spec fn spec_start_enable(r: AdcRegs) -> AdcRegs {
    if r.cr.aden {
        r
    } else {
        AdcRegs { isr: (Isr { adrdy: false, ..r.isr }), cr: (Cr { aden: true, ..r.cr }), ..r }
    }
}

/// The modeled peripheral completes a pending enable: the ready flag rises.
pub open spec fn spec_settle_enable(r: AdcRegs) -> AdcRegs {
    if r.cr.aden && !r.isr.adrdy {
        AdcRegs { isr: (Isr { adrdy: true, ..r.isr }), ..r }
    } else {
        r
    }
}

/// The whole blocking enable: request, then wait for the ready flag.
pub open spec fn spec_enable(r: AdcRegs) -> AdcRegs {
    if r.cr.aden {
        r
    } else {
        spec_settle_enable(spec_start_enable(r))
    }
}

/// The modeled peripheral halts an in-progress conversion after a stop
/// request; the in-flight result is discarded and no end-of-conversion flag
/// is left behind.
pub open spec fn spec_settle_stop(r: AdcRegs) -> AdcRegs {
    if r.cr.adstp {
        AdcRegs {
            cr: (Cr { adstart: false, adstp: false, ..r.cr }),
            isr: (Isr { eoc: false, ..r.isr }),
            ..r
        }
    } else {
        r
    }
}

/// Begin the disable procedure: stop any in-progress conversion and wait for
/// the stop to take, then request disable if the converter is enabled.
pub open spec fn spec_start_disable(r: AdcRegs) -> AdcRegs {
    let stopped = if r.cr.adstart {
        spec_settle_stop(AdcRegs { cr: (Cr { adstp: true, ..r.cr }), ..r })
    } else {
        r
    };
    if stopped.cr.aden {
        AdcRegs { cr: (Cr { addis: true, ..stopped.cr }), ..stopped }
    } else {
        stopped
    }
}

/// The modeled peripheral completes a pending disable: the converter turns
/// off and the disable request clears itself.
pub open spec fn spec_settle_disable(r: AdcRegs) -> AdcRegs {
    if r.cr.addis {
        AdcRegs { cr: (Cr { aden: false, addis: false, ..r.cr }), ..r }
    } else {
        r
    }
}

/// Write the channel-selection mask: only the 18 implemented channel bits
/// latch, and the latch-confirmation flag drops until the hardware accepts
/// the new selection.
pub open spec fn spec_set_chsel(r: AdcRegs, ch: u32) -> AdcRegs {
    AdcRegs { chselr: ch & CH_MASK, isr: (Isr { ccrdy: false, ..r.isr }), ..r }
}

/// The modeled peripheral latches the pending channel selection.
pub open spec fn spec_settle_chsel(r: AdcRegs) -> AdcRegs {
    if !r.isr.ccrdy {
        AdcRegs { isr: (Isr { ccrdy: true, ..r.isr }), ..r }
    } else {
        r
    }
}

/// The whole blocking channel selection: write the mask, wait for the latch.
pub open spec fn spec_latch_channel(r: AdcRegs, ch: u32) -> AdcRegs {
    spec_settle_chsel(spec_set_chsel(r, ch))
}

/// Request a conversion start.
pub open spec fn spec_start(r: AdcRegs) -> AdcRegs {
    AdcRegs { cr: (Cr { adstart: true, ..r.cr }), ..r }
}

/// The modeled peripheral finishes an in-progress conversion: the lowest
/// selected channel's analog level lands in the data register and the
/// end-of-conversion flag rises.
pub open spec fn spec_settle_conversion(r: AdcRegs) -> AdcRegs {
    if r.cr.adstart && !r.isr.eoc {
        AdcRegs {
            dr: r.vin[spec_low_channel(r.chselr) as int],
            isr: (Isr { eoc: true, ..r.isr }),
            cr: (Cr { adstart: false, ..r.cr }),
            ..r
        }
    } else {
        r
    }
}

/// The whole blocking read: wait for end of conversion, take the sample,
/// clear the flag by write-back.
pub open spec fn spec_read_data(r: AdcRegs) -> AdcRegs {
    let c = spec_settle_conversion(r);
    AdcRegs { isr: (Isr { eoc: false, ..c.isr }), ..c }
}

/// Prepare for calibration: disable the converter and wait for that, then
/// enable the internal voltage regulator and disable DMA.
pub open spec fn spec_setup_calibrate(r: AdcRegs) -> AdcRegs {
    let d = spec_settle_disable(spec_start_disable(r));
    AdcRegs { cr: (Cr { advregen: true, ..d.cr }), dmaen: false, ..d }
}

/// Request calibration, keeping the voltage regulator enabled.
pub open spec fn spec_start_calibrate(r: AdcRegs) -> AdcRegs {
    AdcRegs { cr: (Cr { adcal: true, advregen: true, ..r.cr }), ..r }
}

/// The modeled peripheral completes a pending calibration: it measures its
/// intrinsic offset error, loads the 7-bit calibration factor, clears the
/// request bit and raises the end-of-calibration flag.
pub open spec fn spec_settle_calibrate(r: AdcRegs) -> AdcRegs {
    if r.cr.adcal {
        AdcRegs {
            cr: (Cr { adcal: false, ..r.cr }),
            calfact: (r.cal_offset % 128) as u8,
            isr: (Isr { eocal: true, ..r.isr }),
            ..r
        }
    } else {
        r
    }
}

/// The whole blocking calibration: prepare, request, wait for completion,
/// clear the end-of-calibration flag.
pub open spec fn spec_calibrate(r: AdcRegs) -> AdcRegs {
    let c = spec_settle_calibrate(spec_start_calibrate(spec_setup_calibrate(r)));
    AdcRegs { isr: (Isr { eocal: false, ..c.isr }), ..c }
}

/// The interrupt handler's effect on the register file: every status flag is
/// cleared and every interrupt source is masked, so the line cannot re-fire.
pub open spec fn spec_irq_drain(r: AdcRegs) -> AdcRegs {
    AdcRegs { isr: Isr::spec_clear(), ier: Ier::spec_clear(), ..r }
}

/// The register file after the interrupt-driven channel selection: the mask
/// latches, then the handler drains all flags.
pub open spec fn spec_aio_latch_channel(r: AdcRegs, ch: u32) -> AdcRegs {
    spec_irq_drain(spec_settle_chsel(spec_set_chsel(r, ch)))
}

/// The raw sample a blocking select-start-read cycle returns, from state `r`
/// with channel mask `m`.
pub open spec fn spec_blocking_sample(r: AdcRegs, m: u32) -> u16 {
    spec_settle_conversion(spec_start(spec_latch_channel(r, m))).dr
}

/// The register file after a blocking select-start-read cycle.
pub open spec fn spec_blocking_read(r: AdcRegs, m: u32) -> AdcRegs {
    spec_read_data(spec_start(spec_latch_channel(r, m)))
}

/// The raw sample an interrupt-driven select-start-read cycle returns.
pub open spec fn spec_async_sample(r: AdcRegs, m: u32) -> u16 {
    spec_settle_conversion(spec_start(spec_aio_latch_channel(r, m))).dr
}

/// The register file after an interrupt-driven select-start-read cycle.
pub open spec fn spec_async_read(r: AdcRegs, m: u32) -> AdcRegs {
    spec_irq_drain(spec_settle_conversion(spec_start(spec_aio_latch_channel(r, m))))
}

/// The lowest selected slot of a channel-selection mask, executable form.
fn low_channel(m: u32) -> (r: u32)
    ensures
        r == spec_low_channel(m),
        r < 18,
{
    if m & 0x1 != 0 {
        0
    } else if m & 0x2 != 0 {
        1
    } else if m & 0x4 != 0 {
        2
    } else if m & 0x8 != 0 {
        3
    } else if m & 0x10 != 0 {
        4
    } else if m & 0x20 != 0 {
        5
    } else if m & 0x40 != 0 {
        6
    } else if m & 0x80 != 0 {
        7
    } else if m & 0x100 != 0 {
        8
    } else if m & 0x200 != 0 {
        9
    } else if m & 0x400 != 0 {
        10
    } else if m & 0x800 != 0 {
        11
    } else if m & 0x1000 != 0 {
        12
    } else if m & 0x2000 != 0 {
        13
    } else if m & 0x4000 != 0 {
        14
    } else if m & 0x8000 != 0 {
        15
    } else if m & 0x10000 != 0 {
        16
    } else if m & 0x20000 != 0 {
        17
    } else {
        0
    }
}

/// The interrupt-status word of the current flags, executable form.
#[verifier::rlimit(60)]
fn isr_word(i: &Isr) -> (r: u32)
    ensures
        r as int == spec_isr_word(*i),
{
    (if i.adrdy {
        1u32
    } else {
        0
    }) + (if i.eosmp {
        2u32
    } else {
        0
    }) + (if i.eoc {
        4u32
    } else {
        0
    }) + (if i.eos {
        8u32
    } else {
        0
    }) + (if i.ovr {
        16u32
    } else {
        0
    }) + (if i.awd1 {
        128u32
    } else {
        0
    }) + (if i.awd2 {
        256u32
    } else {
        0
    }) + (if i.awd3 {
        512u32
    } else {
        0
    }) + (if i.eocal {
        2048u32
    } else {
        0
    }) + (if i.ccrdy {
        8192u32
    } else {
        0
    })
}

/// Analog to digital converter driver: exclusive owner of the modeled
/// register file, carrying the chip's factory calibration constants.
#[derive(Debug, Clone, Copy, PartialEq, Eq)]
pub struct Adc {
    /// The modeled register file, with its analog surroundings.
    pub regs: AdcRegs,
    /// The chip's factory calibration constants.
    pub cal: FactoryCal,
}

impl Adc {
    /// Create a new driver from the converter's register file.
    ///
    /// This resets the converter, enables its bus clock, writes the chosen
    /// clock mode and routes the chosen clock source. The caller stays
    /// responsible for the source clock actually running, and keeps the
    /// clock controller.
    pub fn new(adc: AdcRegs, clk: Clk, rcc: &mut Rcc, cal: FactoryCal) -> (r: Adc)
        ensures
            *final(rcc) == (Rcc { adc_clock_enabled: true, adcsel: clk.spec_adcsel() }),
            r.regs == AdcRegs::spec_reset(clk.spec_ckmode(), adc.vin, adc.cal_offset),
            r.cal == cal,
    {
        // pulse the peripheral reset: every register returns to its reset
        // value; the analog surroundings are physical and survive
        let regs = AdcRegs {
            isr: Isr {
                adrdy: false,
                eosmp: false,
                eoc: false,
                eos: false,
                ovr: false,
                awd1: false,
                awd2: false,
                awd3: false,
                eocal: false,
                ccrdy: false,
            },
            ier: Ier {
                adrdyie: false,
                eosmpie: false,
                eocie: false,
                eosie: false,
                ovrie: false,
                awd1ie: false,
                awd2ie: false,
                awd3ie: false,
                eocalie: false,
                ccrdyie: false,
            },
            cr: Cr {
                aden: false,
                addis: false,
                adstart: false,
                adstp: false,
                advregen: false,
                adcal: false,
            },
            dmaen: false,
            ckmode: clk.ckmode(),
            smpr: 0,
            chselr: 0,
            dr: 0,
            calfact: 0,
            ccr: Ccr { tsen: false, vrefen: false, vbaten: false },
            vin: adc.vin,
            cal_offset: adc.cal_offset,
        };
        Self::enable_clock(rcc);
        rcc.adcsel = clk.adcsel();
        Adc { regs, cal }
    }

    /// Free the register file from the driver. Hardware state persists
    /// independent of the handle.
    pub fn free(self) -> (r: AdcRegs)
        ensures
            r == self.regs,
    {
        self.regs
    }

    /// Enable the converter's bus clock. [`new`](Adc::new) does this for you.
    pub fn enable_clock(rcc: &mut Rcc)
        ensures
            *final(rcc) == (Rcc { adc_clock_enabled: true, ..*old(rcc) }),
    {
        rcc.adc_clock_enabled = true;
    }

    /// The chip's two temperature-sensor factory anchors: the raw counts at
    /// 30 and at 130 degrees Celsius.
    pub fn ts_cal(&self) -> (r: (u16, u16))
        ensures
            r.0 == self.cal.ts_cal1,
            r.1 == self.cal.ts_cal2,
    {
        (self.cal.ts_cal1, self.cal.ts_cal2)
    }

    /// The chip's internal-voltage-reference factory anchor: the raw count
    /// at 30 degrees Celsius.
    pub fn vref_cal(&self) -> (r: u16)
        ensures
            r == self.cal.vref_cal,
    {
        self.cal.vref_cal
    }

    /// Set sample times for **all** channels.
    ///
    /// For each bit in the mask: `0` takes the sample time of `sel0`, `1`
    /// that of `sel1`. Writing the table while a conversion is in progress
    /// is a caller error, excluded here.
    pub fn set_sample_times(&mut self, mask: u32, sel0: Ts, sel1: Ts)
        requires
            !old(self).regs.cr.adstart,
        ensures
            *final(self) == (Adc {
                regs: (AdcRegs {
                    smpr: ((mask & CH_MASK) << 8u32) | ((sel1.spec_bits() as u32) << 4u32) | (
                    sel0.spec_bits() as u32),
                    ..old(self).regs
                }),
                ..*old(self)
            }),
    {
        self.regs.smpr = ((mask & CH_MASK) << 8u32) | ((sel1.bits() as u32) << 4u32) | (sel0.bits()
            as u32);
    }

    /// Sets all channels to the maximum sample time: a helper for testing
    /// and rapid prototyping.
    pub fn set_max_sample_time(&mut self)
        requires
            !old(self).regs.cr.adstart,
        ensures
            *final(self) == (Adc {
                regs: (AdcRegs {
                    smpr: ((0u32 & CH_MASK) << 8u32) | ((7u32) << 4u32) | 7u32,
                    ..old(self).regs
                }),
                ..*old(self)
            }),
    {
        self.set_sample_times(0, Ts::Cyc160, Ts::Cyc160);
    }

    /// The converter's lifecycle state, derived afresh from the register
    /// file; the driver caches no copy of it.
    pub fn lifecycle(&self) -> (r: LifecycleState)
        ensures
            r == spec_lifecycle(self.regs),
    {
        if self.regs.cr.adcal {
            LifecycleState::Calibrating
        } else if self.regs.cr.addis {
            LifecycleState::Disabling
        } else if !self.regs.cr.aden {
            LifecycleState::Disabled
        } else if !self.regs.isr.adrdy {
            LifecycleState::Enabling
        } else {
            LifecycleState::Ready
        }
    }

    /// Returns `true` if the converter is enabled.
    pub fn is_enabled(&self) -> (r: bool)
        ensures
            r == spec_is_enabled(self.regs),
    {
        self.regs.cr.aden
    }

    /// Returns `true` if the converter is disabled: off, with no disable
    /// still in flight.
    pub fn is_disabled(&self) -> (r: bool)
        ensures
            r == spec_is_disabled(self.regs),
    {
        !self.regs.cr.aden && !self.regs.cr.addis
    }

    /// Start the enable procedure without waiting for completion.
    ///
    /// Returns `true` if the caller should wait for the ready flag.
    pub fn start_enable(&mut self) -> (r: bool)
        ensures
            final(self).regs == spec_start_enable(old(self).regs),
            final(self).cal == old(self).cal,
            r == !old(self).regs.cr.aden,
    {
        if !self.regs.cr.aden {
            self.regs.isr.adrdy = false;
            self.regs.cr.aden = true;
            true
        } else {
            false
        }
    }

    /// The modeled peripheral completes a pending enable.
    fn settle_enable(&mut self)
        ensures
            final(self).regs == spec_settle_enable(old(self).regs),
            final(self).cal == old(self).cal,
    {
        if self.regs.cr.aden && !self.regs.isr.adrdy {
            self.regs.isr.adrdy = true;
        }
    }

    /// Enable the converter and poll for completion. A no-op if the
    /// converter is already enabled: nothing in progress is disturbed.
    pub fn enable(&mut self)
        ensures
            final(self).regs == spec_enable(old(self).regs),
            final(self).cal == old(self).cal,
            spec_is_enabled(final(self).regs),
            old(self).regs.cr.aden ==> *final(self) == *old(self),
    {
        if self.start_enable() {
            self.settle_enable();
            while !self.regs.isr.adrdy
                invariant
                    self.regs.isr.adrdy,
                decreases 0int,
            {
            }
        }
    }

    /// Start the disable procedure.
    ///
    /// This first stops any conversion in progress and waits for the stop to
    /// take; then, if the converter is enabled, it requests disable. It does
    /// not wait for the disable itself: the converter may still be on when
    /// this returns.
    pub fn start_disable(&mut self)
        ensures
            final(self).regs == spec_start_disable(old(self).regs),
            final(self).cal == old(self).cal,
            !final(self).regs.cr.adstart,
    {
        if self.regs.cr.adstart {
            self.regs.cr.adstp = true;
            // the modeled peripheral halts the conversion; the in-flight
            // result is discarded
            self.regs.cr.adstart = false;
            self.regs.isr.eoc = false;
            self.regs.cr.adstp = false;
            while self.regs.cr.adstp
                invariant
                    !self.regs.cr.adstp,
                decreases 0int,
            {
            }
        }
        // a disable request takes effect only while the converter is enabled
        if self.regs.cr.aden {
            self.regs.cr.addis = true;
        }
    }

    /// Wait until a requested disable completes.
    ///
    /// This is the wait the caller owes after [`start_disable`]
    /// (Adc::start_disable): disable completion is asynchronous in hardware.
    /// Waiting while the converter is enabled with no disable in flight
    /// would spin forever and is excluded.
    pub fn wait_disabled(&mut self)
        requires
            old(self).regs.cr.addis || !old(self).regs.cr.aden,
        ensures
            final(self).regs == spec_settle_disable(old(self).regs),
            final(self).cal == old(self).cal,
            spec_is_disabled(final(self).regs),
    {
        if self.regs.cr.addis {
            self.regs.cr.aden = false;
            self.regs.cr.addis = false;
        }
        while !self.is_disabled()
            invariant
                spec_is_disabled(self.regs),
            decreases 0int,
        {
        }
    }

    /// Prepare for calibration: disable the converter (stopping any
    /// conversion) and wait for that, then enable the internal voltage
    /// regulator and disable DMA.
    ///
    /// The caller owes the regulator warm-up wait
    /// ([`T_ADCVREG_SETUP_MICROS`]) before triggering calibration.
    pub fn setup_calibrate(&mut self)
        ensures
            final(self).regs == spec_setup_calibrate(old(self).regs),
            final(self).cal == old(self).cal,
    {
        self.start_disable();
        self.wait_disabled();
        // enable the voltage regulator as soon as possible to start the
        // countdown on the regulator setup time
        self.regs.cr.advregen = true;
        // disable DMA per the calibration procedure
        self.regs.dmaen = false;
    }

    /// Request calibration. Requires [`setup_calibrate`]
    /// (Adc::setup_calibrate) and the regulator warm-up wait first.
    pub fn start_calibrate(&mut self)
        ensures
            final(self).regs == spec_start_calibrate(old(self).regs),
            final(self).cal == old(self).cal,
    {
        self.regs.cr.adcal = true;
        self.regs.cr.advregen = true;
    }

    /// The modeled peripheral completes a pending calibration.
    fn settle_calibrate(&mut self)
        ensures
            final(self).regs == spec_settle_calibrate(old(self).regs),
            final(self).cal == old(self).cal,
    {
        if self.regs.cr.adcal {
            self.regs.cr.adcal = false;
            self.regs.calfact = self.regs.cal_offset % 128;
            self.regs.isr.eocal = true;
        }
    }

    /// Calibrate the converter for additional accuracy.
    ///
    /// This disables the converter first if needed, enables the voltage
    /// regulator, waits its warm-up time through the injected delay, then
    /// triggers calibration and busy-waits until the hardware clears the
    /// request bit. The calibration factor is then loaded and applied to
    /// every subsequent sample; it is lost on power removal or peripheral
    /// reset, and the caller must recalibrate after either.
    pub fn calibrate<D: DelayUs>(&mut self, delay: &mut D)
        ensures
            final(self).regs == spec_calibrate(old(self).regs),
            final(self).cal == old(self).cal,
            spec_is_disabled(final(self).regs),
            final(self).regs.calfact == old(self).regs.cal_offset % 128,
    {
        self.setup_calibrate();
        // voltage regulator output is available after the setup time
        delay.delay_us(T_ADCVREG_SETUP_MICROS);
        self.start_calibrate();
        self.settle_calibrate();
        while self.regs.cr.adcal
            invariant
                !self.regs.cr.adcal,
            decreases 0int,
        {
        }
        self.regs.isr.eocal = false;
    }

    /// Configure the channel sequencer to the masked channels and busy-wait
    /// until the hardware confirms it latched the selection.
    ///
    /// Only the 18 implemented channel bits latch; the 2 reserved slots are
    /// always masked out.
    pub fn cfg_ch_seq(&mut self, ch: u32)
        ensures
            final(self).regs == spec_latch_channel(old(self).regs, ch),
            final(self).cal == old(self).cal,
            final(self).regs.chselr == ch & CH_MASK,
            final(self).regs.isr.ccrdy,
    {
        self.set_chsel(ch);
        self.settle_chsel();
        while !self.regs.isr.ccrdy
            invariant
                self.regs.isr.ccrdy,
            decreases 0int,
        {
        }
    }

    /// Write the channel-selection mask register.
    fn set_chsel(&mut self, ch: u32)
        ensures
            final(self).regs == spec_set_chsel(old(self).regs, ch),
            final(self).cal == old(self).cal,
    {
        self.regs.chselr = ch & CH_MASK;
        self.regs.isr.ccrdy = false;
    }

    /// The modeled peripheral latches a pending channel selection.
    fn settle_chsel(&mut self)
        ensures
            final(self).regs == spec_settle_chsel(old(self).regs),
            final(self).cal == old(self).cal,
    {
        if !self.regs.isr.ccrdy {
            self.regs.isr.ccrdy = true;
        }
    }

    /// Request a conversion start.
    ///
    /// The converter must be enabled, and exactly one conversion may be
    /// outstanding: both are caller errors, the first excluded here.
    pub fn start(&mut self)
        requires
            spec_is_enabled(old(self).regs),
        ensures
            final(self).regs == spec_start(old(self).regs),
            final(self).cal == old(self).cal,
    {
        self.regs.cr.adstart = true;
    }

    /// The modeled peripheral finishes an in-progress conversion.
    fn settle_conversion(&mut self)
        ensures
            final(self).regs == spec_settle_conversion(old(self).regs),
            final(self).cal == old(self).cal,
    {
        if self.regs.cr.adstart && !self.regs.isr.eoc {
            let ch = low_channel(self.regs.chselr);
            self.regs.dr = self.regs.vin[ch as usize];
            self.regs.isr.eoc = true;
            self.regs.cr.adstart = false;
        }
    }

    /// Busy-poll end of conversion, read the data register, clear the flag
    /// by write-back, and return the raw sample.
    ///
    /// Waiting with no conversion outstanding and no sample pending would
    /// spin forever and is excluded.
    pub fn data(&mut self) -> (r: u16)
        requires
            old(self).regs.cr.adstart || old(self).regs.isr.eoc,
        ensures
            final(self).regs == spec_read_data(old(self).regs),
            final(self).cal == old(self).cal,
            r == spec_settle_conversion(old(self).regs).dr,
    {
        self.settle_conversion();
        while !self.regs.isr.eoc
            invariant
                self.regs.isr.eoc,
            decreases 0int,
        {
        }
        let d: u16 = self.regs.dr;
        self.regs.isr.eoc = false;
        d
    }

    /// The interrupt handler: runs once per firing of the converter's
    /// interrupt line.
    ///
    /// It snapshots the full interrupt-status word into the mailbox, clears
    /// every status flag and masks every interrupt source (defensively, and
    /// so the line cannot re-fire), then wakes the registered waiter. A
    /// mailbox still holding an unconsumed result means caller misuse (a
    /// second operation outstanding) and is excluded.
    pub fn service_irq(&mut self, mb: &mut Mailbox)
        requires
            old(mb).result == 0,
        ensures
            final(self).regs == spec_irq_drain(old(self).regs),
            final(self).cal == old(self).cal,
            *final(mb) == spec_post(*old(mb), (spec_isr_word(old(self).regs.isr) as u32)),
    {
        let w = isr_word(&self.regs.isr);
        mb.post(w);
        self.regs.isr = Isr {
            adrdy: false,
            eosmp: false,
            eoc: false,
            eos: false,
            ovr: false,
            awd1: false,
            awd2: false,
            awd3: false,
            eocal: false,
            ccrdy: false,
        };
        self.regs.ier = Ier {
            adrdyie: false,
            eosmpie: false,
            eocie: false,
            eosie: false,
            ovrie: false,
            awd1ie: false,
            awd2ie: false,
            awd3ie: false,
            eocalie: false,
            ccrdyie: false,
        };
    }

    /// Enable the converter and wait for the completion interrupt through
    /// the mailbox. A no-op if the converter is already enabled.
    ///
    /// The mailbox must be empty: an unconsumed result would be mistaken for
    /// this operation's completion.
    pub fn aio_enable(&mut self, mb: &mut Mailbox)
        requires
            old(mb).result == 0,
        ensures
            final(self).cal == old(self).cal,
            spec_is_enabled(final(self).regs),
            old(self).regs.cr.aden ==> *final(self) == *old(self) && *final(mb) == *old(mb),
            !old(self).regs.cr.aden ==> final(self).regs == spec_irq_drain(
                spec_settle_enable(spec_start_enable(old(self).regs)),
            ) && *final(mb) == (Mailbox { result: 0, waiter: false }),
    {
        if self.start_enable() {
            self.regs.ier.adrdyie = true;
            // the task's first poll finds the mailbox empty and registers
            // itself as the waiter
            let _ = poll(mb);
            self.settle_enable();
            self.service_irq(mb);
            let _ = poll(mb);
        }
    }

    /// Configure the channel sequencer and wait for the latch-confirmation
    /// interrupt through the mailbox.
    pub fn aio_cfg_ch_seq(&mut self, ch: u32, mb: &mut Mailbox)
        requires
            old(mb).result == 0,
        ensures
            final(self).regs == spec_aio_latch_channel(old(self).regs, ch),
            final(self).cal == old(self).cal,
            final(self).regs.chselr == ch & CH_MASK,
            *final(mb) == (Mailbox { result: 0, waiter: false }),
    {
        self.set_chsel(ch);
        self.regs.ier.ccrdyie = true;
        // the task's first poll finds the mailbox empty and registers
        // itself as the waiter
        let _ = poll(mb);
        self.settle_chsel();
        self.service_irq(mb);
        let _ = poll(mb);
    }

    /// Wait for the end-of-conversion interrupt through the mailbox, then
    /// read the data register.
    ///
    /// No separate flag clear is needed: the interrupt handler drains all
    /// status bits as part of the handoff.
    pub fn aio_data(&mut self, mb: &mut Mailbox) -> (r: u16)
        requires
            old(self).regs.cr.adstart || old(self).regs.isr.eoc,
            old(mb).result == 0,
        ensures
            final(self).regs == spec_irq_drain(spec_settle_conversion(old(self).regs)),
            final(self).cal == old(self).cal,
            r == spec_settle_conversion(old(self).regs).dr,
            *final(mb) == (Mailbox { result: 0, waiter: false }),
    {
        self.regs.ier.eocie = true;
        // the task's first poll finds the mailbox empty and registers
        // itself as the waiter
        let _ = poll(mb);
        self.settle_conversion();
        self.service_irq(mb);
        let _ = poll(mb);
        self.regs.dr
    }

    /// Calibrate the converter, waiting for the end-of-calibration interrupt
    /// through the mailbox instead of busy-polling.
    ///
    /// Same effect as [`calibrate`](Adc::calibrate), except that the handler
    /// drains every status flag on completion.
    pub fn aio_calibrate<D: DelayUs>(&mut self, delay: &mut D, mb: &mut Mailbox)
        requires
            old(mb).result == 0,
        ensures
            final(self).regs == spec_irq_drain(
                spec_settle_calibrate(spec_start_calibrate(spec_setup_calibrate(old(self).regs))),
            ),
            final(self).cal == old(self).cal,
            spec_is_disabled(final(self).regs),
            final(self).regs.calfact == old(self).regs.cal_offset % 128,
            *final(mb) == (Mailbox { result: 0, waiter: false }),
    {
        self.setup_calibrate();
        // voltage regulator output is available after the setup time
        delay.delay_us(T_ADCVREG_SETUP_MICROS);
        self.regs.ier.eocalie = true;
        // the task's first poll finds the mailbox empty and registers
        // itself as the waiter
        let _ = poll(mb);
        self.start_calibrate();
        self.settle_calibrate();
        self.service_irq(mb);
        let _ = poll(mb);
    }

    /// Enable the temperature sensor.
    ///
    /// The caller owes the sensor's startup wait before samples are
    /// accurate.
    pub fn enable_tsen(&mut self)
        ensures
            *final(self) == (Adc {
                regs: (AdcRegs {
                    ccr: (Ccr { tsen: true, ..old(self).regs.ccr }),
                    ..old(self).regs
                }),
                ..*old(self)
            }),
    {
        self.regs.ccr.tsen = true;
    }

    /// Disable the temperature sensor.
    pub fn disable_tsen(&mut self)
        ensures
            *final(self) == (Adc {
                regs: (AdcRegs {
                    ccr: (Ccr { tsen: false, ..old(self).regs.ccr }),
                    ..old(self).regs
                }),
                ..*old(self)
            }),
    {
        self.regs.ccr.tsen = false;
    }

    /// Returns `true` if the temperature sensor is enabled.
    pub fn is_tsen_enabled(&mut self) -> (r: bool)
        ensures
            *final(self) == *old(self),
            r == old(self).regs.ccr.tsen,
    {
        self.regs.ccr.tsen
    }

    /// Enable the internal voltage reference.
    pub fn enable_vref(&mut self)
        ensures
            *final(self) == (Adc {
                regs: (AdcRegs {
                    ccr: (Ccr { vrefen: true, ..old(self).regs.ccr }),
                    ..old(self).regs
                }),
                ..*old(self)
            }),
    {
        self.regs.ccr.vrefen = true;
    }

    /// Disable the internal voltage reference.
    pub fn disable_vref(&mut self)
        ensures
            *final(self) == (Adc {
                regs: (AdcRegs {
                    ccr: (Ccr { vrefen: false, ..old(self).regs.ccr }),
                    ..old(self).regs
                }),
                ..*old(self)
            }),
    {
        self.regs.ccr.vrefen = false;
    }

    /// Returns `true` if the internal voltage reference is enabled.
    pub fn is_vref_enabled(&mut self) -> (r: bool)
        ensures
            *final(self) == *old(self),
            r == old(self).regs.ccr.vrefen,
    {
        self.regs.ccr.vrefen
    }

    /// Enable the battery-voltage bridge divider.
    ///
    /// To prevent unwanted battery consumption, enable the divider only when
    /// needed for a conversion.
    pub fn enable_vbat(&mut self)
        ensures
            *final(self) == (Adc {
                regs: (AdcRegs {
                    ccr: (Ccr { vbaten: true, ..old(self).regs.ccr }),
                    ..old(self).regs
                }),
                ..*old(self)
            }),
    {
        self.regs.ccr.vbaten = true;
    }

    /// Disable the battery-voltage bridge divider.
    pub fn disable_vbat(&mut self)
        ensures
            *final(self) == (Adc {
                regs: (AdcRegs {
                    ccr: (Ccr { vbaten: false, ..old(self).regs.ccr }),
                    ..old(self).regs
                }),
                ..*old(self)
            }),
    {
        self.regs.ccr.vbaten = false;
    }

    /// Returns `true` if the battery-voltage bridge divider is enabled.
    pub fn is_vbat_enabled(&self) -> (r: bool)
        ensures
            r == self.regs.ccr.vbaten,
    {
        self.regs.ccr.vbaten
    }

    /// Read the internal voltage reference: select its channel, convert,
    /// return the raw sample.
    ///
    /// The converter and the reference must both be enabled.
    pub fn vref(&mut self) -> (r: u16)
        requires
            spec_is_enabled(old(self).regs),
            old(self).regs.ccr.vrefen,
        ensures
            final(self).regs == spec_blocking_read(old(self).regs, Ch::Vref.spec_mask()),
            final(self).cal == old(self).cal,
            r == spec_blocking_sample(old(self).regs, Ch::Vref.spec_mask()),
            !old(self).regs.isr.eoc ==> r == old(self).regs.vin[13],
    {
        proof {
            lemma_low_channel_of_mask(Ch::Vref);
        }
        self.cfg_ch_seq(Ch::Vref.mask());
        self.start();
        self.data()
    }

    /// Read the internal voltage reference, waiting on the mailbox instead
    /// of busy-polling.
    pub fn aio_vref(&mut self, mb: &mut Mailbox) -> (r: u16)
        requires
            spec_is_enabled(old(self).regs),
            old(self).regs.ccr.vrefen,
            old(mb).result == 0,
        ensures
            final(self).regs == spec_async_read(old(self).regs, Ch::Vref.spec_mask()),
            final(self).cal == old(self).cal,
            r == spec_async_sample(old(self).regs, Ch::Vref.spec_mask()),
            r == old(self).regs.vin[13],
            *final(mb) == (Mailbox { result: 0, waiter: false }),
    {
        proof {
            lemma_low_channel_of_mask(Ch::Vref);
        }
        self.aio_cfg_ch_seq(Ch::Vref.mask(), mb);
        self.start();
        self.aio_data(mb)
    }

    /// Sample the digital-to-analog converter's loopback output.
    ///
    /// The DAC must be configured to output to chip peripherals for this to
    /// read anything meaningful.
    pub fn dac(&mut self) -> (r: u16)
        requires
            spec_is_enabled(old(self).regs),
        ensures
            final(self).regs == spec_blocking_read(old(self).regs, Ch::Dac.spec_mask()),
            final(self).cal == old(self).cal,
            r == spec_blocking_sample(old(self).regs, Ch::Dac.spec_mask()),
            !old(self).regs.isr.eoc ==> r == old(self).regs.vin[17],
    {
        proof {
            lemma_low_channel_of_mask(Ch::Dac);
        }
        self.cfg_ch_seq(Ch::Dac.mask());
        self.start();
        self.data()
    }

    /// Sample a pin-mapped analog input channel.
    pub fn pin(&mut self, ch: Ch) -> (r: u16)
        requires
            spec_is_enabled(old(self).regs),
            ch.spec_is_pin(),
        ensures
            final(self).regs == spec_blocking_read(old(self).regs, ch.spec_mask()),
            final(self).cal == old(self).cal,
            r == spec_blocking_sample(old(self).regs, ch.spec_mask()),
            !old(self).regs.isr.eoc ==> r == old(self).regs.vin[ch.spec_idx() as int],
    {
        proof {
            lemma_low_channel_of_mask(ch);
        }
        self.cfg_ch_seq(ch.mask());
        self.start();
        self.data()
    }

    /// Sample the battery-voltage channel and return the raw converter code.
    ///
    /// The channel is wired to a bridge divider: the converted value is a
    /// third of the battery voltage, and the driver does **not** scale it
    /// back; that is the caller's responsibility.
    pub fn vbat(&mut self) -> (r: u16)
        requires
            spec_is_enabled(old(self).regs),
            old(self).regs.ccr.vbaten,
        ensures
            final(self).regs == spec_blocking_read(old(self).regs, Ch::Vbat.spec_mask()),
            final(self).cal == old(self).cal,
            r == spec_blocking_sample(old(self).regs, Ch::Vbat.spec_mask()),
            !old(self).regs.isr.eoc ==> r == old(self).regs.vin[14],
    {
        proof {
            lemma_low_channel_of_mask(Ch::Vbat);
        }
        self.cfg_ch_seq(Ch::Vbat.mask());
        self.start();
        self.data()
    }

    /// Get the junction temperature, as an exact fraction of degrees
    /// Celsius.
    ///
    /// The raw sample is corrected by adding the 7-bit calibration factor
    /// with saturating addition; subtractions wrap at the hardware counter
    /// width. The slope between the two factory anchors is kept as an exact
    /// integer ratio. The two anchors must differ, the converter and the
    /// temperature sensor must be enabled, and the caller owes the sensor
    /// startup wait and a long enough sample time.
    pub fn temperature(&mut self) -> (r: crate::ratio::Ratio)
        requires
            spec_is_enabled(old(self).regs),
            old(self).regs.ccr.tsen,
            old(self).cal.ts_cal2 != old(self).cal.ts_cal1,
        ensures
            final(self).regs == spec_blocking_read(old(self).regs, Ch::Vts.spec_mask()),
            final(self).cal == old(self).cal,
            r.well_formed(),
            r == spec_temperature(
                old(self).cal,
                spec_blocking_sample(old(self).regs, Ch::Vts.spec_mask()),
                old(self).regs.calfact,
            ),
    {
        proof {
            lemma_low_channel_of_mask(Ch::Vts);
        }
        self.cfg_ch_seq(Ch::Vts.mask());
        self.start();
        let c1: u16 = self.cal.ts_cal1;
        let c2: u16 = self.cal.ts_cal2;
        let calfact: u8 = self.regs.calfact;
        let sample: u16 = self.data();
        let ts_data: u16 = sample.saturating_add(calfact as u16);
        let x: i16 = u16_as_i16(ts_data.wrapping_sub(c1));
        let delta: i16 = u16_as_i16(c2.wrapping_sub(c1));
        crate::ratio::Ratio::new(100 * (x as i32) + 30 * (delta as i32), delta as i32)
    }

    /// Get the junction temperature, waiting on the mailbox instead of
    /// busy-polling. Same transform as [`temperature`](Adc::temperature).
    pub fn aio_temperature(&mut self, mb: &mut Mailbox) -> (r: crate::ratio::Ratio)
        requires
            spec_is_enabled(old(self).regs),
            old(self).regs.ccr.tsen,
            old(self).cal.ts_cal2 != old(self).cal.ts_cal1,
            old(mb).result == 0,
        ensures
            final(self).regs == spec_async_read(old(self).regs, Ch::Vts.spec_mask()),
            final(self).cal == old(self).cal,
            r.well_formed(),
            r == spec_temperature(
                old(self).cal,
                spec_async_sample(old(self).regs, Ch::Vts.spec_mask()),
                old(self).regs.calfact,
            ),
            *final(mb) == (Mailbox { result: 0, waiter: false }),
    {
        proof {
            lemma_low_channel_of_mask(Ch::Vts);
        }
        self.aio_cfg_ch_seq(Ch::Vts.mask(), mb);
        self.start();
        let c1: u16 = self.cal.ts_cal1;
        let c2: u16 = self.cal.ts_cal2;
        let calfact: u8 = self.regs.calfact;
        let sample: u16 = self.aio_data(mb);
        let ts_data: u16 = sample.saturating_add(calfact as u16);
        let x: i16 = u16_as_i16(ts_data.wrapping_sub(c1));
        let delta: i16 = u16_as_i16(c2.wrapping_sub(c1));
        crate::ratio::Ratio::new(100 * (x as i32) + 30 * (delta as i32), delta as i32)
    }
}

/// A 16-bit hardware count reinterpreted as two's complement.
pub open spec fn spec_as_i16(v: u16) -> int {
    if v < 0x8000 {
        v as int
    } else {
        v - 0x10000
    }
}

/// Reinterpret a 16-bit count as two's complement, executable form.
fn u16_as_i16(v: u16) -> (r: i16)
    ensures
        r as int == spec_as_i16(v),
{
    if v < 0x8000 {
        v as i16
    } else {
        ((v as i32) - 0x10000) as i16
    }
}

/// The denominator of the temperature transform: the wrapped difference of
/// the two factory anchors, at the hardware counter width.
pub open spec fn spec_temp_denom(cal: FactoryCal) -> int {
    spec_as_i16(cal.ts_cal2.wrapping_sub(cal.ts_cal1))
}

/// A raw sample corrected by the calibration factor, saturating at the
/// counter's maximum.
pub open spec fn spec_corrected_sample(sample: u16, calfact: u8) -> u16 {
    sample.saturating_add(calfact as u16)
}

/// The numerator of the temperature transform: the fraction
/// `numer / denom` equals `100 * (corrected - anchor1) / (anchor2 - anchor1)
/// + 30` exactly, all differences wrapped at the counter width.
pub open spec fn spec_temp_numer(cal: FactoryCal, sample: u16, calfact: u8) -> int {
    100 * spec_as_i16(spec_corrected_sample(sample, calfact).wrapping_sub(cal.ts_cal1)) + 30
        * spec_temp_denom(cal)
}

/// The exact temperature fraction a given calibration, raw sample and
/// calibration factor denote, in degrees Celsius.
pub open spec fn spec_temperature(
    cal: FactoryCal,
    sample: u16,
    calfact: u8,
) -> crate::ratio::Ratio {
    crate::ratio::Ratio {
        numer: spec_temp_numer(cal, sample, calfact) as i32,
        denom: spec_temp_denom(cal) as i32,
    }
}

/// The channel a one-channel mask selects is that channel's own slot.
proof fn lemma_low_channel_of_mask(ch: Ch)
    ensures
        spec_low_channel(ch.spec_mask() & CH_MASK) == ch.spec_idx(),
{
    match ch {
        Ch::In0 => assert(spec_low_channel((1u32 << 0u32) & 0x27FFFu32) == 0) by (bit_vector),
        Ch::In1 => assert(spec_low_channel((1u32 << 1u32) & 0x27FFFu32) == 1) by (bit_vector),
        Ch::In2 => assert(spec_low_channel((1u32 << 2u32) & 0x27FFFu32) == 2) by (bit_vector),
        Ch::In3 => assert(spec_low_channel((1u32 << 3u32) & 0x27FFFu32) == 3) by (bit_vector),
        Ch::In4 => assert(spec_low_channel((1u32 << 4u32) & 0x27FFFu32) == 4) by (bit_vector),
        Ch::In5 => assert(spec_low_channel((1u32 << 5u32) & 0x27FFFu32) == 5) by (bit_vector),
        Ch::In6 => assert(spec_low_channel((1u32 << 6u32) & 0x27FFFu32) == 6) by (bit_vector),
        Ch::In7 => assert(spec_low_channel((1u32 << 7u32) & 0x27FFFu32) == 7) by (bit_vector),
        Ch::In8 => assert(spec_low_channel((1u32 << 8u32) & 0x27FFFu32) == 8) by (bit_vector),
        Ch::In9 => assert(spec_low_channel((1u32 << 9u32) & 0x27FFFu32) == 9) by (bit_vector),
        Ch::In10 => assert(spec_low_channel((1u32 << 10u32) & 0x27FFFu32) == 10) by (bit_vector),
        Ch::In11 => assert(spec_low_channel((1u32 << 11u32) & 0x27FFFu32) == 11) by (bit_vector),
        Ch::Vts => assert(spec_low_channel((1u32 << 12u32) & 0x27FFFu32) == 12) by (bit_vector),
        Ch::Vref => assert(spec_low_channel((1u32 << 13u32) & 0x27FFFu32) == 13) by (bit_vector),
        Ch::Vbat => assert(spec_low_channel((1u32 << 14u32) & 0x27FFFu32) == 14) by (bit_vector),
        Ch::Dac => assert(spec_low_channel((1u32 << 17u32) & 0x27FFFu32) == 17) by (bit_vector),
    }
}

/// Law: the interrupt-status word is 0 exactly when every status flag is
/// clear, so 0 can serve as the mailbox's empty sentinel: a genuine firing
/// always posts a non-zero word.
pub proof fn lemma_isr_word_zero_means_clear(i: Isr)
    ensures
        spec_isr_word(i) == 0 <==> i == Isr::spec_clear(),
        0 <= spec_isr_word(i) < 0x10000,
{
}

/// Law: enabling is idempotent. One enable leaves the converter enabled; a
/// second enable is a no-op and disturbs nothing, in-progress operations
/// included; an already enabled converter is left exactly as it was.
pub proof fn lemma_enable_idempotent(r: AdcRegs)
    ensures
        spec_is_enabled(spec_enable(r)),
        spec_enable(spec_enable(r)) == spec_enable(r),
        spec_is_enabled(r) ==> spec_enable(r) == r,
{
}

/// Law: a disable issued while a conversion is active first halts the
/// conversion, then disables. Afterward the converter reads as disabled and
/// no stray end-of-conversion flag remains set.
pub proof fn lemma_disable_mid_conversion(r: AdcRegs)
    requires
        r.cr.adstart,
    ensures
        !spec_start_disable(r).cr.adstart,
        spec_is_disabled(spec_settle_disable(spec_start_disable(r))),
        !spec_settle_disable(spec_start_disable(r)).isr.eoc,
{
}

/// Law: selecting mask `m` latches exactly `m` restricted to the 18 valid
/// channel bits. The two reserved slots never latch, whatever the input,
/// and a mask of valid bits comes back unchanged.
pub proof fn lemma_channel_mask_round_trip(r: AdcRegs, m: u32)
    ensures
        spec_latch_channel(r, m).chselr == m & CH_MASK,
        spec_latch_channel(r, m).chselr & 0x18000u32 == 0,
        m & !CH_MASK == 0 ==> spec_latch_channel(r, m).chselr == m,
{
    assert((m & 0x27FFFu32) & 0x18000u32 == 0) by (bit_vector);
    assert(m & !0x27FFFu32 == 0 ==> (m & 0x27FFFu32) == m) by (bit_vector);
}

/// Law: for the same calibration state, channel and analog levels, the
/// blocking and the interrupt-driven read paths return the same raw sample,
/// provided no stale end-of-conversion flag is pending.
pub proof fn lemma_blocking_async_equivalence(r1: AdcRegs, r2: AdcRegs, m: u32)
    requires
        r1.vin == r2.vin,
        r1.calfact == r2.calfact,
        !r1.isr.eoc,
        !r2.isr.eoc,
    ensures
        spec_blocking_sample(r1, m) == spec_async_sample(r2, m),
{
}

/// Law: the temperature transform is linear through the two factory
/// anchors. A corrected sample at the first anchor denotes exactly 30
/// degrees, one at the second anchor exactly 130, and one halfway between
/// them exactly 80.
pub proof fn lemma_temperature_anchors(cal: FactoryCal, calfact: u8, s1: u16, s2: u16, s3: u16)
    requires
        cal.ts_cal2 != cal.ts_cal1,
        spec_corrected_sample(s1, calfact) == cal.ts_cal1,
        spec_corrected_sample(s2, calfact) == cal.ts_cal2,
        2 * spec_as_i16(spec_corrected_sample(s3, calfact).wrapping_sub(cal.ts_cal1))
            == spec_temp_denom(cal),
    ensures
        spec_temp_denom(cal) != 0,
        spec_temperature(cal, s1, calfact).well_formed(),
        spec_temperature(cal, s1, calfact).is_int(30),
        spec_temperature(cal, s1, calfact).spec_to_integer() == 30,
        spec_temperature(cal, s2, calfact).is_int(130),
        spec_temperature(cal, s2, calfact).spec_to_integer() == 130,
        spec_temperature(cal, s3, calfact).is_int(80),
        spec_temperature(cal, s3, calfact).spec_to_integer() == 80,
{
    crate::ratio::lemma_is_int_to_integer(spec_temperature(cal, s1, calfact), 30);
    crate::ratio::lemma_is_int_to_integer(spec_temperature(cal, s2, calfact), 130);
    crate::ratio::lemma_is_int_to_integer(spec_temperature(cal, s3, calfact), 80);
}

} // verus!
