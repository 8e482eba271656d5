use stm32wl_hal::adc::{
    poll, Adc, AdcRegs, Ccr, Ch, Clk, Cr, DelayUs, FactoryCal, Ier, Isr, LifecycleState, Mailbox,
    Rcc, Ts, CH_MASK,
};

/// A delay provider that returns at once: the model needs no real time.
struct NoDelay;

impl DelayUs for NoDelay {
    fn delay_us(&mut self, _us: u8) {}
}

fn reset_regs() -> AdcRegs {
    AdcRegs {
        isr: Isr {
            adrdy: false,
            eosmp: false,
            eoc: false,
            eos: false,
            ovr: false,
            awd1: false,
            awd2: false,
            awd3: false,
            eocal: false,
            ccrdy: false,
        },
        ier: Ier {
            adrdyie: false,
            eosmpie: false,
            eocie: false,
            eosie: false,
            ovrie: false,
            awd1ie: false,
            awd2ie: false,
            awd3ie: false,
            eocalie: false,
            ccrdyie: false,
        },
        cr: Cr {
            aden: false,
            addis: false,
            adstart: false,
            adstp: false,
            advregen: false,
            adcal: false,
        },
        dmaen: false,
        ckmode: 0,
        smpr: 0,
        chselr: 0,
        dr: 0,
        calfact: 0,
        ccr: Ccr {
            tsen: false,
            vrefen: false,
            vbaten: false,
        },
        vin: [0; 18],
        cal_offset: 0,
    }
}

fn factory_cal() -> FactoryCal {
    FactoryCal {
        ts_cal1: 922,
        ts_cal2: 1723,
        vref_cal: 1600,
    }
}

fn new_adc() -> Adc {
    let mut rcc = Rcc {
        adc_clock_enabled: false,
        adcsel: 0,
    };
    Adc::new(reset_regs(), Clk::RccHsi, &mut rcc, factory_cal())
}

#[test]
fn channel_masks() {
    assert_eq!(Ch::In0.mask(), 0x001);
    assert_eq!(Ch::In8.mask(), 0x100);
    assert_eq!(Ch::Vts.mask(), 0x1000);
    assert_eq!(Ch::Vref.mask(), 0x2000);
    assert_eq!(Ch::Vbat.mask(), 0x4000);
    assert_eq!(Ch::Dac.mask(), 0x20000);
}

#[test]
fn clk_fields() {
    assert_eq!(Clk::RccHsi.ckmode(), 0);
    assert_eq!(Clk::PClkDiv2.ckmode(), 1);
    assert_eq!(Clk::PClkDiv4.ckmode(), 2);
    assert_eq!(Clk::PClk.ckmode(), 3);
    assert_eq!(Clk::RccHsi.adcsel(), 1);
    assert_eq!(Clk::RccPllP.adcsel(), 2);
    assert_eq!(Clk::RccSysClk.adcsel(), 3);
    assert_eq!(Clk::PClk.adcsel(), 0);
}

#[test]
fn sample_time_default_and_bits() {
    assert_eq!(Ts::MAX, Ts::Cyc160);
    assert_eq!(Ts::MIN, Ts::Cyc1);
    assert_eq!(Ts::default(), Ts::Cyc1);
    assert_eq!(Ts::Cyc1.bits(), 0);
    assert_eq!(Ts::Cyc160.bits(), 7);
}

#[test]
fn new_selects_clock_and_resets() {
    let mut rcc = Rcc {
        adc_clock_enabled: false,
        adcsel: 0,
    };
    let adc = Adc::new(reset_regs(), Clk::RccSysClk, &mut rcc, factory_cal());
    assert!(rcc.adc_clock_enabled);
    assert_eq!(rcc.adcsel, 3);
    assert_eq!(adc.regs.ckmode, 0);
    assert!(adc.is_disabled());
    assert!(!adc.is_enabled());
}

#[test]
fn free_returns_register_file() {
    let adc = new_adc();
    let regs = adc.regs;
    assert_eq!(adc.free(), regs);
}

#[test]
fn factory_anchors_are_exposed() {
    let adc = new_adc();
    assert_eq!(adc.ts_cal(), (922, 1723));
    assert_eq!(adc.vref_cal(), 1600);
}

#[test]
fn enable_is_idempotent() {
    let mut adc = new_adc();
    assert!(!adc.is_enabled());
    adc.enable();
    assert!(adc.is_enabled());
    let snapshot = adc;
    adc.enable();
    assert_eq!(adc, snapshot);

    // the second enable does not disturb an in-progress operation
    adc.cfg_ch_seq(Ch::Vref.mask());
    adc.start();
    assert!(adc.regs.cr.adstart);
    adc.enable();
    assert!(adc.regs.cr.adstart);
    assert_eq!(adc.regs.chselr, Ch::Vref.mask());
}

#[test]
fn disable_mid_conversion() {
    let mut adc = new_adc();
    adc.enable();
    adc.cfg_ch_seq(Ch::Vref.mask());
    adc.start();
    assert!(adc.regs.cr.adstart);
    adc.start_disable();
    assert!(!adc.regs.cr.adstart);
    adc.wait_disabled();
    assert!(adc.is_disabled());
    assert!(!adc.regs.isr.eoc);
}

#[test]
fn channel_mask_round_trip() {
    let mut adc = new_adc();
    // every bit set: only the 18 valid channel bits latch, and the two
    // reserved slots are masked out
    adc.cfg_ch_seq(0xFFFF_FFFF);
    assert_eq!(adc.regs.chselr, CH_MASK);
    assert_eq!(adc.regs.chselr & 0x18000, 0);
    // a mask of valid bits comes back exactly
    let m = Ch::In3.mask() | Ch::Vbat.mask() | Ch::Dac.mask();
    adc.cfg_ch_seq(m);
    assert_eq!(adc.regs.chselr, m);
    // the reserved slots alone latch nothing
    adc.cfg_ch_seq(0x18000);
    assert_eq!(adc.regs.chselr, 0);
}

#[test]
fn set_sample_times_word() {
    let mut adc = new_adc();
    adc.set_sample_times(Ch::In0.mask() | Ch::In1.mask(), Ts::Cyc160, Ts::Cyc39);
    assert_eq!(adc.regs.smpr, (0x3 << 8) | (5 << 4) | 7);
    adc.set_max_sample_time();
    assert_eq!(adc.regs.smpr, (7 << 4) | 7);
}

#[test]
fn calibrate_loads_offset() {
    let mut adc = new_adc();
    adc.regs.cal_offset = 200;
    adc.enable();
    let mut delay = NoDelay;
    adc.calibrate(&mut delay);
    assert!(adc.is_disabled());
    assert_eq!(adc.regs.calfact, 200 % 128);
    assert!(adc.regs.cr.advregen);
    assert!(!adc.regs.cr.adcal);
    assert!(!adc.regs.isr.eocal);
}

#[test]
fn aio_calibrate_matches_blocking_factor() {
    let mut blocking = new_adc();
    blocking.regs.cal_offset = 77;
    let mut interrupt = blocking;
    let mut delay = NoDelay;
    blocking.calibrate(&mut delay);
    let mut mb = Mailbox::new();
    interrupt.aio_calibrate(&mut delay, &mut mb);
    assert_eq!(blocking.regs.calfact, interrupt.regs.calfact);
    assert!(interrupt.is_disabled());
    assert_eq!(mb.result, 0);
}

#[test]
fn temperature_at_anchors() {
    // at the first anchor the result is exactly 30 degrees
    let mut adc = new_adc();
    adc.enable();
    adc.enable_tsen();
    adc.regs.vin[12] = 922;
    let t = adc.temperature();
    assert_eq!(t.denom(), 1723 - 922);
    assert_eq!(t.numer(), 30 * (1723 - 922));
    assert_eq!(t.to_integer(), 30);

    // at the second anchor, exactly 130 degrees
    let mut adc = new_adc();
    adc.enable();
    adc.enable_tsen();
    adc.regs.vin[12] = 1723;
    let t = adc.temperature();
    assert_eq!(t.numer(), 130 * t.denom());
    assert_eq!(t.to_integer(), 130);
}

#[test]
fn temperature_halfway() {
    // an even span makes the midpoint exact: halfway reads exactly 80
    let mut rcc = Rcc {
        adc_clock_enabled: false,
        adcsel: 0,
    };
    let cal = FactoryCal {
        ts_cal1: 900,
        ts_cal2: 1700,
        vref_cal: 1600,
    };
    let mut adc = Adc::new(reset_regs(), Clk::RccHsi, &mut rcc, cal);
    adc.enable();
    adc.enable_tsen();
    adc.regs.vin[12] = 1300;
    let t = adc.temperature();
    assert_eq!(t.numer(), 80 * t.denom());
    assert_eq!(t.to_integer(), 80);

    // with the illustrative anchors the span is odd; the sample just above
    // the midpoint rounds to 80
    let mut adc = new_adc();
    adc.enable();
    adc.enable_tsen();
    adc.regs.vin[12] = 1323;
    assert_eq!(adc.temperature().to_integer(), 80);
}

#[test]
fn temperature_wraps_below_the_anchor() {
    // a corrected sample below the first anchor: the subtraction wraps at
    // the counter width instead of faulting, and the result drops below 30
    let mut adc = new_adc();
    adc.enable();
    adc.enable_tsen();
    adc.regs.vin[12] = 900;
    let t = adc.temperature();
    assert_eq!(t.numer(), 100 * (900 - 922) + 30 * 801);
    assert_eq!(t.denom(), 801);
    assert_eq!(t.to_integer(), 27);
}

#[test]
fn temperature_correction_saturates() {
    // the calibration correction saturates at the counter's maximum
    let mut adc = new_adc();
    adc.regs.cal_offset = 100;
    adc.enable();
    let mut delay = NoDelay;
    adc.calibrate(&mut delay);
    adc.enable();
    adc.enable_tsen();
    adc.regs.vin[12] = u16::MAX - 10;
    let t = adc.temperature();
    // corrected sample saturates to 65535, which wraps to -923 against the
    // anchor at the 16-bit counter width
    assert_eq!(t.numer(), 100 * -923 + 30 * 801);
    assert_eq!(t.to_integer(), -85);
}

#[test]
fn temperature_applies_calibration_factor() {
    let mut adc = new_adc();
    adc.regs.cal_offset = 22;
    adc.enable();
    let mut delay = NoDelay;
    adc.calibrate(&mut delay);
    adc.enable();
    adc.enable_tsen();
    // the corrected sample is the raw sample plus the calibration factor
    adc.regs.vin[12] = 922 - 22;
    let t = adc.temperature();
    assert_eq!(t.to_integer(), 30);
}

#[test]
fn vref_reads_reference_channel() {
    let mut adc = new_adc();
    adc.enable();
    adc.enable_vref();
    assert!(adc.is_vref_enabled());
    adc.regs.vin[13] = 1605;
    assert_eq!(adc.vref(), 1605);
    adc.disable_vref();
    assert!(!adc.is_vref_enabled());
}

#[test]
fn vbat_returns_raw_code() {
    // the battery channel is behind a divide-by-3 bridge; the driver hands
    // back the raw converter code and never rescales it
    let mut adc = new_adc();
    adc.enable();
    adc.enable_vbat();
    assert!(adc.is_vbat_enabled());
    adc.regs.vin[14] = 1241;
    assert_eq!(adc.vbat(), 1241);
    adc.disable_vbat();
    assert!(!adc.is_vbat_enabled());
}

#[test]
fn dac_and_pin_channels() {
    let mut adc = new_adc();
    adc.enable();
    adc.regs.vin[17] = 512;
    assert_eq!(adc.dac(), 512);
    adc.regs.vin[4] = 333;
    assert_eq!(adc.pin(Ch::In4), 333);
}

#[test]
fn tsen_toggle() {
    let mut adc = new_adc();
    assert!(!adc.is_tsen_enabled());
    adc.enable_tsen();
    assert!(adc.is_tsen_enabled());
    adc.disable_tsen();
    assert!(!adc.is_tsen_enabled());
}

#[test]
fn mailbox_pending_result_is_delivered() {
    // a result posted before any waiter is registered is delivered on the
    // very next poll
    let mut mb = Mailbox::new();
    mb.post(0x2000);
    assert_eq!(poll(&mut mb), Some(0x2000));
    assert_eq!(mb.result, 0);
}

#[test]
fn mailbox_last_write_wins() {
    // posting twice without an intervening poll is caller misuse: the
    // second word is the one delivered, and nothing stalls
    let mut mb = Mailbox::new();
    mb.post(0x4);
    mb.post(0x1000);
    assert_eq!(poll(&mut mb), Some(0x1000));
}

#[test]
fn mailbox_empty_poll_registers_waiter() {
    let mut mb = Mailbox::new();
    assert_eq!(poll(&mut mb), None);
    assert!(mb.waiter);
    mb.post(0x4);
    assert!(!mb.waiter);
    assert_eq!(poll(&mut mb), Some(0x4));
}

#[test]
fn service_irq_posts_status_word_and_drains() {
    let mut adc = new_adc();
    adc.regs.isr.eoc = true;
    adc.regs.isr.ccrdy = true;
    adc.regs.ier.eocie = true;
    let mut mb = Mailbox::new();
    adc.service_irq(&mut mb);
    assert_eq!(mb.result, 0x4 | 0x2000);
    assert!(!adc.regs.isr.eoc);
    assert!(!adc.regs.isr.ccrdy);
    assert!(!adc.regs.ier.eocie);
}

#[test]
fn blocking_and_async_reads_agree() {
    // same calibration state, channel and analog level: both wait
    // strategies return the same raw sample
    let mut blocking = new_adc();
    blocking.enable();
    blocking.enable_vref();
    blocking.regs.vin[13] = 1610;
    let mut interrupt = blocking;

    let direct = blocking.vref();
    let mut mb = Mailbox::new();
    let via_irq = interrupt.aio_vref(&mut mb);
    assert_eq!(direct, via_irq);
    assert_eq!(direct, 1610);

    let mut blocking = new_adc();
    blocking.enable();
    blocking.enable_tsen();
    blocking.regs.vin[12] = 1000;
    let mut interrupt = blocking;
    let t1 = blocking.temperature();
    let t2 = interrupt.aio_temperature(&mut mb);
    assert_eq!(t1.numer(), t2.numer());
    assert_eq!(t1.denom(), t2.denom());
}

#[test]
fn aio_enable_is_idempotent_too() {
    let mut adc = new_adc();
    let mut mb = Mailbox::new();
    adc.aio_enable(&mut mb);
    assert!(adc.is_enabled());
    assert_eq!(mb.result, 0);
    let snapshot = adc;
    adc.aio_enable(&mut mb);
    assert_eq!(adc, snapshot);
}

#[test]
fn lifecycle_is_derived_from_the_bits() {
    let mut adc = new_adc();
    assert_eq!(adc.lifecycle(), LifecycleState::Disabled);
    adc.enable();
    assert_eq!(adc.lifecycle(), LifecycleState::Ready);
    adc.start_disable();
    assert_eq!(adc.lifecycle(), LifecycleState::Disabling);
    adc.wait_disabled();
    assert_eq!(adc.lifecycle(), LifecycleState::Disabled);
    adc.setup_calibrate();
    adc.start_calibrate();
    assert_eq!(adc.lifecycle(), LifecycleState::Calibrating);

    // an enable in flight, its ready flag not yet risen
    let mut adc = new_adc();
    adc.start_enable();
    assert_eq!(adc.lifecycle(), LifecycleState::Enabling);
}
