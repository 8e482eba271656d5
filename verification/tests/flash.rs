use stm32wl_hal::flash::{
    flash_end, num_pages, Error, Flash, FlashRegs, Page, BSY, EOP, FASTERR, FLASH_START, MISSERR,
    OPERR, PESD, PGAERR, PGSERR, PROGERR, RDERR, SIZERR, WRPERR,
};

fn idle_regs() -> FlashRegs {
    FlashRegs {
        sr: 0,
        locked: true,
        pg: false,
        fstpg: false,
        per: false,
        mer: false,
        pnb: 0,
        strt: false,
    }
}

#[test]
fn start_end_addrs() {
    // valid for a device with 256 kibibytes of flash
    assert_eq!(FLASH_START, 0x0800_0000);
    assert_eq!(flash_end(256), 0x0803_FFFF);
    assert_eq!(num_pages(256), 0x80);
}

#[test]
fn page_from_index() {
    assert!(Page::from_index(8, 128).is_some());
    assert!(Page::from_index(128, 128).is_none());
    assert_eq!(Page::from_index(7, 128).unwrap().to_index(), 7);
}

#[test]
fn page_from_byte_offset() {
    assert_eq!(Page::from_byte_offset(0, 128), Page::from_index(0, 128));
    assert_eq!(Page::from_byte_offset(2048, 128), Page::from_index(1, 128));
    assert!(Page::from_byte_offset(2047, 128).is_none());
    assert!(Page::from_byte_offset(usize::MAX, 128).is_none());
}

#[test]
fn page_from_addr() {
    assert_eq!(Page::from_addr(0x0800_0000, 128), Page::from_index(0, 128));
    assert_eq!(Page::from_addr(0x0800_0800, 128), Page::from_index(1, 128));
    assert!(Page::from_addr(0, 128).is_none());
    assert!(Page::from_addr(usize::MAX, 128).is_none());
    assert!(Page::from_addr(0x0800_0001, 128).is_none());
}

#[test]
fn page_addr() {
    assert_eq!(Page::SIZE, 2048);
    let page0 = Page::from_index(0, 128).unwrap();
    let page127 = Page::from_index(127, 128).unwrap();
    assert_eq!(page0.addr(), 0x0800_0000);
    assert_eq!(page127.addr(), 0x0803_F800);
}

#[test]
fn page_addr_range() {
    let page0 = Page::from_index(0, 128).unwrap();
    let r = page0.addr_range();
    assert_eq!(r.start, 0x0800_0000);
    assert_eq!(r.end, 0x0800_07FF);
}

#[test]
fn unlock_and_lock() {
    let flash = Flash::unlock(idle_regs());
    assert!(!flash.regs.locked);
    let regs = flash.lock();
    assert!(regs.locked);
}

#[test]
fn status_decode_per_error() {
    // one status word per error variant, decoded after the busy flag drops
    let cases: [(u32, Error); 6] = [
        (PROGERR, Error::Prog),
        (WRPERR, Error::Wp),
        (PGAERR, Error::Align),
        (SIZERR, Error::Size),
        (MISSERR, Error::Miss),
        (PGSERR, Error::Sequence),
    ];
    for (sr, expected) in cases {
        let mut flash = Flash::unlock(idle_regs());
        flash.regs.sr = sr | BSY;
        assert_eq!(flash.wait_for_not_busy(), Err(expected));
        assert_eq!(flash.regs.sr & BSY, 0);
    }
}

#[test]
fn status_decode_priority() {
    // the sequence error is set by hardware alongside other programming
    // errors, so it is decoded last
    let mut flash = Flash::unlock(idle_regs());
    flash.regs.sr = PGSERR | PROGERR;
    assert_eq!(flash.wait_for_not_busy(), Err(Error::Prog));
}

#[test]
fn page_erase_flow() {
    let mut flash = Flash::unlock(idle_regs());
    let page = Page::from_index(64, 128).unwrap();
    assert_eq!(flash.page_erase(page), Ok(()));
    assert_eq!(flash.regs.pnb, 64);
    assert!(!flash.regs.per);
    assert!(!flash.regs.strt);
}

#[test]
fn page_erase_refused_while_busy_or_suspended() {
    let page = Page::from_index(3, 128).unwrap();

    let mut flash = Flash::unlock(idle_regs());
    flash.regs.sr = BSY;
    let before = flash.regs;
    assert_eq!(flash.page_erase(page), Err(Error::Busy));
    assert_eq!(flash.regs, before);

    let mut flash = Flash::unlock(idle_regs());
    flash.regs.sr = PESD;
    assert_eq!(flash.page_erase(page), Err(Error::Suspend));
}

#[test]
fn mass_erase_flow() {
    let mut flash = Flash::unlock(idle_regs());
    assert_eq!(flash.mass_erase(), Ok(()));
    assert!(!flash.regs.mer);

    let mut flash = Flash::unlock(idle_regs());
    flash.regs.sr = BSY;
    assert_eq!(flash.mass_erase(), Err(Error::Busy));
    flash.regs.sr = PESD;
    assert_eq!(flash.mass_erase(), Err(Error::Suspend));
}

#[test]
fn erase_clears_stale_errors() {
    let mut flash = Flash::unlock(idle_regs());
    let stale = EOP | OPERR | PROGERR | WRPERR | PGAERR | SIZERR | PGSERR | MISSERR | FASTERR
        | RDERR;
    flash.regs.sr = stale;
    let page = Page::from_index(1, 128).unwrap();
    // stale error flags from an earlier operation are cleared first, so the
    // fresh erase reports success
    assert_eq!(flash.page_erase(page), Ok(()));
    assert_eq!(flash.regs.sr & stale, 0);
}
