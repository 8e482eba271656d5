//! Flash memory: page address arithmetic and the program/erase status flow.
//!
//! The flash size is read at run time from chip info registers; here it is a
//! parameter, in kibibytes, of everything that depends on it.

use vstd::prelude::*;

verus! {

/// Starting address of the flash memory.
pub const FLASH_START: usize = 0x0800_0000;

/// Ending address of the flash memory, for a device with
/// `flash_size_kibibyte` kibibytes of flash.
pub fn flash_end(flash_size_kibibyte: u32) -> (r: usize)
    requires
        FLASH_START - 1 + flash_size_kibibyte * 1024 <= usize::MAX,
    ensures
        r == FLASH_START - 1 + flash_size_kibibyte * 1024,
{
    FLASH_START - 1 + (flash_size_kibibyte as usize) * 1024
}

/// Number of flash pages, for a device with `flash_size_kibibyte` kibibytes
/// of flash. Each page holds two kibibytes.
pub fn num_pages(flash_size_kibibyte: u32) -> (r: u8)
    requires
        flash_size_kibibyte / 2 <= u8::MAX,
    ensures
        r == flash_size_kibibyte / 2,
{
    (flash_size_kibibyte / 2) as u8
}

/// Page address.
#[derive(Debug, PartialEq, Eq, Clone, Copy, PartialOrd, Ord, Hash, Structural)]
pub struct Page {
    idx: u8,
}

impl View for Page {
    type V = int;

    /// A page is identified by its index.
    closed spec fn view(&self) -> int {
        self.idx as int
    }
}

impl Page {
    /// Page size in bytes.
    pub const SIZE: usize = 2048;

    /// Create a page address from an index, on a device with `pages` pages.
    ///
    /// Returns `None` if the index is past the last page.
    pub fn from_index(idx: u8, pages: u8) -> (r: Option<Self>)
        ensures
            r is Some <==> idx < pages,
            r matches Some(p) ==> p@ == idx as int,
    {
        if idx >= pages {
            None
        } else {
            Some(Page { idx })
        }
    }

    /// Create a page address from an offset from the base of the flash
    /// memory, on a device with `pages` pages.
    ///
    /// Returns `None` if the offset is out of bounds, or not page aligned.
    pub fn from_byte_offset(offset: usize, pages: u8) -> (r: Option<Self>)
        ensures
            r is Some <==> offset % 2048 == 0 && offset / 2048 < pages,
            r matches Some(p) ==> p@ == offset as int / 2048,
    {
        if offset % Self::SIZE == 0 {
            let idx: usize = offset / Self::SIZE;
            if idx >= (pages as usize) {
                None
            } else {
                Some(Page { idx: idx as u8 })
            }
        } else {
            None
        }
    }

    /// Create a page address from an absolute address, on a device with
    /// `pages` pages.
    ///
    /// Returns `None` if the address is out of bounds, or not page aligned.
    pub fn from_addr(addr: usize, pages: u8) -> (r: Option<Self>)
        ensures
            r is Some <==> addr >= FLASH_START && (addr - FLASH_START) % 2048 == 0 && (addr
                - FLASH_START) / 2048 < pages,
            r matches Some(p) ==> p@ == (addr - FLASH_START) / 2048,
    {
        if let Some(offset) = addr.checked_sub(FLASH_START) {
            Self::from_byte_offset(offset, pages)
        } else {
            None
        }
    }

    /// Get the page index.
    pub fn to_index(self) -> (r: u8)
        ensures
            r as int == self@,
    {
        self.idx
    }

    /// Get the page address.
    pub fn addr(&self) -> (r: usize)
        ensures
            r == self@ * 2048 + FLASH_START,
    {
        (self.idx as usize) * Self::SIZE + FLASH_START
    }

    /// Get the address range of the page: its first and its last byte
    /// address.
    pub fn addr_range(&self) -> (r: core::ops::Range<usize>)
        ensures
            r.start == self@ * 2048 + FLASH_START,
            r.end == self@ * 2048 + FLASH_START + 2047,
    {
        let a = self.addr();
        core::ops::Range { start: a, end: a + (Self::SIZE - 1) }
    }
}

// Status register bits.
/// End of operation.
pub const EOP: u32 = 0x1;
/// Operation error.
pub const OPERR: u32 = 0x2;
/// Programming error.
pub const PROGERR: u32 = 0x8;
/// Write protection error.
pub const WRPERR: u32 = 0x10;
/// Programming alignment error.
pub const PGAERR: u32 = 0x20;
/// Size error.
pub const SIZERR: u32 = 0x40;
/// Programming sequence error.
pub const PGSERR: u32 = 0x80;
/// Fast programming data miss error.
pub const MISSERR: u32 = 0x100;
/// Fast programming error.
pub const FASTERR: u32 = 0x200;
/// Read protection error.
pub const RDERR: u32 = 0x4000;
/// An operation is in progress.
pub const BSY: u32 = 0x1_0000;
/// Program or erase operations are suspended.
pub const PESD: u32 = 0x8_0000;

/// All the error and end-of-operation flags that a new operation clears
/// first.
pub const SR_CLEAR_MASK: u32 = 0x43FB;

/// Flash errors.
#[derive(Debug, PartialEq, Eq, Clone, Copy, Hash, Structural)]
pub enum Error {
    /// Busy error.
    ///
    /// A flash programming sequence was started while the previous sequence
    /// was still in progress.
    Busy,
    /// Program erase suspend error.
    ///
    /// A flash programming sequence was started with a program erase suspend
    /// bit set.
    Suspend,
    /// Fast programming data miss error.
    ///
    /// In fast programming mode the data must reach the logic control in
    /// time; this is set by hardware when it does not.
    Miss,
    /// Programming sequence error.
    ///
    /// Set by hardware on a write access performed out of sequence, and also
    /// whenever another programming error is set.
    Sequence,
    /// Size error.
    ///
    /// Set by hardware when the size of a programming access is not a
    /// double word.
    Size,
    /// Programming alignment error.
    ///
    /// Set by hardware when the data to program does not fit one double-word
    /// row.
    Align,
    /// Write protection error.
    ///
    /// An address to be erased or programmed is write-protected.
    Wp,
    /// Programming error.
    ///
    /// A double word was programmed over one not previously erased.
    Prog,
}

/// Registers of the flash controller that the driver touches.
#[derive(Debug, Clone, Copy, PartialEq, Eq, Structural)]
pub struct FlashRegs {
    /// Status register word.
    pub sr: u32,
    /// Control lock: program and erase requests are refused while set.
    pub locked: bool,
    /// Standard programming mode enable.
    pub pg: bool,
    /// Fast programming mode enable.
    pub fstpg: bool,
    /// Page erase mode enable.
    pub per: bool,
    /// Mass erase mode enable.
    pub mer: bool,
    /// Page number for a page erase.
    pub pnb: u8,
    /// Operation start request; cleared by hardware when the operation ends.
    pub strt: bool,
}

/// The status word decoded into the operation's outcome, once the busy flag
/// has dropped. The sequence error is checked last because hardware sets it
/// alongside every other programming error.
pub open spec fn spec_decode_sr(sr: u32) -> Result<(), Error> {
    if sr & PROGERR != 0 {
        Err(Error::Prog)
    } else if sr & WRPERR != 0 {
        Err(Error::Wp)
    } else if sr & PGAERR != 0 {
        Err(Error::Align)
    } else if sr & SIZERR != 0 {
        Err(Error::Size)
    } else if sr & MISSERR != 0 {
        Err(Error::Miss)
    } else if sr & PGSERR != 0 {
        Err(Error::Sequence)
    } else {
        Ok(())
    }
}

/// Whether a new operation may start: refused while an operation is in
/// progress or program/erase is suspended.
pub open spec fn spec_op_guard(sr: u32) -> Result<(), Error> {
    if sr & BSY != 0 {
        Err(Error::Busy)
    } else if sr & PESD != 0 {
        Err(Error::Suspend)
    } else {
        Ok(())
    }
}

/// The modeled flash controller finishes the operation in progress: the
/// busy flag and the start request drop.
pub open spec fn spec_settle_busy(r: FlashRegs) -> FlashRegs {
    FlashRegs { sr: r.sr & !BSY, strt: false, ..r }
}

/// The register file after a completed erase flow: errors cleared at the
/// start, the erase mode bits set and cleared again around the operation.
pub open spec fn spec_erase_flow(r: FlashRegs, page_erase: bool, pnb: u8) -> FlashRegs {
    FlashRegs {
        sr: (r.sr & !SR_CLEAR_MASK) & !BSY,
        per: if page_erase {
            false
        } else {
            r.per
        },
        mer: if page_erase {
            r.mer
        } else {
            false
        },
        pnb: if page_erase {
            pnb
        } else {
            r.pnb
        },
        strt: false,
        ..r
    }
}

/// After a write-back clear of the error mask and the busy flag, every flag
/// the decode reads, and the busy flag itself, are clear.
proof fn lemma_cleared_sr_bits(s: u32)
    by (bit_vector)
    ensures
        (s & !0x1_0000u32) & 0x1_0000u32 == 0,
        ((s & !0x43FBu32) & !0x1_0000u32) & 0x8u32 == 0,
        ((s & !0x43FBu32) & !0x1_0000u32) & 0x10u32 == 0,
        ((s & !0x43FBu32) & !0x1_0000u32) & 0x20u32 == 0,
        ((s & !0x43FBu32) & !0x1_0000u32) & 0x40u32 == 0,
        ((s & !0x43FBu32) & !0x1_0000u32) & 0x100u32 == 0,
        ((s & !0x43FBu32) & !0x1_0000u32) & 0x80u32 == 0,
{
}

/// Flash driver. While it exists the flash control registers are unlocked;
/// [`lock`](Flash::lock) locks them again and gives the register file back.
#[derive(Debug)]
pub struct Flash {
    /// The modeled flash control registers.
    pub regs: FlashRegs,
}

impl Flash {
    /// Unlock the flash memory for program or erase operations, by the
    /// two-word key sequence.
    pub fn unlock(flash: FlashRegs) -> (f: Flash)
        ensures
            f.regs == (FlashRegs { locked: false, ..flash }),
    {
        Flash { regs: FlashRegs { locked: false, ..flash } }
    }

    /// Lock the flash memory again and return the register file.
    pub fn lock(self) -> (r: FlashRegs)
        ensures
            r == (FlashRegs { locked: true, ..self.regs }),
    {
        FlashRegs { locked: true, ..self.regs }
    }

    /// The current status register word.
    pub fn sr(&self) -> (r: u32)
        ensures
            r == self.regs.sr,
    {
        self.regs.sr
    }

    /// Clear every error flag and the end-of-operation flag, by write-back.
    pub fn clear_all_err(&mut self)
        ensures
            final(self).regs == (FlashRegs { sr: old(self).regs.sr & !SR_CLEAR_MASK, ..old(self).regs }),
    {
        self.regs.sr = self.regs.sr & !SR_CLEAR_MASK;
    }

    /// Busy-wait until the operation in progress finishes, then decode the
    /// status word into the operation's outcome.
    pub fn wait_for_not_busy(&mut self) -> (r: Result<(), Error>)
        ensures
            final(self).regs == spec_settle_busy(old(self).regs),
            r == spec_decode_sr(spec_settle_busy(old(self).regs).sr),
    {
        self.regs.sr = self.regs.sr & !BSY;
        self.regs.strt = false;
        proof {
            lemma_cleared_sr_bits(old(self).regs.sr);
        }
        while self.regs.sr & BSY != 0
            invariant
                self.regs.sr & BSY == 0,
            decreases 0int,
        {
        }
        let sr: u32 = self.regs.sr;
        if sr & PROGERR != 0 {
            Err(Error::Prog)
        } else if sr & WRPERR != 0 {
            Err(Error::Wp)
        } else if sr & PGAERR != 0 {
            Err(Error::Align)
        } else if sr & SIZERR != 0 {
            Err(Error::Size)
        } else if sr & MISSERR != 0 {
            Err(Error::Miss)
        } else if sr & PGSERR != 0 {
            Err(Error::Sequence)
        } else {
            Ok(())
        }
    }

    /// Erase a 2048 byte page, setting all its bits to 1.
    ///
    /// Refused, with nothing changed, while an operation is in progress or
    /// program/erase is suspended; otherwise the erase flow runs to
    /// completion.
    pub fn page_erase(&mut self, page: Page) -> (r: Result<(), Error>)
        ensures
            spec_op_guard(old(self).regs.sr) is Err ==> r == spec_op_guard(old(self).regs.sr)
                && *final(self) == *old(self),
            spec_op_guard(old(self).regs.sr) is Ok ==> r == Ok::<(), Error>(()) && final(self).regs
                == spec_erase_flow(old(self).regs, true, (page@ as u8)),
    {
        let sr: u32 = self.sr();
        if sr & BSY != 0 {
            return Err(Error::Busy);
        }
        if sr & PESD != 0 {
            return Err(Error::Suspend);
        }
        self.clear_all_err();
        self.regs.per = true;
        self.regs.pnb = page.to_index();
        self.regs.strt = true;
        let ret: Result<(), Error> = self.wait_for_not_busy();
        proof {
            lemma_cleared_sr_bits(old(self).regs.sr);
        }
        self.regs.per = false;
        ret
    }

    /// Erase the entire flash memory, setting all its bits to 1.
    ///
    /// Refused, with nothing changed, while an operation is in progress or
    /// program/erase is suspended; otherwise the erase flow runs to
    /// completion.
    pub fn mass_erase(&mut self) -> (r: Result<(), Error>)
        ensures
            spec_op_guard(old(self).regs.sr) is Err ==> r == spec_op_guard(old(self).regs.sr)
                && *final(self) == *old(self),
            spec_op_guard(old(self).regs.sr) is Ok ==> r == Ok::<(), Error>(()) && final(self).regs
                == spec_erase_flow(old(self).regs, false, 0),
    {
        let sr: u32 = self.sr();
        if sr & BSY != 0 {
            return Err(Error::Busy);
        }
        if sr & PESD != 0 {
            return Err(Error::Suspend);
        }
        self.clear_all_err();
        self.regs.mer = true;
        self.regs.strt = true;
        let ret: Result<(), Error> = self.wait_for_not_busy();
        proof {
            lemma_cleared_sr_bits(old(self).regs.sr);
        }
        self.regs.mer = false;
        ret
    }
}

} // verus!
