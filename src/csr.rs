//! Control and status registers: which exist on a configuration, and how they are read and
//! written.

use crate::config::Config;
use crate::hart::{Core, NUM_CSRS};
use crate::pmp::{write_addr, write_cfg_reg};
use vstd::prelude::*;

verus! {

pub const FFLAGS: u64 = 0x001;
pub const FRM: u64 = 0x002;
pub const FCSR: u64 = 0x003;
pub const VSTART: u64 = 0x008;
pub const VCSR: u64 = 0x00F;
pub const SSTATUS: u64 = 0x100;
pub const SIE: u64 = 0x104;
pub const STVEC: u64 = 0x105;
pub const SCOUNTEREN: u64 = 0x106;
pub const SENVCFG: u64 = 0x10A;
pub const SSCRATCH: u64 = 0x140;
pub const SEPC: u64 = 0x141;
pub const SCAUSE: u64 = 0x142;
pub const STVAL: u64 = 0x143;
pub const SIP: u64 = 0x144;
pub const SATP: u64 = 0x180;
pub const MSTATUS: u64 = 0x300;
pub const MISA: u64 = 0x301;
pub const MEDELEG: u64 = 0x302;
pub const MIDELEG: u64 = 0x303;
pub const MIE: u64 = 0x304;
pub const MTVEC: u64 = 0x305;
pub const MCOUNTEREN: u64 = 0x306;
pub const MENVCFG: u64 = 0x30A;
pub const MCOUNTINHIBIT: u64 = 0x320;
pub const MSCRATCH: u64 = 0x340;
pub const MEPC: u64 = 0x341;
pub const MCAUSE: u64 = 0x342;
pub const MTVAL: u64 = 0x343;
pub const MIP: u64 = 0x344;
pub const PMPCFG0: u64 = 0x3A0;
pub const PMPADDR0: u64 = 0x3B0;
pub const TSELECT: u64 = 0x7A0;
pub const MCYCLE: u64 = 0xB00;
pub const MINSTRET: u64 = 0xB02;
pub const VL: u64 = 0xC20;
pub const VTYPE: u64 = 0xC21;
pub const VLENB: u64 = 0xC22;
pub const MVENDORID: u64 = 0xF11;
pub const MARCHID: u64 = 0xF12;
pub const MIMPID: u64 = 0xF13;
pub const MHARTID: u64 = 0xF14;
pub const MCONFIGPTR: u64 = 0xF15;

/// The `mstatus` bits visible through `sstatus`.
pub const SSTATUS_READ_MASK: u64 = 0x8000_0003_000D_E762;
/// The `mstatus` bits writable through `sstatus`.
pub const SSTATUS_WRITE_MASK: u64 = 0x0000_0000_000C_6722;
/// The `fcsr` bits that `fflags` shows.
pub const FFLAGS_MASK: u64 = 0x1f;
/// The `fcsr` bits that `frm` shows.
pub const FRM_MASK: u64 = 0xe0;

/// Why a CSR access was refused.
#[derive(Clone, Copy, Debug, PartialEq, Eq, Structural)]
pub enum CsrError {
    /// The CSR does not exist on this configuration.
    Undefined,
    /// The CSR exists but cannot be written.
    ReadOnly,
}

pub open spec fn is_pmpcfg(c: u64) -> bool {
    PMPCFG0 <= c < PMPCFG0 + 16
}

pub open spec fn is_pmpaddr(c: u64) -> bool {
    PMPADDR0 <= c < PMPADDR0 + 64
}

/// Machine-level CSRs that every configuration has.
pub open spec fn base_machine_csr(c: u64) -> bool {
    c == MSTATUS || c == MISA || c == MIE || c == MTVEC || c == MCOUNTINHIBIT || c == MSCRATCH
        || c == MEPC || c == MCAUSE || c == MTVAL || c == MIP || c == TSELECT || c == MCYCLE || c
        == MINSTRET || c == MVENDORID || c == MARCHID || c == MIMPID || c == MHARTID || c
        == MCONFIGPTR
}

/// Supervisor-level CSRs, present with Supervisor mode.
pub open spec fn supervisor_csr(c: u64) -> bool {
    c == SSTATUS || c == SIE || c == STVEC || c == SCOUNTEREN || c == SENVCFG || c == SSCRATCH
        || c == SEPC || c == SCAUSE || c == STVAL || c == SIP || c == SATP
}

/// Vector CSRs, present with the vector extension.
pub open spec fn vector_csr(c: u64) -> bool {
    c == VSTART || c == VCSR || c == VL || c == VTYPE || c == VLENB
}

/// Whether CSR `c` exists on configuration `cfg`. On RV64 only the even `pmpcfg` registers
/// exist, and only PMP registers below the configured entry count.
pub open spec fn csr_defined(cfg: Config, c: u64) -> bool {
    ||| base_machine_csr(c)
    ||| cfg.ext_s && (c == MEDELEG || c == MIDELEG || supervisor_csr(c))
    ||| cfg.ext_u && (c == MCOUNTEREN || c == MENVCFG)
    ||| is_pmpcfg(c) && (c - PMPCFG0) % 2 == 0 && c - PMPCFG0 < cfg.pmp_count
    ||| is_pmpaddr(c) && c - PMPADDR0 < cfg.pmp_count
    ||| cfg.ext_f && (c == FFLAGS || c == FRM || c == FCSR)
    ||| cfg.ext_v && vector_csr(c)
}

/// CSRs whose two top address bits are set are read-only.
pub open spec fn read_only(c: u64) -> bool {
    c >> 10u64 == 3
}

/// The storage slot that holds the bits of CSR `c`, for CSRs outside the PMP table.
pub open spec fn backing(c: u64) -> u64 {
    if c == SSTATUS {
        MSTATUS
    } else if c == SIE {
        MIE
    } else if c == SIP {
        MIP
    } else if c == FFLAGS || c == FRM {
        FCSR
    } else {
        c
    }
}

/// Eight configuration bytes from `base`, the first in the low byte.
pub open spec fn pack_cfg(cfgs: Seq<u8>, base: int) -> u64 {
    (cfgs[base] as u64) | ((cfgs[base + 1] as u64) << 8u64) | ((cfgs[base + 2] as u64) << 16u64)
        | ((cfgs[base + 3] as u64) << 24u64) | ((cfgs[base + 4] as u64) << 32u64) | ((
    cfgs[base + 5] as u64) << 40u64) | ((cfgs[base + 6] as u64) << 48u64) | ((cfgs[base
        + 7] as u64) << 56u64)
}

/// The value a read of the defined CSR `c` returns, from CSR storage `s` and the PMP table
/// `cfgs`, `addrs`.
pub open spec fn csr_value_in(s: Seq<u64>, cfgs: Seq<u8>, addrs: Seq<u64>, c: u64) -> u64 {
    if c == SSTATUS {
        s[MSTATUS as int] & SSTATUS_READ_MASK
    } else if c == SIE {
        s[MIE as int] & s[MIDELEG as int]
    } else if c == SIP {
        s[MIP as int] & s[MIDELEG as int]
    } else if c == FFLAGS {
        s[FCSR as int] & FFLAGS_MASK
    } else if c == FRM {
        (s[FCSR as int] & FRM_MASK) >> 5u64
    } else if is_pmpcfg(c) {
        pack_cfg(cfgs, 4 * (c - PMPCFG0))
    } else if is_pmpaddr(c) {
        addrs[c - PMPADDR0]
    } else {
        s[c as int]
    }
}

/// A CSR that is its own storage slot: neither a view of another CSR nor a PMP register.
pub open spec fn is_plain(c: u64) -> bool {
    backing(c) == c && !is_pmpcfg(c) && !is_pmpaddr(c)
}

impl Core {
    /// The value a read of the defined CSR `c` returns.
    pub open spec fn csr_value(&self, c: u64) -> u64 {
        csr_value_in(self.csrs@, self.pmpcfg@, self.pmpaddr@, c)
    }

    /// The new content of the storage slot `backing(c)` after writing `v` to CSR `c`.
    pub open spec fn backing_after_write(&self, c: u64, v: u64) -> u64 {
        let s = self.csrs@;
        if c == SSTATUS {
            (s[MSTATUS as int] & !SSTATUS_WRITE_MASK) | (v & SSTATUS_WRITE_MASK)
        } else if c == SIE {
            (s[MIE as int] & !s[MIDELEG as int]) | (v & s[MIDELEG as int])
        } else if c == SIP {
            (s[MIP as int] & !s[MIDELEG as int]) | (v & s[MIDELEG as int])
        } else if c == FFLAGS {
            (s[FCSR as int] & !FFLAGS_MASK) | (v & FFLAGS_MASK)
        } else if c == FRM {
            (s[FCSR as int] & !FRM_MASK) | ((v << 5u64) & FRM_MASK)
        } else {
            v
        }
    }

    /// Everything but the CSRs and the PMP table is the same in `self` and `o`.
    pub open spec fn same_outside_csrs(&self, o: &Core) -> bool {
        &&& self.x@ == o.x@
        &&& self.f@ == o.f@
        &&& self.pc == o.pc
        &&& self.next_pc == o.next_pc
        &&& self.cur_privilege == o.cur_privilege
        &&& self.htif_tohost == o.htif_tohost
        &&& self.htif_done == o.htif_done
        &&& self.htif_exit_code == o.htif_exit_code
        &&& self.config == o.config
    }
}

fn csr_defined_exec(cfg: &Config, c: u64) -> (r: bool)
    ensures
        r == csr_defined(*cfg, c),
{
    let base_machine = c == MSTATUS || c == MISA || c == MIE || c == MTVEC || c == MCOUNTINHIBIT
        || c == MSCRATCH || c == MEPC || c == MCAUSE || c == MTVAL || c == MIP || c == TSELECT
        || c == MCYCLE || c == MINSTRET || c == MVENDORID || c == MARCHID || c == MIMPID || c
        == MHARTID || c == MCONFIGPTR;
    let supervisor = c == SSTATUS || c == SIE || c == STVEC || c == SCOUNTEREN || c == SENVCFG
        || c == SSCRATCH || c == SEPC || c == SCAUSE || c == STVAL || c == SIP || c == SATP;
    let vector = c == VSTART || c == VCSR || c == VL || c == VTYPE || c == VLENB;
    let pmpcfg = PMPCFG0 <= c && c < PMPCFG0 + 16 && (c - PMPCFG0) % 2 == 0 && c - PMPCFG0
        < cfg.pmp_count;
    let pmpaddr = PMPADDR0 <= c && c < PMPADDR0 + 64 && c - PMPADDR0 < cfg.pmp_count;
    base_machine || (cfg.ext_s && (c == MEDELEG || c == MIDELEG || supervisor)) || (cfg.ext_u
        && (c == MCOUNTEREN || c == MENVCFG)) || pmpcfg || pmpaddr || (cfg.ext_f && (c == FFLAGS
        || c == FRM || c == FCSR)) || (cfg.ext_v && vector)
}

/// A PMP address register at or beyond the configured entry count does not exist.
pub proof fn lemma_pmpaddr_beyond_count_undefined(cfg: Config, i: u64)
    requires
        cfg.pmp_count <= i < 64,
    ensures
        !csr_defined(cfg, (PMPADDR0 + i) as u64),
{
}

/// A CSR number that does not fit in twelve bits names no CSR.
pub proof fn lemma_wide_number_undefined(cfg: Config, c: u64)
    requires
        c >= NUM_CSRS,
    ensures
        !csr_defined(cfg, c),
{
}

impl Core {
    /// Return true if the CSR is defined (and enabled) on the core.
    pub fn is_csr_defined(&self, csr_id: usize) -> (r: bool)
        ensures
            r == csr_defined(self.config, csr_id as u64),
    {
        csr_defined_exec(&self.config, csr_id as u64)
    }

    /// Get the value of a CSR identified by its CSR index; fails on a CSR that does not exist
    /// on the core's configuration.
    pub fn get_csr(&self, csr: u64) -> (r: Result<u64, CsrError>)
        requires
            self.wf(),
        ensures
            r == if csr_defined(self.config, csr) {
                Ok::<u64, CsrError>(self.csr_value(csr))
            } else {
                Err(CsrError::Undefined)
            },
    {
        if !csr_defined_exec(&self.config, csr) {
            return Err(CsrError::Undefined);
        }
        let mstatus = self.csrs[MSTATUS as usize];
        let fcsr = self.csrs[FCSR as usize];
        let mideleg = self.csrs[MIDELEG as usize];
        let v = if csr == SSTATUS {
            mstatus & SSTATUS_READ_MASK
        } else if csr == SIE {
            self.csrs[MIE as usize] & mideleg
        } else if csr == SIP {
            self.csrs[MIP as usize] & mideleg
        } else if csr == FFLAGS {
            fcsr & FFLAGS_MASK
        } else if csr == FRM {
            (fcsr & FRM_MASK) >> 5u64
        } else if PMPCFG0 <= csr && csr < PMPCFG0 + 16 {
            let b = (4 * (csr - PMPCFG0)) as usize;
            let c = &self.pmpcfg;
            (c[b] as u64) | ((c[b + 1] as u64) << 8u64) | ((c[b + 2] as u64) << 16u64) | ((c[b
                + 3] as u64) << 24u64) | ((c[b + 4] as u64) << 32u64) | ((c[b + 5] as u64)
                << 40u64) | ((c[b + 6] as u64) << 48u64) | ((c[b + 7] as u64) << 56u64)
        } else if PMPADDR0 <= csr && csr < PMPADDR0 + 64 {
            self.pmpaddr[(csr - PMPADDR0) as usize]
        } else {
            self.csrs[csr as usize]
        };
        Ok(v)
    }

    /// Write a CSR. Fails, leaving the core unchanged, on a CSR that does not exist on the
    /// core's configuration or that is read-only. PMP registers go through the PMP write rules;
    /// shadow CSRs (`sstatus`, `sie`, `sip`, `fflags`, `frm`) write the bits they show of their
    /// backing register.
    pub fn set_csr(&mut self, csr: u64, value: u64) -> (r: Result<(), CsrError>)
        requires
            old(self).wf(),
        ensures
            final(self).wf(),
            final(self).same_outside_csrs(old(self)),
            !csr_defined(old(self).config, csr) ==> r == Err::<(), CsrError>(CsrError::Undefined),
            csr_defined(old(self).config, csr) && read_only(csr) ==> r == Err::<(), CsrError>(
                CsrError::ReadOnly,
            ),
            csr_defined(old(self).config, csr) && !read_only(csr) ==> r is Ok,
            r is Err ==> final(self).csrs@ == old(self).csrs@ && final(self).pmpcfg@ == old(
                self,
            ).pmpcfg@ && final(self).pmpaddr@ == old(self).pmpaddr@,
            r is Ok && is_pmpcfg(csr) ==> final(self).csrs@ == old(self).csrs@
                && final(self).pmpaddr@ == old(self).pmpaddr@ && final(self).pmpcfg@
                == write_cfg_reg(old(self).pmpcfg@, csr - PMPCFG0, value),
            r is Ok && is_pmpaddr(csr) ==> final(self).csrs@ == old(self).csrs@
                && final(self).pmpcfg@ == old(self).pmpcfg@ && final(self).pmpaddr@ == old(
                self,
            ).pmpaddr@.update(
                csr - PMPADDR0,
                write_addr(old(self).pmpcfg@, old(self).pmpaddr@, csr - PMPADDR0, value),
            ),
            r is Ok && !is_pmpcfg(csr) && !is_pmpaddr(csr) ==> final(self).pmpcfg@ == old(
                self,
            ).pmpcfg@ && final(self).pmpaddr@ == old(self).pmpaddr@ && final(self).csrs@ == old(
                self,
            ).csrs@.update(backing(csr) as int, old(self).backing_after_write(csr, value)),
    {
        if !csr_defined_exec(&self.config, csr) {
            return Err(CsrError::Undefined);
        }
        if csr >> 10u64 == 3 {
            return Err(CsrError::ReadOnly);
        }
        if PMPCFG0 <= csr && csr < PMPCFG0 + 16 {
            self.set_pmpcfg((csr - PMPCFG0) as usize, value);
            return Ok(());
        }
        if PMPADDR0 <= csr && csr < PMPADDR0 + 64 {
            self.set_pmpaddr((csr - PMPADDR0) as usize, value);
            return Ok(());
        }
        let mideleg = self.csrs[MIDELEG as usize];
        let (slot, v) = if csr == SSTATUS {
            let m = self.csrs[MSTATUS as usize];
            (MSTATUS, (m & !SSTATUS_WRITE_MASK) | (value & SSTATUS_WRITE_MASK))
        } else if csr == SIE {
            let m = self.csrs[MIE as usize];
            (MIE, (m & !mideleg) | (value & mideleg))
        } else if csr == SIP {
            let m = self.csrs[MIP as usize];
            (MIP, (m & !mideleg) | (value & mideleg))
        } else if csr == FFLAGS {
            let m = self.csrs[FCSR as usize];
            (FCSR, (m & !FFLAGS_MASK) | (value & FFLAGS_MASK))
        } else if csr == FRM {
            let m = self.csrs[FCSR as usize];
            (FCSR, (m & !FRM_MASK) | ((value << 5u64) & FRM_MASK))
        } else {
            (csr, value)
        };
        self.csrs.set(slot as usize, v);
        Ok(())
    }
}

/// Reading a plain CSR returns the last value written to it.
pub proof fn lemma_plain_csr_write_then_read(core: Core, c: u64, v: u64)
    requires
        core.wf(),
        csr_defined(core.config, c),
        is_plain(c),
    ensures
        csr_value_in(
            core.csrs@.update(backing(c) as int, core.backing_after_write(c, v)),
            core.pmpcfg@,
            core.pmpaddr@,
            c,
        ) == v,
{
}

/// Reading `sstatus` after writing `v` to it shows the writable bits of `v`, and the other
/// visible bits of `mstatus` as they were.
pub proof fn lemma_sstatus_write_then_read(core: Core, v: u64)
    requires
        core.wf(),
    ensures
        csr_value_in(
            core.csrs@.update(MSTATUS as int, core.backing_after_write(SSTATUS, v)),
            core.pmpcfg@,
            core.pmpaddr@,
            SSTATUS,
        ) == (v & SSTATUS_WRITE_MASK) | (core.csr_value(SSTATUS) & !SSTATUS_WRITE_MASK),
{
    let m = core.csrs@[MSTATUS as int];
    assert(((m & !SSTATUS_WRITE_MASK) | (v & SSTATUS_WRITE_MASK)) & SSTATUS_READ_MASK == (v
        & SSTATUS_WRITE_MASK) | ((m & SSTATUS_READ_MASK) & !SSTATUS_WRITE_MASK)) by (bit_vector);
}

} // verus!
