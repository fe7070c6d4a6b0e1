//! The hart: its architectural state, construction and register access.

use crate::config::Config;
use crate::registers::GeneralRegister;
use vstd::prelude::*;

verus! {

/// Number of CSR addresses (12-bit CSR numbers).
pub const NUM_CSRS: u64 = 4096;

/// A privilege level.
#[derive(Clone, Copy, Debug, PartialEq, Eq, Structural)]
pub enum Privilege {
    User,
    Supervisor,
    Machine,
}

impl Privilege {
    /// The two-bit encoding of the level, as stored in `mstatus.MPP`.
    pub open spec fn bits_spec(self) -> u64 {
        match self {
            Privilege::User => 0,
            Privilege::Supervisor => 1,
            Privilege::Machine => 3,
        }
    }

    pub fn bits(self) -> (r: u64)
        ensures
            r == self.bits_spec(),
    {
        match self {
            Privilege::User => 0,
            Privilege::Supervisor => 1,
            Privilege::Machine => 3,
        }
    }
}

/// The full architectural state of one hart.
///
/// Every CSR address has a storage slot in `csrs`; the PMP table is held apart, one
/// configuration byte and one address register per entry.
pub struct Core {
    /// Address of the current instruction.
    pub pc: u64,
    /// Address of the next instruction.
    pub next_pc: u64,
    /// General purpose registers; slot 0 is never read.
    pub x: Vec<u64>,
    /// Floating point registers.
    pub f: Vec<u64>,
    /// Current privilege level.
    pub cur_privilege: Privilege,
    /// CSR storage, indexed by CSR number.
    pub csrs: Vec<u64>,
    /// PMP configuration, one byte per entry.
    pub pmpcfg: Vec<u8>,
    /// PMP address registers, 54 significant bits each.
    pub pmpaddr: Vec<u64>,
    /// Host-interface scratch register written by the guest.
    pub htif_tohost: u64,
    /// Whether the guest has signalled termination.
    pub htif_done: bool,
    /// Exit code reported by the guest.
    pub htif_exit_code: u64,
    /// The hart variant.
    pub config: Config,
}

/// The largest value a PMP address register holds (54 bits).
pub const PMPADDR_MAX: u64 = 0x3f_ffff_ffff_ffff;

impl Core {
    /// Well-formedness: the storage has its fixed sizes and PMP addresses fit in 54 bits.
    pub open spec fn wf(&self) -> bool {
        &&& self.x@.len() == 32
        &&& self.f@.len() == 32
        &&& self.csrs@.len() == NUM_CSRS
        &&& self.pmpcfg@.len() == 64
        &&& self.pmpaddr@.len() == 64
        &&& forall|i: int| 0 <= i < 64 ==> #[trigger] self.pmpaddr@[i] <= PMPADDR_MAX
        &&& self.config.wf()
    }

    /// The value read from a general purpose register.
    pub open spec fn reg(&self, r: GeneralRegister) -> u64 {
        reg_in(self.x@, r)
    }

    /// The register file after writing `v` to `r`.
    pub open spec fn regs_after_set(&self, r: GeneralRegister, v: u64) -> Seq<u64> {
        if r.index_spec() == 0 {
            self.x@
        } else {
            self.x@.update(r.index_spec() as int, v)
        }
    }

    /// Get the value of a general purpose register.
    pub fn get(&self, reg: GeneralRegister) -> (r: u64)
        requires
            self.wf(),
        ensures
            r == self.reg(reg),
            reg.index_spec() == 0 ==> r == 0,
    {
        let i = reg.index();
        if i == 0 {
            0
        } else {
            self.x[i]
        }
    }

    /// Set the value of a general purpose register. Writes to `x0` are discarded.
    pub fn set(&mut self, reg: GeneralRegister, value: u64)
        requires
            old(self).wf(),
        ensures
            final(self).wf(),
            final(self).x@ == old(self).regs_after_set(reg, value),
            final(self).f@ == old(self).f@,
            final(self).csrs@ == old(self).csrs@,
            final(self).pmpcfg@ == old(self).pmpcfg@,
            final(self).pmpaddr@ == old(self).pmpaddr@,
            final(self).pc == old(self).pc,
            final(self).next_pc == old(self).next_pc,
            final(self).cur_privilege == old(self).cur_privilege,
            final(self).htif_tohost == old(self).htif_tohost,
            final(self).htif_done == old(self).htif_done,
            final(self).htif_exit_code == old(self).htif_exit_code,
            final(self).config == old(self).config,
    {
        let i = reg.index();
        if i != 0 {
            self.x.set(i, value);
        }
    }

    /// Return the current privilege mode.
    pub fn mode(&self) -> (r: Privilege)
        ensures
            r == self.cur_privilege,
    {
        self.cur_privilege
    }

    /// Set the privilege mode. The level is not checked against the configuration.
    pub fn set_mode(&mut self, mode: Privilege)
        ensures
            *final(self) == (Core { cur_privilege: mode, ..*old(self) }),
    {
        self.cur_privilege = mode;
    }

    /// Return the `pmpaddr<index>` register.
    pub fn get_pmpaddr(&self, index: usize) -> (r: u64)
        requires
            self.wf(),
            index < 64,
        ensures
            r == self.pmpaddr@[index as int],
    {
        self.pmpaddr[index]
    }
}

/// The value that a read of `r` returns from the register file `x`: register 0 reads as zero.
pub open spec fn reg_in(x: Seq<u64>, r: GeneralRegister) -> u64 {
    if r.index_spec() == 0 {
        0
    } else {
        x[r.index_spec() as int]
    }
}

/// Register 0 reads as zero, before and after any write to it.
pub proof fn lemma_zero_register_reads_zero(core: Core, r: GeneralRegister, v: u64)
    requires
        core.wf(),
        r.index_spec() == 0,
    ensures
        core.reg(r) == 0,
        reg_in(core.regs_after_set(r, v), r) == 0,
{
}

/// A read of a non-zero register returns the last value written to it.
pub proof fn lemma_write_then_read(core: Core, r: GeneralRegister, v: u64)
    requires
        core.wf(),
        r.index_spec() != 0,
    ensures
        reg_in(core.regs_after_set(r, v), r) == v,
{
}

/// A write to one register leaves every other register as it was.
pub proof fn lemma_write_keeps_others(core: Core, r: GeneralRegister, o: GeneralRegister, v: u64)
    requires
        core.wf(),
        r.index_spec() != o.index_spec(),
    ensures
        reg_in(core.regs_after_set(r, v), o) == core.reg(o),
{
}

/// A vector of `n` zeros.
fn zeros_u64(n: usize) -> (r: Vec<u64>)
    ensures
        r@ == Seq::new(n as nat, |i: int| 0u64),
{
    let mut r: Vec<u64> = Vec::new();
    let mut i: usize = 0;
    while i < n
        invariant
            i <= n,
            r@ == Seq::new(i as nat, |k: int| 0u64),
        decreases n - i,
    {
        r.push(0);
        i = i + 1;
        assert(r@ =~= Seq::new(i as nat, |k: int| 0u64));
    }
    r
}

/// A vector of `n` zero bytes.
fn zeros_u8(n: usize) -> (r: Vec<u8>)
    ensures
        r@ == Seq::new(n as nat, |i: int| 0u8),
{
    let mut r: Vec<u8> = Vec::new();
    let mut i: usize = 0;
    while i < n
        invariant
            i <= n,
            r@ == Seq::new(i as nat, |k: int| 0u8),
        decreases n - i,
    {
        r.push(0);
        i = i + 1;
        assert(r@ =~= Seq::new(i as nat, |k: int| 0u8));
    }
    r
}

/// Returns a fresh core instance with the provided configuration: every register, CSR and PMP
/// entry is zero and the hart runs at Machine level.
pub fn new_core(config: Config) -> (r: Core)
    requires
        config.wf(),
    ensures
        r.wf(),
        r.pc == 0,
        r.next_pc == 0,
        r.x@ == Seq::new(32, |i: int| 0u64),
        r.f@ == Seq::new(32, |i: int| 0u64),
        r.csrs@ == Seq::new(NUM_CSRS as nat, |i: int| 0u64),
        r.pmpcfg@ == Seq::new(64, |i: int| 0u8),
        r.pmpaddr@ == Seq::new(64, |i: int| 0u64),
        r.cur_privilege == Privilege::Machine,
        r.htif_tohost == 0,
        !r.htif_done,
        r.htif_exit_code == 0,
        r.config == config,
{
    Core {
        pc: 0,
        next_pc: 0,
        x: zeros_u64(32),
        f: zeros_u64(32),
        cur_privilege: Privilege::Machine,
        csrs: zeros_u64(NUM_CSRS as usize),
        pmpcfg: zeros_u8(64),
        pmpaddr: zeros_u64(64),
        htif_tohost: 0,
        htif_done: false,
        htif_exit_code: 0,
        config,
    }
}

} // verus!
