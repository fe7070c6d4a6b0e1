//! Synchronous exceptions and trap entry.

use crate::bits::{bit, set_bit, set_two_bits, with_bit, with_two_bits};
use crate::csr::{MCAUSE, MEDELEG, MEPC, MSTATUS, MTVAL, SCAUSE, SEPC, STVAL};
use crate::hart::{Core, Privilege};
use vstd::prelude::*;

verus! {

/// A synchronous exception.
#[derive(Clone, Copy, Debug, PartialEq, Eq, Structural)]
pub enum ExceptionType {
    FetchAddrAlign,
    FetchAccessFault,
    IllegalInstr,
    Breakpoint,
    LoadAddrAlign,
    LoadAccessFault,
    SamoAddrAlign,
    SamoAccessFault,
    UEnvCall,
    SEnvCall,
    MEnvCall,
    FetchPageFault,
    LoadPageFault,
    SamoPageFault,
}

impl ExceptionType {
    /// The exception code written to the cause CSR, also the bit of `medeleg` that delegates it.
    pub open spec fn code_spec(self) -> u64 {
        match self {
            ExceptionType::FetchAddrAlign => 0,
            ExceptionType::FetchAccessFault => 1,
            ExceptionType::IllegalInstr => 2,
            ExceptionType::Breakpoint => 3,
            ExceptionType::LoadAddrAlign => 4,
            ExceptionType::LoadAccessFault => 5,
            ExceptionType::SamoAddrAlign => 6,
            ExceptionType::SamoAccessFault => 7,
            ExceptionType::UEnvCall => 8,
            ExceptionType::SEnvCall => 9,
            ExceptionType::MEnvCall => 11,
            ExceptionType::FetchPageFault => 12,
            ExceptionType::LoadPageFault => 13,
            ExceptionType::SamoPageFault => 15,
        }
    }

    /// Returns the exception code.
    pub fn code(self) -> (r: u64)
        ensures
            r == self.code_spec(),
            r < 16,
    {
        match self {
            ExceptionType::FetchAddrAlign => 0,
            ExceptionType::FetchAccessFault => 1,
            ExceptionType::IllegalInstr => 2,
            ExceptionType::Breakpoint => 3,
            ExceptionType::LoadAddrAlign => 4,
            ExceptionType::LoadAccessFault => 5,
            ExceptionType::SamoAddrAlign => 6,
            ExceptionType::SamoAccessFault => 7,
            ExceptionType::UEnvCall => 8,
            ExceptionType::SEnvCall => 9,
            ExceptionType::MEnvCall => 11,
            ExceptionType::FetchPageFault => 12,
            ExceptionType::LoadPageFault => 13,
            ExceptionType::SamoPageFault => 15,
        }
    }
}

/// Bit positions in `mstatus`.
pub const MSTATUS_SIE: u64 = 1;
pub const MSTATUS_MIE: u64 = 3;
pub const MSTATUS_SPIE: u64 = 5;
pub const MSTATUS_MPIE: u64 = 7;
pub const MSTATUS_SPP: u64 = 8;
pub const MSTATUS_MPP: u64 = 11;

/// The level that handles exception `e` raised at level `cur`: Supervisor when the
/// configuration has it and `medeleg` delegates `e`, else Machine, and never a level below
/// `cur`.
pub open spec fn delegatee(medeleg: u64, ext_s: bool, e: ExceptionType, cur: Privilege) -> Privilege {
    let deleg = if ext_s && bit(medeleg, e.code_spec()) {
        Privilege::Supervisor
    } else {
        Privilege::Machine
    };
    if deleg.bits_spec() < cur.bits_spec() {
        cur
    } else {
        deleg
    }
}

/// Slot of the exception-PC CSR of level `t`.
pub open spec fn epc_slot(t: Privilege) -> u64 {
    if t == Privilege::Machine { MEPC } else { SEPC }
}

/// Slot of the cause CSR of level `t`.
pub open spec fn cause_slot(t: Privilege) -> u64 {
    if t == Privilege::Machine { MCAUSE } else { SCAUSE }
}

/// Slot of the trap-value CSR of level `t`.
pub open spec fn tval_slot(t: Privilege) -> u64 {
    if t == Privilege::Machine { MTVAL } else { STVAL }
}

/// `mstatus` after a trap from `cur` into `t`: the interrupt-enable bit of `t` moves to its
/// previous-enable bit and is cleared, and the previous-privilege field records `cur`.
pub open spec fn mstatus_after_trap(m: u64, t: Privilege, cur: Privilege) -> u64 {
    if t == Privilege::Machine {
        let m1 = set_bit(m, MSTATUS_MPIE, bit(m, MSTATUS_MIE));
        let m2 = set_bit(m1, MSTATUS_MIE, false);
        set_two_bits(m2, MSTATUS_MPP, cur.bits_spec())
    } else {
        let m1 = set_bit(m, MSTATUS_SPIE, bit(m, MSTATUS_SIE));
        let m2 = set_bit(m1, MSTATUS_SIE, false);
        set_bit(m2, MSTATUS_SPP, cur != Privilege::User)
    }
}

impl Core {
    /// The level that takes exception `e` from the current level.
    pub open spec fn trap_target(&self, e: ExceptionType) -> Privilege {
        delegatee(self.csrs@[MEDELEG as int], self.config.ext_s, e, self.cur_privilege)
    }

    /// The CSR storage after trap entry for `e` with trap value `tval`.
    pub open spec fn csrs_after_trap(&self, e: ExceptionType, tval: u64) -> Seq<u64> {
        let t = self.trap_target(e);
        let s = self.csrs@;
        s.update(epc_slot(t) as int, self.pc).update(cause_slot(t) as int, e.code_spec()).update(
            tval_slot(t) as int,
            tval,
        ).update(MSTATUS as int, mstatus_after_trap(s[MSTATUS as int], t, self.cur_privilege))
    }

    /// Inject an exception, triggering the appropriate trap handler.
    ///
    /// The target privilege mode depends on the current execution mode and on `medeleg`.
    /// The `tval` is the trap value, which depends on the exception type: a memory access fault
    /// usually gives the faulting address.
    pub fn inject_exception(&mut self, exception: ExceptionType, tval: u64)
        requires
            old(self).wf(),
        ensures
            final(self).wf(),
            final(self).cur_privilege == old(self).trap_target(exception),
            final(self).csrs@ == old(self).csrs_after_trap(exception, tval),
            final(self).x@ == old(self).x@,
            final(self).f@ == old(self).f@,
            final(self).pmpcfg@ == old(self).pmpcfg@,
            final(self).pmpaddr@ == old(self).pmpaddr@,
            final(self).pc == old(self).pc,
            final(self).next_pc == old(self).next_pc,
            final(self).htif_tohost == old(self).htif_tohost,
            final(self).htif_done == old(self).htif_done,
            final(self).htif_exit_code == old(self).htif_exit_code,
            final(self).config == old(self).config,
    {
        let cur = self.cur_privilege;
        let code = exception.code();
        let medeleg = self.csrs[MEDELEG as usize];
        let delegated = (medeleg >> code) & 1 == 1;
        let deleg = if self.config.ext_s && delegated {
            Privilege::Supervisor
        } else {
            Privilege::Machine
        };
        let target = if deleg.bits() < cur.bits() {
            cur
        } else {
            deleg
        };
        let m = self.csrs[MSTATUS as usize];
        let (epc, cause, tv, new_m) = if target == Privilege::Machine {
            let m1 = with_bit(m, MSTATUS_MPIE, (m >> MSTATUS_MIE) & 1 == 1);
            let m2 = with_bit(m1, MSTATUS_MIE, false);
            (MEPC, MCAUSE, MTVAL, with_two_bits(m2, MSTATUS_MPP, cur.bits()))
        } else {
            let m1 = with_bit(m, MSTATUS_SPIE, (m >> MSTATUS_SIE) & 1 == 1);
            let m2 = with_bit(m1, MSTATUS_SIE, false);
            (SEPC, SCAUSE, STVAL, with_bit(m2, MSTATUS_SPP, cur != Privilege::User))
        };
        let pc = self.pc;
        self.csrs.set(epc as usize, pc);
        self.csrs.set(cause as usize, code);
        self.csrs.set(tv as usize, tval);
        self.csrs.set(MSTATUS as usize, new_m);
        self.cur_privilege = target;
    }
}

/// Trap entry hands the exception to a level at least as privileged as the current one, never
/// to User; that level's exception-PC holds the PC of the trap, its trap value holds `tval` and
/// its cause holds the exception code.
pub proof fn lemma_trap_entry_records(core: Core, e: ExceptionType, tval: u64)
    requires
        core.wf(),
    ensures
        ({
            let t = core.trap_target(e);
            let s = core.csrs_after_trap(e, tval);
            &&& t != Privilege::User
            &&& t.bits_spec() >= core.cur_privilege.bits_spec()
            &&& t == Privilege::Supervisor ==> core.config.ext_s
            &&& s[epc_slot(t) as int] == core.pc
            &&& s[cause_slot(t) as int] == e.code_spec()
            &&& s[tval_slot(t) as int] == tval
        }),
{
}

} // verus!
