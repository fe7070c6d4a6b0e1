//! Physical memory protection: the entry table, its registers, and the access check.

use crate::bits::{field, slice_bits, truncate_54};
use crate::hart::{Core, Privilege, PMPADDR_MAX};
use crate::trap::ExceptionType;
use vstd::prelude::*;

verus! {

/// The kind of a memory access.
#[derive(Clone, Copy, Debug, PartialEq, Eq, Structural)]
pub enum AccessType {
    Read,
    Write,
    ReadWrite,
    Execute,
}

/// Width in bytes of the accesses that `pmp_check` tests.
pub const ACCESS_WIDTH: u64 = 8;

/// Address-matching mode `OFF`: the entry matches nothing.
pub const PMP_OFF: u8 = 0;
/// Address-matching mode `TOR`: top of range, the previous entry gives the bottom.
pub const PMP_TOR: u8 = 1;
/// Address-matching mode `NA4`: a naturally aligned four-byte region.
pub const PMP_NA4: u8 = 2;
/// Address-matching mode `NAPOT`: a naturally aligned power-of-two region.
pub const PMP_NAPOT: u8 = 3;

/// Read permission bit of a configuration byte.
pub const PMP_R: u8 = 0x01;
/// Write permission bit of a configuration byte.
pub const PMP_W: u8 = 0x02;
/// Execute permission bit of a configuration byte.
pub const PMP_X: u8 = 0x04;
/// Lock bit of a configuration byte.
pub const PMP_L: u8 = 0x80;

pub open spec fn match_type(cfg: u8) -> u8 {
    (cfg >> 3u8) & 3u8
}

pub open spec fn locked(cfg: u8) -> bool {
    cfg & PMP_L != 0
}

/// A locked `TOR` entry also protects the address register below it.
pub open spec fn tor_locked(cfg: u8) -> bool {
    locked(cfg) && match_type(cfg) == PMP_TOR
}

/// The byte range `[lo, hi)` that an entry covers, if its mode is not `OFF`.
pub open spec fn entry_range(cfg: u8, addr: u64, prev: u64) -> Option<(int, int)> {
    let t = match_type(cfg);
    if t == PMP_TOR {
        Some((prev * 4, addr * 4))
    } else if t == PMP_NA4 {
        Some((addr * 4, addr * 4 + 4))
    } else if t == PMP_NAPOT {
        let mask = addr ^ ((addr + 1) as u64);
        let lo = addr & !mask;
        Some((lo * 4, (lo + mask + 1) * 4))
    } else {
        None
    }
}

/// How the range of an entry relates to the access `[addr, addr + width)`.
#[derive(Clone, Copy, Debug, PartialEq, Eq, Structural)]
pub enum AddrMatch {
    NoMatch,
    PartialMatch,
    Match,
}

pub open spec fn match_addr(addr: int, width: int, rng: Option<(int, int)>) -> AddrMatch {
    match rng {
        None => AddrMatch::NoMatch,
        Some((lo, hi)) => if hi <= lo {
            AddrMatch::NoMatch
        } else if addr + width <= lo || hi <= addr {
            AddrMatch::NoMatch
        } else if lo <= addr && addr + width <= hi {
            AddrMatch::Match
        } else {
            AddrMatch::PartialMatch
        },
    }
}

/// Whether the permission bits of `cfg` allow the access.
pub open spec fn permits(cfg: u8, acc: AccessType) -> bool {
    match acc {
        AccessType::Read => cfg & PMP_R != 0,
        AccessType::Write => cfg & PMP_W != 0,
        AccessType::ReadWrite => cfg & PMP_R != 0 && cfg & PMP_W != 0,
        AccessType::Execute => cfg & PMP_X != 0,
    }
}

/// The access fault that a denied access raises.
pub open spec fn access_fault(acc: AccessType) -> ExceptionType {
    match acc {
        AccessType::Read => ExceptionType::LoadAccessFault,
        AccessType::Write | AccessType::ReadWrite => ExceptionType::SamoAccessFault,
        AccessType::Execute => ExceptionType::FetchAccessFault,
    }
}

/// Verdict of one entry: `None` to go on to the next entry, `Some(true)` to allow the access,
/// `Some(false)` to deny it.
pub open spec fn entry_verdict(
    cfg: u8,
    addr_reg: u64,
    prev_reg: u64,
    addr: int,
    acc: AccessType,
    p: Privilege,
) -> Option<bool> {
    match match_addr(addr, ACCESS_WIDTH as int, entry_range(cfg, addr_reg, prev_reg)) {
        AddrMatch::NoMatch => None,
        AddrMatch::PartialMatch => Some(false),
        AddrMatch::Match => Some(permits(cfg, acc) || (p == Privilege::Machine && !locked(cfg))),
    }
}

/// Result when no entry matches: Machine level is allowed, lower levels are denied.
pub open spec fn default_result(acc: AccessType, p: Privilege) -> Option<ExceptionType> {
    if p == Privilege::Machine {
        None
    } else {
        Some(access_fault(acc))
    }
}

/// The address register below entry `i`, zero for the first entry.
pub open spec fn prev_addr(addrs: Seq<u64>, i: int) -> u64 {
    if i == 0 {
        0
    } else {
        addrs[i - 1]
    }
}

/// The result of checking an access against entries `i..count`, first match wins.
pub open spec fn pmp_result_from(
    cfgs: Seq<u8>,
    addrs: Seq<u64>,
    count: int,
    addr: int,
    acc: AccessType,
    p: Privilege,
    i: int,
) -> Option<ExceptionType>
    decreases count - i,
{
    if i >= count || i < 0 {
        default_result(acc, p)
    } else {
        match entry_verdict(cfgs[i], addrs[i], prev_addr(addrs, i), addr, acc, p) {
            None => pmp_result_from(cfgs, addrs, count, addr, acc, p, i + 1),
            Some(true) => None,
            Some(false) => Some(access_fault(acc)),
        }
    }
}

impl Core {
    /// The result of an 8-byte access check at `addr`, at the current privilege level.
    pub open spec fn pmp_result(&self, addr: u64, acc: AccessType) -> Option<ExceptionType> {
        pmp_result_from(
            self.pmpcfg@,
            self.pmpaddr@,
            self.config.pmp_count as int,
            addr as int,
            acc,
            self.cur_privilege,
            0,
        )
    }
}

/// Legal value of a configuration byte after writing `v` over `old`: a locked entry keeps its
/// value; bits 5 and 6 read as zero; the reserved combination W without R clears R, W and X.
pub open spec fn write_cfg(old: u8, v: u8) -> u8 {
    if locked(old) {
        old
    } else {
        let c = v & 0x9fu8;
        if c & 3u8 == PMP_W {
            c & 0xf8u8
        } else {
            c
        }
    }
}

fn write_cfg_exec(old: u8, v: u8) -> (r: u8)
    ensures
        r == write_cfg(old, v),
{
    if old & PMP_L != 0 {
        old
    } else {
        let c = v & 0x9fu8;
        if c & 3u8 == PMP_W {
            c & 0xf8u8
        } else {
            c
        }
    }
}

/// The PMP address register `i` after writing `v`: unchanged when entry `i` is locked, or when
/// entry `i + 1` is a locked `TOR` entry; else the 54 low bits of `v`.
pub open spec fn write_addr(cfgs: Seq<u8>, addrs: Seq<u64>, i: int, v: u64) -> u64 {
    if locked(cfgs[i]) || (i + 1 < 64 && tor_locked(cfgs[i + 1])) {
        addrs[i]
    } else {
        v & PMPADDR_MAX
    }
}

/// Byte `j` of the configuration register value `v`.
pub open spec fn cfg_byte(v: u64, j: int) -> u8 {
    field(v, (8 * j) as u64, 8) as u8
}

/// The configuration table after writing `v` to configuration register `index`: on RV64 the
/// even register `index` holds entries `4 * index .. 4 * index + 8`.
pub open spec fn write_cfg_reg(cfgs: Seq<u8>, index: int, v: u64) -> Seq<u8> {
    Seq::new(
        cfgs.len(),
        |k: int|
            if 4 * index <= k < 4 * index + 8 {
                write_cfg(cfgs[k], cfg_byte(v, k - 4 * index))
            } else {
                cfgs[k]
            },
    )
}

impl Core {
    /// Set the `pmpaddr<index>` register to the given value.
    pub fn set_pmpaddr(&mut self, index: usize, val: u64)
        requires
            old(self).wf(),
            index < 64,
        ensures
            final(self).wf(),
            final(self).pmpaddr@ == old(self).pmpaddr@.update(
                index as int,
                write_addr(old(self).pmpcfg@, old(self).pmpaddr@, index as int, val),
            ),
            final(self).pmpcfg@ == old(self).pmpcfg@,
            final(self).x@ == old(self).x@,
            final(self).f@ == old(self).f@,
            final(self).csrs@ == old(self).csrs@,
            final(self).pc == old(self).pc,
            final(self).next_pc == old(self).next_pc,
            final(self).cur_privilege == old(self).cur_privilege,
            final(self).htif_tohost == old(self).htif_tohost,
            final(self).htif_done == old(self).htif_done,
            final(self).htif_exit_code == old(self).htif_exit_code,
            final(self).config == old(self).config,
    {
        let cfg = self.pmpcfg[index];
        let next_tor_locked = index + 1 < 64 && self.pmpcfg[index + 1] & PMP_L != 0 && (
        self.pmpcfg[index + 1] >> 3u8) & 3u8 == PMP_TOR;
        if cfg & PMP_L == 0 && !next_tor_locked {
            let v = truncate_54(val);
            self.pmpaddr.set(index, v);
        }
        assert(forall|i: int| 0 <= i < 64 ==> #[trigger] self.pmpaddr@[i] <= PMPADDR_MAX) by {
            assert(val & PMPADDR_MAX <= PMPADDR_MAX) by (bit_vector);
        }
    }

    /// Set the `pmpcfg<index>` register to the given value. On RV64 only even registers exist;
    /// register `index` holds the configuration bytes of entries `4 * index .. 4 * index + 8`.
    pub fn set_pmpcfg(&mut self, index: usize, val: u64)
        requires
            old(self).wf(),
            index < 16,
            index % 2 == 0,
        ensures
            final(self).wf(),
            final(self).pmpcfg@ == write_cfg_reg(old(self).pmpcfg@, index as int, val),
            final(self).pmpaddr@ == old(self).pmpaddr@,
            final(self).x@ == old(self).x@,
            final(self).f@ == old(self).f@,
            final(self).csrs@ == old(self).csrs@,
            final(self).pc == old(self).pc,
            final(self).next_pc == old(self).next_pc,
            final(self).cur_privilege == old(self).cur_privilege,
            final(self).htif_tohost == old(self).htif_tohost,
            final(self).htif_done == old(self).htif_done,
            final(self).htif_exit_code == old(self).htif_exit_code,
            final(self).config == old(self).config,
    {
        let ghost start = self.pmpcfg@;
        let base: usize = index * 4;
        let mut j: usize = 0;
        while j < 8
            invariant
                j <= 8,
                base == index * 4,
                index < 16,
                index % 2 == 0,
                self.pmpcfg@.len() == 64,
                self.pmpaddr@ == old(self).pmpaddr@,
                self.x@ == old(self).x@,
                self.f@ == old(self).f@,
                self.csrs@ == old(self).csrs@,
                self.pc == old(self).pc,
                self.next_pc == old(self).next_pc,
                self.cur_privilege == old(self).cur_privilege,
                self.htif_tohost == old(self).htif_tohost,
                self.htif_done == old(self).htif_done,
                self.htif_exit_code == old(self).htif_exit_code,
                self.config == old(self).config,
                start == old(self).pmpcfg@,
                forall|k: int|
                    0 <= k < 64 ==> #[trigger] self.pmpcfg@[k] == if base <= k < base + j {
                        write_cfg(start[k], cfg_byte(val, k - base))
                    } else {
                        start[k]
                    },
            decreases 8 - j,
        {
            let byte = slice_bits(val, 8 * (j as u64), 8) as u8;
            let k = base + j;
            let old_cfg = self.pmpcfg[k];
            let new_cfg = write_cfg_exec(old_cfg, byte);
            self.pmpcfg.set(k, new_cfg);
            j = j + 1;
        }
        assert(self.pmpcfg@ =~= write_cfg_reg(start, index as int, val));
    }

    /// Check if an 8 byte access is allowed with the current mode and PMP configuration.
    ///
    /// Returns `None` if the access is allowed, or the access fault to raise otherwise.
    pub fn pmp_check(&self, addr: u64, access_kind: AccessType) -> (r: Option<ExceptionType>)
        requires
            self.wf(),
        ensures
            r == self.pmp_result(addr, access_kind),
    {
        let count = self.config.pmp_count as usize;
        let p = self.cur_privilege;
        let mut i: usize = 0;
        while i < count
            invariant
                self.wf(),
                count == self.config.pmp_count,
                p == self.cur_privilege,
                i <= count,
                self.pmp_result(addr, access_kind) == pmp_result_from(
                    self.pmpcfg@,
                    self.pmpaddr@,
                    count as int,
                    addr as int,
                    access_kind,
                    p,
                    i as int,
                ),
            decreases count - i,
        {
            let prev = if i == 0 {
                0
            } else {
                self.pmpaddr[i - 1]
            };
            match self.entry_verdict_exec(i, prev, addr, access_kind) {
                None => {},
                Some(true) => {
                    return None;
                },
                Some(false) => {
                    return Some(fault_of(access_kind));
                },
            }
            i = i + 1;
        }
        if p == Privilege::Machine {
            None
        } else {
            Some(fault_of(access_kind))
        }
    }

    fn entry_verdict_exec(&self, i: usize, prev: u64, addr: u64, acc: AccessType) -> (r: Option<
        bool,
    >)
        requires
            self.wf(),
            i < 64,
            prev == prev_addr(self.pmpaddr@, i as int),
        ensures
            r == entry_verdict(
                self.pmpcfg@[i as int],
                self.pmpaddr@[i as int],
                prev,
                addr as int,
                acc,
                self.cur_privilege,
            ),
    {
        let cfg = self.pmpcfg[i];
        let a = self.pmpaddr[i];
        assert(prev <= PMPADDR_MAX);
        let t = (cfg >> 3u8) & 3u8;
        // The range as u128 values, which cannot overflow for 54-bit registers.
        let (lo, hi): (u128, u128) = if t == PMP_TOR {
            (prev as u128 * 4, a as u128 * 4)
        } else if t == PMP_NA4 {
            (a as u128 * 4, a as u128 * 4 + 4)
        } else if t == PMP_NAPOT {
            let mask = a ^ (a + 1);
            let lo = a & !mask;
            (lo as u128 * 4, (lo as u128 + mask as u128 + 1) * 4)
        } else {
            return None;
        };
        let start = addr as u128;
        let end = addr as u128 + ACCESS_WIDTH as u128;
        if hi <= lo || end <= lo || hi <= start {
            None
        } else if lo <= start && end <= hi {
            let ok = match acc {
                AccessType::Read => cfg & PMP_R != 0,
                AccessType::Write => cfg & PMP_W != 0,
                AccessType::ReadWrite => cfg & PMP_R != 0 && cfg & PMP_W != 0,
                AccessType::Execute => cfg & PMP_X != 0,
            };
            Some(ok || (self.cur_privilege == Privilege::Machine && cfg & PMP_L == 0))
        } else {
            Some(false)
        }
    }
}

fn fault_of(acc: AccessType) -> (r: ExceptionType)
    ensures
        r == access_fault(acc),
{
    match acc {
        AccessType::Read => ExceptionType::LoadAccessFault,
        AccessType::Write | AccessType::ReadWrite => ExceptionType::SamoAccessFault,
        AccessType::Execute => ExceptionType::FetchAccessFault,
    }
}

/// Whether every entry below `count` has mode `OFF`.
pub open spec fn table_off(cfgs: Seq<u8>, count: int) -> bool {
    forall|i: int| 0 <= i < count ==> match_type(#[trigger] cfgs[i]) == PMP_OFF
}

/// Entries in `[i, j)` with mode `OFF` are passed over.
proof fn lemma_skip_off(
    cfgs: Seq<u8>,
    addrs: Seq<u64>,
    count: int,
    addr: int,
    acc: AccessType,
    p: Privilege,
    i: int,
    j: int,
)
    requires
        0 <= i <= j <= count,
        count <= cfgs.len(),
        count <= addrs.len(),
        forall|k: int| i <= k < j ==> match_type(#[trigger] cfgs[k]) == PMP_OFF,
    ensures
        pmp_result_from(cfgs, addrs, count, addr, acc, p, i) == pmp_result_from(
            cfgs,
            addrs,
            count,
            addr,
            acc,
            p,
            j,
        ),
    decreases j - i,
{
    if i < j {
        assert(match_type(cfgs[i]) == PMP_OFF);
        lemma_skip_off(cfgs, addrs, count, addr, acc, p, i + 1, j);
    }
}

/// With every entry `OFF`, Machine level may make any access.
pub proof fn lemma_machine_empty_table_allows(core: Core, addr: u64, acc: AccessType)
    requires
        core.wf(),
        core.cur_privilege == Privilege::Machine,
        table_off(core.pmpcfg@, core.config.pmp_count as int),
    ensures
        core.pmp_result(addr, acc) == None::<ExceptionType>,
{
    let count = core.config.pmp_count as int;
    lemma_skip_off(core.pmpcfg@, core.pmpaddr@, count, addr as int, acc, core.cur_privilege, 0, count);
}

/// With every entry `OFF`, a level below Machine faults on every access, with the fault that
/// matches the access kind.
pub proof fn lemma_lower_level_empty_table_denies(core: Core, addr: u64, acc: AccessType)
    requires
        core.wf(),
        core.cur_privilege != Privilege::Machine,
        table_off(core.pmpcfg@, core.config.pmp_count as int),
    ensures
        core.pmp_result(addr, acc) == Some(access_fault(acc)),
{
    let count = core.config.pmp_count as int;
    lemma_skip_off(core.pmpcfg@, core.pmpaddr@, count, addr as int, acc, core.cur_privilege, 0, count);
}

/// With one readable `TOR` entry `k` covering `[lo, hi)` and every other entry `OFF`, a User
/// level read of 8 bytes at `addr` is allowed exactly when it lies inside `[lo, hi)`, and faults
/// with a load access fault otherwise.
pub proof fn lemma_single_tor_entry_read(core: Core, k: int, addr: u64)
    requires
        core.wf(),
        core.cur_privilege == Privilege::User,
        0 <= k < core.config.pmp_count,
        match_type(core.pmpcfg@[k]) == PMP_TOR,
        core.pmpcfg@[k] & PMP_R != 0,
        forall|i: int|
            0 <= i < core.config.pmp_count && i != k ==> match_type(#[trigger] core.pmpcfg@[i])
                == PMP_OFF,
    ensures
        ({
            let lo = prev_addr(core.pmpaddr@, k) * 4;
            let hi = core.pmpaddr@[k] * 4;
            core.pmp_result(addr, AccessType::Read) == if lo <= addr && addr + 8 <= hi {
                None
            } else {
                Some(ExceptionType::LoadAccessFault)
            }
        }),
{
    let count = core.config.pmp_count as int;
    let cfgs = core.pmpcfg@;
    let addrs = core.pmpaddr@;
    let p = core.cur_privilege;
    lemma_skip_off(cfgs, addrs, count, addr as int, AccessType::Read, p, 0, k);
    lemma_skip_off(cfgs, addrs, count, addr as int, AccessType::Read, p, k + 1, count);
}

} // verus!
