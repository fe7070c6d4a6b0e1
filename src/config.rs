//! Static description of a hart variant: which extensions and how many PMP entries it has.

use vstd::prelude::*;

verus! {

/// The largest number of PMP entries the architecture allows.
pub const MAX_PMP_ENTRIES: u64 = 64;

/// Which optional parts of the architecture a hart implements.
#[derive(Clone, Copy, Debug, PartialEq, Eq, Structural)]
pub struct Config {
    /// Number of implemented PMP entries, at most 64.
    pub pmp_count: u64,
    /// Supervisor mode.
    pub ext_s: bool,
    /// User mode.
    pub ext_u: bool,
    /// Single-precision floating point.
    pub ext_f: bool,
    /// Vector extension.
    pub ext_v: bool,
}

impl Config {
    pub open spec fn wf(&self) -> bool {
        self.pmp_count <= MAX_PMP_ENTRIES
    }
}

/// The SiFive U74 application core: RV64GC with Machine, Supervisor and User modes and 16 PMP
/// entries.
pub fn u74() -> (r: Config)
    ensures
        r.wf(),
        r.pmp_count == 16,
        r.ext_s,
        r.ext_u,
        r.ext_f,
        !r.ext_v,
{
    Config { pmp_count: 16, ext_s: true, ext_u: true, ext_f: true, ext_v: false }
}

} // verus!
