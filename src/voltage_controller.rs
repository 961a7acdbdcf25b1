//! Load-driven per-core undervolt controller.
//!
//! Loads are integers in hundredths of a percent. Up to a core's threshold
//! the aggressive offset applies; above it the offset moves linearly to the
//! safe one at full load. Writing the offset to hardware is left to the
//! caller.

use vstd::prelude::*;
use vstd::string::*;
use std::path::PathBuf;
use crate::controller_errors::VoltageControllerError;
use crate::fan_curve::{lerp_round, lerp_round_exec};
use crate::ryzenadj::path_from;
use crate::safety::clamp_value;
use crate::strategy::{CoreBounds, clamp_spec};

verus! {

/// Most aggressive offset a core may be given (mV).
pub const MIN_OFFSET_MV: i32 = -100;

/// Full load in hundredths of a percent.
pub const FULL_LOAD_CENTI: i32 = 10_000;

/// One core's offsets: `min_mv` (aggressive, more negative) below the
/// threshold, rising to `max_mv` (safe) at full load.
#[derive(Debug, Clone, Copy, PartialEq, Eq, Structural)]
pub struct CoreConfig {
    pub core_id: usize,
    pub min_mv: i32,
    pub max_mv: i32,
    /// Load threshold in hundredths of a percent.
    pub threshold: u32,
}

pub open spec fn valid_core_config(min_mv: int, max_mv: int, threshold: int) -> bool {
    &&& MIN_OFFSET_MV <= min_mv <= 0
    &&& MIN_OFFSET_MV <= max_mv <= 0
    &&& min_mv <= max_mv
    &&& 0 <= threshold <= FULL_LOAD_CENTI
}

/// Offset at `load`: `min_mv` up to the threshold, then `min_mv` plus the
/// share of the way to `max_mv` that the load has covered above the
/// threshold, that share rounded half away from zero.
pub open spec fn voltage_for(c: CoreConfig, load: u32) -> int {
    let l: int = if load > FULL_LOAD_CENTI { FULL_LOAD_CENTI as int } else { load as int };
    if l <= c.threshold {
        c.min_mv as int
    } else {
        c.min_mv + lerp_round(0, c.max_mv - c.min_mv, l - c.threshold, FULL_LOAD_CENTI - c.threshold)
    }
}

/// The bounds the offsets stay within: `max_mv` is the safe bound and
/// `min_mv` the aggressive one.
pub open spec fn bounds_of(c: CoreConfig) -> CoreBounds {
    CoreBounds { min_mv: c.max_mv, max_mv: c.min_mv, threshold: c.threshold }
}

impl CoreConfig {
    /// A checked configuration: both offsets within -100 to 0 mV, `min_mv`
    /// at most `max_mv`, threshold within 0 % to 100 %.
    pub fn new(core_id: usize, min_mv: i32, max_mv: i32, threshold: i32) -> (r: Result<Self, String>)
        ensures
            r.is_ok() <==> valid_core_config(min_mv as int, max_mv as int, threshold as int),
            r matches Ok(c) ==> c == (CoreConfig { core_id, min_mv, max_mv, threshold: threshold as u32 }),
    {
        if min_mv < MIN_OFFSET_MV || min_mv > 0 {
            return Err(String::from_str("min_mv must be in range [-100, 0]"));
        }
        if max_mv < MIN_OFFSET_MV || max_mv > 0 {
            return Err(String::from_str("max_mv must be in range [-100, 0]"));
        }
        if min_mv > max_mv {
            return Err(String::from_str("min_mv must be <= max_mv (more negative <= less negative)"));
        }
        if threshold < 0 || threshold > FULL_LOAD_CENTI {
            return Err(String::from_str("threshold must be in range [0, 100]"));
        }
        Ok(CoreConfig { core_id, min_mv, max_mv, threshold: threshold as u32 })
    }

    /// Offset at `load` (hundredths of a percent, capped at 100 %).
    pub fn calculate_voltage(&self, load: u32) -> (r: i32)
        ensures
            r as int == voltage_for(*self, load),
            self.min_mv <= self.max_mv ==> self.min_mv <= r <= self.max_mv,
    {
        let l: i64 = if load > FULL_LOAD_CENTI as u32 { FULL_LOAD_CENTI as i64 } else { load as i64 };
        if l <= self.threshold as i64 {
            return self.min_mv;
        }
        let range: i64 = FULL_LOAD_CENTI as i64 - self.threshold as i64;
        let d: i64 = self.max_mv as i64 - self.min_mv as i64;
        let q = lerp_round_exec(0, d, l - self.threshold as i64, range);
        (self.min_mv as i64 + q) as i32
    }

    /// The bounds the offsets stay within.
    pub fn to_bounds(&self) -> (r: CoreBounds)
        ensures
            r == bounds_of(*self),
    {
        CoreBounds { min_mv: self.max_mv, max_mv: self.min_mv, threshold: self.threshold }
    }
}

#[derive(Debug, Clone, Copy)]
struct CoreState {
    config: CoreConfig,
    current_voltage: i32,
    last_load: u32,
}

pub open spec fn default_config(core_id: usize) -> CoreConfig {
    CoreConfig { core_id, min_mv: -30i32, max_mv: -15i32, threshold: 5000u32 }
}

/// Per-core configurations and current offsets.
pub struct VoltageController {
    cores: Vec<CoreState>,
    active: bool,
    sysfs_base: PathBuf,
}

impl VoltageController {
    pub closed spec fn configs(&self) -> Seq<CoreConfig> {
        self.cores@.map_values(|s: CoreState| s.config)
    }

    pub closed spec fn voltages(&self) -> Seq<i32> {
        self.cores@.map_values(|s: CoreState| s.current_voltage)
    }

    pub closed spec fn spec_active(&self) -> bool {
        self.active
    }

    fn default_cores(num_cores: usize) -> (r: Vec<CoreState>)
        ensures
            r@.len() == num_cores,
            forall|i: int| 0 <= i < num_cores ==> r@[i].config == default_config(i as usize)
                && r@[i].current_voltage == 0,
    {
        let mut v: Vec<CoreState> = Vec::new();
        let mut k: usize = 0;
        while k < num_cores
            invariant
                k <= num_cores,
                v@.len() == k,
                forall|i: int| 0 <= i < k ==> v@[i].config == default_config(i as usize)
                    && v@[i].current_voltage == 0,
            decreases num_cores - k,
        {
            v.push(CoreState {
                config: CoreConfig { core_id: k, min_mv: -30, max_mv: -15, threshold: 5000 },
                current_voltage: 0,
                last_load: 0,
            });
            k = k + 1;
        }
        v
    }

    /// A stopped controller for `num_cores` cores with default offsets
    /// (-30 mV to -15 mV above 50 %), writing under the system's CPU tree.
    pub fn new(num_cores: usize) -> (r: Self)
        ensures
            !r.spec_active(),
            r.configs() == Seq::new(num_cores as nat, |i: int| default_config(i as usize)),
            r.voltages() == Seq::new(num_cores as nat, |i: int| 0i32),
    {
        Self::with_sysfs_base(num_cores, path_from("/sys/devices/system/cpu"))
    }

    /// The same, writing under `sysfs_base`.
    pub fn with_sysfs_base(num_cores: usize, sysfs_base: PathBuf) -> (r: Self)
        ensures
            !r.spec_active(),
            r.configs() == Seq::new(num_cores as nat, |i: int| default_config(i as usize)),
            r.voltages() == Seq::new(num_cores as nat, |i: int| 0i32),
    {
        let r = VoltageController { cores: Self::default_cores(num_cores), active: false, sysfs_base };
        assert(r.configs() =~= Seq::new(num_cores as nat, |i: int| default_config(i as usize)));
        assert(r.voltages() =~= Seq::new(num_cores as nat, |i: int| 0i32));
        r
    }

    /// Base directory under which offsets are written.
    pub fn sysfs_base(&self) -> &PathBuf {
        &self.sysfs_base
    }

    /// Number of cores.
    pub fn num_cores(&self) -> (r: usize)
        ensures
            r == self.configs().len(),
    {
        self.cores.len()
    }

    /// Whether the controller runs.
    pub fn is_active(&self) -> (r: bool)
        ensures
            r == self.spec_active(),
    {
        self.active
    }

    /// Replaces a core's configuration, if the core exists and the
    /// configuration is valid.
    pub fn set_core_config(&mut self, config: CoreConfig) -> (r: Result<(), VoltageControllerError>)
        ensures
            r.is_ok() <==> config.core_id < old(self).configs().len()
                && valid_core_config(config.min_mv as int, config.max_mv as int, config.threshold as int),
            config.core_id >= old(self).configs().len() ==> (r matches Err(VoltageControllerError::InvalidCoreId(i)) && i == config.core_id),
            r.is_ok() ==> final(self).configs() == old(self).configs().update(config.core_id as int, config),
            r.is_err() ==> final(self).configs() == old(self).configs(),
            final(self).voltages() == old(self).voltages(),
            final(self).spec_active() == old(self).spec_active(),
    {
        let id = config.core_id;
        if id >= self.cores.len() {
            return Err(VoltageControllerError::InvalidCoreId(id));
        }
        if config.threshold > FULL_LOAD_CENTI as u32 {
            return Err(VoltageControllerError::InvalidConfig(String::from_str("threshold must be in range [0, 100]")));
        }
        match CoreConfig::new(config.core_id, config.min_mv, config.max_mv, config.threshold as i32) {
            Ok(_) => {},
            Err(e) => {
                return Err(VoltageControllerError::InvalidConfig(e));
            },
        }
        let mut st = self.cores[id];
        st.config = config;
        self.cores.set(id, st);
        assert(self.configs() =~= old(self).configs().update(id as int, config));
        assert(self.voltages() =~= old(self).voltages());
        Ok(())
    }

    /// A core's configuration.
    pub fn get_core_config(&self, core_id: usize) -> (r: Result<&CoreConfig, VoltageControllerError>)
        ensures
            r.is_ok() <==> core_id < self.configs().len(),
            r matches Ok(c) ==> *c == self.configs()[core_id as int],
            r matches Err(e) ==> e matches VoltageControllerError::InvalidCoreId(i) && i == core_id,
    {
        if core_id >= self.cores.len() {
            return Err(VoltageControllerError::InvalidCoreId(core_id));
        }
        Ok(&self.cores[core_id].config)
    }

    /// Every core's configuration.
    pub fn get_all_configs(&self) -> (r: Vec<CoreConfig>)
        ensures
            r@ == self.configs(),
    {
        let n = self.cores.len();
        let mut out: Vec<CoreConfig> = Vec::new();
        let mut k: usize = 0;
        while k < n
            invariant
                n == self.cores@.len(),
                k <= n,
                out@.len() == k,
                forall|i: int| 0 <= i < k ==> out@[i] == self.cores@[i].config,
            decreases n - k,
        {
            out.push(self.cores[k].config);
            k = k + 1;
        }
        assert(out@ =~= self.configs());
        out
    }

    /// Starts the controller; fails if it runs already.
    pub fn start(&mut self) -> (r: Result<(), VoltageControllerError>)
        ensures
            r.is_ok() <==> !old(self).spec_active(),
            r matches Err(e) ==> e is AlreadyStarted,
            final(self).spec_active(),
            final(self).configs() == old(self).configs(),
            final(self).voltages() == old(self).voltages(),
    {
        if self.active {
            return Err(VoltageControllerError::AlreadyStarted);
        }
        self.active = true;
        Ok(())
    }

    /// Stops the controller and sets every core's offset to zero, which the
    /// caller then writes; fails if it is not running.
    pub fn stop(&mut self) -> (r: Result<(), VoltageControllerError>)
        ensures
            r.is_ok() <==> old(self).spec_active(),
            r matches Err(e) ==> e is NotStarted,
            !final(self).spec_active(),
            final(self).configs() == old(self).configs(),
            r.is_ok() ==> final(self).voltages() == Seq::new(old(self).voltages().len(), |i: int| 0i32),
            r.is_err() ==> final(self).voltages() == old(self).voltages(),
    {
        if !self.active {
            return Err(VoltageControllerError::NotStarted);
        }
        let n = self.cores.len();
        let mut k: usize = 0;
        while k < n
            invariant
                n == self.cores@.len(),
                n == old(self).cores@.len(),
                k <= n,
                self.active == old(self).active,
                forall|i: int| 0 <= i < n ==> self.cores@[i].config == old(self).cores@[i].config,
                forall|i: int| 0 <= i < k ==> self.cores@[i].current_voltage == 0,
            decreases n - k,
        {
            let mut st = self.cores[k];
            st.current_voltage = 0;
            self.cores.set(k, st);
            k = k + 1;
        }
        self.active = false;
        assert(self.configs() =~= old(self).configs());
        assert(self.voltages() =~= Seq::new(old(self).voltages().len(), |i: int| 0i32));
        Ok(())
    }

    /// Computes a core's offset for `load`, clamped to its bounds, records it
    /// and returns it for the caller to write.
    pub fn update_and_apply(&mut self, core_id: usize, load: u32) -> (r: Result<i32, VoltageControllerError>)
        ensures
            r.is_ok() <==> old(self).spec_active() && core_id < old(self).configs().len(),
            !old(self).spec_active() ==> (r matches Err(e) && e is NotStarted),
            r matches Ok(v) ==> v as int == clamp_spec(
                voltage_for(old(self).configs()[core_id as int], load),
                bounds_of(old(self).configs()[core_id as int]),
            ) && final(self).voltages() == old(self).voltages().update(core_id as int, v),
            r.is_err() ==> final(self).voltages() == old(self).voltages(),
            final(self).configs() == old(self).configs(),
            final(self).spec_active() == old(self).spec_active(),
    {
        if !self.active {
            return Err(VoltageControllerError::NotStarted);
        }
        if core_id >= self.cores.len() {
            return Err(VoltageControllerError::InvalidCoreId(core_id));
        }
        let mut st = self.cores[core_id];
        let target = st.config.calculate_voltage(load);
        let bounds = st.config.to_bounds();
        let safe = clamp_value(target, &bounds);
        st.current_voltage = safe;
        st.last_load = load;
        self.cores.set(core_id, st);
        assert(self.configs() =~= old(self).configs());
        assert(self.voltages() =~= old(self).voltages().update(core_id as int, safe));
        Ok(safe)
    }

    /// A core's current offset.
    pub fn get_current_voltage(&self, core_id: usize) -> (r: Result<i32, VoltageControllerError>)
        ensures
            r.is_ok() <==> core_id < self.voltages().len(),
            r matches Ok(v) ==> v == self.voltages()[core_id as int],
    {
        if core_id >= self.cores.len() {
            return Err(VoltageControllerError::InvalidCoreId(core_id));
        }
        Ok(self.cores[core_id].current_voltage)
    }
}

} // verus!
