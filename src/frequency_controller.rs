//! Frequency-driven undervolt controller: one frequency curve per core, the
//! last offset handed out per core, and a short-lived cache of frequency
//! readings. Reading the frequency from sysfs is left to the caller.

use vstd::prelude::*;
use std::collections::HashMap;
use std::path::PathBuf;
use std::time::Instant;
use crate::controller_errors::FrequencyControllerError;
use crate::frequency_curve::{FrequencyCurve, valid_frequency_curve, voltage_at};
use crate::ryzenadj::path_from;
use crate::watchdog::{instant_now, millis_since};

verus! {

broadcast use vstd::std_specs::hash::group_hash_axioms;

/// Default lifetime of a cached frequency reading, in milliseconds.
pub const DEFAULT_CACHE_TTL_MS: u64 = 10;

pub open spec fn strictly_sorted(s: Seq<usize>) -> bool {
    forall|i: int, j: int| 0 <= i < j < s.len() ==> s[i] < s[j]
}

/// Curves, last offsets and cached readings, per core.
pub struct FrequencyVoltageController {
    curves: HashMap<usize, FrequencyCurve>,
    loaded: Vec<usize>,
    last_voltages: HashMap<usize, i32>,
    frequency_cache: HashMap<usize, (u32, Instant)>,
    cache_ttl_ms: u64,
    sysfs_base: PathBuf,
}

impl FrequencyVoltageController {
    /// The curve of each core that has one.
    pub closed spec fn curve_map(&self) -> Map<usize, FrequencyCurve> {
        self.curves@
    }

    /// The last offset handed out for each core.
    pub closed spec fn last_map(&self) -> Map<usize, i32> {
        self.last_voltages@
    }

    /// The cached frequency (MHz) of each core.
    pub closed spec fn cached_map(&self) -> Map<usize, u32> {
        Map::new(|k: usize| self.frequency_cache@.contains_key(k), |k: usize| self.frequency_cache@[k].0)
    }

    pub closed spec fn ttl(&self) -> u64 {
        self.cache_ttl_ms
    }

    pub closed spec fn wf(&self) -> bool {
        &&& strictly_sorted(self.loaded@)
        &&& forall|k: usize| self.curves@.contains_key(k) <==> self.loaded@.contains(k)
    }

    /// A controller with no curves, reading under the system's CPU tree.
    pub fn new() -> (r: Self)
        ensures
            r.wf(),
            r.curve_map() == Map::<usize, FrequencyCurve>::empty(),
            r.last_map() == Map::<usize, i32>::empty(),
            r.cached_map() == Map::<usize, u32>::empty(),
            r.ttl() == DEFAULT_CACHE_TTL_MS,
    {
        Self::with_sysfs_base(path_from("/sys/devices/system/cpu"))
    }

    /// The same, reading under `sysfs_base`.
    pub fn with_sysfs_base(sysfs_base: PathBuf) -> (r: Self)
        ensures
            r.wf(),
            r.curve_map() == Map::<usize, FrequencyCurve>::empty(),
            r.last_map() == Map::<usize, i32>::empty(),
            r.cached_map() == Map::<usize, u32>::empty(),
            r.ttl() == DEFAULT_CACHE_TTL_MS,
    {
        let r = FrequencyVoltageController {
            curves: HashMap::new(),
            loaded: Vec::new(),
            last_voltages: HashMap::new(),
            frequency_cache: HashMap::new(),
            cache_ttl_ms: DEFAULT_CACHE_TTL_MS,
            sysfs_base,
        };
        assert(r.cached_map() =~= Map::<usize, u32>::empty());
        r
    }

    /// How long a frequency reading stays valid, in milliseconds.
    pub fn cache_ttl_ms(&self) -> (r: u64)
        ensures
            r == self.ttl(),
    {
        self.cache_ttl_ms
    }

    /// Base directory of the CPU sysfs tree.
    pub fn sysfs_base(&self) -> &PathBuf {
        &self.sysfs_base
    }

    /// Sets how long a frequency reading stays valid.
    pub fn set_cache_ttl(&mut self, ttl_ms: u64)
        requires
            old(self).wf(),
        ensures
            final(self).wf(),
            final(self).ttl() == ttl_ms,
            final(self).curve_map() == old(self).curve_map(),
            final(self).last_map() == old(self).last_map(),
            final(self).cached_map() == old(self).cached_map(),
    {
        self.cache_ttl_ms = ttl_ms;
    }

    fn add_loaded(&mut self, core_id: usize)
        requires
            strictly_sorted(old(self).loaded@),
        ensures
            strictly_sorted(final(self).loaded@),
            forall|k: usize| final(self).loaded@.contains(k) <==> (old(self).loaded@.contains(k) || k == core_id),
            final(self).curves@ == old(self).curves@,
            final(self).last_voltages@ == old(self).last_voltages@,
            final(self).frequency_cache@ == old(self).frequency_cache@,
            final(self).cache_ttl_ms == old(self).cache_ttl_ms,
    {
        let n = self.loaded.len();
        let mut j: usize = 0;
        while j < n && self.loaded[j] < core_id
            invariant
                n == self.loaded@.len(),
                j <= n,
                self.loaded@ == old(self).loaded@,
                self.curves@ == old(self).curves@,
                self.last_voltages@ == old(self).last_voltages@,
                self.frequency_cache@ == old(self).frequency_cache@,
                self.cache_ttl_ms == old(self).cache_ttl_ms,
                forall|i: int| 0 <= i < j ==> self.loaded@[i] < core_id,
            decreases n - j,
        {
            j = j + 1;
        }
        if j < n && self.loaded[j] == core_id {
            return;
        }
        let ghost before = self.loaded@;
        self.loaded.insert(j, core_id);
        assert forall|k: usize| self.loaded@.contains(k) <==> (before.contains(k) || k == core_id) by {
            if self.loaded@.contains(k) {
                let i = choose|i: int| 0 <= i < self.loaded@.len() && self.loaded@[i] == k;
                if i < j {
                    assert(before[i] == k);
                } else if i > j {
                    assert(before[i - 1] == k);
                }
            }
            if before.contains(k) {
                let i = choose|i: int| 0 <= i < before.len() && before[i] == k;
                if i < j {
                    assert(self.loaded@[i] == k);
                } else {
                    assert(self.loaded@[i + 1] == k);
                }
            }
            if k == core_id {
                assert(self.loaded@[j as int] == k);
            }
        }
    }

    fn drop_loaded(&mut self, core_id: usize)
        requires
            strictly_sorted(old(self).loaded@),
        ensures
            strictly_sorted(final(self).loaded@),
            forall|k: usize| final(self).loaded@.contains(k) <==> (old(self).loaded@.contains(k) && k != core_id),
            final(self).curves@ == old(self).curves@,
            final(self).last_voltages@ == old(self).last_voltages@,
            final(self).frequency_cache@ == old(self).frequency_cache@,
            final(self).cache_ttl_ms == old(self).cache_ttl_ms,
    {
        let n = self.loaded.len();
        let mut j: usize = 0;
        while j < n && self.loaded[j] != core_id
            invariant
                n == self.loaded@.len(),
                j <= n,
                self.loaded@ == old(self).loaded@,
                self.curves@ == old(self).curves@,
                self.last_voltages@ == old(self).last_voltages@,
                self.frequency_cache@ == old(self).frequency_cache@,
                self.cache_ttl_ms == old(self).cache_ttl_ms,
                forall|i: int| 0 <= i < j ==> self.loaded@[i] != core_id,
            decreases n - j,
        {
            j = j + 1;
        }
        if j == n {
            return;
        }
        let ghost before = self.loaded@;
        self.loaded.remove(j);
        assert forall|k: usize| self.loaded@.contains(k) <==> (before.contains(k) && k != core_id) by {
            if self.loaded@.contains(k) {
                let i = choose|i: int| 0 <= i < self.loaded@.len() && self.loaded@[i] == k;
                if i < j {
                    assert(before[i] == k);
                } else {
                    assert(before[i + 1] == k);
                }
            }
            if before.contains(k) && k != core_id {
                let i = choose|i: int| 0 <= i < before.len() && before[i] == k;
                if i < j {
                    assert(self.loaded@[i] == k);
                } else {
                    assert(i != j);
                    assert(self.loaded@[i - 1] == k);
                }
            }
        }
    }

    /// Loads a core's curve if it is valid, replacing any curve it had and
    /// forgetting its last offset and cached reading.
    pub fn load_curve(&mut self, curve: FrequencyCurve) -> (r: Result<(), FrequencyControllerError>)
        requires
            old(self).wf(),
        ensures
            final(self).wf(),
            r.is_ok() <==> valid_frequency_curve(curve.points@),
            r matches Err(e) ==> e is InvalidCurve,
            r.is_ok() ==> final(self).curve_map() == old(self).curve_map().insert(curve.core_id, curve)
                && final(self).last_map() == old(self).last_map().remove(curve.core_id)
                && final(self).cached_map() == old(self).cached_map().remove(curve.core_id),
            r.is_err() ==> final(self).curve_map() == old(self).curve_map()
                && final(self).last_map() == old(self).last_map()
                && final(self).cached_map() == old(self).cached_map(),
            final(self).ttl() == old(self).ttl(),
    {
        match curve.validate() {
            Ok(()) => {},
            Err(e) => {
                return Err(FrequencyControllerError::InvalidCurve(e));
            },
        }
        let core_id = curve.core_id;
        self.add_loaded(core_id);
        self.curves.insert(core_id, curve);
        self.last_voltages.remove(&core_id);
        self.frequency_cache.remove(&core_id);
        assert(self.cached_map() =~= old(self).cached_map().remove(core_id));
        Ok(())
    }

    /// Forgets a core's curve, last offset and cached reading.
    pub fn remove_curve(&mut self, core_id: usize)
        requires
            old(self).wf(),
        ensures
            final(self).wf(),
            final(self).curve_map() == old(self).curve_map().remove(core_id),
            final(self).last_map() == old(self).last_map().remove(core_id),
            final(self).cached_map() == old(self).cached_map().remove(core_id),
            final(self).ttl() == old(self).ttl(),
    {
        self.drop_loaded(core_id);
        self.curves.remove(&core_id);
        self.last_voltages.remove(&core_id);
        self.frequency_cache.remove(&core_id);
        assert(self.cached_map() =~= old(self).cached_map().remove(core_id));
    }

    /// Whether a core has a curve.
    pub fn has_curve(&self, core_id: usize) -> (r: bool)
        ensures
            r == self.curve_map().contains_key(core_id),
    {
        self.curves.contains_key(&core_id)
    }

    /// A core's curve, if it has one.
    pub fn get_curve(&self, core_id: usize) -> (r: Option<&FrequencyCurve>)
        ensures
            self.curve_map().contains_key(core_id) ==> r == Some(&self.curve_map()[core_id]),
            !self.curve_map().contains_key(core_id) ==> r.is_none(),
    {
        self.curves.get(&core_id)
    }

    /// A core's cached frequency (MHz), if one was read within the cache
    /// lifetime.
    pub fn cached_frequency(&self, core_id: usize) -> (r: Option<u32>)
        ensures
            r matches Some(f) ==> self.cached_map().contains_key(core_id) && self.cached_map()[core_id] == f,
    {
        match self.frequency_cache.get(&core_id) {
            Some(entry) => {
                let age = millis_since(&entry.1);
                if age < self.cache_ttl_ms {
                    Some(entry.0)
                } else {
                    None
                }
            },
            None => None,
        }
    }

    /// Caches a reading of `scaling_cur_freq` (kHz) taken now and returns it
    /// in MHz, rounded down.
    pub fn record_frequency(&mut self, core_id: usize, freq_khz: u32) -> (r: u32)
        requires
            old(self).wf(),
        ensures
            final(self).wf(),
            r == freq_khz / 1000,
            final(self).cached_map() == old(self).cached_map().insert(core_id, r),
            final(self).curve_map() == old(self).curve_map(),
            final(self).last_map() == old(self).last_map(),
            final(self).ttl() == old(self).ttl(),
    {
        let mhz = freq_khz / 1000;
        self.frequency_cache.insert(core_id, (mhz, instant_now()));
        assert(self.cached_map() =~= old(self).cached_map().insert(core_id, mhz));
        mhz
    }

    /// The offset for a core at `freq_mhz`: `Ok(Some(v))` when it differs
    /// from the last one handed out (which it then becomes), `Ok(None)`
    /// when it is the same. Fails when the core has no curve or its curve
    /// gives no offset.
    pub fn calculate_voltage_for_frequency(&mut self, core_id: usize, freq_mhz: u32) -> (r: Result<Option<i32>, FrequencyControllerError>)
        requires
            old(self).wf(),
        ensures
            final(self).wf(),
            !old(self).curve_map().contains_key(core_id) ==> (r matches Err(e) && e == FrequencyControllerError::NoCurveLoaded(core_id)),
            old(self).curve_map().contains_key(core_id) ==> ({
                let v = voltage_at(old(self).curve_map()[core_id].points@, freq_mhz as int);
                &&& (v is None ==> (r matches Err(e) && e is InvalidCurve) && final(self).last_map() == old(self).last_map())
                &&& (v matches Some(x) ==> {
                    &&& (old(self).last_map().contains_key(core_id) && old(self).last_map()[core_id] == x ==> (r
                        == Ok::<Option<i32>, FrequencyControllerError>(None) && final(self).last_map() == old(self).last_map()))
                    &&& (!(old(self).last_map().contains_key(core_id) && old(self).last_map()[core_id] == x) ==> (r
                        == Ok::<Option<i32>, FrequencyControllerError>(Some(x as i32)) && final(self).last_map()
                        == old(self).last_map().insert(core_id, x as i32)))
                })
            }),
            final(self).curve_map() == old(self).curve_map(),
            final(self).cached_map() == old(self).cached_map(),
            final(self).ttl() == old(self).ttl(),
    {
        let voltage = match self.curves.get(&core_id) {
            None => {
                return Err(FrequencyControllerError::NoCurveLoaded(core_id));
            },
            Some(curve) => match curve.get_voltage_at_frequency(freq_mhz) {
                Ok(v) => v,
                Err(e) => {
                    return Err(FrequencyControllerError::InvalidCurve(e));
                },
            },
        };
        match self.last_voltages.get(&core_id) {
            Some(last) => {
                if *last == voltage {
                    return Ok(None);
                }
            },
            None => {},
        }
        self.last_voltages.insert(core_id, voltage);
        Ok(Some(voltage))
    }

    /// The last offset handed out for a core.
    pub fn get_last_voltage(&self, core_id: usize) -> (r: Option<i32>)
        ensures
            self.last_map().contains_key(core_id) ==> r == Some(self.last_map()[core_id]),
            !self.last_map().contains_key(core_id) ==> r.is_none(),
    {
        match self.last_voltages.get(&core_id) {
            Some(v) => Some(*v),
            None => None,
        }
    }

    /// Forgets every cached reading and last offset.
    pub fn clear_cache(&mut self)
        requires
            old(self).wf(),
        ensures
            final(self).wf(),
            final(self).cached_map() == Map::<usize, u32>::empty(),
            final(self).last_map() == Map::<usize, i32>::empty(),
            final(self).curve_map() == old(self).curve_map(),
            final(self).ttl() == old(self).ttl(),
    {
        self.frequency_cache.clear();
        self.last_voltages.clear();
        assert(self.cached_map() =~= Map::<usize, u32>::empty());
    }

    /// The cores that have a curve, in increasing order.
    pub fn get_loaded_cores(&self) -> (r: Vec<usize>)
        requires
            self.wf(),
        ensures
            forall|i: int, j: int| 0 <= i < j < r@.len() ==> r@[i] < r@[j],
            forall|k: usize| r@.contains(k) <==> self.curve_map().contains_key(k),
    {
        self.loaded.clone()
    }
}

} // verus!
