//! The presence scanner: the per-device debounce and rate-limit state
//! machine at the core of the daemon.
//!
//! The scanner owns the device registry and decides, for each command it
//! receives, which devices to probe and in what order; the surrounding
//! process performs the probes, spacing them as `delay_before_probe`
//! says, and hands each answer back through `record_probe`, which
//! updates the registry and yields the announcement.

use vstd::prelude::*;
use crate::config::{BleDevice, ScanConfig, ScanPolicy, spec_mac_string, spec_policy};
use crate::messages::{DeviceAnnouncement, DevicePresence, StateAnnouncement, spec_confidence_of};

verus! {

/// When a device was last confirmed present, if ever.
#[derive(Clone, Copy, Debug, PartialEq, Eq, Structural)]
pub enum DeviceSeen {
    /// Confirmed present by a probe at the given time, in seconds.
    Seen(u64),
    /// Never confirmed present, or absent at the last probe.
    NotSeen,
}

/// One registered device: its display name, its formatted hardware
/// address, and the last time a probe confirmed it present.
#[derive(Clone, Debug)]
pub struct DeviceState {
    pub name: String,
    pub mac_address: String,
    pub seen: DeviceSeen,
}

/// The scanner's state: the resolved policy, the device registry (fixed
/// at startup, in configuration order), and the time of the last
/// sweep-starting trigger.
pub struct Scanner {
    pub policy: ScanPolicy,
    pub devices: Vec<DeviceState>,
    pub last_global_trigger: Option<u64>,
}

/// Whether an arrival sweep at time `now` probes a device with the given
/// sighting state: a device never seen is probed, and so is one whose
/// sighting is older than the debounce; a recent sighting is trusted and
/// skipped. A sighting that lies in `now`'s future counts as stale.
pub open spec fn due_for_arrival(seen: DeviceSeen, now: u64, debounce: u64) -> bool {
    match seen {
        DeviceSeen::NotSeen => true,
        DeviceSeen::Seen(t) => now < t || now - t > debounce,
    }
}

/// Whether a passive trigger at time `now` may start a sweep: always
/// when no trigger was recorded yet, otherwise only once at least the
/// debounce has elapsed. A recorded trigger that lies in `now`'s future
/// counts as elapsed.
pub open spec fn trigger_due(last: Option<u64>, now: u64, debounce: u64) -> bool {
    match last {
        None => true,
        Some(t) => now < t || now - t >= debounce,
    }
}

/// The registry indices an arrival sweep started at `now` probes, in
/// registry order: exactly the devices due for an arrival probe.
pub open spec fn arrival_plan(devices: Seq<DeviceState>, now: u64, debounce: u64) -> Seq<usize>
    decreases devices.len(),
{
    if devices.len() == 0 {
        Seq::empty()
    } else {
        let prefix = arrival_plan(devices.drop_last(), now, debounce);
        if due_for_arrival(devices.last().seen, now, debounce) {
            prefix.push((devices.len() - 1) as usize)
        } else {
            prefix
        }
    }
}

/// The registry indices a departure sweep probes: every device, in
/// registry order.
pub open spec fn departure_plan(n: nat) -> Seq<usize> {
    Seq::new(n, |i: int| i as usize)
}

/// The first registry index at or after `i` whose device carries the
/// given name, if any.
pub open spec fn find_from(devices: Seq<DeviceState>, name: Seq<char>, i: int) -> Option<usize>
    decreases devices.len() - i,
{
    if i < 0 || i >= devices.len() {
        None
    } else if devices[i].name@ == name {
        Some(i as usize)
    } else {
        find_from(devices, name, i + 1)
    }
}

/// The first registry index whose device carries the given name, if any.
pub open spec fn find_index(devices: Seq<DeviceState>, name: Seq<char>) -> Option<usize> {
    find_from(devices, name, 0)
}

/// The registry indices a re-verification of `name` probes: the first
/// device bearing the name, alone and regardless of any debounce, or
/// none where the name is unknown.
pub open spec fn recheck_plan(devices: Seq<DeviceState>, name: Seq<char>) -> Seq<usize> {
    match find_index(devices, name) {
        Some(i) => seq![i],
        None => Seq::empty(),
    }
}

/// Whether the device is due for an arrival probe at `now`.
fn arrival_due(seen: &DeviceSeen, now: u64, debounce: u64) -> (r: bool)
    ensures
        r == due_for_arrival(*seen, now, debounce),
{
    match seen {
        DeviceSeen::NotSeen => true,
        DeviceSeen::Seen(t) => now < *t || now - *t > debounce,
    }
}

/// Whether a trigger at `now` may start a sweep.
fn trigger_due_now(last: &Option<u64>, now: u64, debounce: u64) -> (r: bool)
    ensures
        r == trigger_due(*last, now, debounce),
{
    match last {
        None => true,
        Some(t) => now < *t || now - *t >= debounce,
    }
}

impl Scanner {
    /// Build a scanner over the configured devices: resolve the timing
    /// policy, format each hardware address, and mark every device as
    /// not seen. No trigger is recorded yet.
    pub fn new(cfg: &ScanConfig, devices: &Vec<BleDevice>) -> (r: Scanner)
        ensures
            r.policy == spec_policy(*cfg),
            r.last_global_trigger is None,
            r.devices@.len() == devices@.len(),
            forall|i: int|
                0 <= i < devices@.len() ==> {
                    &&& (#[trigger] r.devices@[i]).name@ == devices@[i].name@
                    &&& r.devices@[i].mac_address@ == spec_mac_string(devices@[i].address.octets@)
                    &&& r.devices@[i].seen is NotSeen
                },
    {
        let mut states: Vec<DeviceState> = Vec::new();
        let mut i: usize = 0;
        while i < devices.len()
            invariant
                i <= devices@.len(),
                states@.len() == i,
                forall|j: int|
                    0 <= j < i ==> {
                        &&& (#[trigger] states@[j]).name@ == devices@[j].name@
                        &&& states@[j].mac_address@ == spec_mac_string(devices@[j].address.octets@)
                        &&& states@[j].seen is NotSeen
                    },
            decreases devices@.len() - i,
        {
            let device = &devices[i];
            states.push(
                DeviceState {
                    name: device.name.clone(),
                    mac_address: device.address.to_hex_string(),
                    seen: DeviceSeen::NotSeen,
                },
            );
            i = i + 1;
        }
        Scanner {
            policy: ScanPolicy::from_config(cfg),
            devices: states,
            last_global_trigger: None,
        }
    }

    /// The devices an arrival sweep started at `now` probes, in
    /// registry order.
    pub fn arrival_candidates(&self, now: u64) -> (plan: Vec<usize>)
        ensures
            plan@ == arrival_plan(self.devices@, now, self.policy.device_seen_debounce),
    {
        let mut plan: Vec<usize> = Vec::new();
        let mut i: usize = 0;
        while i < self.devices.len()
            invariant
                i <= self.devices@.len(),
                plan@ == arrival_plan(
                    self.devices@.take(i as int),
                    now,
                    self.policy.device_seen_debounce,
                ),
            decreases self.devices@.len() - i,
        {
            proof {
                assert(self.devices@.take(i as int + 1).drop_last() =~= self.devices@.take(
                    i as int,
                ));
                assert(self.devices@.take(i as int + 1).last() == self.devices@[i as int]);
            }
            if arrival_due(&self.devices[i].seen, now, self.policy.device_seen_debounce) {
                plan.push(i);
            }
            i = i + 1;
        }
        proof {
            assert(self.devices@.take(self.devices@.len() as int) =~= self.devices@);
        }
        plan
    }

    /// The devices a departure sweep probes: every registered device,
    /// in registry order, regardless of when it was last seen.
    pub fn departure_candidates(&self) -> (plan: Vec<usize>)
        ensures
            plan@ == departure_plan(self.devices@.len()),
    {
        let mut plan: Vec<usize> = Vec::new();
        let mut i: usize = 0;
        while i < self.devices.len()
            invariant
                i <= self.devices@.len(),
                plan@ == departure_plan(i as nat),
            decreases self.devices@.len() - i,
        {
            plan.push(i);
            proof {
                assert(plan@ =~= departure_plan(i as nat + 1));
            }
            i = i + 1;
        }
        plan
    }

    /// The first registry index of the device with the given name.
    pub fn find_device(&self, name: &String) -> (r: Option<usize>)
        ensures
            r == find_index(self.devices@, name@),
    {
        let mut i: usize = 0;
        while i < self.devices.len()
            invariant
                i <= self.devices@.len(),
                find_index(self.devices@, name@) == find_from(self.devices@, name@, i as int),
            decreases self.devices@.len() - i,
        {
            if self.devices[i].name == *name {
                return Some(i);
            }
            i = i + 1;
        }
        None
    }

    /// The scanner's transition on one received command: the returned
    /// plan lists the registry indices to probe, in order.
    ///
    /// A blanket arrival or departure request records the trigger time
    /// and plans its sweep. A passive device trigger does the same, but
    /// only once at least the trigger debounce has elapsed since the
    /// last recorded trigger; otherwise it is dropped. A re-verification
    /// probes the named device alone, bypassing every debounce, and is
    /// ignored for an unknown name. The registry and the policy are
    /// never changed here.
    pub fn handle_command(&mut self, msg: &StateAnnouncement, now: u64) -> (plan: Vec<usize>)
        ensures
            final(self).policy == old(self).policy,
            final(self).devices == old(self).devices,
            msg is ScanArrive ==> final(self).last_global_trigger == Some(now) && plan@
                == arrival_plan(old(self).devices@, now, old(self).policy.device_seen_debounce),
            msg is ScanDepart ==> final(self).last_global_trigger == Some(now) && plan@
                == departure_plan(old(self).devices@.len()),
            msg is DeviceTrigger && trigger_due(
                old(self).last_global_trigger,
                now,
                old(self).policy.device_trigger_debounce,
            ) ==> final(self).last_global_trigger == Some(now) && plan@ == arrival_plan(
                old(self).devices@,
                now,
                old(self).policy.device_seen_debounce,
            ),
            msg is DeviceTrigger && !trigger_due(
                old(self).last_global_trigger,
                now,
                old(self).policy.device_trigger_debounce,
            ) ==> final(self).last_global_trigger == old(self).last_global_trigger && plan@
                == Seq::<usize>::empty(),
            msg matches StateAnnouncement::CheckStillPresent(name)
                ==> final(self).last_global_trigger == old(self).last_global_trigger && plan@
                == recheck_plan(old(self).devices@, name@),
    {
        match msg {
            StateAnnouncement::ScanArrive => {
                self.last_global_trigger = Some(now);
                self.arrival_candidates(now)
            }
            StateAnnouncement::ScanDepart => {
                self.last_global_trigger = Some(now);
                self.departure_candidates()
            }
            StateAnnouncement::DeviceTrigger => {
                if trigger_due_now(&self.last_global_trigger, now, self.policy.device_trigger_debounce) {
                    self.last_global_trigger = Some(now);
                    self.arrival_candidates(now)
                } else {
                    Vec::new()
                }
            }
            StateAnnouncement::CheckStillPresent(name) => {
                match self.find_device(name) {
                    Some(i) => {
                        let mut plan: Vec<usize> = Vec::new();
                        plan.push(i);
                        proof {
                            assert(plan@ =~= seq![i]);
                        }
                        plan
                    }
                    None => Vec::new(),
                }
            }
        }
    }

    /// Record one completed probe of the device at `idx` and build its
    /// announcement. A present device is marked seen at `now` and
    /// announced present with confidence 100; an absent one is marked
    /// not seen and announced absent. The second component says whether
    /// to schedule the device's single re-verification, due after
    /// `policy.presence_timeout`: exactly when it was present.
    pub fn record_probe(&mut self, idx: usize, present: bool, now: u64) -> (r: (
        DeviceAnnouncement,
        bool,
    ))
        requires
            idx < old(self).devices@.len(),
        ensures
            final(self).policy == old(self).policy,
            final(self).last_global_trigger == old(self).last_global_trigger,
            final(self).devices@.len() == old(self).devices@.len(),
            forall|j: int|
                0 <= j < old(self).devices@.len() && j != idx ==> final(self).devices@[j] == old(
                    self,
                ).devices@[j],
            final(self).devices@[idx as int].name == old(self).devices@[idx as int].name,
            final(self).devices@[idx as int].mac_address == old(self).devices@[
                idx as int
            ].mac_address,
            final(self).devices@[idx as int].seen == (if present {
                DeviceSeen::Seen(now)
            } else {
                DeviceSeen::NotSeen
            }),
            r.0.name == old(self).devices@[idx as int].name,
            r.0.mac_address == old(self).devices@[idx as int].mac_address,
            r.0.presence == (if present {
                DevicePresence::Present(100u8)
            } else {
                DevicePresence::Absent
            }),
            spec_confidence_of(r.0.presence) == (if present {
                100u8
            } else {
                0u8
            }),
            r.1 == present,
    {
        let name = self.devices[idx].name.clone();
        let mac_address = self.devices[idx].mac_address.clone();
        if present {
            self.devices[idx].seen = DeviceSeen::Seen(now);
        } else {
            self.devices[idx].seen = DeviceSeen::NotSeen;
        }
        let presence = if present {
            DevicePresence::Present(100)
        } else {
            DevicePresence::Absent
        };
        (DeviceAnnouncement { name, mac_address, presence }, present)
    }

    /// How long to wait before the probe at the given position of a
    /// sweep: the first probe starts at once, every later one after the
    /// interscan delay.
    pub fn delay_before_probe(&self, position: usize) -> (r: u64)
        ensures
            r == (if position == 0 {
                0u64
            } else {
                self.policy.interscan_delay
            }),
    {
        if position == 0 {
            0
        } else {
            self.policy.interscan_delay
        }
    }
}

/// Every index an arrival sweep plans lies in the registry and is due
/// for a probe; every due index is planned; and the plan is strictly
/// increasing, so it keeps registry order and holds no index twice.
pub proof fn lemma_arrival_plan_properties(devices: Seq<DeviceState>, now: u64, debounce: u64)
    requires
        devices.len() <= usize::MAX,
    ensures
        forall|k: int|
            0 <= k < arrival_plan(devices, now, debounce).len() ==> (
            #[trigger] arrival_plan(devices, now, debounce)[k]) < devices.len()
                && due_for_arrival(
                devices[arrival_plan(devices, now, debounce)[k] as int].seen,
                now,
                debounce,
            ),
        forall|i: int|
            0 <= i < devices.len() && due_for_arrival(devices[i].seen, now, debounce)
                ==> #[trigger] arrival_plan(devices, now, debounce).contains(i as usize),
        forall|k1: int, k2: int|
            0 <= k1 < k2 < arrival_plan(devices, now, debounce).len() ==> arrival_plan(
                devices,
                now,
                debounce,
            )[k1] < arrival_plan(devices, now, debounce)[k2],
    decreases devices.len(),
{
    if devices.len() > 0 {
        let rest = devices.drop_last();
        let prefix = arrival_plan(rest, now, debounce);
        let plan = arrival_plan(devices, now, debounce);
        lemma_arrival_plan_properties(rest, now, debounce);
        assert forall|k: int| 0 <= k < plan.len() implies (#[trigger] plan[k]) < devices.len()
            && due_for_arrival(devices[plan[k] as int].seen, now, debounce) by {
            if k < prefix.len() {
                assert(plan[k] == prefix[k]);
                assert(rest[prefix[k] as int] == devices[prefix[k] as int]);
            } else {
                assert(plan[k] == (devices.len() - 1) as usize);
            }
        };
        assert forall|i: int|
            0 <= i < devices.len() && due_for_arrival(devices[i].seen, now, debounce)
            implies #[trigger] plan.contains(i as usize) by {
            if i < devices.len() - 1 {
                assert(rest[i] == devices[i]);
                assert(prefix.contains(i as usize));
                let k = choose|k: int| 0 <= k < prefix.len() && prefix[k] == i as usize;
                assert(plan[k] == i as usize);
                assert(plan.contains(i as usize));
            } else {
                assert(plan[plan.len() - 1] == (devices.len() - 1) as usize);
                assert(plan.contains(i as usize));
            }
        };
        assert forall|k1: int, k2: int| 0 <= k1 < k2 < plan.len() implies plan[k1] < plan[k2] by {
            if k2 < prefix.len() {
                assert(plan[k1] == prefix[k1] && plan[k2] == prefix[k2]);
            } else {
                assert(plan[k2] == (devices.len() - 1) as usize);
                assert(plan[k1] == prefix[k1]);
                assert(prefix[k1] < rest.len());
            }
        };
    }
}

/// For any device with no prior sighting, an arrival sweep probes it
/// exactly once: its index stands in the plan, and at one position only.
pub proof fn lemma_arrival_probes_unseen_once(
    devices: Seq<DeviceState>,
    now: u64,
    debounce: u64,
    i: int,
)
    requires
        devices.len() <= usize::MAX,
        0 <= i < devices.len(),
        devices[i].seen is NotSeen,
    ensures
        arrival_plan(devices, now, debounce).contains(i as usize),
        forall|k1: int, k2: int|
            0 <= k1 < arrival_plan(devices, now, debounce).len() && 0 <= k2 < arrival_plan(
                devices,
                now,
                debounce,
            ).len() && arrival_plan(devices, now, debounce)[k1] == i as usize && arrival_plan(
                devices,
                now,
                debounce,
            )[k2] == i as usize ==> k1 == k2,
{
    lemma_arrival_plan_properties(devices, now, debounce);
    let plan = arrival_plan(devices, now, debounce);
    assert forall|k1: int, k2: int|
        0 <= k1 < plan.len() && 0 <= k2 < plan.len() && plan[k1] == i as usize && plan[k2]
            == i as usize implies k1 == k2 by {
        if k1 < k2 {
            assert(plan[k1] < plan[k2]);
        }
        if k2 < k1 {
            assert(plan[k2] < plan[k1]);
        }
    };
}

/// A device whose sighting lies within the debounce window of `now` is
/// never probed by an arrival sweep.
pub proof fn lemma_arrival_skips_recently_seen(
    devices: Seq<DeviceState>,
    now: u64,
    debounce: u64,
    i: int,
    t: u64,
)
    requires
        devices.len() <= usize::MAX,
        0 <= i < devices.len(),
        devices[i].seen == DeviceSeen::Seen(t),
        t <= now,
        now - t <= debounce,
    ensures
        !arrival_plan(devices, now, debounce).contains(i as usize),
{
    lemma_arrival_plan_properties(devices, now, debounce);
    let plan = arrival_plan(devices, now, debounce);
    if plan.contains(i as usize) {
        let k = choose|k: int| 0 <= k < plan.len() && plan[k] == i as usize;
        assert(due_for_arrival(devices[plan[k] as int].seen, now, debounce));
        assert(plan[k] as int == i);
        assert(false);
    }
}

proof fn lemma_find_from_finds(devices: Seq<DeviceState>, name: Seq<char>, lo: int, i: int)
    requires
        devices.len() <= usize::MAX,
        0 <= lo <= i < devices.len(),
        devices[i].name@ == name,
        forall|j: int| lo <= j < i ==> devices[j].name@ != name,
    ensures
        find_from(devices, name, lo) == Some(i as usize),
    decreases i - lo,
{
    if lo < i {
        lemma_find_from_finds(devices, name, lo + 1, i);
    }
}

proof fn lemma_find_from_misses(devices: Seq<DeviceState>, name: Seq<char>, lo: int)
    requires
        0 <= lo <= devices.len(),
        forall|j: int| lo <= j < devices.len() ==> devices[j].name@ != name,
    ensures
        find_from(devices, name, lo) is None,
    decreases devices.len() - lo,
{
    if lo < devices.len() {
        lemma_find_from_misses(devices, name, lo + 1);
    }
}

/// Delivering a re-verification for a device's name plans a probe of
/// that device alone: the first registry entry bearing the name, and no
/// other device.
pub proof fn lemma_recheck_probes_single_device(
    devices: Seq<DeviceState>,
    name: Seq<char>,
    i: int,
)
    requires
        devices.len() <= usize::MAX,
        0 <= i < devices.len(),
        devices[i].name@ == name,
        forall|j: int| 0 <= j < i ==> devices[j].name@ != name,
    ensures
        recheck_plan(devices, name) == seq![i as usize],
{
    lemma_find_from_finds(devices, name, 0, i);
}

/// A re-verification for a name no registered device bears plans no
/// probe at all.
pub proof fn lemma_recheck_unknown_name(devices: Seq<DeviceState>, name: Seq<char>)
    requires
        forall|j: int| 0 <= j < devices.len() ==> devices[j].name@ != name,
    ensures
        recheck_plan(devices, name) == Seq::<usize>::empty(),
{
    lemma_find_from_misses(devices, name, 0);
}

/// The probe command could not be executed; carries its error output.
#[derive(Clone, Debug)]
pub struct ProbeError {
    pub stderr: Vec<u8>,
}

/// Decode the presence oracle's reply. A successful, non-empty reply
/// means the device is present; a successful, empty reply means it is
/// absent; a failed command is an execution error, not a liveness
/// answer.
pub fn interpret_probe_output(success: bool, stdout: &Vec<u8>, stderr: Vec<u8>) -> (r: Result<
    bool,
    ProbeError,
>)
    ensures
        success ==> (r matches Ok(p) && p == (stdout@.len() > 0)),
        !success ==> (r matches Err(e) && e.stderr@ == stderr@),
{
    if success {
        Ok(stdout.len() > 0)
    } else {
        Err(ProbeError { stderr })
    }
}

} // verus!
