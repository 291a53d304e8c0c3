//! The worker's decisions. The worker owns the Bluetooth session and runs one
//! command at a time; after the service calls of a command it reports what it
//! saw here, and this module says which events go back to the interface. It
//! also keeps the set of addresses already announced, so that a sighting is
//! reported as found the first time and as updated afterwards.
use vstd::prelude::*;
use crate::lifecycle::{ConnectLifecycle, ConnectOutcome, lifecycle_steps, timeout_message, timeout_text};
use crate::text::concat_str;
use crate::types::{Address, AdapterInfo, BtEvent, DeviceInfo};

verus! {

/// What the worker saw while it ran a command against the service.
#[derive(Debug)]
#[allow(inconsistent_fields)]
pub enum CommandReport {
    /// Power was switched; `adapter` is the state read back afterwards.
    Power { enable: bool, result: Result<(), String>, adapter: AdapterInfo },
    /// Discovery was asked to start.
    ScanStarted { result: Result<(), String>, adapter: AdapterInfo },
    /// Discovery was closed.
    ScanStopped { adapter: AdapterInfo },
    /// The connect lifecycle ended; `device` is the snapshot taken after success.
    Connect { address: Address, outcome: ConnectOutcome, device: Option<DeviceInfo> },
    /// A disconnect was tried; `device` is the snapshot taken afterwards.
    Disconnect { result: Result<(), String>, device: DeviceInfo },
    /// Pairing was tried; `device` is the snapshot taken after success.
    Pair { address: Address, result: Result<(), String>, device: Option<DeviceInfo> },
    /// The trust flag was written; `device` is the snapshot taken afterwards.
    Trust { result: Result<(), String>, device: DeviceInfo },
    /// Removal was tried.
    Remove { address: Address, result: Result<(), String> },
    /// A fresh snapshot was taken.
    Refresh { device: DeviceInfo },
    /// The alias was written; nothing is reported back.
    AliasSet,
    /// The service had no handle for the device of a connect command.
    ConnectTargetMissing { address: Address, adapter_name: String, error: String },
    /// The service had no handle for the device of a pair command.
    PairTargetMissing { address: Address, error: String },
    /// The service had no handle for the device of any other command.
    TargetMissing { error: String },
}

/// Worker state that outlives a single command.
pub struct Worker {
    /// Addresses already announced with a found event.
    pub known: Vec<Address>,
    pub auto_trust_on_pair: bool,
    pub connection_timeout_secs: u64,
}

/// An error event with the given text.
pub open spec fn error_with(e: BtEvent, text: Seq<char>) -> bool {
    match e {
        BtEvent::Error(m) => m@ == text,
        _ => false,
    }
}

/// A failed connection result for `a` with the given text.
pub open spec fn connect_failed_with(e: BtEvent, a: Address, text: Seq<char>) -> bool {
    match e {
        BtEvent::ConnectionResult { address, success, error } => address == a && !success && match error {
            Some(m) => m@ == text,
            None => false,
        },
        _ => false,
    }
}

/// A failed pairing result for `a` with the given text.
pub open spec fn pair_failed_with(e: BtEvent, a: Address, text: Seq<char>) -> bool {
    match e {
        BtEvent::PairResult { address, success, error } => address == a && !success && match error {
            Some(m) => m@ == text,
            None => false,
        },
        _ => false,
    }
}

/// The address a report shows as removed from the service, if any.
pub open spec fn removed_by(report: CommandReport) -> Option<Address> {
    match report {
        CommandReport::Remove { address, result } => match result {
            Ok(_) => Some(address),
            Err(_) => None,
        },
        _ => None,
    }
}

impl Worker {
    /// The announced addresses.
    pub open spec fn known_set(&self) -> Set<Address> {
        self.known@.to_set()
    }

    pub fn new(auto_trust_on_pair: bool, connection_timeout_secs: u64) -> (r: Worker)
        ensures
            r.known_set() == Set::<Address>::empty(),
            r.auto_trust_on_pair == auto_trust_on_pair,
            r.connection_timeout_secs == connection_timeout_secs,
    {
        let r = Worker { known: Vec::new(), auto_trust_on_pair, connection_timeout_secs };
        assert(r.known@.to_set() =~= Set::<Address>::empty());
        r
    }

    fn is_known(&self, a: Address) -> (r: bool)
        ensures
            r == self.known_set().contains(a),
    {
        let key = a.as_u64();
        let mut i: usize = 0;
        while i < self.known.len()
            invariant
                i <= self.known@.len(),
                key == a.value(),
                forall|j: int| 0 <= j < i ==> #[trigger] self.known@[j] != a,
            decreases self.known@.len() - i,
        {
            proof {
                crate::types::lemma_value_eq(self.known@[i as int], a);
            }
            if self.known[i].as_u64() == key {
                assert(self.known@.contains(a));
                return true;
            }
            i += 1;
        }
        assert(!self.known@.contains(a));
        false
    }

    fn forget(&mut self, a: Address)
        ensures
            final(self).known_set() == old(self).known_set().remove(a),
            final(self).auto_trust_on_pair == old(self).auto_trust_on_pair,
            final(self).connection_timeout_secs == old(self).connection_timeout_secs,
    {
        let ghost orig = self.known@;
        let key = a.as_u64();
        let mut kept: Vec<Address> = Vec::new();
        let mut i: usize = 0;
        while i < self.known.len()
            invariant
                i <= self.known@.len(),
                self.known@ == orig,
                key == a.value(),
                forall|y: Address| #[trigger] kept@.contains(y) <==> (y != a && orig.take(i as int).contains(y)),
            decreases self.known@.len() - i,
        {
            let x = self.known[i];
            let ghost before = kept@;
            proof {
                crate::types::lemma_value_eq(x, a);
                assert(orig.take(i + 1) =~= orig.take(i as int).push(x));
            }
            if x.as_u64() != key {
                kept.push(x);
            }
            proof {
                assert forall|y: Address| #[trigger] kept@.contains(y) <==> (y != a && orig.take(i + 1).contains(y)) by {
                    let t = orig.take(i as int);
                    if t.push(x).contains(y) {
                        let j = choose|j: int| 0 <= j < t.push(x).len() && t.push(x)[j] == y;
                        if j < t.len() {
                            assert(t[j] == y);
                        }
                    }
                    if t.contains(y) {
                        let j = choose|j: int| 0 <= j < t.len() && t[j] == y;
                        assert(t.push(x)[j] == y);
                    }
                    assert(t.push(x)[t.len() as int] == x);
                    if kept@.contains(y) && kept@ != before {
                        let j = choose|j: int| 0 <= j < kept@.len() && kept@[j] == y;
                        if j < before.len() {
                            assert(before[j] == y);
                        }
                    }
                    if before.contains(y) && kept@ != before {
                        let j = choose|j: int| 0 <= j < before.len() && before[j] == y;
                        assert(kept@[j] == y);
                    }
                    if x != a && y == x {
                        assert(kept@[before.len() as int] == x);
                    }
                }
            }
            i += 1;
        }
        self.known = kept;
        proof {
            assert(orig.take(orig.len() as int) =~= orig);
            assert forall|x: Address| self.known@.to_set().contains(x) <==> orig.to_set().remove(a).contains(x) by {
                assert(self.known@.contains(x) <==> (x != a && orig.contains(x)));
            }
            assert(self.known@.to_set() =~= orig.to_set().remove(a));
        }
    }

    fn remember(&mut self, a: Address)
        ensures
            final(self).known_set() == old(self).known_set().insert(a),
            final(self).auto_trust_on_pair == old(self).auto_trust_on_pair,
            final(self).connection_timeout_secs == old(self).connection_timeout_secs,
    {
        let ghost orig = self.known@;
        self.known.push(a);
        proof {
            assert forall|x: Address| self.known@.to_set().contains(x) <==> orig.to_set().insert(a).contains(x) by {
                if orig.contains(x) {
                    let j = choose|j: int| 0 <= j < orig.len() && orig[j] == x;
                    assert(self.known@[j] == x);
                }
                if self.known@.contains(x) && x != a {
                    let j = choose|j: int| 0 <= j < self.known@.len() && self.known@[j] == x;
                    assert(orig[j] == x);
                }
                if x == a {
                    assert(self.known@[orig.len() as int] == a);
                }
            }
            assert(self.known@.to_set() =~= orig.to_set().insert(a));
        }
    }

    /// A device that the service already knew at start-up: announced as found
    /// and remembered.
    pub fn on_known_device(&mut self, info: DeviceInfo) -> (r: BtEvent)
        ensures
            final(self).known_set() == old(self).known_set().insert(info.address),
            r == BtEvent::DeviceFound(info),
            final(self).auto_trust_on_pair == old(self).auto_trust_on_pair,
            final(self).connection_timeout_secs == old(self).connection_timeout_secs,
    {
        self.remember(info.address);
        BtEvent::DeviceFound(info)
    }

    /// Discovery saw a device: found the first time, updated afterwards.
    pub fn on_device_added(&mut self, info: DeviceInfo) -> (r: BtEvent)
        ensures
            final(self).known_set() == old(self).known_set().insert(info.address),
            old(self).known_set().contains(info.address) ==> r == BtEvent::DeviceUpdated(info),
            !old(self).known_set().contains(info.address) ==> r == BtEvent::DeviceFound(info),
            final(self).auto_trust_on_pair == old(self).auto_trust_on_pair,
            final(self).connection_timeout_secs == old(self).connection_timeout_secs,
    {
        if self.is_known(info.address) {
            proof {
                assert(old(self).known_set().insert(info.address) =~= old(self).known_set());
            }
            BtEvent::DeviceUpdated(info)
        } else {
            self.remember(info.address);
            BtEvent::DeviceFound(info)
        }
    }

    /// Discovery lost a device.
    pub fn on_device_removed(&mut self, a: Address) -> (r: BtEvent)
        ensures
            final(self).known_set() == old(self).known_set().remove(a),
            r == BtEvent::DeviceRemoved(a),
            final(self).auto_trust_on_pair == old(self).auto_trust_on_pair,
            final(self).connection_timeout_secs == old(self).connection_timeout_secs,
    {
        self.forget(a);
        BtEvent::DeviceRemoved(a)
    }

    /// The lifecycle to run for a connect command.
    pub fn plan_connect(&self, paired: bool, trusted: bool) -> (r: ConnectLifecycle)
        ensures
            r.wf(),
            r.steps@ == lifecycle_steps(paired, trusted, self.auto_trust_on_pair),
            r.done == 0,
            r.outcome is None,
    {
        ConnectLifecycle::new(paired, trusted, self.auto_trust_on_pair)
    }

    /// The events that end a command, in the order they are sent.
    pub fn finish_command(&mut self, report: CommandReport) -> (r: Vec<BtEvent>)
        ensures
            final(self).auto_trust_on_pair == old(self).auto_trust_on_pair,
            final(self).connection_timeout_secs == old(self).connection_timeout_secs,
            final(self).known_set() == match removed_by(report) {
                Some(a) => old(self).known_set().remove(a),
                None => old(self).known_set(),
            },
            match report {
                CommandReport::Power { enable, result, adapter } => match result {
                    Ok(_) => r@ == seq![BtEvent::AdapterState(adapter)],
                    Err(e) => r@.len() == 2 && r@[1] == BtEvent::AdapterState(adapter) && error_with(
                        r@[0],
                        (if enable {
                            "Failed to enable adapter: "@
                        } else {
                            "Failed to disable adapter: "@
                        }) + e@,
                    ),
                },
                CommandReport::ScanStarted { result, adapter } => match result {
                    Ok(_) => r@ == seq![BtEvent::ScanningChanged(true), BtEvent::AdapterState(adapter)],
                    Err(e) => r@.len() == 2 && r@[1] == BtEvent::AdapterState(adapter) && error_with(
                        r@[0],
                        "Failed to start scanning: "@ + e@,
                    ),
                },
                CommandReport::ScanStopped { adapter } => r@ == seq![
                    BtEvent::ScanningChanged(false),
                    BtEvent::AdapterState(adapter),
                ],
                CommandReport::Connect { address, outcome, device } => match outcome {
                    ConnectOutcome::Connected => match device {
                        Some(d) => r@ == seq![
                            BtEvent::DeviceUpdated(d),
                            BtEvent::ConnectionResult { address, success: true, error: None },
                        ],
                        None => r@ == seq![
                            BtEvent::ConnectionResult { address, success: true, error: None },
                        ],
                    },
                    ConnectOutcome::Failed(e) => r@ == seq![
                        BtEvent::ConnectionResult { address, success: false, error: Some(e) },
                    ],
                    ConnectOutcome::TimedOut => r@.len() == 1 && connect_failed_with(
                        r@[0],
                        address,
                        timeout_text(old(self).connection_timeout_secs),
                    ),
                },
                CommandReport::Disconnect { result, device } => match result {
                    Ok(_) => r@ == seq![BtEvent::DeviceUpdated(device)],
                    Err(e) => r@.len() == 2 && r@[1] == BtEvent::DeviceUpdated(device) && error_with(
                        r@[0],
                        "Disconnect failed: "@ + e@,
                    ),
                },
                CommandReport::Pair { address, result, device } => match result {
                    Ok(_) => match device {
                        Some(d) => r@ == seq![
                            BtEvent::DeviceUpdated(d),
                            BtEvent::PairResult { address, success: true, error: None },
                        ],
                        None => r@ == seq![
                            BtEvent::PairResult { address, success: true, error: None },
                        ],
                    },
                    Err(e) => r@ == seq![
                        BtEvent::PairResult { address, success: false, error: Some(e) },
                    ],
                },
                CommandReport::Trust { result, device } => match result {
                    Ok(_) => r@ == seq![BtEvent::DeviceUpdated(device)],
                    Err(e) => r@.len() == 2 && r@[1] == BtEvent::DeviceUpdated(device) && error_with(
                        r@[0],
                        "Failed to toggle trust: "@ + e@,
                    ),
                },
                CommandReport::Remove { address, result } => match result {
                    Ok(_) => r@ == seq![BtEvent::DeviceRemoved(address)],
                    Err(e) => r@.len() == 1 && error_with(r@[0], "Failed to remove device: "@ + e@),
                },
                CommandReport::Refresh { device } => r@ == seq![BtEvent::DeviceUpdated(device)],
                CommandReport::AliasSet => r@.len() == 0,
                CommandReport::ConnectTargetMissing { address, adapter_name, error } => r@.len() == 1
                    && connect_failed_with(
                    r@[0],
                    address,
                    "Device not found on "@ + adapter_name@ + ": "@ + error@,
                ),
                CommandReport::PairTargetMissing { address, error } => r@.len() == 1 && pair_failed_with(
                    r@[0],
                    address,
                    "Device not found: "@ + error@,
                ),
                CommandReport::TargetMissing { error } => r@.len() == 1 && error_with(
                    r@[0],
                    "Device not found: "@ + error@,
                ),
            },
    {
        let mut r: Vec<BtEvent> = Vec::new();
        match report {
            CommandReport::Power { enable, result, adapter } => {
                match result {
                    Ok(_) => {},
                    Err(e) => {
                        let prefix = if enable {
                            "Failed to enable adapter: "
                        } else {
                            "Failed to disable adapter: "
                        };
                        r.push(BtEvent::Error(concat_str(prefix, e.as_str())));
                    },
                }
                r.push(BtEvent::AdapterState(adapter));
            },
            CommandReport::ScanStarted { result, adapter } => {
                match result {
                    Ok(_) => {
                        r.push(BtEvent::ScanningChanged(true));
                    },
                    Err(e) => {
                        r.push(BtEvent::Error(concat_str("Failed to start scanning: ", e.as_str())));
                    },
                }
                r.push(BtEvent::AdapterState(adapter));
            },
            CommandReport::ScanStopped { adapter } => {
                r.push(BtEvent::ScanningChanged(false));
                r.push(BtEvent::AdapterState(adapter));
            },
            CommandReport::Connect { address, outcome, device } => match outcome {
                ConnectOutcome::Connected => {
                    match device {
                        Some(d) => {
                            r.push(BtEvent::DeviceUpdated(d));
                        },
                        None => {},
                    }
                    r.push(BtEvent::ConnectionResult { address, success: true, error: None });
                },
                ConnectOutcome::Failed(e) => {
                    r.push(BtEvent::ConnectionResult { address, success: false, error: Some(e) });
                },
                ConnectOutcome::TimedOut => {
                    let m = timeout_message(self.connection_timeout_secs);
                    r.push(BtEvent::ConnectionResult { address, success: false, error: Some(m) });
                },
            },
            CommandReport::Disconnect { result, device } => {
                match result {
                    Ok(_) => {},
                    Err(e) => {
                        r.push(BtEvent::Error(concat_str("Disconnect failed: ", e.as_str())));
                    },
                }
                r.push(BtEvent::DeviceUpdated(device));
            },
            CommandReport::Pair { address, result, device } => match result {
                Ok(_) => {
                    match device {
                        Some(d) => {
                            r.push(BtEvent::DeviceUpdated(d));
                        },
                        None => {},
                    }
                    r.push(BtEvent::PairResult { address, success: true, error: None });
                },
                Err(e) => {
                    r.push(BtEvent::PairResult { address, success: false, error: Some(e) });
                },
            },
            CommandReport::Trust { result, device } => {
                match result {
                    Ok(_) => {},
                    Err(e) => {
                        r.push(BtEvent::Error(concat_str("Failed to toggle trust: ", e.as_str())));
                    },
                }
                r.push(BtEvent::DeviceUpdated(device));
            },
            CommandReport::Remove { address, result } => match result {
                Ok(_) => {
                    self.forget(address);
                    r.push(BtEvent::DeviceRemoved(address));
                },
                Err(e) => {
                    r.push(BtEvent::Error(concat_str("Failed to remove device: ", e.as_str())));
                },
            },
            CommandReport::Refresh { device } => {
                r.push(BtEvent::DeviceUpdated(device));
            },
            CommandReport::AliasSet => {},
            CommandReport::ConnectTargetMissing { address, adapter_name, error } => {
                let mut m = concat_str("Device not found on ", adapter_name.as_str());
                m = concat_str(m.as_str(), ": ");
                m = concat_str(m.as_str(), error.as_str());
                r.push(BtEvent::ConnectionResult { address, success: false, error: Some(m) });
            },
            CommandReport::PairTargetMissing { address, error } => {
                let m = concat_str("Device not found: ", error.as_str());
                r.push(BtEvent::PairResult { address, success: false, error: Some(m) });
            },
            CommandReport::TargetMissing { error } => {
                r.push(BtEvent::Error(concat_str("Device not found: ", error.as_str())));
            },
        }
        r
    }
}

/// The trust flag a trust command writes: the opposite of the current one,
/// where a flag that cannot be read counts as not trusted.
pub fn trust_target(current: Option<bool>) -> (r: bool)
    ensures
        r == !(current == Some(true)),
{
    match current {
        Some(t) => !t,
        None => true,
    }
}

/// The event sent when no session with the Bluetooth service can be opened.
pub fn session_failed(error: &str) -> (r: BtEvent)
    ensures
        error_with(r, "Failed to connect to BlueZ D-Bus: "@ + error@),
{
    BtEvent::Error(concat_str("Failed to connect to BlueZ D-Bus: ", error))
}

/// The event sent when the host has no adapter.
pub fn no_adapter(error: &str) -> (r: BtEvent)
    ensures
        error_with(r, "No Bluetooth adapter found: "@ + error@),
{
    BtEvent::Error(concat_str("No Bluetooth adapter found: ", error))
}

} // verus!
