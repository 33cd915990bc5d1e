//! Static configuration: connection endpoints, electrical settings and the
//! per-vehicle charging policies.

use crate::text::{uppercase, uppercase_of};
use vstd::prelude::*;

verus! {

/// The port a device is reached on when its configuration names none.
pub const MODBUS_DEFAULT_PORT: u16 = 502;

/// How many phases the wallbox charges on.
#[derive(Debug, Clone, Copy, PartialEq, Eq, Structural)]
pub enum PhasesConfig {
    OnePhase,
    ThreePhase,
}

impl PhasesConfig {
    /// The number of phases as a count.
    pub open spec fn count(&self) -> int {
        match self {
            PhasesConfig::OnePhase => 1,
            PhasesConfig::ThreePhase => 3,
        }
    }

    pub fn number(&self) -> (n: u16)
        ensures
            n == self.count(),
    {
        match self {
            PhasesConfig::OnePhase => 1,
            PhasesConfig::ThreePhase => 3,
        }
    }
}

/// Where a register device listens.
#[derive(Debug, Clone)]
pub struct ModbusConnection {
    pub host: String,
    pub port: Option<u16>,
}

impl ModbusConnection {
    /// The configured port, or the protocol's default.
    pub fn port_or_default(&self) -> (port: u16)
        ensures
            port == match self.port {
                Some(p) => p,
                None => MODBUS_DEFAULT_PORT,
            },
    {
        match self.port {
            Some(p) => p,
            None => MODBUS_DEFAULT_PORT,
        }
    }
}

/// The charging policy of one vehicle.
#[derive(Debug, Clone)]
pub struct ConfigRfid {
    pub name: String,
    pub pv_only: bool,
    pub min_amp: u16,
    pub max_amp: u16,
    pub max_charge: Option<u32>,
    pub minimum_charging_power: Option<i32>,
}

impl ConfigRfid {
    /// The allowed currents form a range.
    pub open spec fn valid(&self) -> bool {
        self.min_amp <= self.max_amp
    }

    pub fn is_valid(&self) -> (ok: bool)
        ensures
            ok == self.valid(),
    {
        self.min_amp <= self.max_amp
    }
}

/// One row of the policy table: a vehicle identifier and the policy it selects.
#[derive(Debug, Clone)]
pub struct RfidEntry {
    pub id: String,
    pub settings: ConfigRfid,
}

#[derive(Debug, Clone)]
pub struct Config {
    pub pac2200: Option<ModbusConnection>,
    pub e3dc: ModbusConnection,
    pub wallbox: ModbusConnection,
    /// Seconds to wait for the first reading of each device.
    pub initial_connection_timeout: u64,
    pub phases: PhasesConfig,
    pub phase_voltage: u16,
    pub default_amps: u16,
    /// Seconds after plugging in during which the default current is signalled.
    pub initial_phase_duration: u32,
    pub hysteresis_watts: i32,
    /// The policy table, searched in order.
    pub rfid: Vec<RfidEntry>,
    pub bind_to: Option<String>,
}

/// The texts of a list of strings.
pub open spec fn texts(strings: Seq<String>) -> Seq<Seq<char>> {
    Seq::new(strings.len(), |i: int| strings[i]@)
}

/// The identifiers of a policy table in upper case, row by row.
pub open spec fn normalized(table: Seq<RfidEntry>) -> Seq<Seq<char>> {
    Seq::new(table.len(), |i: int| uppercase_of(table[i].id@))
}

/// The first position at or after `from` that holds the wanted text.
pub open spec fn first_equal(keys: Seq<Seq<char>>, wanted: Seq<char>, from: int) -> Option<int>
    decreases keys.len() - from,
{
    if from < 0 || from >= keys.len() {
        None
    } else if keys[from] == wanted {
        Some(from)
    } else {
        first_equal(keys, wanted, from + 1)
    }
}

/// No text occurs twice.
pub open spec fn distinct(keys: Seq<Seq<char>>) -> bool {
    forall|i: int, j: int| 0 <= i < j < keys.len() ==> keys[i] != keys[j]
}

/// What `first_equal` returns, said without recursion.
pub proof fn lemma_first_equal(keys: Seq<Seq<char>>, wanted: Seq<char>, from: int)
    requires
        0 <= from <= keys.len(),
    ensures
        match first_equal(keys, wanted, from) {
            Some(i) => from <= i < keys.len() && keys[i] == wanted && forall|j: int|
                from <= j < i ==> #[trigger] keys[j] != wanted,
            None => forall|j: int| from <= j < keys.len() ==> #[trigger] keys[j] != wanted,
        },
    decreases keys.len() - from,
{
    if from < keys.len() && keys[from] != wanted {
        lemma_first_equal(keys, wanted, from + 1);
    }
}

/// Computes `first_equal` from the start of a list.
pub fn first_position(keys: &Vec<String>, wanted: &String) -> (found: Option<usize>)
    ensures
        first_equal(texts(keys@), wanted@, 0) == match found {
            Some(i) => Some(i as int),
            None => None,
        },
        found matches Some(i) ==> i < keys@.len(),
{
    let mut i: usize = 0;
    while i < keys.len()
        invariant
            i <= keys@.len(),
            first_equal(texts(keys@), wanted@, 0) == first_equal(texts(keys@), wanted@, i as int),
        decreases keys@.len() - i,
    {
        assert(texts(keys@)[i as int] == keys@[i as int]@);
        if keys[i] == *wanted {
            return Some(i);
        }
        i += 1;
    }
    None
}

/// Computes `distinct`.
pub fn all_distinct(keys: &Vec<String>) -> (ok: bool)
    ensures
        ok == distinct(texts(keys@)),
{
    let n: usize = keys.len();
    let mut i: usize = 0;
    while i < n
        invariant
            i <= n,
            n == keys@.len(),
            forall|k: int, j: int| 0 <= k < j < n && k < i ==> texts(keys@)[k] != texts(keys@)[j],
        decreases n - i,
    {
        let mut j: usize = i + 1;
        while j < n
            invariant
                i < j <= n,
                n == keys@.len(),
                forall|m: int| i < m < j ==> texts(keys@)[i as int] != texts(keys@)[m],
            decreases n - j,
        {
            if keys[i] == keys[j] {
                assert(texts(keys@)[i as int] == texts(keys@)[j as int]);
                return false;
            }
            j += 1;
        }
        i += 1;
    }
    true
}

impl Config {
    /// Power that one ampere of charging current carries, in watts.
    pub open spec fn step_power(&self) -> int {
        self.phase_voltage * self.phases.count()
    }

    /// Every policy has a range of currents, and no identifier selects two rows.
    pub open spec fn valid(&self) -> bool {
        &&& forall|i: int| 0 <= i < self.rfid@.len() ==> (#[trigger] self.rfid@[i]).settings.valid()
        &&& distinct(normalized(self.rfid@))
    }

    /// The policy row of a vehicle identifier, compared without regard to
    /// case: the first row whose identifier is the same in upper case.
    pub open spec fn vehicle(&self, id: Seq<char>) -> Option<int> {
        first_equal(normalized(self.rfid@), uppercase_of(id), 0)
    }

    /// The policy that a vehicle identifier selects.
    pub open spec fn policy(&self, id: Seq<char>) -> Option<ConfigRfid> {
        match self.vehicle(id) {
            Some(i) => Some(self.rfid@[i].settings),
            None => None,
        }
    }

    /// The table's identifiers in upper case.
    pub fn normalized_keys(&self) -> (keys: Vec<String>)
        ensures
            texts(keys@) == normalized(self.rfid@),
    {
        let mut keys: Vec<String> = Vec::new();
        let mut i: usize = 0;
        while i < self.rfid.len()
            invariant
                i <= self.rfid@.len(),
                keys@.len() == i,
                forall|k: int| 0 <= k < i ==> (#[trigger] keys@[k])@ == uppercase_of(self.rfid@[k].id@),
            decreases self.rfid@.len() - i,
        {
            keys.push(uppercase(self.rfid[i].id.as_str()));
            i += 1;
        }
        assert(texts(keys@) =~= normalized(self.rfid@));
        keys
    }

    /// Looks a vehicle identifier up in the policy table, ignoring case.
    pub fn find_vehicle(&self, id: &str) -> (found: Option<usize>)
        ensures
            self.vehicle(id@) == match found {
                Some(i) => Some(i as int),
                None => None,
            },
            found matches Some(i) ==> i < self.rfid@.len(),
    {
        let keys = self.normalized_keys();
        let wanted = uppercase(id);
        let found = first_position(&keys, &wanted);
        assert(keys@.len() == texts(keys@).len());
        found
    }

    /// Checks the whole configuration.
    pub fn is_valid(&self) -> (ok: bool)
        ensures
            ok == self.valid(),
    {
        let mut i: usize = 0;
        while i < self.rfid.len()
            invariant
                i <= self.rfid@.len(),
                forall|k: int| 0 <= k < i ==> (#[trigger] self.rfid@[k]).settings.valid(),
            decreases self.rfid@.len() - i,
        {
            if !self.rfid[i].settings.is_valid() {
                return false;
            }
            i += 1;
        }
        let keys = self.normalized_keys();
        all_distinct(&keys)
    }
}

} // verus!
