//! The devices a client knows by name, and the decisions taken around
//! registering and addressing them.

use vstd::prelude::*;
use vstd::utf8::encode_utf8;
use crate::error::{QueryError, SerializationError};
use crate::mac::{mac_octets, mac_text_parsable, parse_mac_address};
use crate::model::{IpAddress, ResponseParams, Target, WizRPCResponse};

verus! {

/// Size of the socket buffers, and of the largest reply read.
pub const DEFAULT_BUFFER_SIZE: usize = 1024;

/// How many times a failed send is retried.
pub const DEFAULT_RETRIES: usize = 10;

/// The UDP port devices listen on.
pub const DEFAULT_TARGET_PORT: u16 = 38899;

/// The local UDP port for receiving.
pub const DEFAULT_SOURCE_RECEIVE_PORT: u16 = 39900;

/// The local UDP port requests are sent from.
pub const DEFAULT_SOURCE_SEND_PORT: u16 = 39901;

/// How long a ping waits, in milliseconds.
pub const DEFAULT_PING_TIMEOUT_MS: u64 = 35;

/// How long a request waits for its reply, in milliseconds.
pub const DEFAULT_DATA_TIMEOUT_MS: u64 = 200;

/// The devices known to a client, each under a unique name.
#[derive(Debug)]
pub struct DeviceRegistry {
    entries: Vec<(String, Target)>,
}

impl DeviceRegistry {
    /// No name occurs twice.
    #[verifier::type_invariant]
    spec fn names_unique(self) -> bool {
        forall|i: int, j: int|
            0 <= i < self.entries@.len() && 0 <= j < self.entries@.len() && i != j
                ==> #[trigger] self.entries@[i].0@ != #[trigger] self.entries@[j].0@
    }

    /// Whether a device is registered under `name`.
    pub closed spec fn has(self, name: Seq<char>) -> bool {
        exists|i: int| 0 <= i < self.entries@.len() && #[trigger] self.entries@[i].0@ == name
    }

    /// The device registered under `name`.
    pub closed spec fn target_of(self, name: Seq<char>) -> Target {
        self.entries@[choose|i: int| 0 <= i < self.entries@.len() && #[trigger] self.entries@[i].0@ == name].1
    }
}

impl View for DeviceRegistry {
    type V = Map<Seq<char>, Target>;

    /// The registry as a map from names to devices.
    closed spec fn view(&self) -> Map<Seq<char>, Target> {
        Map::new(|name: Seq<char>| self.has(name), |name: Seq<char>| self.target_of(name))
    }
}

/// The device a request naming `name` is sent to: none without a name or
/// for a name that is not registered.
pub open spec fn device_for(devices: Map<Seq<char>, Target>, name: Option<Seq<char>>) -> Result<Target, QueryError> {
    match name {
        Some(n) => if devices.contains_key(n) {
            Ok(devices[n])
        } else {
            Err(QueryError::NoTarget)
        },
        None => Err(QueryError::NoTarget),
    }
}

impl DeviceRegistry {
    /// An empty registry.
    pub fn new() -> (r: Self)
        ensures
            r@ == Map::<Seq<char>, Target>::empty(),
    {
        let r = DeviceRegistry { entries: Vec::new() };
        assert(r@ =~= Map::<Seq<char>, Target>::empty());
        r
    }

    proof fn lemma_view_at(self, i: int)
        requires
            self.names_unique(),
            0 <= i < self.entries@.len(),
        ensures
            self@.contains_key(self.entries@[i].0@),
            self@[self.entries@[i].0@] == self.entries@[i].1,
    {
        let name = self.entries@[i].0@;
        assert(self.has(name));
        let j = choose|j: int| 0 <= j < self.entries@.len() && #[trigger] self.entries@[j].0@ == name;
        assert(self.entries@[j].0@ == name);
    }

    /// Index of the entry named `name`, if any.
    fn find(&self, name: &String) -> (r: Option<usize>)
        requires
            self.names_unique(),
        ensures
            match r {
                Some(i) => i < self.entries@.len() && self.entries@[i as int].0@ == name@,
                None => !self.has(name@),
            },
    {
        let n = self.entries.len();
        let mut i: usize = 0;
        while i < n
            invariant
                n == self.entries@.len(),
                0 <= i <= n,
                forall|j: int| 0 <= j < i ==> #[trigger] self.entries@[j].0@ != name@,
            decreases n - i,
        {
            if self.entries[i].0 == *name {
                return Some(i);
            }
            i = i + 1;
        }
        None
    }

    /// The device registered under `name`, if any.
    pub fn get(&self, name: &String) -> (r: Option<Target>)
        ensures
            r == (if self@.contains_key(name@) { Some(self@[name@]) } else { None }),
    {
        proof {
            use_type_invariant(self);
        }
        match self.find(name) {
            Some(i) => {
                proof {
                    self.lemma_view_at(i as int);
                }
                Some(self.entries[i].1)
            },
            None => None,
        }
    }

    /// Registers `target` under `name`, replacing the device registered under
    /// that name before; returns the replaced device.
    pub fn insert(&mut self, name: String, target: Target) -> (r: Option<Target>)
        ensures
            final(self)@ == old(self)@.insert(name@, target),
            r == (if old(self)@.contains_key(name@) { Some(old(self)@[name@]) } else { None }),
    {
        proof {
            use_type_invariant(&*self);
        }
        let ghost before = *self;
        let found = self.find(&name);
        let mut entries: Vec<(String, Target)> = Vec::new();
        std::mem::swap(&mut entries, &mut self.entries);
        let ghost key = name@;
        let previous = match found {
            Some(i) => {
                proof {
                    before.lemma_view_at(i as int);
                }
                let old_target = entries[i].1;
                entries.set(i, (name, target));
                Some(old_target)
            },
            None => {
                entries.push((name, target));
                None
            },
        };
        let ghost after = DeviceRegistry { entries };
        assert(after.names_unique()) by {
            assert forall|i: int, j: int|
                0 <= i < after.entries@.len() && 0 <= j < after.entries@.len() && i != j
                implies #[trigger] after.entries@[i].0@ != #[trigger] after.entries@[j].0@ by {
                if found is None {
                    if i == before.entries@.len() as int {
                        assert(before.entries@[j].0@ != key);
                    } else if j == before.entries@.len() as int {
                        assert(before.entries@[i].0@ != key);
                    } else {
                        assert(before.entries@[i].0@ != before.entries@[j].0@);
                    }
                } else {
                    assert(before.entries@[i].0@ == after.entries@[i].0@);
                    assert(before.entries@[j].0@ == after.entries@[j].0@);
                    assert(before.entries@[i].0@ != before.entries@[j].0@);
                }
            }
        }
        assert(after@ =~= before@.insert(key, target)) by {
            assert forall|n: Seq<char>| #[trigger] after@.contains_key(n) == before@.insert(key, target).contains_key(n) by {
                if after.has(n) {
                    let i = choose|i: int| 0 <= i < after.entries@.len() && #[trigger] after.entries@[i].0@ == n;
                    if n != key {
                        assert(before.entries@[i].0@ == n);
                        assert(before.has(n));
                    }
                }
                if before.has(n) && n != key {
                    let i = choose|i: int| 0 <= i < before.entries@.len() && #[trigger] before.entries@[i].0@ == n;
                    assert(after.entries@[i].0@ == n);
                }
                if n == key {
                    match found {
                        Some(k) => assert(after.entries@[k as int].0@ == key),
                        None => assert(after.entries@[before.entries@.len() as int].0@ == key),
                    }
                }
            }
            assert forall|n: Seq<char>| #[trigger] after@.contains_key(n) implies after@[n] == before@.insert(key, target)[n] by {
                let i = choose|i: int| 0 <= i < after.entries@.len() && #[trigger] after.entries@[i].0@ == n;
                after.lemma_view_at(i);
                if n != key {
                    assert(before.entries@[i].0@ == n);
                    before.lemma_view_at(i);
                }
            }
        }
        self.entries = entries;
        previous
    }

    /// The device a request naming `name` is sent to.
    pub fn get_device(&self, name: Option<String>) -> (r: Result<Target, QueryError>)
        ensures
            r == device_for(self@, match name { Some(n) => Some(n@), None => None }),
    {
        let name_some = match name {
            Some(n) => n,
            None => {
                return Err(QueryError::NoTarget);
            },
        };
        match self.get(&name_some) {
            Some(target) => Ok(target),
            None => Err(QueryError::NoTarget),
        }
    }
}

/// Reading a registry back after registering a device under a name yields that
/// device for that name, and what was there before for every other name.
pub proof fn lemma_device_read_after_register(
    devices: Map<Seq<char>, Target>,
    name: Seq<char>,
    target: Target,
    other: Option<Seq<char>>,
)
    ensures
        device_for(devices.insert(name, target), Some(name)) == Ok::<Target, QueryError>(target),
        other != Some(name) ==> device_for(devices.insert(name, target), other) == device_for(devices, other),
{
}

/// The settings a client is created with, each one given or defaulted.
#[derive(Debug, Clone, Copy, PartialEq, Eq)]
pub struct ClientSettings {
    pub bind_port: u16,
    pub data_timeout_ms: u64,
    pub retries: usize,
}

/// The settings for the options given to a new client: a missing option takes
/// its default.
pub fn client_settings(
    bind_port: Option<u16>,
    data_timeout_ms: Option<u64>,
    retries_number: Option<usize>,
) -> (r: ClientSettings)
    ensures
        r.bind_port == (match bind_port { Some(p) => p, None => DEFAULT_SOURCE_SEND_PORT }),
        r.data_timeout_ms == (match data_timeout_ms { Some(t) => t, None => DEFAULT_DATA_TIMEOUT_MS }),
        r.retries == (match retries_number { Some(n) => n, None => DEFAULT_RETRIES }),
{
    ClientSettings {
        bind_port: match bind_port {
            Some(p) => p,
            None => DEFAULT_SOURCE_SEND_PORT,
        },
        data_timeout_ms: match data_timeout_ms {
            Some(t) => t,
            None => DEFAULT_DATA_TIMEOUT_MS,
        },
        retries: match retries_number {
            Some(n) => n,
            None => DEFAULT_RETRIES,
        },
    }
}

/// The parameters a device returned; a reply without them is a
/// deserialization error.
pub fn require_result(response: WizRPCResponse) -> (r: Result<ResponseParams, QueryError>)
    ensures
        r == (match response.result {
            Some(p) => Ok(p),
            None => Err(QueryError::Serialization(SerializationError::ValueDeserialization)),
        }),
{
    match response.result {
        Some(p) => Ok(p),
        None => Err(QueryError::Serialization(SerializationError::ValueDeserialization)),
    }
}

/// The device at `address` described by its system configuration: its MAC
/// address is parsed from the reported text.
pub fn target_from_config(address: IpAddress, config: &ResponseParams) -> (r: Result<Target, QueryError>)
    requires
        config.mac is Some,
        mac_text_parsable(encode_utf8(config.mac->0@)),
    ensures
        encode_utf8(config.mac->0@).len() != 12 ==> r == Err::<Target, QueryError>(
            QueryError::Serialization(SerializationError::MacAddressError),
        ),
        encode_utf8(config.mac->0@).len() == 12 ==> (r matches Ok(t) && t.address == address
            && t.mac@ == mac_octets(encode_utf8(config.mac->0@))),
{
    let mac = match &config.mac {
        Some(m) => m,
        None => {
            return Err(QueryError::Unknown);
        },
    };
    let octets = parse_mac_address(mac.as_str())?;
    Ok(Target { address, mac: octets })
}

} // verus!
