use vstd::prelude::*;

use crate::types::{Address, LpConfig};

verus! {

/// Keys of the vault's instance storage.
#[derive(Clone, Copy, Debug, PartialEq, Eq, Structural)]
pub enum Key {
    Initialized,
    ConfigManager,
    PositionManager,
    RequestRouter,
    LpConfig,
    Paused,
    Version,
}

/// A value held under a key.
#[derive(Clone, Copy, Debug, PartialEq, Eq, Structural)]
pub enum StorageValue {
    Flag(bool),
    Account(Address),
    Config(LpConfig),
    Number(u32),
}

/// The vault's instance storage: at most one value under each key.
#[derive(Clone, Copy, Debug)]
pub struct InstanceStorage {
    initialized: Option<StorageValue>,
    config_manager: Option<StorageValue>,
    position_manager: Option<StorageValue>,
    request_router: Option<StorageValue>,
    lp_config: Option<StorageValue>,
    paused: Option<StorageValue>,
    version: Option<StorageValue>,
}

impl InstanceStorage {
    /// What is stored under `key`.
    pub closed spec fn entry(self, key: Key) -> Option<StorageValue> {
        match key {
            Key::Initialized => self.initialized,
            Key::ConfigManager => self.config_manager,
            Key::PositionManager => self.position_manager,
            Key::RequestRouter => self.request_router,
            Key::LpConfig => self.lp_config,
            Key::Paused => self.paused,
            Key::Version => self.version,
        }
    }
}

impl View for InstanceStorage {
    type V = Map<Key, StorageValue>;

    open spec fn view(&self) -> Map<Key, StorageValue> {
        Map::new(|k: Key| self.entry(k) is Some, |k: Key| self.entry(k).unwrap())
    }
}

/// The address stored under `key`, if an address is stored there.
pub open spec fn stored_address(m: Map<Key, StorageValue>, key: Key) -> Option<Address> {
    if m.contains_key(key) {
        match m[key] {
            StorageValue::Account(a) => Some(a),
            _ => None,
        }
    } else {
        None
    }
}

/// The flag stored under `key`, if a flag is stored there.
pub open spec fn stored_flag(m: Map<Key, StorageValue>, key: Key) -> Option<bool> {
    if m.contains_key(key) {
        match m[key] {
            StorageValue::Flag(b) => Some(b),
            _ => None,
        }
    } else {
        None
    }
}

/// The LP configuration stored under `Key::LpConfig`, if one is.
pub open spec fn stored_config(m: Map<Key, StorageValue>) -> Option<LpConfig> {
    if m.contains_key(Key::LpConfig) {
        match m[Key::LpConfig] {
            StorageValue::Config(c) => Some(c),
            _ => None,
        }
    } else {
        None
    }
}

impl InstanceStorage {
    /// Empty storage.
    pub fn new() -> (s: Self)
        ensures
            s@ == Map::<Key, StorageValue>::empty(),
    {
        let s = InstanceStorage {
            initialized: None,
            config_manager: None,
            position_manager: None,
            request_router: None,
            lp_config: None,
            paused: None,
            version: None,
        };
        assert(s@ =~= Map::<Key, StorageValue>::empty());
        s
    }

    /// Stores `value` under `key`, replacing what was there.
    pub fn set(&mut self, key: &Key, value: &StorageValue)
        ensures
            final(self)@ == old(self)@.insert(*key, *value),
    {
        let v = Some(*value);
        match key {
            Key::Initialized => self.initialized = v,
            Key::ConfigManager => self.config_manager = v,
            Key::PositionManager => self.position_manager = v,
            Key::RequestRouter => self.request_router = v,
            Key::LpConfig => self.lp_config = v,
            Key::Paused => self.paused = v,
            Key::Version => self.version = v,
        }
        assert(self@ =~= old(self)@.insert(*key, *value));
    }

    /// What is stored under `key`.
    pub fn get(&self, key: &Key) -> (r: Option<StorageValue>)
        ensures
            r == (if self@.contains_key(*key) { Some(self@[*key]) } else { None::<StorageValue> }),
    {
        match key {
            Key::Initialized => self.initialized,
            Key::ConfigManager => self.config_manager,
            Key::PositionManager => self.position_manager,
            Key::RequestRouter => self.request_router,
            Key::LpConfig => self.lp_config,
            Key::Paused => self.paused,
            Key::Version => self.version,
        }
    }

    /// The address stored under `key`, if an address is stored there.
    pub fn get_address(&self, key: &Key) -> (r: Option<Address>)
        ensures
            r == stored_address(self@, *key),
    {
        match self.get(key) {
            Some(StorageValue::Account(a)) => Some(a),
            _ => None,
        }
    }

    /// The flag stored under `key`, if a flag is stored there.
    pub fn get_flag(&self, key: &Key) -> (r: Option<bool>)
        ensures
            r == stored_flag(self@, *key),
    {
        match self.get(key) {
            Some(StorageValue::Flag(b)) => Some(b),
            _ => None,
        }
    }

    /// The configuration manager's address.
    pub fn config_manager(&self) -> (r: Address)
        requires
            stored_address(self@, Key::ConfigManager) is Some,
        ensures
            Some(r) == stored_address(self@, Key::ConfigManager),
    {
        self.get_address(&Key::ConfigManager).unwrap()
    }

    /// The position manager's address.
    pub fn position_manager(&self) -> (r: Address)
        requires
            stored_address(self@, Key::PositionManager) is Some,
        ensures
            Some(r) == stored_address(self@, Key::PositionManager),
    {
        self.get_address(&Key::PositionManager).unwrap()
    }

    /// The request router's address.
    pub fn request_router(&self) -> (r: Address)
        requires
            stored_address(self@, Key::RequestRouter) is Some,
        ensures
            Some(r) == stored_address(self@, Key::RequestRouter),
    {
        self.get_address(&Key::RequestRouter).unwrap()
    }

    /// The LP configuration.
    pub fn lp_config(&self) -> (r: LpConfig)
        requires
            stored_config(self@) is Some,
        ensures
            Some(r) == stored_config(self@),
    {
        self.get_config().unwrap()
    }

    /// The LP configuration, if one is stored.
    pub fn get_config(&self) -> (r: Option<LpConfig>)
        ensures
            r == stored_config(self@),
    {
        match self.get(&Key::LpConfig) {
            Some(StorageValue::Config(c)) => Some(c),
            _ => None,
        }
    }

    /// Records the code version after a migration.
    pub fn save_version(&mut self, version: u32)
        ensures
            final(self)@ == old(self)@.insert(Key::Version, StorageValue::Number(version)),
    {
        self.set(&Key::Version, &StorageValue::Number(version));
    }
}

/// Law: a read gives back the last value written under its key, and a write
/// leaves every other key as it was.
pub proof fn law_read_after_write(s: InstanceStorage, key: Key, value: StorageValue, other: Key)
    ensures
        s@.insert(key, value).contains_key(key),
        s@.insert(key, value)[key] == value,
        other != key ==> s@.insert(key, value).contains_key(other) == s@.contains_key(other),
        other != key && s@.contains_key(other) ==> s@.insert(key, value)[other] == s@[other],
{
}

} // verus!
