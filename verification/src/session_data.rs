//! The session record and its mathematical model.

use crate::config::AxumSessionConfig;
use crate::data_map::DataMap;
use crate::session_id::AxumSessionID;
use vstd::prelude::*;

verus! {

/// What a record is, as plain mathematics.
pub ghost struct SessionModel {
    pub id: u128,
    pub data: Map<Seq<char>, Seq<char>>,
    pub expires: int,
    pub longterm: bool,
    pub storable: bool,
    pub destroy: bool,
    pub renew: bool,
    pub update: bool,
}

/// The moment `lifespan` seconds after `now`, kept inside the range of `i64`.
pub open spec fn expiry_after(now: int, lifespan: int) -> int {
    if now + lifespan > i64::MAX {
        i64::MAX as int
    } else if now + lifespan < i64::MIN {
        i64::MIN as int
    } else {
        now + lifespan
    }
}

impl SessionModel {
    /// The record is due for eviction at time `now`: it was destroyed, or its
    /// expiry lies in the past.
    pub open spec fn is_stale(self, now: int) -> bool {
        self.destroy || self.expires < now
    }

    /// What `get` reads under `key`.
    pub open spec fn get(self, key: Seq<char>) -> Option<Seq<char>> {
        if self.data.contains_key(key) {
            Some(self.data[key])
        } else {
            None
        }
    }

    /// The record after `set`: a value equal to the stored one changes nothing.
    pub open spec fn set(self, key: Seq<char>, value: Seq<char>) -> SessionModel {
        if self.get(key) == Some(value) {
            self
        } else {
            SessionModel { data: self.data.insert(key, value), update: true, ..self }
        }
    }

    /// The record after `get_remove`: dirty only if the key was there.
    pub open spec fn get_remove(self, key: Seq<char>) -> SessionModel {
        if self.data.contains_key(key) {
            SessionModel { data: self.data.remove(key), update: true, ..self }
        } else {
            self
        }
    }

    /// The record after `remove`: dirty in any case.
    pub open spec fn remove(self, key: Seq<char>) -> SessionModel {
        SessionModel { data: self.data.remove(key), update: true, ..self }
    }

    /// The record after `clear`.
    pub open spec fn clear(self) -> SessionModel {
        SessionModel { data: Map::empty(), update: true, ..self }
    }

    /// The record after `renew`.
    pub open spec fn renew(self) -> SessionModel {
        SessionModel { renew: true, update: true, ..self }
    }

    /// The record after `destroy`.
    pub open spec fn destroy(self) -> SessionModel {
        SessionModel { destroy: true, update: true, ..self }
    }

    /// The record after `set_longterm`.
    pub open spec fn set_longterm(self, longterm: bool) -> SessionModel {
        SessionModel { longterm, update: true, ..self }
    }

    /// The record after `set_store`.
    pub open spec fn set_store(self, storable: bool) -> SessionModel {
        SessionModel { storable, update: true, ..self }
    }

    /// The record with its expiry moved to `lifespan` seconds after `now`.
    pub open spec fn refreshed(self, now: int, lifespan: int) -> SessionModel {
        SessionModel { expires: expiry_after(now, lifespan), ..self }
    }
}

/// The server-side state of one session.
#[derive(Debug)]
pub struct AxumSessionData {
    pub id: AxumSessionID,
    pub data: DataMap,
    /// Seconds since the epoch after which the record may be evicted.
    pub expires: i64,
    pub longterm: bool,
    pub storable: bool,
    pub destroy: bool,
    pub renew: bool,
    pub update: bool,
}

impl View for AxumSessionData {
    type V = SessionModel;

    open spec fn view(&self) -> SessionModel {
        SessionModel {
            id: self.id@,
            data: self.data@,
            expires: self.expires as int,
            longterm: self.longterm,
            storable: self.storable,
            destroy: self.destroy,
            renew: self.renew,
            update: self.update,
        }
    }
}

/// `lifespan` seconds after `now`, saturating at the ends of `i64`.
pub fn expiry(now: i64, lifespan: i64) -> (expires: i64)
    ensures
        expires == expiry_after(now as int, lifespan as int),
{
    if lifespan > 0 && now > i64::MAX - lifespan {
        i64::MAX
    } else if lifespan < 0 && now < i64::MIN - lifespan {
        i64::MIN
    } else {
        now + lifespan
    }
}

impl AxumSessionData {
    /// A fresh record for `id`: no data, dirty, alive for the configured
    /// lifespan from `now`.
    pub fn new(id: AxumSessionID, storable: bool, now: i64, config: &AxumSessionConfig) -> (record:
        AxumSessionData)
        ensures
            record@ == (SessionModel {
                id: id@,
                data: Map::empty(),
                expires: expiry_after(now as int, config.lifespan as int),
                longterm: false,
                storable,
                destroy: false,
                renew: false,
                update: true,
            }),
    {
        AxumSessionData {
            id,
            data: DataMap::new(),
            expires: expiry(now, config.lifespan),
            longterm: false,
            storable,
            destroy: false,
            renew: false,
            update: true,
        }
    }

    /// Whether the record is due for eviction at time `now`.
    pub fn is_stale(&self, now: i64) -> (stale: bool)
        ensures
            stale == self@.is_stale(now as int),
    {
        self.destroy || self.expires < now
    }

    /// The serialized value stored under `key`.
    pub fn get(&self, key: &str) -> (value: Option<String>)
        ensures
            value.is_some() == self@.get(key@).is_some(),
            value.is_some() ==> value.unwrap()@ == self@.get(key@).unwrap(),
    {
        match self.data.get(key) {
            Some(stored) => Some(stored.clone()),
            None => None,
        }
    }

    /// Takes `key` out and returns its serialized value; the record becomes
    /// dirty if the key was there.
    pub fn get_remove(&mut self, key: &str) -> (value: Option<String>)
        ensures
            final(self)@ == old(self)@.get_remove(key@),
            value.is_some() == old(self)@.get(key@).is_some(),
            value.is_some() ==> value.unwrap()@ == old(self)@.get(key@).unwrap(),
    {
        let removed = self.data.remove(key);
        if removed.is_some() {
            self.update = true;
        } else {
            assert(self.data@ =~= old(self).data@);
        }
        removed
    }

    /// Stores the serialized `value` under `key`. A value equal to the one
    /// already stored leaves the record as it is, dirty flag included.
    pub fn set(&mut self, key: &str, value: String)
        ensures
            final(self)@ == old(self)@.set(key@, value@),
    {
        let unchanged = match self.data.get(key) {
            Some(stored) => *stored == value,
            None => false,
        };
        if !unchanged {
            self.data.insert(key.to_owned(), value);
            self.update = true;
        }
    }

    /// Takes `key` out; the record becomes dirty whether or not it was there.
    pub fn remove(&mut self, key: &str)
        ensures
            final(self)@ == old(self)@.remove(key@),
    {
        self.update = true;
        self.data.remove(key);
    }

    /// Takes every key out and marks the record dirty.
    pub fn clear(&mut self)
        ensures
            final(self)@ == old(self)@.clear(),
    {
        self.data.clear();
        self.update = true;
    }

    /// Asks for a new identifier at the next flush.
    pub fn renew(&mut self)
        ensures
            final(self)@ == old(self)@.renew(),
    {
        self.renew = true;
        self.update = true;
    }

    /// Asks for the session to be ended at the next flush or sweep.
    pub fn destroy(&mut self)
        ensures
            final(self)@ == old(self)@.destroy(),
    {
        self.destroy = true;
        self.update = true;
    }

    /// Selects the long or the short expiration policy.
    pub fn set_longterm(&mut self, longterm: bool)
        ensures
            final(self)@ == old(self)@.set_longterm(longterm),
    {
        self.longterm = longterm;
        self.update = true;
    }

    /// Says whether the record may be written to the persistent backend.
    pub fn set_store(&mut self, storable: bool)
        ensures
            final(self)@ == old(self)@.set_store(storable),
    {
        self.storable = storable;
        self.update = true;
    }

    /// Moves the expiry to the configured lifespan after `now`: the long one
    /// for a long-term record, the short one otherwise.
    pub fn refresh(&mut self, now: i64, config: &AxumSessionConfig)
        ensures
            final(self)@ == old(self)@.refreshed(
                now as int,
                config.spec_lifespan_for(old(self).longterm) as int,
            ),
    {
        self.expires = expiry(now, config.lifespan_for(self.longterm));
    }
}

impl Clone for AxumSessionData {
    /// A copy with the same identifier, data, expiry and flags.
    fn clone(&self) -> (copy: AxumSessionData)
        ensures
            copy@ == self@,
    {
        AxumSessionData {
            id: self.id,
            data: self.data.clone(),
            expires: self.expires,
            longterm: self.longterm,
            storable: self.storable,
            destroy: self.destroy,
            renew: self.renew,
            update: self.update,
        }
    }
}

} // verus!
