//! The registry of active components: at most one entry per component path.
//! An entry `E` is whatever the caller keeps per component (typically a
//! locked `ComponentHandle`); dropping it stops the component.
use vstd::prelude::*;
use vstd::string::StringExecFns;

use crate::error::{message_of, WorkerError};
use crate::model::{
    ActivateRequest, ActivateResponse, ActivationStatus, ComponentPath, DeactivateRequest, DeactivateResponse,
    DeactivationStatus,
};

verus! {

pub type PathKey = (Seq<char>, Seq<char>);

/// The index of `key` in `keys`, if it is there.
pub open spec fn position(keys: Seq<PathKey>, key: PathKey) -> Option<int> {
    if exists|i: int| 0 <= i < keys.len() && keys[i] == key {
        Some(choose|i: int| 0 <= i < keys.len() && keys[i] == key)
    } else {
        None
    }
}

/// The registry after an activation of `path`, given the parsed request (or
/// the parser's message) and the entry built for it (or why building failed),
/// and the status answered.
pub open spec fn activate_spec<E>(
    keys: Seq<PathKey>,
    values: Seq<E>,
    parsed: Result<PathKey, Seq<char>>,
    built: Result<E, WorkerError>,
) -> (Seq<PathKey>, Seq<E>, ActivationStatus) {
    match parsed {
        Err(_) => (keys, values, ActivationStatus::InvalidRequest),
        Ok(key) => if keys.contains(key) {
            (keys, values, ActivationStatus::AlreadyRunning)
        } else {
            match built {
                Err(_) => (keys, values, ActivationStatus::FailedToStart),
                Ok(e) => (keys.push(key), values.push(e), ActivationStatus::ActivationSuccessful),
            }
        },
    }
}

/// The registry after a deactivation of `path`, and the status answered.
pub open spec fn deactivate_spec<E>(keys: Seq<PathKey>, values: Seq<E>, parsed: Result<PathKey, Seq<char>>) -> (
    Seq<PathKey>,
    Seq<E>,
    DeactivationStatus,
) {
    match parsed {
        Err(_) => (keys, values, DeactivationStatus::InvalidRequest),
        Ok(key) => match position(keys, key) {
            None => (keys, values, DeactivationStatus::ComponentNotFound),
            Some(i) => (keys.remove(i), values.remove(i), DeactivationStatus::DeactivationSuccessful),
        },
    }
}

pub open spec fn activate_key(req: Result<ActivateRequest, String>) -> Result<PathKey, Seq<char>> {
    match req {
        Ok(r) => Ok(r.id.path@),
        Err(m) => Err(m@),
    }
}

pub open spec fn deactivate_key(req: Result<DeactivateRequest, String>) -> Result<PathKey, Seq<char>> {
    match req {
        Ok(r) => Ok(r.id.path@),
        Err(m) => Err(m@),
    }
}

pub struct ComponentManager<E> {
    active_components: Vec<(ComponentPath, E)>,
}

impl<E> ComponentManager<E> {
    pub closed spec fn keys(&self) -> Seq<PathKey> {
        self.active_components@.map_values(|kv: (ComponentPath, E)| kv.0@)
    }

    pub closed spec fn values(&self) -> Seq<E> {
        self.active_components@.map_values(|kv: (ComponentPath, E)| kv.1)
    }

    /// No component path is registered twice.
    pub open spec fn wf(&self) -> bool {
        self.keys().no_duplicates() && self.keys().len() == self.values().len()
    }

    pub fn new() -> (r: Self)
        ensures
            r.wf(),
            r.keys() == Seq::<PathKey>::empty(),
            r.values() == Seq::<E>::empty(),
    {
        let r = ComponentManager { active_components: Vec::new() };
        assert(r.keys() =~= Seq::<PathKey>::empty());
        assert(r.values() =~= Seq::<E>::empty());
        r
    }

    fn find(&self, path: &ComponentPath) -> (r: Option<usize>)
        ensures
            r matches Some(i) ==> i < self.keys().len() && self.keys()[i as int] == path@,
            r is None ==> !self.keys().contains(path@),
    {
        let mut i: usize = 0;
        while i < self.active_components.len()
            invariant
                i <= self.active_components@.len(),
                forall|j: int| 0 <= j < i ==> self.keys()[j] != path@,
            decreases self.active_components@.len() - i,
        {
            if self.active_components[i].0.same_as(path) {
                return Some(i);
            }
            i = i + 1;
        }
        proof {
            if self.keys().contains(path@) {
                let j = choose|j: int| 0 <= j < self.keys().len() && self.keys()[j] == path@;
                assert(self.keys()[j] != path@);
            }
        }
        None
    }

    /// Whether a component is registered under `path`.
    pub fn contains(&self, path: &ComponentPath) -> (r: bool)
        ensures
            r == self.keys().contains(path@),
    {
        self.find(path).is_some()
    }

    /// The entry registered under `path`.
    pub fn lookup_component(&self, path: &ComponentPath) -> (r: Option<&E>)
        requires
            self.wf(),
        ensures
            r is Some <==> self.keys().contains(path@),
            r matches Some(e) ==> *e == self.values()[position(self.keys(), path@)->Some_0],
    {
        match self.find(path) {
            Some(i) => {
                proof {
                    let p = position(self.keys(), path@)->Some_0;
                    assert(self.keys()[p] == path@);
                    assert(p == i);
                }
                Some(&self.active_components[i].1)
            },
            None => None,
        }
    }

    /// Number of registered components.
    pub fn len(&self) -> (r: usize)
        ensures
            r == self.keys().len(),
    {
        self.active_components.len()
    }

    /// The path and entry at position `i` of the registry.
    pub fn entry(&self, i: usize) -> (r: (&ComponentPath, &E))
        requires
            i < self.keys().len(),
        ensures
            r.0@ == self.keys()[i as int],
            *r.1 == self.values()[i as int],
    {
        let kv = &self.active_components[i];
        (&kv.0, &kv.1)
    }

    /// The answer an activation gets before any entry is built for it, if it
    /// is settled already: an unparsable request, or a path already active.
    pub fn activation_check(&self, activate_request: &Result<ActivateRequest, String>) -> (r: Option<
        ActivateResponse,
    >)
        ensures
            activate_request is Err ==> (r matches Some(resp) && resp.result == ActivationStatus::InvalidRequest
                && resp.dbg_message@ == activate_request->Err_0@),
            activate_request matches Ok(req) ==> (self.keys().contains(req.id.path@) <==> (r matches Some(resp)
                && resp.result == ActivationStatus::AlreadyRunning)),
            activate_request matches Ok(req) ==> (!self.keys().contains(req.id.path@) <==> r is None),
    {
        match activate_request {
            Err(msg) => Some(ActivateResponse { result: ActivationStatus::InvalidRequest, dbg_message: msg.clone() }),
            Ok(req) => {
                if self.contains(&req.id.path) {
                    Some(
                        ActivateResponse {
                            result: ActivationStatus::AlreadyRunning,
                            dbg_message: String::from_str("already running, redundant request!!"),
                        },
                    )
                } else {
                    None
                }
            },
        }
    }

    /// Activates the component of `activate_request` with the entry `built`
    /// for it (or the reason building one failed). A path that is already
    /// active keeps its entry.
    pub fn activate(&mut self, activate_request: Result<ActivateRequest, String>, built: Result<E, WorkerError>) -> (r:
        ActivateResponse)
        requires
            old(self).wf(),
        ensures
            final(self).wf(),
            (final(self).keys(), final(self).values(), r.result) == activate_spec(
                old(self).keys(),
                old(self).values(),
                activate_key(activate_request),
                built,
            ),
            activate_request matches Err(m) ==> r.dbg_message@ == m@,
            r.result == ActivationStatus::FailedToStart ==> r.dbg_message@ == message_of(built->Err_0.kind),
    {
        let ghost parsed = activate_key(activate_request);
        let ghost built_g = built;
        let req = match activate_request {
            Err(msg) => {
                return ActivateResponse { result: ActivationStatus::InvalidRequest, dbg_message: msg };
            },
            Ok(req) => req,
        };
        if self.contains(&req.id.path) {
            return ActivateResponse {
                result: ActivationStatus::AlreadyRunning,
                dbg_message: String::from_str("already running, redundant request!!"),
            };
        }
        match built {
            Err(e) => ActivateResponse { result: ActivationStatus::FailedToStart, dbg_message: e.message() },
            Ok(entry) => {
                let ghost old_keys = self.keys();
                let ghost old_values = self.values();
                let path = req.id.path;
                self.active_components.push((path, entry));
                assert(self.keys() =~= old_keys.push(req.id.path@));
                assert(self.values() =~= old_values.push(entry));
                proof {
                    assert forall|a: int, b: int|
                        0 <= a < b < self.keys().len() implies self.keys()[a] != self.keys()[b] by {
                        if b == old_keys.len() {
                            assert(old_keys[a] != req.id.path@);
                        } else {
                            assert(old_keys.no_duplicates());
                        }
                    }
                }
                ActivateResponse {
                    result: ActivationStatus::ActivationSuccessful,
                    dbg_message: String::from_str("successfully activated"),
                }
            },
        }
    }

    /// Deactivates the component of `deactivate_request`; its entry is dropped,
    /// which stops it.
    pub fn deactivate(&mut self, deactivate_request: Result<DeactivateRequest, String>) -> (r: DeactivateResponse)
        requires
            old(self).wf(),
        ensures
            final(self).wf(),
            (final(self).keys(), final(self).values(), r.result) == deactivate_spec(
                old(self).keys(),
                old(self).values(),
                deactivate_key(deactivate_request),
            ),
            deactivate_request matches Err(m) ==> r.dbg_message@ == m@,
    {
        let req = match deactivate_request {
            Err(msg) => {
                return DeactivateResponse { result: DeactivationStatus::InvalidRequest, dbg_message: msg };
            },
            Ok(req) => req,
        };
        match self.find(&req.id.path) {
            None => {
                proof {
                    assert(!(exists|i: int| 0 <= i < self.keys().len() && self.keys()[i] == req.id.path@));
                }
                DeactivateResponse {
                    result: DeactivationStatus::ComponentNotFound,
                    dbg_message: String::from_str("deactivation failed, since the component was not activated"),
                }
            },
            Some(i) => {
                let ghost old_keys = self.keys();
                let ghost old_values = self.values();
                proof {
                    let p = position(old_keys, req.id.path@)->Some_0;
                    assert(old_keys[p] == req.id.path@);
                    assert(p == i);
                }
                let _removed = self.active_components.remove(i);
                assert(self.keys() =~= old_keys.remove(i as int));
                assert(self.values() =~= old_values.remove(i as int));
                proof {
                    assert forall|a: int, b: int|
                        0 <= a < b < self.keys().len() implies self.keys()[a] != self.keys()[b] by {
                        let oa = if a < i { a } else { a + 1 };
                        let ob = if b < i { b } else { b + 1 };
                        assert(self.keys()[a] == old_keys[oa]);
                        assert(self.keys()[b] == old_keys[ob]);
                    }
                }
                DeactivateResponse {
                    result: DeactivationStatus::DeactivationSuccessful,
                    dbg_message: String::from_str("deactivation succesful"),
                }
            },
        }
    }
}

/// Registry uniqueness: once an activation of a path succeeded, a second
/// activation of the same path answers `AlreadyRunning` and leaves the
/// registry (the first entry included) as it was.
pub proof fn lemma_registry_uniqueness<E>(
    keys: Seq<PathKey>,
    values: Seq<E>,
    key: PathKey,
    first: Result<E, WorkerError>,
    second: Result<E, WorkerError>,
)
    requires
        activate_spec(keys, values, Ok(key), first).2 == ActivationStatus::ActivationSuccessful,
    ensures
        ({
            let (k1, v1, _) = activate_spec(keys, values, Ok(key), first);
            let (k2, v2, s2) = activate_spec(k1, v1, Ok(key), second);
            &&& s2 == ActivationStatus::AlreadyRunning
            &&& k2 == k1
            &&& v2 == v1
            &&& v1.last() == first->Ok_0
        }),
{
    let (k1, v1, _) = activate_spec(keys, values, Ok(key), first);
    assert(k1[k1.len() - 1] == key);
}

/// Deactivation twice in a row: on a registry without duplicate paths, the
/// first deactivation of an active path succeeds and the second finds nothing.
pub proof fn lemma_deactivate_twice<E>(keys: Seq<PathKey>, values: Seq<E>, key: PathKey)
    requires
        keys.no_duplicates(),
        keys.contains(key),
    ensures
        ({
            let (k1, v1, s1) = deactivate_spec(keys, values, Ok(key));
            let (_, _, s2) = deactivate_spec(k1, v1, Ok(key));
            s1 == DeactivationStatus::DeactivationSuccessful && s2 == DeactivationStatus::ComponentNotFound
        }),
{
    let i = position(keys, key)->Some_0;
    assert(keys[i] == key);
    let k1 = keys.remove(i);
    if exists|j: int| 0 <= j < k1.len() && k1[j] == key {
        let j = choose|j: int| 0 <= j < k1.len() && k1[j] == key;
        let oj = if j < i { j } else { j + 1 };
        assert(k1[j] == keys[oj]);
    }
}

} // verus!
