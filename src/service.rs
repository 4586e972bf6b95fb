use vstd::prelude::*;

use crate::address::WanIps;
use crate::cache::Cache;
use crate::dyndns2::Dyndns2;

verus! {

/// The default cache key of a service: `"{identifier}@{server}"`.
pub open spec fn cache_key_of(identifier: Seq<char>, server: Seq<char>) -> Seq<char> {
    identifier + seq!['@'] + server
}

/// Whether the remote service has to be told of `wan_ip`: it has, unless the
/// cache already holds exactly that snapshot under `key`.
pub open spec fn needs_remote_update(cache: Map<Seq<char>, WanIps>, key: Seq<char>, wan_ip: WanIps) -> bool {
    !(cache.contains_key(key) && cache[key] == wan_ip)
}

/// The cache once the remote call has come back: the new snapshot is recorded
/// only if the call succeeded.
pub open spec fn cache_after_remote(
    cache: Map<Seq<char>, WanIps>,
    key: Seq<char>,
    wan_ip: WanIps,
    remote_ok: bool,
) -> Map<Seq<char>, WanIps> {
    if remote_ok {
        cache.insert(key, wan_ip)
    } else {
        cache
    }
}

/// The cache after one whole update: untouched when no remote call is needed,
/// otherwise as the remote call's outcome decides.
pub open spec fn cache_after_update(
    cache: Map<Seq<char>, WanIps>,
    key: Seq<char>,
    wan_ip: WanIps,
    remote_ok: bool,
) -> Map<Seq<char>, WanIps> {
    if needs_remote_update(cache, key, wan_ip) {
        cache_after_remote(cache, key, wan_ip, remote_ok)
    } else {
        cache
    }
}

/// How many remote calls one update makes.
pub open spec fn remote_calls(cache: Map<Seq<char>, WanIps>, key: Seq<char>, wan_ip: WanIps) -> nat {
    if needs_remote_update(cache, key, wan_ip) {
        1
    } else {
        0
    }
}

/// What a remote dynamic-DNS integration exposes: who it updates and where.
pub trait ServiceTrait {
    spec fn identifier(&self) -> Seq<char>;

    spec fn server(&self) -> Seq<char>;

    /// The name that the service updates.
    fn get_identifier(&self) -> (r: &String)
        ensures
            r@ == self.identifier(),
    ;

    /// The server that receives the updates.
    fn get_server(&self) -> (r: &String)
        ensures
            r@ == self.server(),
    ;

    /// The key under which the cache tracks this service.
    fn get_cache_key(&self) -> (r: String)
        ensures
            r@ == cache_key_of(self.identifier(), self.server()),
    {
        let mut key = self.get_identifier().clone();
        key.append("@");
        key.append(self.get_server().as_str());
        proof {
            reveal_strlit("@");
        }
        key
    }
}

/// The step that an update takes after looking at the cache.
#[derive(PartialEq, Eq, Structural, Clone, Copy, Debug)]
pub enum UpdateAction {
    /// The cache holds this snapshot already: nothing is sent.
    Unchanged,
    /// The remote service has to be told of the snapshot.
    PushRemote,
}

/// First half of an update: decides from the cache whether the remote service
/// must be called for `wan_ip`.
pub fn plan_update<S: ServiceTrait>(service: &S, wan_ip: &WanIps, cache: &Cache) -> (r: UpdateAction)
    requires
        cache.wf(),
    ensures
        r == UpdateAction::PushRemote <==> needs_remote_update(
            cache@,
            cache_key_of(service.identifier(), service.server()),
            *wan_ip,
        ),
{
    match cache.get(service.get_cache_key()) {
        Some(cached) => {
            if *cached == *wan_ip {
                UpdateAction::Unchanged
            } else {
                UpdateAction::PushRemote
            }
        },
        None => UpdateAction::PushRemote,
    }
}

/// Second half of an update, once the remote call has come back: on success
/// the snapshot is recorded under the service's key, on failure the cache is
/// left as it was and the error is handed on.
pub fn commit_update<S: ServiceTrait, E>(
    service: &S,
    wan_ip: WanIps,
    cache: &mut Cache,
    remote: Result<(), E>,
) -> (r: Result<(), E>)
    requires
        old(cache).wf(),
    ensures
        final(cache).wf(),
        final(cache).file_path() == old(cache).file_path(),
        final(cache)@ == cache_after_remote(
            old(cache)@,
            cache_key_of(service.identifier(), service.server()),
            wan_ip,
            remote is Ok,
        ),
        r == remote,
{
    if remote.is_ok() {
        cache.insert(service.get_cache_key(), wan_ip);
    }
    remote
}

/// Updating twice in a row with the same snapshot, the first remote call
/// succeeding, calls the remote service once in all: after the first update
/// the cache holds the snapshot, so the second one is a no-op whatever the
/// remote would have answered.
pub proof fn lemma_update_idempotent(
    cache: Map<Seq<char>, WanIps>,
    key: Seq<char>,
    wan_ip: WanIps,
    second_ok: bool,
)
    requires
        needs_remote_update(cache, key, wan_ip),
    ensures
        ({
            let once = cache_after_update(cache, key, wan_ip, true);
            &&& !needs_remote_update(once, key, wan_ip)
            &&& cache_after_update(once, key, wan_ip, second_ok) == once
            &&& remote_calls(cache, key, wan_ip) + remote_calls(once, key, wan_ip) == 1
        }),
{
}

/// On an empty cache an update calls the remote service once and, when that
/// call succeeds, leaves the cache holding just the snapshot under the key.
pub proof fn lemma_update_on_miss(key: Seq<char>, wan_ip: WanIps)
    ensures
        remote_calls(Map::empty(), key, wan_ip) == 1,
        cache_after_update(Map::empty(), key, wan_ip, true) == Map::<Seq<char>, WanIps>::empty().insert(
            key,
            wan_ip,
        ),
{
}

/// When the cache holds another snapshot under the key, an update calls the
/// remote service once and, when that call succeeds, records the new snapshot.
pub proof fn lemma_update_on_change(
    cache: Map<Seq<char>, WanIps>,
    key: Seq<char>,
    old_ip: WanIps,
    new_ip: WanIps,
)
    requires
        cache.contains_key(key),
        cache[key] == old_ip,
        old_ip != new_ip,
    ensures
        remote_calls(cache, key, new_ip) == 1,
        cache_after_update(cache, key, new_ip, true) == cache.insert(key, new_ip),
        cache_after_update(cache, key, new_ip, true)[key] == new_ip,
{
}

/// A failed remote call leaves the cache as it was, whether the key was
/// missing or held another snapshot.
pub proof fn lemma_failure_keeps_cache(cache: Map<Seq<char>, WanIps>, key: Seq<char>, wan_ip: WanIps)
    ensures
        cache_after_update(cache, key, wan_ip, false) == cache,
        cache_after_update(cache, key, wan_ip, false).contains_key(key) == cache.contains_key(key),
{
}

/// The kinds of remote service that a configuration can name.
pub enum ServiceTypes {
    Dyndns2(Dyndns2),
}

impl ServiceTrait for ServiceTypes {
    open spec fn identifier(&self) -> Seq<char> {
        match self {
            ServiceTypes::Dyndns2(s) => s.identifier(),
        }
    }

    open spec fn server(&self) -> Seq<char> {
        match self {
            ServiceTypes::Dyndns2(s) => s.server(),
        }
    }

    fn get_identifier(&self) -> (r: &String) {
        match self {
            ServiceTypes::Dyndns2(s) => s.get_identifier(),
        }
    }

    fn get_server(&self) -> (r: &String) {
        match self {
            ServiceTypes::Dyndns2(s) => s.get_server(),
        }
    }
}

} // verus!
