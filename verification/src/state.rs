//! What the service knows while it runs: its settings and the configurations of its tenants.

use std::collections::HashMap;
use std::sync::Arc;

use vstd::prelude::*;
use vstd::string::*;

use crate::ids::Uuid;

verus! {

broadcast use vstd::std_specs::hash::group_hash_axioms;

/// The configuration of a tenant: whose it is, and what it says.
#[derive(Debug)]
pub struct TenantConfig<S> {
    pub tenant_id: Uuid,
    pub settings: S,
}

/// The source addresses that callbacks may come from.
#[derive(Debug, PartialEq, Eq)]
pub enum AllowedIps {
    /// Any address.
    Any,
    /// The listed addresses.
    Listed(Vec<String>),
}

/// How the service is set up.
#[derive(Debug)]
pub struct Settings {
    /// Where the database is.
    pub database_url: String,
    /// Where a second database to read from is, if there is one.
    pub replica_url: Option<String>,
    /// The most connections to a database.
    pub pool_size: u32,
    /// Where the ledger is read.
    pub horizon_url: String,
    /// Where the cache is.
    pub redis_url: String,
    /// How often the list of assets is read again.
    pub asset_refresh_seconds: u64,
    /// How many status changes wait for a slow listener.
    pub broadcast_capacity: usize,
    /// The source addresses that callbacks may come from.
    pub allowed_ips: AllowedIps,
    /// How many proxies in front of the service are trusted.
    pub trusted_proxy_depth: usize,
    /// Whether rotated secrets are in use.
    pub secrets: bool,
    /// How many transactions wait, when the service starts.
    pub pending_queue_depth: u64,
    /// How many transactions are taken at a time, when the service starts.
    pub current_batch_size: u64,
}

/// What the service knows while it runs.
#[derive(Debug)]
pub struct AppState<S> {
    pub settings: Arc<Settings>,
    /// The configurations that are known, by tenant.
    pub tenant_configs: HashMap<u128, TenantConfig<S>>,
}

/// The configurations of a list by tenant: of several for one tenant, the last.
pub open spec fn by_tenant<S>(configs: Seq<TenantConfig<S>>) -> Map<u128, TenantConfig<S>>
    decreases configs.len(),
{
    if configs.len() == 0 {
        Map::empty()
    } else {
        by_tenant(configs.drop_last()).insert(configs.last().tenant_id.0, configs.last())
    }
}

impl<S> AppState<S> {
    /// A state that knows no tenant yet.
    pub fn new(settings: Settings) -> (state: AppState<S>)
        ensures
            *state.settings == settings,
            state.tenant_configs@ == Map::<u128, TenantConfig<S>>::empty(),
    {
        AppState { settings: Arc::new(settings), tenant_configs: HashMap::new() }
    }

    /// The state of a service under test, with its database at `database_url`.
    pub fn test_new(database_url: &str) -> (state: AppState<S>)
        ensures
            state.tenant_configs@ == Map::<u128, TenantConfig<S>>::empty(),
            state.settings.database_url@ == database_url@,
            state.settings.replica_url is None,
            state.settings.pool_size == 10,
            state.settings.horizon_url@ == "https://horizon-testnet.stellar.org"@,
            state.settings.redis_url@ == "redis://localhost:6379"@,
            state.settings.asset_refresh_seconds == 300,
            state.settings.broadcast_capacity == 100,
            state.settings.allowed_ips == AllowedIps::Any,
            state.settings.trusted_proxy_depth == 1,
            !state.settings.secrets,
            state.settings.pending_queue_depth == 0,
            state.settings.current_batch_size == 10,
    {
        AppState::new(
            Settings {
                database_url: database_url.to_owned(),
                replica_url: None,
                pool_size: 10,
                horizon_url: "https://horizon-testnet.stellar.org".to_owned(),
                redis_url: "redis://localhost:6379".to_owned(),
                asset_refresh_seconds: 300,
                broadcast_capacity: 100,
                allowed_ips: AllowedIps::Any,
                trusted_proxy_depth: 1,
                secrets: false,
                pending_queue_depth: 0,
                current_batch_size: 10,
            },
        )
    }

    /// The configuration of a tenant, if it is known.
    pub fn get_tenant_config(&self, tenant_id: Uuid) -> (config: Option<&TenantConfig<S>>)
        ensures
            match config {
                Some(known) => self.tenant_configs@.contains_key(tenant_id.0) && *known
                    == self.tenant_configs@[tenant_id.0],
                None => !self.tenant_configs@.contains_key(tenant_id.0),
            },
    {
        self.tenant_configs.get(&tenant_id.0)
    }

    /// Replaces all configurations by those that were read; where they could not be read, keeps
    /// what is known and hands the error on.
    pub fn load_tenant_configs<E>(
        &mut self,
        configs: Result<Vec<TenantConfig<S>>, E>,
    ) -> (loaded: Result<(), E>)
        ensures
            final(self).settings == old(self).settings,
            match configs {
                Ok(list) => loaded == Ok::<(), E>(()) && final(self).tenant_configs@ == by_tenant(list@),
                Err(error) => loaded == Err::<(), E>(error) && final(self).tenant_configs@
                    == old(self).tenant_configs@,
            },
    {
        let list = match configs {
            Ok(list) => list,
            Err(error) => {
                return Err(error);
            },
        };
        self.tenant_configs.clear();
        proof {
            assert(list@.take(0) =~= Seq::empty());
        }
        for config in iter: list
            invariant
                iter.seq() == list@,
                self.settings == old(self).settings,
                self.tenant_configs@ == by_tenant(list@.take(iter.index() as int)),
        {
            let ghost i = iter.index() as int;
            proof {
                assert(list@.take(i + 1).drop_last() =~= list@.take(i));
            }
            self.tenant_configs.insert(config.tenant_id.0, config);
        }
        proof {
            assert(list@.take(list@.len() as int) =~= list@);
        }
        Ok(())
    }
}

/// What is read back after a load: the last configuration of the list that is the tenant's, and
/// nothing for a tenant that the list does not name.
pub proof fn last_config_is_read_back<S>(configs: Seq<TenantConfig<S>>, tenant_id: Uuid)
    ensures
        by_tenant(configs).contains_key(tenant_id.0) <==> exists|i: int|
            0 <= i < configs.len() && (#[trigger] configs[i]).tenant_id == tenant_id,
        forall|i: int|
            0 <= i < configs.len() && (#[trigger] configs[i]).tenant_id == tenant_id && (forall|
                j: int,
            |
                i < j < configs.len() ==> (#[trigger] configs[j]).tenant_id != tenant_id)
                ==> by_tenant(configs)[tenant_id.0] == configs[i],
    decreases configs.len(),
{
    if configs.len() > 0 {
        let rest = configs.drop_last();
        last_config_is_read_back(rest, tenant_id);
        assert forall|i: int|
            0 <= i < configs.len() && (#[trigger] configs[i]).tenant_id == tenant_id && (forall|
                j: int,
            |
                i < j < configs.len() ==> (#[trigger] configs[j]).tenant_id
                    != tenant_id) implies by_tenant(configs)[tenant_id.0] == configs[i] by {
            if i < rest.len() {
                assert(rest[i] == configs[i]);
                assert(configs[configs.len() - 1].tenant_id != tenant_id);
                assert forall|j: int| i < j < rest.len() implies (#[trigger] rest[j]).tenant_id
                    != tenant_id by {
                    assert(configs[j] == rest[j]);
                }
            }
        }
        if exists|i: int| 0 <= i < configs.len() && (#[trigger] configs[i]).tenant_id == tenant_id {
            let i = choose|i: int|
                0 <= i < configs.len() && (#[trigger] configs[i]).tenant_id == tenant_id;
            if i < rest.len() {
                assert(rest[i].tenant_id == tenant_id);
            }
        }
        if by_tenant(configs).contains_key(tenant_id.0) {
            if configs.last().tenant_id == tenant_id {
                assert(configs[configs.len() - 1].tenant_id == tenant_id);
            } else {
                let i = choose|i: int|
                    0 <= i < rest.len() && (#[trigger] rest[i]).tenant_id == tenant_id;
                assert(configs[i].tenant_id == tenant_id);
            }
        }
    }
}

} // verus!
