use std::collections::HashSet;

use bulk_status::dispatch::{enqueue_reply, Reply};
use bulk_status::ids::Uuid;
use bulk_status::request::BulkStatusRequest;
use bulk_status::routes::{create_app, Endpoint, Group, Handler, Layer, Mount, Verb};
use bulk_status::state::{AllowedIps, AppState, Settings, TenantConfig};

fn config(tenant: u128, settings: &'static str) -> TenantConfig<&'static str> {
    TenantConfig { tenant_id: Uuid(tenant), settings }
}

fn settings(secrets: bool) -> Settings {
    Settings {
        database_url: "postgres://localhost/test".to_string(),
        replica_url: None,
        pool_size: 10,
        horizon_url: "https://horizon-testnet.stellar.org".to_string(),
        redis_url: "redis://localhost:6379".to_string(),
        asset_refresh_seconds: 300,
        broadcast_capacity: 100,
        allowed_ips: AllowedIps::Listed(vec!["192.0.2.7".to_string()]),
        trusted_proxy_depth: 2,
        secrets,
        pending_queue_depth: 0,
        current_batch_size: 10,
    }
}

#[test]
fn no_two_routes_collide() {
    let set_up = settings(true);
    let plan = create_app(&set_up);
    let mut seen = HashSet::new();
    for mount in &plan.mounts {
        for section in &mount.sections {
            for endpoint in &section.endpoints {
                let bound = endpoint.binding();
                assert_eq!(bound.group, section.group);
                let path = format!("{}{}", mount.prefix, bound.path);
                assert!(seen.insert(format!("{:?} {}", bound.verb, path)));
            }
        }
    }
    for endpoint in &plan.sockets.endpoints {
        assert!(seen.insert(format!("{:?} {}", endpoint.binding().verb, endpoint.binding().path)));
    }
    assert_eq!(seen.len(), 49);
    assert!(seen.contains("Get /transactions/search"));
    assert!(seen.contains("Get /api/v1/transactions/:id"));
    assert!(seen.contains("Post /api/v2/callback/transaction"));
    assert!(seen.contains("Patch /admin/transactions/bulk-status"));
    assert!(seen.contains("Get /admin/transactions/bulk-status/jobs/:id"));
    assert!(seen.contains("Put /admin/quotas/:tenant_id"));
    assert!(seen.contains("Nest /admin/reconciliation"));
    assert!(seen.contains("Get /ws"));
    assert!(!seen.contains("Get /api/v1/health"));
    assert!(!seen.contains("Post /reconnect"));
}

#[test]
fn every_endpoint_is_attached() {
    assert_eq!(Endpoint::all().len(), 33);
    let set_up = settings(false);
    let plan = create_app(&set_up);
    let groups: Vec<Vec<Group>> = plan
        .mounts
        .iter()
        .map(|mount| mount.sections.iter().map(|section| section.group).collect())
        .collect();
    assert_eq!(
        groups,
        vec![
            vec![Group::Health, Group::Data, Group::Callback, Group::Webhook, Group::Admin],
            vec![Group::Data, Group::Callback, Group::Webhook],
            vec![Group::Data, Group::Callback, Group::Webhook],
        ]
    );
    assert_eq!(plan.mounts[0].mount, Mount::Root);
    assert_eq!(plan.mounts[0].prefix, "");
    assert_eq!(plan.mounts[1].prefix, "/api/v1");
    assert_eq!(plan.mounts[2].prefix, "/api/v2");
    assert_eq!(plan.mounts[0].sections[4].endpoints.len(), 20);
    assert_eq!(plan.sockets.endpoints, vec![Endpoint::Socket]);
    assert_eq!(Endpoint::GetJobStatus.binding().verb, Verb::Get);
    assert_eq!(
        Endpoint::GetJobStatus.binding().group,
        Endpoint::BulkUpdateStatus.binding().group
    );
}

#[test]
fn both_callback_addresses_have_one_handler() {
    assert_eq!(Endpoint::Callback.binding().handler, Handler::Callback);
    assert_eq!(Endpoint::CallbackTransaction.binding().handler, Handler::Callback);
    assert_eq!(Endpoint::GetJobStatus.binding().handler, Handler::GetJobStatus);
    for e in Endpoint::all() {
        for f in Endpoint::all() {
            let callbacks =
                e.binding().group == Group::Callback && f.binding().group == Group::Callback;
            assert_eq!(e.binding().handler == f.binding().handler, e == f || callbacks);
        }
    }
}

#[test]
fn the_polled_address_is_a_route() {
    let job_id = Uuid(0x550e8400e29b41d4a716446655440000);
    let req = BulkStatusRequest {
        transaction_ids: vec![Uuid(1)],
        status: "failed".to_string(),
        reason: None,
    };
    let address = Endpoint::GetJobStatus.binding().path.replace(":id", &job_id.to_text());
    match enqueue_reply::<String>(&req, Ok(job_id)).unwrap().0 {
        Reply::Queued(queued) => {
            assert!(queued.message.contains(&format!("Poll GET {} for results.", address)))
        }
        other => panic!("{:?}", other),
    }
}

#[test]
fn layers_come_in_order() {
    let set_up = settings(false);
    let plan = create_app(&set_up);
    assert_eq!(plan.mounts[0].sections[0].layers, vec![]);
    assert_eq!(plan.mounts[0].sections[1].layers, vec![Layer::VersionTwo]);
    assert_eq!(
        plan.mounts[1].sections[1].layers,
        vec![
            Layer::RateLimit,
            Layer::ValidateCallback,
            Layer::AnchorSignature,
            Layer::IpFilter {
                allowed_ips: &AllowedIps::Listed(vec!["192.0.2.7".to_string()]),
                trusted_proxy_depth: 2,
            },
            Layer::VersionOne,
        ]
    );
    assert_eq!(
        plan.mounts[2].sections[2].layers,
        vec![
            Layer::RateLimit,
            Layer::ValidateWebhook,
            Layer::AnchorSignature,
            Layer::VersionTwo,
        ]
    );
    assert_eq!(plan.mounts[0].sections[4].layers, vec![Layer::AdminAuth]);
    assert_eq!(plan.api_layers, vec![Layer::PanicRecovery]);
    assert_eq!(plan.sockets.layers, vec![]);
    assert_eq!(plan.layers, vec![Layer::ErrorEnrichment, Layer::RequestLogger]);
}

#[test]
fn secrets_enclose_the_admin_check() {
    let set_up = settings(true);
    let plan = create_app(&set_up);
    assert_eq!(plan.mounts[0].sections[4].layers, vec![Layer::AdminAuth, Layer::Secrets]);
}

#[test]
fn the_filter_is_that_of_the_state() {
    let state: AppState<&'static str> = AppState::test_new("");
    let plan = create_app(&state.settings);
    for mount in &plan.mounts {
        for section in &mount.sections {
            let filters: Vec<Layer> = section
                .layers
                .iter()
                .copied()
                .filter(|layer| matches!(layer, Layer::IpFilter { .. }))
                .collect();
            let expected = if section.group == Group::Callback {
                vec![Layer::IpFilter { allowed_ips: &AllowedIps::Any, trusted_proxy_depth: 1 }]
            } else {
                vec![]
            };
            assert_eq!(filters, expected);
        }
    }
}

#[test]
fn the_state_under_test() {
    let state: AppState<&'static str> = AppState::test_new("postgres://localhost/test");
    assert_eq!(state.settings.database_url, "postgres://localhost/test");
    assert_eq!(state.settings.replica_url, None);
    assert_eq!(state.settings.pool_size, 10);
    assert_eq!(state.settings.horizon_url, "https://horizon-testnet.stellar.org");
    assert_eq!(state.settings.redis_url, "redis://localhost:6379");
    assert_eq!(state.settings.asset_refresh_seconds, 300);
    assert_eq!(state.settings.broadcast_capacity, 100);
    assert_eq!(state.settings.allowed_ips, AllowedIps::Any);
    assert_eq!(state.settings.trusted_proxy_depth, 1);
    assert!(!state.settings.secrets);
    assert_eq!(state.settings.pending_queue_depth, 0);
    assert_eq!(state.settings.current_batch_size, 10);
    assert!(state.get_tenant_config(Uuid(1)).is_none());
}

#[test]
fn loading_replaces_all_tenants() {
    let mut state: AppState<&'static str> = AppState::test_new("");
    let first = vec![config(1, "one"), config(2, "two"), config(1, "uno")];
    assert!(state.load_tenant_configs::<String>(Ok(first)).is_ok());
    assert_eq!(state.get_tenant_config(Uuid(1)).unwrap().settings, "uno");
    assert_eq!(state.get_tenant_config(Uuid(2)).unwrap().settings, "two");
    assert!(state.get_tenant_config(Uuid(3)).is_none());

    assert!(state.load_tenant_configs::<String>(Ok(vec![config(3, "three")])).is_ok());
    assert!(state.get_tenant_config(Uuid(1)).is_none());
    assert_eq!(state.get_tenant_config(Uuid(3)).unwrap().settings, "three");
}

#[test]
fn a_failed_load_keeps_the_tenants() {
    let mut state: AppState<&'static str> = AppState::test_new("");
    assert!(state.load_tenant_configs::<String>(Ok(vec![config(1, "one")])).is_ok());
    assert_eq!(state.load_tenant_configs(Err("down")), Err("down"));
    assert_eq!(state.get_tenant_config(Uuid(1)).unwrap().settings, "one");
}
