//! What holds of the routes of the service.

use vstd::prelude::*;

verus! {

use crate::dispatch::poll_path;
use crate::ids::{hyphenated, Uuid};
use crate::routes::{
    binding, group_layers, is_app_plan, is_mount_plan, is_section, is_versioned, mounted_groups,
    mounts, prefix, section_layers, version_layers, AppPlan, Endpoint, Group, Handler, Layer,
    Mount, Verb,
};
use crate::state::Settings;

/// Every layer around the endpoints of a group, from the inside out.
pub open spec fn chain<'a>(group: Group, mount: Mount, settings: &'a Settings) -> Seq<Layer<'a>> {
    section_layers(group, mount, settings) + (if group == Group::Sockets {
        seq![]
    } else {
        seq![Layer::PanicRecovery]
    }) + seq![Layer::ErrorEnrichment, Layer::RequestLogger]
}

/// Whether the endpoints of a group are reached under a mount.
pub open spec fn is_mounted(group: Group, mount: Mount) -> bool {
    mount == Mount::Root || is_versioned(group)
}

/// The path of an endpoint under a mount.
pub open spec fn full_path(mount: Mount, endpoint: Endpoint) -> Seq<char> {
    prefix(mount) + binding(endpoint).path@
}

/// Whether a request passes `first` before it passes `next` on its way in.
pub open spec fn passes_before(
    chain: Seq<Layer<'_>>,
    first: Layer<'_>,
    next: Layer<'_>,
) -> bool {
    exists|i: int, j: int|
        0 <= j < i < chain.len() && #[trigger] chain[i] == first && #[trigger] chain[j] == next
}

/// Whether `plan` answers `endpoint` under `mount`, behind exactly `layers`, from the inside out.
pub open spec fn serves(
    plan: AppPlan<'_>,
    mount: Mount,
    endpoint: Endpoint,
    layers: Seq<Layer<'_>>,
) -> bool {
    ||| {
        &&& mount == Mount::Root
        &&& plan.sockets.endpoints@.contains(endpoint)
        &&& layers == plan.sockets.layers@ + plan.layers@
    }
    ||| exists|i: int, j: int|
        {
            &&& 0 <= i < plan.mounts@.len()
            &&& 0 <= j < plan.mounts@[i].sections@.len()
            &&& plan.mounts@[i].mount == mount
            &&& (#[trigger] plan.mounts@[i].sections@[j]).endpoints@.contains(endpoint)
            &&& layers == plan.mounts@[i].sections@[j].layers@ + plan.api_layers@ + plan.layers@
        }
}

/// The service answers every endpoint under each prefix that its group is mounted under, and
/// under no other, behind exactly the layers of [`chain`].
pub proof fn every_endpoint_is_served(
    plan: AppPlan<'_>,
    settings: &Settings,
    mount: Mount,
    endpoint: Endpoint,
    layers: Seq<Layer<'_>>,
)
    requires
        is_app_plan(plan, settings),
    ensures
        serves(plan, mount, endpoint, layers) <==> is_mounted(binding(endpoint).group, mount)
            && layers == chain(binding(endpoint).group, mount, settings),
{
    let group = binding(endpoint).group;
    if serves(plan, mount, endpoint, layers) {
        if mount == Mount::Root && plan.sockets.endpoints@.contains(endpoint) && layers
            == plan.sockets.layers@ + plan.layers@ {
            assert(layers =~= chain(group, mount, settings));
        } else {
            let (i, j) = choose|i: int, j: int|
                {
                    &&& 0 <= i < plan.mounts@.len()
                    &&& 0 <= j < plan.mounts@[i].sections@.len()
                    &&& plan.mounts@[i].mount == mount
                    &&& (#[trigger] plan.mounts@[i].sections@[j]).endpoints@.contains(endpoint)
                    &&& layers == plan.mounts@[i].sections@[j].layers@ + plan.api_layers@
                        + plan.layers@
                };
            assert(is_mount_plan(plan.mounts@[i], mounts()[i], settings));
            assert(is_section(
                plan.mounts@[i].sections@[j],
                mounted_groups(mount)[j],
                mount,
                settings,
            ));
            assert(layers =~= chain(group, mount, settings));
        }
    }
    if is_mounted(group, mount) && layers == chain(group, mount, settings) {
        if group == Group::Sockets {
            assert(layers =~= plan.sockets.layers@ + plan.layers@);
        } else {
            let i: int = match mount {
                Mount::Root => 0,
                Mount::VersionOne => 1,
                Mount::VersionTwo => 2,
            };
            let k: int = match group {
                Group::Health => 0,
                Group::Data => 1,
                Group::Callback => 2,
                Group::Webhook => 3,
                _ => 4,
            };
            let j: int = if mount == Mount::Root {
                k
            } else {
                k - 1
            };
            assert(is_mount_plan(plan.mounts@[i], mounts()[i], settings));
            assert(mounted_groups(mount)[j] == group);
            let section = plan.mounts@[i].sections@[j];
            assert(is_section(section, group, mount, settings));
            assert(section.endpoints@.contains(endpoint));
            assert(layers =~= section.layers@ + plan.api_layers@ + plan.layers@);
        }
    }
}

/// Exactly the endpoints of administration lie behind the check of an administrator's
/// credentials.
pub proof fn admin_routes_are_guarded(group: Group, mount: Mount, settings: &Settings)
    ensures
        chain(group, mount, settings).contains(Layer::AdminAuth) <==> group == Group::Admin,
{
    let layers = chain(group, mount, settings);
    if group == Group::Admin {
        assert(layers[0] == Layer::AdminAuth);
    }
}

/// Where rotated secrets are in use, a request for administration learns of them before its
/// credentials are checked; where they are not, nothing makes them known.
pub proof fn secrets_are_known_to_the_check(settings: &Settings)
    ensures
        settings.secrets ==> passes_before(
            chain(Group::Admin, Mount::Root, settings),
            Layer::Secrets,
            Layer::AdminAuth,
        ),
        !settings.secrets ==> !chain(Group::Admin, Mount::Root, settings).contains(Layer::Secrets),
{
    let layers = chain(Group::Admin, Mount::Root, settings);
    if settings.secrets {
        assert(layers[1] == Layer::Secrets && layers[0] == Layer::AdminAuth);
    }
}

/// The filter of source addresses, with the allowed addresses and the trusted proxies that the
/// service is set up with.
pub open spec fn configured_filter(settings: &Settings) -> Layer<'_> {
    Layer::IpFilter {
        allowed_ips: &settings.allowed_ips,
        trusted_proxy_depth: settings.trusted_proxy_depth,
    }
}

/// A callback is refused by its source address, as the service is set up, before anything else of
/// it is checked; then its signature is checked, then its shape, and then it counts against the
/// quota.
pub proof fn callbacks_are_filtered_first(mount: Mount, settings: &Settings)
    ensures
        ({
            let layers = chain(Group::Callback, mount, settings);
            &&& passes_before(layers, configured_filter(settings), Layer::AnchorSignature)
            &&& passes_before(layers, Layer::AnchorSignature, Layer::ValidateCallback)
            &&& passes_before(layers, Layer::ValidateCallback, Layer::RateLimit)
        }),
{
    let layers = chain(Group::Callback, mount, settings);
    assert(layers[3] == configured_filter(settings) && layers[2] == Layer::AnchorSignature);
    assert(layers[1] == Layer::ValidateCallback && layers[0] == Layer::RateLimit);
}

/// Exactly callbacks lie behind a filter of source addresses, and it is always the one that the
/// service is set up with.
pub proof fn only_callbacks_are_filtered(group: Group, mount: Mount, settings: &Settings)
    ensures
        chain(group, mount, settings).contains(configured_filter(settings)) <==> group
            == Group::Callback,
        forall|i: int|
            0 <= i < chain(group, mount, settings).len() && #[trigger] chain(
                group,
                mount,
                settings,
            )[i] is IpFilter ==> chain(group, mount, settings)[i] == configured_filter(settings),
{
    let layers = chain(group, mount, settings);
    if group == Group::Callback {
        assert(layers[3] == configured_filter(settings));
    }
}

/// The signature of a webhook is checked before its shape, and that before it counts against
/// the quota.
pub proof fn webhooks_are_signed(mount: Mount, settings: &Settings)
    ensures
        ({
            let layers = chain(Group::Webhook, mount, settings);
            &&& passes_before(layers, Layer::AnchorSignature, Layer::ValidateWebhook)
            &&& passes_before(layers, Layer::ValidateWebhook, Layer::RateLimit)
        }),
{
    let layers = chain(Group::Webhook, mount, settings);
    assert(layers[2] == Layer::AnchorSignature && layers[1] == Layer::ValidateWebhook);
    assert(layers[0] == Layer::RateLimit);
}

/// Exactly callbacks and webhooks lie behind the check of an anchor's signature and count
/// against a quota.
pub proof fn only_anchor_calls_are_signed(group: Group, mount: Mount, settings: &Settings)
    ensures
        chain(group, mount, settings).contains(Layer::AnchorSignature) <==> group
            == Group::Callback || group == Group::Webhook,
        chain(group, mount, settings).contains(Layer::RateLimit) <==> group == Group::Callback
            || group == Group::Webhook,
{
    let layers = chain(group, mount, settings);
    if group == Group::Callback || group == Group::Webhook {
        assert(layers[2] == Layer::AnchorSignature);
        assert(layers[0] == Layer::RateLimit);
    }
}

/// A probe needs no credentials, no listed address and no signature.
pub proof fn probes_are_open(mount: Mount, settings: &Settings)
    ensures
        chain(Group::Health, mount, settings) == seq![
            Layer::PanicRecovery,
            Layer::ErrorEnrichment,
            Layer::RequestLogger,
        ],
{
    assert(chain(Group::Health, mount, settings) =~= seq![
        Layer::PanicRecovery,
        Layer::ErrorEnrichment,
        Layer::RequestLogger,
    ]);
}

/// Every request is given its identifier before anything else, and an error is enriched after
/// that: no layer lies outside these two.
pub proof fn every_request_is_logged(group: Group, mount: Mount, settings: &Settings)
    ensures
        ({
            let layers = chain(group, mount, settings);
            &&& layers.len() >= 2
            &&& layers.last() == Layer::RequestLogger
            &&& layers[layers.len() - 2] == Layer::ErrorEnrichment
            &&& passes_before(layers, Layer::RequestLogger, Layer::ErrorEnrichment)
        }),
{
    let layers = chain(group, mount, settings);
    assert(layers[layers.len() - 1] == Layer::RequestLogger);
    assert(layers[layers.len() - 2] == Layer::ErrorEnrichment);
}

/// What is reached under `/api/v1` is marked as version 1; the same endpoints under `/api/v2`
/// or without a prefix are marked as version 2. Nothing else is marked.
pub proof fn answers_are_marked(group: Group, mount: Mount, settings: &Settings)
    requires
        is_mounted(group, mount),
    ensures
        chain(group, mount, settings).contains(Layer::VersionOne) <==> is_versioned(group) && mount
            == Mount::VersionOne,
        chain(group, mount, settings).contains(Layer::VersionTwo) <==> is_versioned(group) && mount
            != Mount::VersionOne,
{
    let layers = chain(group, mount, settings);
    let k = group_layers(group, settings).len() as int;
    if is_versioned(group) {
        assert(layers[k] == version_layers(group, mount)[0]);
    }
}

/// What tells the paths of one verb apart: the length, the third character and, in longer
/// paths, the eighth.
spec fn path_mark(path: Seq<char>) -> (nat, char, char) {
    (path.len(), path[2], if path.len() > 7 {
        path[7]
    } else {
        path[2]
    })
}

/// The mark of the path of an endpoint.
spec fn endpoint_mark(endpoint: Endpoint) -> (nat, char, char) {
    match endpoint {
        Endpoint::Callback => (9, 'a', 'c'),
        Endpoint::CallbackTransaction => (21, 'a', 'c'),
        Endpoint::HandleWebhook => (8, 'e', 'k'),
        Endpoint::GetTransaction => (17, 'r', 'c'),
        Endpoint::ListTransactions => (13, 'r', 'c'),
        Endpoint::SearchTransactions => (20, 'r', 'c'),
        Endpoint::ListSettlements => (12, 'e', 'm'),
        Endpoint::GetSettlement => (16, 'e', 'm'),
        Endpoint::Live => (5, 'i', 'i'),
        Endpoint::Ready => (6, 'e', 'e'),
        Endpoint::Health => (7, 'e', 'e'),
        Endpoint::ErrorCatalog => (7, 'r', 'r'),
        Endpoint::BulkUpdateStatus => (31, 'd', 't'),
        Endpoint::GetJobStatus => (40, 'd', 't'),
        Endpoint::Graphql => (8, 'r', 'l'),
        Endpoint::ExportTransactions => (7, 'x', 'x'),
        Endpoint::StatusCounts => (13, 't', 's'),
        Endpoint::DailyTotals => (12, 't', 'd'),
        Endpoint::AssetStats => (13, 't', 'a'),
        Endpoint::CacheMetrics => (14, 'a', 'm'),
        Endpoint::ListWebhookHealth => (22, 'd', 'w'),
        Endpoint::GetWebhookHealth => (26, 'd', 'w'),
        Endpoint::ListTenantQuotas => (13, 'd', 'q'),
        Endpoint::GetTenantQuota => (24, 'd', 'q'),
        Endpoint::SetTenantQuota => (24, 'd', 'q'),
        Endpoint::ResetTenantQuota => (30, 'd', 'q'),
        Endpoint::ListActiveLocks => (12, 'd', 'l'),
        Endpoint::SearchAuditLogs => (19, 'd', 'a'),
        Endpoint::GenerateReport => (25, 'd', 'c'),
        Endpoint::ListReports => (25, 'd', 'c'),
        Endpoint::UpdateSettlementStatus => (29, 'd', 's'),
        Endpoint::Reconciliation => (21, 'd', 'r'),
        Endpoint::Socket => (3, 's', 's'),
    }
}

/// The path of an endpoint has the mark that is noted for it, and begins with a slash.
proof fn lemma_endpoint_mark(endpoint: Endpoint)
    ensures
        path_mark(binding(endpoint).path@) == endpoint_mark(endpoint),
        binding(endpoint).path@[0] == '/',
        binding(endpoint).path@.len() > 2,
{
    match endpoint {
        Endpoint::Callback => {
            reveal_strlit("/callback");
        },
        Endpoint::CallbackTransaction => {
            reveal_strlit("/callback/transaction");
        },
        Endpoint::HandleWebhook => {
            reveal_strlit("/webhook");
        },
        Endpoint::GetTransaction => {
            reveal_strlit("/transactions/:id");
        },
        Endpoint::ListTransactions => {
            reveal_strlit("/transactions");
        },
        Endpoint::SearchTransactions => {
            reveal_strlit("/transactions/search");
        },
        Endpoint::ListSettlements => {
            reveal_strlit("/settlements");
        },
        Endpoint::GetSettlement => {
            reveal_strlit("/settlements/:id");
        },
        Endpoint::Live => {
            reveal_strlit("/live");
        },
        Endpoint::Ready => {
            reveal_strlit("/ready");
        },
        Endpoint::Health => {
            reveal_strlit("/health");
        },
        Endpoint::ErrorCatalog => {
            reveal_strlit("/errors");
        },
        Endpoint::BulkUpdateStatus => {
            reveal_strlit("/admin/transactions/bulk-status");
        },
        Endpoint::GetJobStatus => {
            reveal_strlit("/admin/transactions/bulk-status/jobs/:id");
        },
        Endpoint::Graphql => {
            reveal_strlit("/graphql");
        },
        Endpoint::ExportTransactions => {
            reveal_strlit("/export");
        },
        Endpoint::StatusCounts => {
            reveal_strlit("/stats/status");
        },
        Endpoint::DailyTotals => {
            reveal_strlit("/stats/daily");
        },
        Endpoint::AssetStats => {
            reveal_strlit("/stats/assets");
        },
        Endpoint::CacheMetrics => {
            reveal_strlit("/cache/metrics");
        },
        Endpoint::ListWebhookHealth => {
            reveal_strlit("/admin/webhooks/health");
        },
        Endpoint::GetWebhookHealth => {
            reveal_strlit("/admin/webhooks/health/:id");
        },
        Endpoint::ListTenantQuotas => {
            reveal_strlit("/admin/quotas");
        },
        Endpoint::GetTenantQuota => {
            reveal_strlit("/admin/quotas/:tenant_id");
        },
        Endpoint::SetTenantQuota => {
            reveal_strlit("/admin/quotas/:tenant_id");
        },
        Endpoint::ResetTenantQuota => {
            reveal_strlit("/admin/quotas/:tenant_id/reset");
        },
        Endpoint::ListActiveLocks => {
            reveal_strlit("/admin/locks");
        },
        Endpoint::SearchAuditLogs => {
            reveal_strlit("/admin/audit/search");
        },
        Endpoint::GenerateReport => {
            reveal_strlit("/admin/compliance/reports");
        },
        Endpoint::ListReports => {
            reveal_strlit("/admin/compliance/reports");
        },
        Endpoint::UpdateSettlementStatus => {
            reveal_strlit("/admin/settlements/:id/status");
        },
        Endpoint::Reconciliation => {
            reveal_strlit("/admin/reconciliation");
        },
        Endpoint::Socket => {
            reveal_strlit("/ws");
        },
    }
}

/// No two routes have the same verb and the same path.
pub proof fn routes_do_not_collide(m: Mount, e: Endpoint, n: Mount, f: Endpoint)
    requires
        (m, e) != (n, f),
        binding(e).verb == binding(f).verb,
    ensures
        full_path(m, e) != full_path(n, f),
{
    reveal_strlit("");
    reveal_strlit("/api/v1");
    reveal_strlit("/api/v2");
    lemma_endpoint_mark(e);
    lemma_endpoint_mark(f);
    let (p, q) = (full_path(m, e), full_path(n, f));
    let (pe, pf) = (binding(e).path@, binding(f).path@);
    if p == q {
        assert(p[2] == q[2]);
        assert(p[6] == q[6]);
        if m == n {
            assert(pe =~= pf) by {
                assert(pe =~= p.skip(prefix(m).len() as int));
                assert(pf =~= q.skip(prefix(n).len() as int));
            }
            assert(endpoint_mark(e) == endpoint_mark(f));
        } else if m == Mount::Root {
            assert(pe[2] == 'p');
        } else if n == Mount::Root {
            assert(pf[2] == 'p');
        }
    }
}

/// Whether `path` begins with `start`.
pub open spec fn begins_with(path: Seq<char>, start: Seq<char>) -> bool {
    start.len() <= path.len() && path.take(start.len() as int) == start
}

/// Whether `path` ends with `end`.
pub open spec fn ends_with(path: Seq<char>, end: Seq<char>) -> bool {
    end.len() <= path.len() && path.skip(path.len() - end.len()) == end
}

/// `pattern` with `value` in place of the parameter that it ends with.
pub open spec fn filled(pattern: Seq<char>, parameter: Seq<char>, value: Seq<char>) -> Seq<char> {
    pattern.take(pattern.len() - parameter.len()) + value
}

/// Whatever is reached under `/admin` belongs to administration.
pub proof fn admin_paths_belong_to_administration(mount: Mount, endpoint: Endpoint)
    requires
        is_mounted(binding(endpoint).group, mount),
        begins_with(full_path(mount, endpoint), "/admin"@),
    ensures
        binding(endpoint).group == Group::Admin,
{
    reveal_strlit("");
    reveal_strlit("/api/v1");
    reveal_strlit("/api/v2");
    reveal_strlit("/admin");
    lemma_endpoint_mark(endpoint);
    let path = full_path(mount, endpoint);
    assert(path.take("/admin"@.len() as int)[2] == "/admin"@[2]);
    assert(path[2] == 'd');
    if mount == Mount::Root {
        assert(path =~= binding(endpoint).path@);
    }
}

/// No other endpoint lies below the path that the router of reconciliation is attached to.
pub proof fn reconciliation_is_apart(endpoint: Endpoint)
    requires
        endpoint != Endpoint::Reconciliation,
    ensures
        !begins_with(binding(endpoint).path@, binding(Endpoint::Reconciliation).path@),
{
    lemma_endpoint_mark(endpoint);
    lemma_endpoint_mark(Endpoint::Reconciliation);
    let (path, start) = (binding(endpoint).path@, binding(Endpoint::Reconciliation).path@);
    if begins_with(path, start) {
        assert(path.take(start.len() as int)[2] == start[2]);
        assert(path.take(start.len() as int)[7] == start[7]);
    }
}

/// The address that a caller is told to poll is that of the endpoint that answers with the
/// state of the job, and it is guarded as the endpoint that took the request is.
pub proof fn poll_path_is_served(job_id: Uuid)
    ensures
        filled(binding(Endpoint::GetJobStatus).path@, ":id"@, hyphenated(job_id)) == poll_path(
            job_id,
        ),
        ends_with(binding(Endpoint::GetJobStatus).path@, ":id"@),
        binding(Endpoint::GetJobStatus).verb == Verb::Get,
        binding(Endpoint::GetJobStatus).group == binding(Endpoint::BulkUpdateStatus).group,
{
    reveal_strlit(":id");
    reveal_strlit("/admin/transactions/bulk-status/jobs/:id");
    reveal_strlit("/admin/transactions/bulk-status/jobs/");
    let path = binding(Endpoint::GetJobStatus).path@;
    let start = "/admin/transactions/bulk-status/jobs/"@;
    assert(path.take(path.len() - 3) =~= start);
    assert(path.skip(path.len() - 3) =~= ":id"@);
}

/// The two addresses of callbacks are answered by the same code, and so alike. No other two
/// endpoints are.
pub proof fn callbacks_are_answered_alike(e: Endpoint, f: Endpoint)
    ensures
        binding(Endpoint::Callback).handler == binding(Endpoint::CallbackTransaction).handler,
        binding(e).handler == binding(f).handler <==> e == f || (binding(e).group
            == Group::Callback && binding(f).group == Group::Callback),
{
}

/// Whether an endpoint is attached to this path with this verb, and answered by this code.
pub open spec fn is_route(e: Endpoint, verb: Verb, path: Seq<char>, handler: Handler) -> bool {
    binding(e).verb == verb && binding(e).path@ == path && binding(e).handler == handler
}

/// Where each endpoint is reached, and what answers it.
pub proof fn route_table()
    ensures
        is_route(Endpoint::Callback, Verb::Post, "/callback"@, Handler::Callback),
        is_route(
            Endpoint::CallbackTransaction,
            Verb::Post,
            "/callback/transaction"@,
            Handler::Callback,
        ),
        is_route(Endpoint::HandleWebhook, Verb::Post, "/webhook"@, Handler::HandleWebhook),
        is_route(
            Endpoint::GetTransaction,
            Verb::Get,
            "/transactions/:id"@,
            Handler::GetTransaction,
        ),
        is_route(
            Endpoint::ListTransactions,
            Verb::Get,
            "/transactions"@,
            Handler::ListTransactionsApi,
        ),
        is_route(
            Endpoint::SearchTransactions,
            Verb::Get,
            "/transactions/search"@,
            Handler::SearchTransactionsWrapper,
        ),
        is_route(Endpoint::ListSettlements, Verb::Get, "/settlements"@, Handler::ListSettlements),
        is_route(Endpoint::GetSettlement, Verb::Get, "/settlements/:id"@, Handler::GetSettlement),
        is_route(Endpoint::Live, Verb::Get, "/live"@, Handler::Live),
        is_route(Endpoint::Ready, Verb::Get, "/ready"@, Handler::Ready),
        is_route(Endpoint::Health, Verb::Get, "/health"@, Handler::Health),
        is_route(Endpoint::ErrorCatalog, Verb::Get, "/errors"@, Handler::ErrorCatalog),
        is_route(
            Endpoint::BulkUpdateStatus,
            Verb::Patch,
            "/admin/transactions/bulk-status"@,
            Handler::BulkUpdateStatusApi,
        ),
        is_route(
            Endpoint::GetJobStatus,
            Verb::Get,
            "/admin/transactions/bulk-status/jobs/:id"@,
            Handler::GetJobStatus,
        ),
        is_route(Endpoint::Graphql, Verb::Post, "/graphql"@, Handler::GraphqlHandler),
        is_route(Endpoint::ExportTransactions, Verb::Get, "/export"@, Handler::ExportTransactions),
        is_route(Endpoint::StatusCounts, Verb::Get, "/stats/status"@, Handler::StatusCounts),
        is_route(Endpoint::DailyTotals, Verb::Get, "/stats/daily"@, Handler::DailyTotals),
        is_route(Endpoint::AssetStats, Verb::Get, "/stats/assets"@, Handler::AssetStats),
        is_route(Endpoint::CacheMetrics, Verb::Get, "/cache/metrics"@, Handler::CacheMetrics),
        is_route(
            Endpoint::ListWebhookHealth,
            Verb::Get,
            "/admin/webhooks/health"@,
            Handler::ListWebhookHealth,
        ),
        is_route(
            Endpoint::GetWebhookHealth,
            Verb::Get,
            "/admin/webhooks/health/:id"@,
            Handler::GetWebhookHealth,
        ),
        is_route(
            Endpoint::ListTenantQuotas,
            Verb::Get,
            "/admin/quotas"@,
            Handler::ListTenantQuotas,
        ),
        is_route(
            Endpoint::GetTenantQuota,
            Verb::Get,
            "/admin/quotas/:tenant_id"@,
            Handler::GetTenantQuota,
        ),
        is_route(
            Endpoint::SetTenantQuota,
            Verb::Put,
            "/admin/quotas/:tenant_id"@,
            Handler::SetTenantQuota,
        ),
        is_route(
            Endpoint::ResetTenantQuota,
            Verb::Delete,
            "/admin/quotas/:tenant_id/reset"@,
            Handler::ResetTenantQuota,
        ),
        is_route(Endpoint::ListActiveLocks, Verb::Get, "/admin/locks"@, Handler::ListActiveLocks),
        is_route(
            Endpoint::SearchAuditLogs,
            Verb::Get,
            "/admin/audit/search"@,
            Handler::SearchAuditLogsHandler,
        ),
        is_route(
            Endpoint::GenerateReport,
            Verb::Post,
            "/admin/compliance/reports"@,
            Handler::GenerateReport,
        ),
        is_route(
            Endpoint::ListReports,
            Verb::Get,
            "/admin/compliance/reports"@,
            Handler::ListReports,
        ),
        is_route(
            Endpoint::UpdateSettlementStatus,
            Verb::Patch,
            "/admin/settlements/:id/status"@,
            Handler::UpdateSettlementStatus,
        ),
        is_route(
            Endpoint::Reconciliation,
            Verb::Nest,
            "/admin/reconciliation"@,
            Handler::ReconciliationRoutes,
        ),
        is_route(Endpoint::Socket, Verb::Get, "/ws"@, Handler::WsHandler),
{
}

/// The endpoints that carry no credentials.
pub open spec fn is_probe(e: Endpoint) -> bool {
    ||| e == Endpoint::Live
    ||| e == Endpoint::Ready
    ||| e == Endpoint::Health
    ||| e == Endpoint::ErrorCatalog
}

/// The endpoints that give the data of one tenant.
pub open spec fn is_tenant_data(e: Endpoint) -> bool {
    ||| e == Endpoint::GetTransaction
    ||| e == Endpoint::ListTransactions
    ||| e == Endpoint::SearchTransactions
    ||| e == Endpoint::ListSettlements
    ||| e == Endpoint::GetSettlement
}

/// The endpoints that take the callbacks of an anchor.
pub open spec fn is_callback(e: Endpoint) -> bool {
    ||| e == Endpoint::Callback
    ||| e == Endpoint::CallbackTransaction
}

/// The endpoints that take the webhooks of an anchor.
pub open spec fn is_webhook(e: Endpoint) -> bool {
    ||| e == Endpoint::HandleWebhook
}

/// The endpoints of administration.
pub open spec fn is_administration(e: Endpoint) -> bool {
    ||| e == Endpoint::BulkUpdateStatus
    ||| e == Endpoint::GetJobStatus
    ||| e == Endpoint::Graphql
    ||| e == Endpoint::ExportTransactions
    ||| e == Endpoint::StatusCounts
    ||| e == Endpoint::DailyTotals
    ||| e == Endpoint::AssetStats
    ||| e == Endpoint::CacheMetrics
    ||| e == Endpoint::ListWebhookHealth
    ||| e == Endpoint::GetWebhookHealth
    ||| e == Endpoint::ListTenantQuotas
    ||| e == Endpoint::GetTenantQuota
    ||| e == Endpoint::SetTenantQuota
    ||| e == Endpoint::ResetTenantQuota
    ||| e == Endpoint::ListActiveLocks
    ||| e == Endpoint::SearchAuditLogs
    ||| e == Endpoint::GenerateReport
    ||| e == Endpoint::ListReports
    ||| e == Endpoint::UpdateSettlementStatus
    ||| e == Endpoint::Reconciliation
}

/// The layer that marks the version of what is reached under a mount.
pub open spec fn version_mark<'a>(mount: Mount) -> Layer<'a> {
    match mount {
        Mount::VersionOne => Layer::VersionOne,
        Mount::Root | Mount::VersionTwo => Layer::VersionTwo,
    }
}

/// Every endpoint is a probe, gives the data of a tenant, takes callbacks or webhooks, belongs to
/// administration, or takes socket connections, and only one of these.
pub proof fn endpoints_are_of_one_kind(e: Endpoint)
    ensures
        is_probe(e) || is_tenant_data(e) || is_callback(e) || is_webhook(e) || is_administration(e)
            || e == Endpoint::Socket,
        is_probe(e) ==> binding(e).group == Group::Health,
        is_tenant_data(e) ==> binding(e).group == Group::Data,
        is_callback(e) ==> binding(e).group == Group::Callback,
        is_webhook(e) ==> binding(e).group == Group::Webhook,
        is_administration(e) ==> binding(e).group == Group::Admin,
        e == Endpoint::Socket ==> binding(e).group == Group::Sockets,
{
}

/// What a request for each endpoint passes, from the code that answers it outwards. Probes pass
/// nothing that could refuse them; administration lies behind the check of credentials, with the
/// rotated secrets around it where they are in use; callbacks and webhooks lie behind the quota,
/// the check of their shape and the check of the signature, and callbacks also behind the filter
/// of addresses that the service is set up with; the data of tenants lies behind none of these.
pub proof fn layers_of_each_endpoint(
    plan: AppPlan<'_>,
    settings: &Settings,
    mount: Mount,
    e: Endpoint,
    layers: Seq<Layer<'_>>,
)
    requires
        is_app_plan(plan, settings),
        serves(plan, mount, e, layers),
    ensures
        is_probe(e) ==> layers == seq![
            Layer::PanicRecovery,
            Layer::ErrorEnrichment,
            Layer::RequestLogger,
        ],
        is_tenant_data(e) ==> layers == seq![
            version_mark(mount),
            Layer::PanicRecovery,
            Layer::ErrorEnrichment,
            Layer::RequestLogger,
        ],
        is_callback(e) ==> layers == seq![
            Layer::RateLimit,
            Layer::ValidateCallback,
            Layer::AnchorSignature,
            Layer::IpFilter {
                allowed_ips: &settings.allowed_ips,
                trusted_proxy_depth: settings.trusted_proxy_depth,
            },
            version_mark(mount),
            Layer::PanicRecovery,
            Layer::ErrorEnrichment,
            Layer::RequestLogger,
        ],
        is_webhook(e) ==> layers == seq![
            Layer::RateLimit,
            Layer::ValidateWebhook,
            Layer::AnchorSignature,
            version_mark(mount),
            Layer::PanicRecovery,
            Layer::ErrorEnrichment,
            Layer::RequestLogger,
        ],
        is_administration(e) && settings.secrets ==> layers == seq![
            Layer::AdminAuth,
            Layer::Secrets,
            Layer::PanicRecovery,
            Layer::ErrorEnrichment,
            Layer::RequestLogger,
        ],
        is_administration(e) && !settings.secrets ==> layers == seq![
            Layer::AdminAuth,
            Layer::PanicRecovery,
            Layer::ErrorEnrichment,
            Layer::RequestLogger,
        ],
        e == Endpoint::Socket ==> layers == seq![Layer::ErrorEnrichment, Layer::RequestLogger],
{
    every_endpoint_is_served(plan, settings, mount, e, layers);
    endpoints_are_of_one_kind(e);
    let group = binding(e).group;
    assert(layers == chain(group, mount, settings));
}

/// A request passes the check of an administrator's credentials exactly when it is for one of the
/// endpoints of administration, wherever that is reached.
pub proof fn credentials_by_endpoint(
    plan: AppPlan<'_>,
    settings: &Settings,
    mount: Mount,
    e: Endpoint,
    layers: Seq<Layer<'_>>,
)
    requires
        is_app_plan(plan, settings),
        serves(plan, mount, e, layers),
    ensures
        layers.contains(Layer::AdminAuth) <==> is_administration(e),
        layers.contains(Layer::AnchorSignature) <==> is_callback(e) || is_webhook(e),
{
    layers_of_each_endpoint(plan, settings, mount, e, layers);
    endpoints_are_of_one_kind(e);
    if is_administration(e) {
        assert(layers[0] == Layer::AdminAuth);
    }
    if is_callback(e) || is_webhook(e) {
        assert(layers[2] == Layer::AnchorSignature);
    }
}

/// Every endpoint is reached without a prefix. Those of tenants and anchors are reached under the
/// prefix of each version too, and no others are.
pub proof fn where_endpoints_are_reached(
    plan: AppPlan<'_>,
    settings: &Settings,
    mount: Mount,
    e: Endpoint,
)
    requires
        is_app_plan(plan, settings),
    ensures
        (exists|layers: Seq<Layer<'_>>| serves(plan, mount, e, layers)) <==> mount == Mount::Root
            || is_tenant_data(e) || is_callback(e) || is_webhook(e),
{
    endpoints_are_of_one_kind(e);
    let layers = chain(binding(e).group, mount, settings);
    every_endpoint_is_served(plan, settings, mount, e, layers);
    if exists|some: Seq<Layer<'_>>| serves(plan, mount, e, some) {
        let some = choose|some: Seq<Layer<'_>>| serves(plan, mount, e, some);
        every_endpoint_is_served(plan, settings, mount, e, some);
    }
}

/// The prefixes: none, that of version 1 and that of version 2.
pub proof fn prefixes(plan: AppPlan<'_>, settings: &Settings)
    requires
        is_app_plan(plan, settings),
    ensures
        plan.mounts@.len() == 3,
        plan.mounts@[0].mount == Mount::Root && plan.mounts@[0].prefix@ == ""@,
        plan.mounts@[1].mount == Mount::VersionOne && plan.mounts@[1].prefix@ == "/api/v1"@,
        plan.mounts@[2].mount == Mount::VersionTwo && plan.mounts@[2].prefix@ == "/api/v2"@,
        prefix(Mount::Root) == ""@,
        prefix(Mount::VersionOne) == "/api/v1"@,
        prefix(Mount::VersionTwo) == "/api/v2"@,
{
    assert(is_mount_plan(plan.mounts@[0], mounts()[0], settings));
    assert(is_mount_plan(plan.mounts@[1], mounts()[1], settings));
    assert(is_mount_plan(plan.mounts@[2], mounts()[2], settings));
}

/// No endpoint is attached twice under one prefix: two places of the plan that hold the same one
/// are the same place, and what takes socket connections is attached nowhere else.
pub proof fn endpoints_are_attached_once(
    plan: AppPlan<'_>,
    settings: &Settings,
    i: int,
    a: (int, int),
    b: (int, int),
    k: int,
)
    requires
        is_app_plan(plan, settings),
        0 <= i < plan.mounts@.len(),
        0 <= a.0 < plan.mounts@[i].sections@.len(),
        0 <= a.1 < plan.mounts@[i].sections@[a.0].endpoints@.len(),
        0 <= b.0 < plan.mounts@[i].sections@.len(),
        0 <= b.1 < plan.mounts@[i].sections@[b.0].endpoints@.len(),
        0 <= k < plan.sockets.endpoints@.len(),
    ensures
        plan.mounts@[i].sections@[a.0].endpoints@[a.1]
            == plan.mounts@[i].sections@[b.0].endpoints@[b.1] ==> a == b,
        plan.sockets.endpoints@[k] == Endpoint::Socket,
        plan.sockets.endpoints@.len() == 1,
        plan.mounts@[i].sections@[a.0].endpoints@[a.1] != Endpoint::Socket,
{
    let mount = mounts()[i];
    assert(is_mount_plan(plan.mounts@[i], mount, settings));
    let s = plan.mounts@[i].sections@[a.0];
    let t = plan.mounts@[i].sections@[b.0];
    assert(is_section(s, mounted_groups(mount)[a.0], mount, settings));
    assert(is_section(t, mounted_groups(mount)[b.0], mount, settings));
    assert(s.endpoints@.contains(s.endpoints@[a.1]));
    assert(t.endpoints@.contains(t.endpoints@[b.1]));
    let sockets = plan.sockets.endpoints@;
    assert forall|m: int| 0 <= m < sockets.len() implies #[trigger] sockets[m]
        == Endpoint::Socket by {
        assert(sockets.contains(sockets[m]));
        endpoints_are_of_one_kind(sockets[m]);
    }
    if sockets.len() > 1 {
        assert(sockets[0] == sockets[1]);
    }
}

} // verus!
