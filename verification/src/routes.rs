//! The routes of the service: what is answered where, and what a request passes before it
//! reaches the code that answers it.

use vstd::prelude::*;

use crate::state::{AllowedIps, Settings};

verus! {

/// How an endpoint is attached to its path.
#[derive(Clone, Copy, Debug, PartialEq, Eq, Structural)]
pub enum Verb {
    Get,
    Post,
    Put,
    Patch,
    Delete,
    /// The endpoint is a router of its own, with everything below the path.
    Nest,
}

/// Endpoints that are attached together.
#[derive(Clone, Copy, Debug, PartialEq, Eq, Structural)]
pub enum Group {
    /// Liveness and readiness probes, which carry no credentials.
    Health,
    /// The data of one tenant. The tenant's key is checked by the code that answers.
    Data,
    /// Callbacks of an anchor, which come from listed addresses and are signed.
    Callback,
    /// Webhooks of an anchor, which are signed.
    Webhook,
    /// Administration.
    Admin,
    /// Socket connections.
    Sockets,
}

/// What a request passes on its way in, and the answer on its way out.
#[derive(Clone, Copy, Debug, PartialEq, Eq)]
pub enum Layer<'a> {
    /// Counts the request against the quota of its tenant.
    RateLimit,
    /// Checks the shape of a callback.
    ValidateCallback,
    /// Checks the shape of a webhook.
    ValidateWebhook,
    /// Checks the signature of an anchor.
    AnchorSignature,
    /// Refuses source addresses that are not allowed. The address is looked for behind as many
    /// proxies as are trusted.
    IpFilter { allowed_ips: &'a AllowedIps, trusted_proxy_depth: usize },
    /// Checks the credentials of an administrator.
    AdminAuth,
    /// Makes the store of rotated secrets known to what lies further in.
    Secrets,
    /// Marks the answer as one of version 1, which is deprecated.
    VersionOne,
    /// Marks the answer as one of version 2.
    VersionTwo,
    /// Turns a panic into an answer.
    PanicRecovery,
    /// Adds the request's identifier to an error.
    ErrorEnrichment,
    /// Gives the request its identifier and logs it.
    RequestLogger,
}

/// Under which prefix a route is reached.
#[derive(Clone, Copy, Debug, PartialEq, Eq, Structural)]
pub enum Mount {
    /// No prefix.
    Root,
    /// `/api/v1`.
    VersionOne,
    /// `/api/v2`.
    VersionTwo,
}

/// What the service answers.
#[derive(Clone, Copy, Debug, PartialEq, Eq, Structural)]
pub enum Endpoint {
    /// Delivery of an anchor callback.
    Callback,
    /// Delivery of an anchor callback, at its second address.
    CallbackTransaction,
    /// Delivery of a webhook.
    HandleWebhook,
    GetTransaction,
    ListTransactions,
    SearchTransactions,
    ListSettlements,
    GetSettlement,
    Live,
    Ready,
    Health,
    ErrorCatalog,
    BulkUpdateStatus,
    GetJobStatus,
    Graphql,
    ExportTransactions,
    StatusCounts,
    DailyTotals,
    AssetStats,
    CacheMetrics,
    ListWebhookHealth,
    GetWebhookHealth,
    ListTenantQuotas,
    GetTenantQuota,
    SetTenantQuota,
    ResetTenantQuota,
    ListActiveLocks,
    SearchAuditLogs,
    GenerateReport,
    ListReports,
    UpdateSettlementStatus,
    /// All of reconciliation, as a router of its own.
    Reconciliation,
    Socket,
}

/// The code that answers. Endpoints may share it.
#[derive(Clone, Copy, Debug, PartialEq, Eq, Structural)]
pub enum Handler {
    Callback,
    HandleWebhook,
    GetTransaction,
    ListTransactionsApi,
    SearchTransactionsWrapper,
    ListSettlements,
    GetSettlement,
    Live,
    Ready,
    Health,
    ErrorCatalog,
    BulkUpdateStatusApi,
    GetJobStatus,
    GraphqlHandler,
    ExportTransactions,
    StatusCounts,
    DailyTotals,
    AssetStats,
    CacheMetrics,
    ListWebhookHealth,
    GetWebhookHealth,
    ListTenantQuotas,
    GetTenantQuota,
    SetTenantQuota,
    ResetTenantQuota,
    ListActiveLocks,
    SearchAuditLogsHandler,
    GenerateReport,
    ListReports,
    UpdateSettlementStatus,
    ReconciliationRoutes,
    WsHandler,
}

/// Where and with what an endpoint is attached, and what answers it.
#[derive(Clone, Copy, Debug)]
pub struct Binding {
    pub group: Group,
    pub verb: Verb,
    pub path: &'static str,
    pub handler: Handler,
}

/// A group of endpoints and the layers around it. A layer encloses those that come before it:
/// a request passes the last one first.
#[derive(Debug)]
pub struct Section<'a> {
    pub group: Group,
    pub endpoints: Vec<Endpoint>,
    pub layers: Vec<Layer<'a>>,
}

/// The sections that are reached under one prefix.
#[derive(Debug)]
pub struct MountPlan<'a> {
    pub mount: Mount,
    pub prefix: &'static str,
    pub sections: Vec<Section<'a>>,
}

/// The whole service: what is mounted, the layers around all that, the sockets beside it, and
/// the layers around everything.
#[derive(Debug)]
pub struct AppPlan<'a> {
    pub mounts: Vec<MountPlan<'a>>,
    pub api_layers: Vec<Layer<'a>>,
    pub sockets: Section<'a>,
    pub layers: Vec<Layer<'a>>,
}

/// Where and with what an endpoint is attached, and what answers it.
pub open spec fn binding(endpoint: Endpoint) -> Binding {
    match endpoint {
        Endpoint::Callback => Binding {
            group: Group::Callback,
            verb: Verb::Post,
            path: "/callback",
            handler: Handler::Callback,
        },
        Endpoint::CallbackTransaction => Binding {
            group: Group::Callback,
            verb: Verb::Post,
            path: "/callback/transaction",
            handler: Handler::Callback,
        },
        Endpoint::HandleWebhook => Binding {
            group: Group::Webhook,
            verb: Verb::Post,
            path: "/webhook",
            handler: Handler::HandleWebhook,
        },
        Endpoint::GetTransaction => Binding {
            group: Group::Data,
            verb: Verb::Get,
            path: "/transactions/:id",
            handler: Handler::GetTransaction,
        },
        Endpoint::ListTransactions => Binding {
            group: Group::Data,
            verb: Verb::Get,
            path: "/transactions",
            handler: Handler::ListTransactionsApi,
        },
        Endpoint::SearchTransactions => Binding {
            group: Group::Data,
            verb: Verb::Get,
            path: "/transactions/search",
            handler: Handler::SearchTransactionsWrapper,
        },
        Endpoint::ListSettlements => Binding {
            group: Group::Data,
            verb: Verb::Get,
            path: "/settlements",
            handler: Handler::ListSettlements,
        },
        Endpoint::GetSettlement => Binding {
            group: Group::Data,
            verb: Verb::Get,
            path: "/settlements/:id",
            handler: Handler::GetSettlement,
        },
        Endpoint::Live => Binding {
            group: Group::Health,
            verb: Verb::Get,
            path: "/live",
            handler: Handler::Live,
        },
        Endpoint::Ready => Binding {
            group: Group::Health,
            verb: Verb::Get,
            path: "/ready",
            handler: Handler::Ready,
        },
        Endpoint::Health => Binding {
            group: Group::Health,
            verb: Verb::Get,
            path: "/health",
            handler: Handler::Health,
        },
        Endpoint::ErrorCatalog => Binding {
            group: Group::Health,
            verb: Verb::Get,
            path: "/errors",
            handler: Handler::ErrorCatalog,
        },
        Endpoint::BulkUpdateStatus => Binding {
            group: Group::Admin,
            verb: Verb::Patch,
            path: "/admin/transactions/bulk-status",
            handler: Handler::BulkUpdateStatusApi,
        },
        Endpoint::GetJobStatus => Binding {
            group: Group::Admin,
            verb: Verb::Get,
            path: "/admin/transactions/bulk-status/jobs/:id",
            handler: Handler::GetJobStatus,
        },
        Endpoint::Graphql => Binding {
            group: Group::Admin,
            verb: Verb::Post,
            path: "/graphql",
            handler: Handler::GraphqlHandler,
        },
        Endpoint::ExportTransactions => Binding {
            group: Group::Admin,
            verb: Verb::Get,
            path: "/export",
            handler: Handler::ExportTransactions,
        },
        Endpoint::StatusCounts => Binding {
            group: Group::Admin,
            verb: Verb::Get,
            path: "/stats/status",
            handler: Handler::StatusCounts,
        },
        Endpoint::DailyTotals => Binding {
            group: Group::Admin,
            verb: Verb::Get,
            path: "/stats/daily",
            handler: Handler::DailyTotals,
        },
        Endpoint::AssetStats => Binding {
            group: Group::Admin,
            verb: Verb::Get,
            path: "/stats/assets",
            handler: Handler::AssetStats,
        },
        Endpoint::CacheMetrics => Binding {
            group: Group::Admin,
            verb: Verb::Get,
            path: "/cache/metrics",
            handler: Handler::CacheMetrics,
        },
        Endpoint::ListWebhookHealth => Binding {
            group: Group::Admin,
            verb: Verb::Get,
            path: "/admin/webhooks/health",
            handler: Handler::ListWebhookHealth,
        },
        Endpoint::GetWebhookHealth => Binding {
            group: Group::Admin,
            verb: Verb::Get,
            path: "/admin/webhooks/health/:id",
            handler: Handler::GetWebhookHealth,
        },
        Endpoint::ListTenantQuotas => Binding {
            group: Group::Admin,
            verb: Verb::Get,
            path: "/admin/quotas",
            handler: Handler::ListTenantQuotas,
        },
        Endpoint::GetTenantQuota => Binding {
            group: Group::Admin,
            verb: Verb::Get,
            path: "/admin/quotas/:tenant_id",
            handler: Handler::GetTenantQuota,
        },
        Endpoint::SetTenantQuota => Binding {
            group: Group::Admin,
            verb: Verb::Put,
            path: "/admin/quotas/:tenant_id",
            handler: Handler::SetTenantQuota,
        },
        Endpoint::ResetTenantQuota => Binding {
            group: Group::Admin,
            verb: Verb::Delete,
            path: "/admin/quotas/:tenant_id/reset",
            handler: Handler::ResetTenantQuota,
        },
        Endpoint::ListActiveLocks => Binding {
            group: Group::Admin,
            verb: Verb::Get,
            path: "/admin/locks",
            handler: Handler::ListActiveLocks,
        },
        Endpoint::SearchAuditLogs => Binding {
            group: Group::Admin,
            verb: Verb::Get,
            path: "/admin/audit/search",
            handler: Handler::SearchAuditLogsHandler,
        },
        Endpoint::GenerateReport => Binding {
            group: Group::Admin,
            verb: Verb::Post,
            path: "/admin/compliance/reports",
            handler: Handler::GenerateReport,
        },
        Endpoint::ListReports => Binding {
            group: Group::Admin,
            verb: Verb::Get,
            path: "/admin/compliance/reports",
            handler: Handler::ListReports,
        },
        Endpoint::UpdateSettlementStatus => Binding {
            group: Group::Admin,
            verb: Verb::Patch,
            path: "/admin/settlements/:id/status",
            handler: Handler::UpdateSettlementStatus,
        },
        Endpoint::Reconciliation => Binding {
            group: Group::Admin,
            verb: Verb::Nest,
            path: "/admin/reconciliation",
            handler: Handler::ReconciliationRoutes,
        },
        Endpoint::Socket => Binding {
            group: Group::Sockets,
            verb: Verb::Get,
            path: "/ws",
            handler: Handler::WsHandler,
        },
    }
}

/// Every endpoint, once.
pub open spec fn all_endpoints() -> Seq<Endpoint> {
    seq![
        Endpoint::Callback,
        Endpoint::CallbackTransaction,
        Endpoint::HandleWebhook,
        Endpoint::GetTransaction,
        Endpoint::ListTransactions,
        Endpoint::SearchTransactions,
        Endpoint::ListSettlements,
        Endpoint::GetSettlement,
        Endpoint::Live,
        Endpoint::Ready,
        Endpoint::Health,
        Endpoint::ErrorCatalog,
        Endpoint::BulkUpdateStatus,
        Endpoint::GetJobStatus,
        Endpoint::Graphql,
        Endpoint::ExportTransactions,
        Endpoint::StatusCounts,
        Endpoint::DailyTotals,
        Endpoint::AssetStats,
        Endpoint::CacheMetrics,
        Endpoint::ListWebhookHealth,
        Endpoint::GetWebhookHealth,
        Endpoint::ListTenantQuotas,
        Endpoint::GetTenantQuota,
        Endpoint::SetTenantQuota,
        Endpoint::ResetTenantQuota,
        Endpoint::ListActiveLocks,
        Endpoint::SearchAuditLogs,
        Endpoint::GenerateReport,
        Endpoint::ListReports,
        Endpoint::UpdateSettlementStatus,
        Endpoint::Reconciliation,
        Endpoint::Socket,
    ]
}

impl Endpoint {
    /// Where and with what the endpoint is attached, and what answers it.
    pub fn binding(self) -> (bound: Binding)
        ensures
            bound == binding(self),
    {
        match self {
            Endpoint::Callback => Binding {
                group: Group::Callback,
                verb: Verb::Post,
                path: "/callback",
                handler: Handler::Callback,
            },
            Endpoint::CallbackTransaction => Binding {
                group: Group::Callback,
                verb: Verb::Post,
                path: "/callback/transaction",
                handler: Handler::Callback,
            },
            Endpoint::HandleWebhook => Binding {
                group: Group::Webhook,
                verb: Verb::Post,
                path: "/webhook",
                handler: Handler::HandleWebhook,
            },
            Endpoint::GetTransaction => Binding {
                group: Group::Data,
                verb: Verb::Get,
                path: "/transactions/:id",
                handler: Handler::GetTransaction,
            },
            Endpoint::ListTransactions => Binding {
                group: Group::Data,
                verb: Verb::Get,
                path: "/transactions",
                handler: Handler::ListTransactionsApi,
            },
            Endpoint::SearchTransactions => Binding {
                group: Group::Data,
                verb: Verb::Get,
                path: "/transactions/search",
                handler: Handler::SearchTransactionsWrapper,
            },
            Endpoint::ListSettlements => Binding {
                group: Group::Data,
                verb: Verb::Get,
                path: "/settlements",
                handler: Handler::ListSettlements,
            },
            Endpoint::GetSettlement => Binding {
                group: Group::Data,
                verb: Verb::Get,
                path: "/settlements/:id",
                handler: Handler::GetSettlement,
            },
            Endpoint::Live => Binding {
                group: Group::Health,
                verb: Verb::Get,
                path: "/live",
                handler: Handler::Live,
            },
            Endpoint::Ready => Binding {
                group: Group::Health,
                verb: Verb::Get,
                path: "/ready",
                handler: Handler::Ready,
            },
            Endpoint::Health => Binding {
                group: Group::Health,
                verb: Verb::Get,
                path: "/health",
                handler: Handler::Health,
            },
            Endpoint::ErrorCatalog => Binding {
                group: Group::Health,
                verb: Verb::Get,
                path: "/errors",
                handler: Handler::ErrorCatalog,
            },
            Endpoint::BulkUpdateStatus => Binding {
                group: Group::Admin,
                verb: Verb::Patch,
                path: "/admin/transactions/bulk-status",
                handler: Handler::BulkUpdateStatusApi,
            },
            Endpoint::GetJobStatus => Binding {
                group: Group::Admin,
                verb: Verb::Get,
                path: "/admin/transactions/bulk-status/jobs/:id",
                handler: Handler::GetJobStatus,
            },
            Endpoint::Graphql => Binding {
                group: Group::Admin,
                verb: Verb::Post,
                path: "/graphql",
                handler: Handler::GraphqlHandler,
            },
            Endpoint::ExportTransactions => Binding {
                group: Group::Admin,
                verb: Verb::Get,
                path: "/export",
                handler: Handler::ExportTransactions,
            },
            Endpoint::StatusCounts => Binding {
                group: Group::Admin,
                verb: Verb::Get,
                path: "/stats/status",
                handler: Handler::StatusCounts,
            },
            Endpoint::DailyTotals => Binding {
                group: Group::Admin,
                verb: Verb::Get,
                path: "/stats/daily",
                handler: Handler::DailyTotals,
            },
            Endpoint::AssetStats => Binding {
                group: Group::Admin,
                verb: Verb::Get,
                path: "/stats/assets",
                handler: Handler::AssetStats,
            },
            Endpoint::CacheMetrics => Binding {
                group: Group::Admin,
                verb: Verb::Get,
                path: "/cache/metrics",
                handler: Handler::CacheMetrics,
            },
            Endpoint::ListWebhookHealth => Binding {
                group: Group::Admin,
                verb: Verb::Get,
                path: "/admin/webhooks/health",
                handler: Handler::ListWebhookHealth,
            },
            Endpoint::GetWebhookHealth => Binding {
                group: Group::Admin,
                verb: Verb::Get,
                path: "/admin/webhooks/health/:id",
                handler: Handler::GetWebhookHealth,
            },
            Endpoint::ListTenantQuotas => Binding {
                group: Group::Admin,
                verb: Verb::Get,
                path: "/admin/quotas",
                handler: Handler::ListTenantQuotas,
            },
            Endpoint::GetTenantQuota => Binding {
                group: Group::Admin,
                verb: Verb::Get,
                path: "/admin/quotas/:tenant_id",
                handler: Handler::GetTenantQuota,
            },
            Endpoint::SetTenantQuota => Binding {
                group: Group::Admin,
                verb: Verb::Put,
                path: "/admin/quotas/:tenant_id",
                handler: Handler::SetTenantQuota,
            },
            Endpoint::ResetTenantQuota => Binding {
                group: Group::Admin,
                verb: Verb::Delete,
                path: "/admin/quotas/:tenant_id/reset",
                handler: Handler::ResetTenantQuota,
            },
            Endpoint::ListActiveLocks => Binding {
                group: Group::Admin,
                verb: Verb::Get,
                path: "/admin/locks",
                handler: Handler::ListActiveLocks,
            },
            Endpoint::SearchAuditLogs => Binding {
                group: Group::Admin,
                verb: Verb::Get,
                path: "/admin/audit/search",
                handler: Handler::SearchAuditLogsHandler,
            },
            Endpoint::GenerateReport => Binding {
                group: Group::Admin,
                verb: Verb::Post,
                path: "/admin/compliance/reports",
                handler: Handler::GenerateReport,
            },
            Endpoint::ListReports => Binding {
                group: Group::Admin,
                verb: Verb::Get,
                path: "/admin/compliance/reports",
                handler: Handler::ListReports,
            },
            Endpoint::UpdateSettlementStatus => Binding {
                group: Group::Admin,
                verb: Verb::Patch,
                path: "/admin/settlements/:id/status",
                handler: Handler::UpdateSettlementStatus,
            },
            Endpoint::Reconciliation => Binding {
                group: Group::Admin,
                verb: Verb::Nest,
                path: "/admin/reconciliation",
                handler: Handler::ReconciliationRoutes,
            },
            Endpoint::Socket => Binding {
                group: Group::Sockets,
                verb: Verb::Get,
                path: "/ws",
                handler: Handler::WsHandler,
            },
        }
    }

    /// Every endpoint, once.
    pub fn all() -> (endpoints: Vec<Endpoint>)
        ensures
            endpoints@ == all_endpoints(),
    {
        vec![
            Endpoint::Callback,
            Endpoint::CallbackTransaction,
            Endpoint::HandleWebhook,
            Endpoint::GetTransaction,
            Endpoint::ListTransactions,
            Endpoint::SearchTransactions,
            Endpoint::ListSettlements,
            Endpoint::GetSettlement,
            Endpoint::Live,
            Endpoint::Ready,
            Endpoint::Health,
            Endpoint::ErrorCatalog,
            Endpoint::BulkUpdateStatus,
            Endpoint::GetJobStatus,
            Endpoint::Graphql,
            Endpoint::ExportTransactions,
            Endpoint::StatusCounts,
            Endpoint::DailyTotals,
            Endpoint::AssetStats,
            Endpoint::CacheMetrics,
            Endpoint::ListWebhookHealth,
            Endpoint::GetWebhookHealth,
            Endpoint::ListTenantQuotas,
            Endpoint::GetTenantQuota,
            Endpoint::SetTenantQuota,
            Endpoint::ResetTenantQuota,
            Endpoint::ListActiveLocks,
            Endpoint::SearchAuditLogs,
            Endpoint::GenerateReport,
            Endpoint::ListReports,
            Endpoint::UpdateSettlementStatus,
            Endpoint::Reconciliation,
            Endpoint::Socket,
        ]
    }
}

/// Where an endpoint stands in [`all_endpoints`].
spec fn place(endpoint: Endpoint) -> int {
    match endpoint {
        Endpoint::Callback => 0,
        Endpoint::CallbackTransaction => 1,
        Endpoint::HandleWebhook => 2,
        Endpoint::GetTransaction => 3,
        Endpoint::ListTransactions => 4,
        Endpoint::SearchTransactions => 5,
        Endpoint::ListSettlements => 6,
        Endpoint::GetSettlement => 7,
        Endpoint::Live => 8,
        Endpoint::Ready => 9,
        Endpoint::Health => 10,
        Endpoint::ErrorCatalog => 11,
        Endpoint::BulkUpdateStatus => 12,
        Endpoint::GetJobStatus => 13,
        Endpoint::Graphql => 14,
        Endpoint::ExportTransactions => 15,
        Endpoint::StatusCounts => 16,
        Endpoint::DailyTotals => 17,
        Endpoint::AssetStats => 18,
        Endpoint::CacheMetrics => 19,
        Endpoint::ListWebhookHealth => 20,
        Endpoint::GetWebhookHealth => 21,
        Endpoint::ListTenantQuotas => 22,
        Endpoint::GetTenantQuota => 23,
        Endpoint::SetTenantQuota => 24,
        Endpoint::ResetTenantQuota => 25,
        Endpoint::ListActiveLocks => 26,
        Endpoint::SearchAuditLogs => 27,
        Endpoint::GenerateReport => 28,
        Endpoint::ListReports => 29,
        Endpoint::UpdateSettlementStatus => 30,
        Endpoint::Reconciliation => 31,
        Endpoint::Socket => 32,
    }
}

/// Every endpoint stands in its place.
proof fn lemma_places(endpoint: Endpoint)
    ensures
        0 <= place(endpoint) < all_endpoints().len(),
        all_endpoints()[place(endpoint)] == endpoint,
{
}

/// Every place holds the endpoint whose place it is.
proof fn lemma_endpoints_once(i: int)
    requires
        0 <= i < all_endpoints().len(),
    ensures
        place(all_endpoints()[i]) == i,
{
}

/// Whether the endpoints of a group are reached under the prefix of each version too.
pub open spec fn is_versioned(group: Group) -> bool {
    match group {
        Group::Data | Group::Callback | Group::Webhook => true,
        Group::Health | Group::Admin | Group::Sockets => false,
    }
}

/// The layers of a group itself, from the inside out, as the service is set up.
pub open spec fn group_layers<'a>(group: Group, settings: &'a Settings) -> Seq<Layer<'a>> {
    match group {
        Group::Callback => seq![
            Layer::RateLimit,
            Layer::ValidateCallback,
            Layer::AnchorSignature,
            Layer::IpFilter {
                allowed_ips: &settings.allowed_ips,
                trusted_proxy_depth: settings.trusted_proxy_depth,
            },
        ],
        Group::Webhook => seq![Layer::RateLimit, Layer::ValidateWebhook, Layer::AnchorSignature],
        Group::Admin => if settings.secrets {
            seq![Layer::AdminAuth, Layer::Secrets]
        } else {
            seq![Layer::AdminAuth]
        },
        Group::Health | Group::Data | Group::Sockets => seq![],
    }
}

/// The layer that marks the version of an answer. What is reached without a prefix behaves as
/// version 2.
pub open spec fn version_layers<'a>(group: Group, mount: Mount) -> Seq<Layer<'a>> {
    if !is_versioned(group) {
        seq![]
    } else if mount == Mount::VersionOne {
        seq![Layer::VersionOne]
    } else {
        seq![Layer::VersionTwo]
    }
}

/// The layers of a section, from the inside out.
pub open spec fn section_layers<'a>(
    group: Group,
    mount: Mount,
    settings: &'a Settings,
) -> Seq<Layer<'a>> {
    group_layers(group, settings) + version_layers(group, mount)
}

/// The prefix of a mount.
pub open spec fn prefix(mount: Mount) -> Seq<char> {
    match mount {
        Mount::Root => ""@,
        Mount::VersionOne => "/api/v1"@,
        Mount::VersionTwo => "/api/v2"@,
    }
}

/// The mounts.
pub open spec fn mounts() -> Seq<Mount> {
    seq![Mount::Root, Mount::VersionOne, Mount::VersionTwo]
}

/// The groups that are mounted under a prefix.
pub open spec fn mounted_groups(mount: Mount) -> Seq<Group> {
    if mount == Mount::Root {
        seq![Group::Health, Group::Data, Group::Callback, Group::Webhook, Group::Admin]
    } else {
        seq![Group::Data, Group::Callback, Group::Webhook]
    }
}

/// Whether `section` holds every endpoint of `group`, each once and no others, with the layers
/// that the group has under `mount`.
pub open spec fn is_section(
    section: Section<'_>,
    group: Group,
    mount: Mount,
    settings: &Settings,
) -> bool {
    &&& section.group == group
    &&& section.endpoints@.no_duplicates()
    &&& forall|endpoint: Endpoint| #[trigger]
        section.endpoints@.contains(endpoint) <==> binding(endpoint).group == group
    &&& section.layers@ == section_layers(group, mount, settings)
}

/// Whether `plan` holds the sections of every group that is mounted under `mount`.
pub open spec fn is_mount_plan(plan: MountPlan<'_>, mount: Mount, settings: &Settings) -> bool {
    &&& plan.mount == mount
    &&& plan.prefix@ == prefix(mount)
    &&& plan.sections@.len() == mounted_groups(mount).len()
    &&& forall|i: int|
        0 <= i < plan.sections@.len() ==> is_section(
            #[trigger] plan.sections@[i],
            mounted_groups(mount)[i],
            mount,
            settings,
        )
}

/// Whether `plan` is the whole service.
pub open spec fn is_app_plan(plan: AppPlan<'_>, settings: &Settings) -> bool {
    &&& plan.mounts@.len() == mounts().len()
    &&& forall|i: int|
        0 <= i < plan.mounts@.len() ==> is_mount_plan(
            #[trigger] plan.mounts@[i],
            mounts()[i],
            settings,
        )
    &&& plan.api_layers@ == seq![Layer::PanicRecovery]
    &&& is_section(plan.sockets, Group::Sockets, Mount::Root, settings)
    &&& plan.layers@ == seq![Layer::ErrorEnrichment, Layer::RequestLogger]
}

/// The layers of a section, from the inside out.
fn layers_of<'a>(group: Group, mount: Mount, settings: &'a Settings) -> (layers: Vec<Layer<'a>>)
    ensures
        layers@ == section_layers(group, mount, settings),
{
    let mut layers: Vec<Layer<'a>> = match group {
        Group::Callback => vec![
            Layer::RateLimit,
            Layer::ValidateCallback,
            Layer::AnchorSignature,
            Layer::IpFilter {
                allowed_ips: &settings.allowed_ips,
                trusted_proxy_depth: settings.trusted_proxy_depth,
            },
        ],
        Group::Webhook => vec![Layer::RateLimit, Layer::ValidateWebhook, Layer::AnchorSignature],
        Group::Admin => if settings.secrets {
            vec![Layer::AdminAuth, Layer::Secrets]
        } else {
            vec![Layer::AdminAuth]
        },
        Group::Health | Group::Data | Group::Sockets => Vec::new(),
    };
    match group {
        Group::Data | Group::Callback | Group::Webhook => {
            if mount == Mount::VersionOne {
                layers.push(Layer::VersionOne);
            } else {
                layers.push(Layer::VersionTwo);
            }
        },
        Group::Health | Group::Admin | Group::Sockets => {},
    }
    proof {
        assert(layers@ =~= section_layers(group, mount, settings));
    }
    layers
}

/// The section of a group under a mount.
fn section<'a>(group: Group, mount: Mount, settings: &'a Settings) -> (section: Section<'a>)
    ensures
        is_section(section, group, mount, settings),
{
    let all = Endpoint::all();
    let mut endpoints: Vec<Endpoint> = Vec::new();
    let mut i: usize = 0;
    while i < all.len()
        invariant
            i <= all.len(),
            all@ == all_endpoints(),
            endpoints@.no_duplicates(),
            forall|endpoint: Endpoint| #[trigger]
                endpoints@.contains(endpoint) <==> (binding(endpoint).group == group && place(
                    endpoint,
                ) < i),
        decreases all.len() - i,
    {
        let endpoint = all[i];
        let ghost before = endpoints@;
        proof {
            lemma_endpoints_once(i as int);
            assert forall|e: Endpoint| place(e) == i implies e == endpoint by {
                lemma_places(e);
            }
        }
        if endpoint.binding().group == group {
            endpoints.push(endpoint);
            proof {
                assert(!before.contains(endpoint));
                assert forall|e: Endpoint| #[trigger]
                    endpoints@.contains(e) <==> (before.contains(e) || e == endpoint) by {
                    if before.contains(e) {
                        let k = before.index_of(e);
                        assert(endpoints@[k] == e);
                    }
                    assert(endpoints@[before.len() as int] == endpoint);
                }
            }
        }
        i = i + 1;
    }
    proof {
        assert forall|endpoint: Endpoint| #[trigger]
            endpoints@.contains(endpoint) <==> binding(endpoint).group == group by {
            lemma_places(endpoint);
        }
    }
    Section { group, endpoints, layers: layers_of(group, mount, settings) }
}

/// Everything that is reached under one prefix.
fn mount_plan<'a>(mount: Mount, settings: &'a Settings) -> (plan: MountPlan<'a>)
    ensures
        is_mount_plan(plan, mount, settings),
{
    let prefix = match mount {
        Mount::Root => "",
        Mount::VersionOne => "/api/v1",
        Mount::VersionTwo => "/api/v2",
    };
    let mut sections: Vec<Section<'a>> = Vec::new();
    if mount == Mount::Root {
        sections.push(section(Group::Health, mount, settings));
    }
    sections.push(section(Group::Data, mount, settings));
    sections.push(section(Group::Callback, mount, settings));
    sections.push(section(Group::Webhook, mount, settings));
    if mount == Mount::Root {
        sections.push(section(Group::Admin, mount, settings));
    }
    MountPlan { mount, prefix, sections }
}

/// The whole service, as it is set up: the filter of callbacks is built from the allowed addresses
/// and the trusted proxies of `settings`.
pub fn create_app<'a>(settings: &'a Settings) -> (plan: AppPlan<'a>)
    ensures
        is_app_plan(plan, settings),
{
    let mounts = vec![
        mount_plan(Mount::Root, settings),
        mount_plan(Mount::VersionOne, settings),
        mount_plan(Mount::VersionTwo, settings),
    ];
    let api_layers = vec![Layer::PanicRecovery];
    let layers = vec![Layer::ErrorEnrichment, Layer::RequestLogger];
    proof {
        assert(api_layers@ =~= seq![Layer::PanicRecovery]);
        assert(layers@ =~= seq![Layer::ErrorEnrichment, Layer::RequestLogger]);
    }
    AppPlan {
        mounts,
        api_layers,
        sockets: section(Group::Sockets, Mount::Root, settings),
        layers,
    }
}

} // verus!
