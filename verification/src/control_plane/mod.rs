//! Workspace control plane: selector resolution, route policy, routing
//! decisions, forwarding rules and counters.

pub mod error;
pub mod observability;
pub mod policy;
pub mod proxy;
pub mod resolver;

use vstd::prelude::*;
use crate::control_plane::error::ControlPlaneError;
use crate::errors::{StorageError, storage_error_text};
use crate::ids::{Uid, WorkspaceId, uuid_parse};
use crate::server::state::ControlPlaneConfig;
use crate::control_plane::policy::{HttpMethod, PolicyAction, RoutePolicy, route_action, route_segments};
use crate::control_plane::resolver::{resolve_selector, resolve_selector_spec, opt_view, header_view};
use crate::control_plane::proxy::{is_websocket_upgrade, websocket_upgrade_spec};
use crate::control_plane::observability::{ControlPlaneMetrics, MetricsModel, bump};
use crate::server::workspace::{
    TargetModel, WorkspaceRow, WorkspaceTargetMetadata, opt_json, parse_workspace_target,
    target_spec, validation_text,
};

verus! {

/// Source used for selector resolution precedence diagnostics.
#[derive(Debug, Clone, Copy, PartialEq, Eq, Structural)]
pub enum SelectorSource {
    /// Selector came from `?workspace=` query.
    Query,
    /// Selector came from `x-opencode-workspace` header.
    Header,
}

/// Text of a selector source.
pub open spec fn source_text(s: SelectorSource) -> Seq<char> {
    match s {
        SelectorSource::Query => "query"@,
        SelectorSource::Header => "header"@,
    }
}

impl SelectorSource {
    /// Static representation for logs and forwarded context headers.
    pub fn as_str(&self) -> (r: &'static str)
        ensures
            r@ == source_text(*self),
    {
        match self {
            SelectorSource::Query => "query",
            SelectorSource::Header => "header",
        }
    }
}

/// Selector token resolved from the incoming request.
#[derive(Debug, Clone, PartialEq, Eq)]
pub struct WorkspaceSelector {
    /// Raw selector payload (workspace id string).
    pub raw: String,
    /// Source used for precedence and observability.
    pub source: SelectorSource,
}

/// Remote destination metadata required for forwarding.
#[derive(Debug, Clone, PartialEq, Eq)]
pub struct RemoteTarget {
    /// Selected workspace id.
    pub workspace_id: WorkspaceId,
    /// Destination instance identity.
    pub instance_id: String,
    /// Destination control-plane base URL.
    pub base_url: String,
}

/// Local-vs-forward routing outcome.
#[derive(Debug, Clone, PartialEq, Eq)]
pub enum RoutingDecision {
    /// Handle request in this process.
    Local,
    /// Forward request to the resolved remote target.
    Forward(RemoteTarget),
}

/// Routing service: turns a resolved selector into a local/forward
/// decision. The workspace lookup between the two steps is the caller's.
pub struct ControlPlaneService {
    /// Runtime configuration.
    pub config: ControlPlaneConfig,
}

/// First step of a routing decision.
pub enum DecideStep {
    /// Decided without a lookup.
    Decided(Result<RoutingDecision, ControlPlaneError>),
    /// Look up this workspace, then call `decide_finish`.
    Lookup(WorkspaceId),
}

impl ControlPlaneService {
    /// A routing service for the given configuration.
    pub fn new(config: ControlPlaneConfig) -> (r: Self)
        ensures
            r.config.instance_id@ == config.instance_id@,
            r.config.force_local_only == config.force_local_only,
            r.config.proxy == config.proxy,
    {
        ControlPlaneService { config }
    }

    /// Start a decision: the local-only switch keeps everything local; a
    /// selector that is not a workspace id is malformed; otherwise the
    /// workspace must be looked up.
    pub fn decide_start(&self, selector: &WorkspaceSelector) -> (r: DecideStep)
        ensures
            self.config.force_local_only ==> r matches DecideStep::Decided(Ok(RoutingDecision::Local)),
            !self.config.force_local_only ==> match uuid_parse(selector.raw@) {
                None => r matches DecideStep::Decided(Err(ControlPlaneError::SelectorMalformed { message }))
                    && message@ == "workspace selector must be a valid workspace id"@,
                Some(v) => r matches DecideStep::Lookup(id) && id.0 == v,
            },
    {
        if self.config.force_local_only {
            return DecideStep::Decided(Ok(RoutingDecision::Local));
        }
        match Uid::parse(selector.raw.as_str()) {
            None => DecideStep::Decided(
                Err(
                    ControlPlaneError::SelectorMalformed {
                        message: String::from_str("workspace selector must be a valid workspace id"),
                    },
                ),
            ),
            Some(id) => DecideStep::Lookup(id),
        }
    }

    /// Finish a decision from the workspace lookup: a failed lookup is an
    /// internal error, a missing workspace is not found, invalid metadata
    /// is reported; a non-remote workspace, or one served by this
    /// instance, stays local; any other is forwarded to its target.
    pub fn decide_finish(
        &self,
        selector: &WorkspaceSelector,
        workspace_id: WorkspaceId,
        lookup: Result<Option<WorkspaceRow>, StorageError>,
    ) -> (r: Result<RoutingDecision, ControlPlaneError>)
        ensures
            match lookup {
                Err(e) => r matches Err(ControlPlaneError::Internal { message }) && message@
                    == "workspace lookup failed: "@ + storage_error_text(e),
                Ok(None) => r matches Err(ControlPlaneError::WorkspaceNotFound { selector: s }) && s@
                    == selector.raw@,
                Ok(Some(ws)) => match target_spec(ws.kind@, opt_json(ws.extra)) {
                    Err(m) => r matches Err(
                        ControlPlaneError::WorkspaceMetadataInvalid { selector: s, message },
                    ) && s@ == selector.raw@ && message@ == validation_text(m),
                    Ok(TargetModel::Other) => r matches Ok(RoutingDecision::Local),
                    Ok(TargetModel::Remote { instance, base_url }) => if instance
                        == self.config.instance_id@ {
                        r matches Ok(RoutingDecision::Local)
                    } else {
                        r matches Ok(RoutingDecision::Forward(t)) && t.workspace_id == workspace_id
                            && t.instance_id@ == instance && t.base_url@ == base_url
                    },
                },
            },
    {
        let ws = match lookup {
            Err(e) => {
                let m = e.message();
                return Err(
                    ControlPlaneError::Internal {
                        message: String::from_str("workspace lookup failed: ").concat(m.as_str()),
                    },
                );
            },
            Ok(None) => {
                return Err(ControlPlaneError::WorkspaceNotFound { selector: selector.raw.clone() });
            },
            Ok(Some(ws)) => ws,
        };
        let target = match &ws.extra {
            Some(e) => parse_workspace_target(ws.kind.as_str(), Some(e)),
            None => parse_workspace_target(ws.kind.as_str(), None),
        };
        match target {
            Err(err) => Err(
                ControlPlaneError::WorkspaceMetadataInvalid {
                    selector: selector.raw.clone(),
                    message: err.message(),
                },
            ),
            Ok(WorkspaceTargetMetadata::Other) => Ok(RoutingDecision::Local),
            Ok(WorkspaceTargetMetadata::Remote(remote)) => {
                if remote.instance == self.config.instance_id {
                    Ok(RoutingDecision::Local)
                } else {
                    Ok(
                        RoutingDecision::Forward(
                            RemoteTarget {
                                workspace_id,
                                instance_id: remote.instance,
                                base_url: remote.base_url,
                            },
                        ),
                    )
                }
            },
        }
    }
}

/// First step of the control-plane middleware.
pub enum MiddlewareStart {
    /// Hand the request to the local handlers.
    PassThrough,
    /// Answer with this error.
    Reject(ControlPlaneError),
    /// Decide where this selector's workspace is served.
    Route(WorkspaceSelector),
}

/// Last step of the control-plane middleware.
pub enum MiddlewareEnd {
    /// Hand the request to the local handlers.
    PassThrough,
    /// Answer with this error.
    Reject(ControlPlaneError),
    /// Forward the request to this target.
    Forward(RemoteTarget),
}

/// Start the middleware on a request: local-only routes and requests
/// without a selector pass through; a malformed selector is refused;
/// otherwise the selector's workspace decides.
pub fn middleware_start(method: &HttpMethod, path: &str, query: Option<&str>, header: Option<Option<&str>>) -> (r: MiddlewareStart)
    ensures
        route_action(*method, route_segments(path@)) == PolicyAction::LocalOnly ==> r is PassThrough,
        route_action(*method, route_segments(path@)) == PolicyAction::Eligible ==> match resolve_selector_spec(opt_view(query), header_view(header)) {
            Ok(None) => r is PassThrough,
            Ok(Some((raw, src))) => r matches MiddlewareStart::Route(s) && s.raw@ == raw && s.source == src,
            Err(m) => r matches MiddlewareStart::Reject(ControlPlaneError::SelectorMalformed { message }) && message@ == m,
        },
{
    let policy = RoutePolicy;
    if policy.classify(method, path) == PolicyAction::LocalOnly {
        return MiddlewareStart::PassThrough;
    }
    match resolve_selector(query, header) {
        Ok(Some(s)) => MiddlewareStart::Route(s),
        Ok(None) => MiddlewareStart::PassThrough,
        Err(e) => MiddlewareStart::Reject(e),
    }
}

/// Finish the middleware once the routing decision is known: a failed
/// decision is refused; a local decision is counted and passes through; a
/// forward decision is counted, and refused as deferred when the request
/// asks for a WebSocket upgrade.
pub fn middleware_end(
    decision: Result<RoutingDecision, ControlPlaneError>,
    selector: &WorkspaceSelector,
    method: &HttpMethod,
    path: &str,
    upgrade: Option<&str>,
    connection: Option<&str>,
    metrics: &mut ControlPlaneMetrics,
) -> (r: MiddlewareEnd)
    ensures
        match decision {
            Err(e) => r matches MiddlewareEnd::Reject(x) && x == e && final(metrics)@ == old(metrics)@,
            Ok(RoutingDecision::Local) => r is PassThrough && final(metrics)@ == (MetricsModel {
                decisions_local: bump(old(metrics)@.decisions_local),
                ..old(metrics)@
            }),
            Ok(RoutingDecision::Forward(t)) => final(metrics)@ == (MetricsModel {
                decisions_forward: bump(old(metrics)@.decisions_forward),
                ..old(metrics)@
            }) && if websocket_upgrade_spec(
                match upgrade {
                    Some(u) => Some(u@),
                    None => None,
                },
                match connection {
                    Some(c) => Some(c@),
                    None => None,
                },
            ) {
                r matches MiddlewareEnd::Reject(ControlPlaneError::WebSocketForwardingDeferred)
            } else {
                r matches MiddlewareEnd::Forward(f) && f == t
            },
        },
{
    match decision {
        Err(e) => MiddlewareEnd::Reject(e),
        Ok(RoutingDecision::Local) => {
            metrics.record_local_decision(selector, method, path);
            MiddlewareEnd::PassThrough
        },
        Ok(RoutingDecision::Forward(target)) => {
            metrics.record_forward_decision(selector, method, path, &target);
            if is_websocket_upgrade(upgrade, connection) {
                MiddlewareEnd::Reject(ControlPlaneError::WebSocketForwardingDeferred)
            } else {
                MiddlewareEnd::Forward(target)
            }
        },
    }
}

} // verus!
