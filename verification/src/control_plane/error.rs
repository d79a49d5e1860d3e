//! Control-plane errors, their HTTP status, stable code, text and JSON body.

use vstd::prelude::*;
use crate::json::{JsonModel, JsonNumber, JsonValue, NumberModel, entry_models, entries_get, object_push};
use crate::text::{decimal, decimal_string};

verus! {

/// Error surface for selector resolution, routing, and proxy forwarding.
#[derive(Debug, Clone)]
pub enum ControlPlaneError {
    /// Selector could not be parsed from query/header policy input.
    SelectorMalformed {
        /// Human-readable validation reason.
        message: String,
    },
    /// Selector parsed, but no workspace exists for that identifier.
    WorkspaceNotFound {
        /// Raw selector value from request input.
        selector: String,
    },
    /// Workspace metadata exists but does not satisfy routing requirements.
    WorkspaceMetadataInvalid {
        /// Raw selector value from request input.
        selector: String,
        /// Metadata validation detail.
        message: String,
    },
    /// Upstream forwarding timed out after bounded retries.
    UpstreamTimeout {
        /// Total attempts including retries.
        attempts: u32,
    },
    /// Upstream transport failed for a non-timeout reason.
    UpstreamFailure {
        /// Transport failure detail.
        message: String,
    },
    /// WebSocket forwarding is not supported.
    WebSocketForwardingDeferred,
    /// Unexpected internal failure in routing/proxy plumbing.
    Internal {
        /// Internal failure detail.
        message: String,
    },
}

/// HTTP status of each error category.
pub open spec fn error_status(e: ControlPlaneError) -> u16 {
    match e {
        ControlPlaneError::SelectorMalformed { .. } => 400,
        ControlPlaneError::WorkspaceNotFound { .. } => 404,
        ControlPlaneError::WorkspaceMetadataInvalid { .. } => 400,
        ControlPlaneError::UpstreamTimeout { .. } => 504,
        ControlPlaneError::UpstreamFailure { .. } => 502,
        ControlPlaneError::WebSocketForwardingDeferred => 501,
        ControlPlaneError::Internal { .. } => 500,
    }
}

/// Stable machine-readable code of each error category.
pub open spec fn error_code(e: ControlPlaneError) -> Seq<char> {
    match e {
        ControlPlaneError::SelectorMalformed { .. } => "selector_malformed"@,
        ControlPlaneError::WorkspaceNotFound { .. } => "workspace_not_found"@,
        ControlPlaneError::WorkspaceMetadataInvalid { .. } => "workspace_metadata_invalid"@,
        ControlPlaneError::UpstreamTimeout { .. } => "upstream_timeout"@,
        ControlPlaneError::UpstreamFailure { .. } => "upstream_failure"@,
        ControlPlaneError::WebSocketForwardingDeferred => "websocket_forwarding_deferred"@,
        ControlPlaneError::Internal { .. } => "control_plane_internal"@,
    }
}

/// Human-readable text of an error.
pub open spec fn error_text(e: ControlPlaneError) -> Seq<char> {
    match e {
        ControlPlaneError::SelectorMalformed { message } => "invalid workspace selector: "@
            + message@,
        ControlPlaneError::WorkspaceNotFound { selector } => "workspace selector '"@ + selector@
            + "' not found"@,
        ControlPlaneError::WorkspaceMetadataInvalid { selector, message } =>
            "workspace metadata for selector '"@ + selector@ + "' is invalid: "@ + message@,
        ControlPlaneError::UpstreamTimeout { attempts } => "upstream request timed out after "@
            + decimal(attempts as nat) + " attempt(s)"@,
        ControlPlaneError::UpstreamFailure { message } => "upstream request failed: "@ + message@,
        ControlPlaneError::WebSocketForwardingDeferred =>
            "websocket forwarding is deferred in this control-plane slice"@,
        ControlPlaneError::Internal { message } => "control-plane internal error: "@ + message@,
    }
}

/// The JSON body of an error response: `{"error": {"code", "message"}}`,
/// with `attempts` added for a timeout.
pub open spec fn error_body_model(e: ControlPlaneError) -> JsonModel {
    let base = seq![
        ("code"@, JsonModel::Str(error_code(e))),
        ("message"@, JsonModel::Str(error_text(e))),
    ];
    let inner = match e {
        ControlPlaneError::UpstreamTimeout { attempts } => base.push(
            ("attempts"@, JsonModel::Number(NumberModel::PosInt(attempts as u64))),
        ),
        _ => base,
    };
    JsonModel::Object(seq![("error"@, JsonModel::Object(inner))])
}

impl ControlPlaneError {
    /// HTTP status associated with this error category.
    pub fn status_code(&self) -> (r: u16)
        ensures
            r == error_status(*self),
    {
        match self {
            ControlPlaneError::SelectorMalformed { .. } => 400,
            ControlPlaneError::WorkspaceNotFound { .. } => 404,
            ControlPlaneError::WorkspaceMetadataInvalid { .. } => 400,
            ControlPlaneError::UpstreamTimeout { .. } => 504,
            ControlPlaneError::UpstreamFailure { .. } => 502,
            ControlPlaneError::WebSocketForwardingDeferred => 501,
            ControlPlaneError::Internal { .. } => 500,
        }
    }

    /// Stable machine-readable error code for clients and telemetry.
    pub fn code(&self) -> (r: &'static str)
        ensures
            r@ == error_code(*self),
    {
        match self {
            ControlPlaneError::SelectorMalformed { .. } => "selector_malformed",
            ControlPlaneError::WorkspaceNotFound { .. } => "workspace_not_found",
            ControlPlaneError::WorkspaceMetadataInvalid { .. } => "workspace_metadata_invalid",
            ControlPlaneError::UpstreamTimeout { .. } => "upstream_timeout",
            ControlPlaneError::UpstreamFailure { .. } => "upstream_failure",
            ControlPlaneError::WebSocketForwardingDeferred => "websocket_forwarding_deferred",
            ControlPlaneError::Internal { .. } => "control_plane_internal",
        }
    }

    /// Human-readable text (`Display`).
    pub fn message(&self) -> (r: String)
        ensures
            r@ == error_text(*self),
    {
        match self {
            ControlPlaneError::SelectorMalformed { message } => String::from_str(
                "invalid workspace selector: ",
            ).concat(message.as_str()),
            ControlPlaneError::WorkspaceNotFound { selector } => String::from_str(
                "workspace selector '",
            ).concat(selector.as_str()).concat("' not found"),
            ControlPlaneError::WorkspaceMetadataInvalid { selector, message } => String::from_str(
                "workspace metadata for selector '",
            ).concat(selector.as_str()).concat("' is invalid: ").concat(message.as_str()),
            ControlPlaneError::UpstreamTimeout { attempts } => {
                let n = decimal_string(*attempts as u64);
                String::from_str("upstream request timed out after ").concat(n.as_str()).concat(
                    " attempt(s)",
                )
            },
            ControlPlaneError::UpstreamFailure { message } => String::from_str(
                "upstream request failed: ",
            ).concat(message.as_str()),
            ControlPlaneError::WebSocketForwardingDeferred => String::from_str(
                "websocket forwarding is deferred in this control-plane slice",
            ),
            ControlPlaneError::Internal { message } => String::from_str(
                "control-plane internal error: ",
            ).concat(message.as_str()),
        }
    }

    /// The JSON body of the error response.
    pub fn error_body(&self) -> (r: JsonValue)
        ensures
            r@ == error_body_model(*self),
    {
        let mut inner: Vec<(String, JsonValue)> = Vec::new();
        assert(entry_models(inner@) =~= Seq::<(Seq<char>, JsonModel)>::empty());
        let code = self.code();
        object_push(&mut inner, "code", JsonValue::text(code));
        let msg = self.message();
        object_push(&mut inner, "message", JsonValue::String(msg));
        proof {
            reveal_strlit("code");
            reveal_strlit("message");
            reveal_strlit("attempts");
            reveal_strlit("error");
        }
        let ghost base = seq![
            ("code"@, JsonModel::Str(error_code(*self))),
            ("message"@, JsonModel::Str(error_text(*self))),
        ];
        assert(entry_models(inner@) =~= base);
        match self {
            ControlPlaneError::UpstreamTimeout { attempts } => {
                object_push(&mut inner, "attempts", JsonValue::Number(JsonNumber::PosInt(*attempts as u64)));
            },
            _ => {},
        }
        let ghost im = entry_models(inner@);
        assert(JsonModel::Object(seq![("error"@, JsonModel::Object(im))]) == error_body_model(*self));
        let mut outer: Vec<(String, JsonValue)> = Vec::new();
        assert(entry_models(outer@) =~= Seq::<(Seq<char>, JsonModel)>::empty());
        object_push(&mut outer, "error", JsonValue::Object(inner));
        assert(entry_models(outer@) =~= seq![("error"@, JsonModel::Object(im))]);
        JsonValue::Object(outer)
    }
}

/// Every control-plane error answers with an `error` object that holds
/// its code and its text, and an attempt count exactly when the upstream
/// timed out.
pub proof fn law_error_body_describes_error(e: ControlPlaneError)
    ensures
        error_body_model(e).field("error"@) matches Some(inner)
            && inner.field("code"@) == Some(JsonModel::Str(error_code(e)))
            && inner.field("message"@) == Some(JsonModel::Str(error_text(e)))
            && (inner.field("attempts"@) is Some <==> e is UpstreamTimeout)
            && (e matches ControlPlaneError::UpstreamTimeout { attempts } ==> inner.field("attempts"@)
                == Some(JsonModel::Number(NumberModel::PosInt(attempts as u64)))),
{
    reveal_strlit("error");
    reveal_strlit("code");
    reveal_strlit("message");
    reveal_strlit("attempts");
    reveal_with_fuel(entries_get, 4);
    assert("message"@ != "code"@) by {
        assert("message"@[0] != "code"@[0]);
    }
    assert("attempts"@ != "code"@) by {
        assert("attempts"@[0] != "code"@[0]);
    }
    assert("attempts"@ != "message"@) by {
        assert("attempts"@[0] != "message"@[0]);
    }
    let outer = error_body_model(e)->Object_0;
    assert(outer[0].0 == "error"@);
    let inner = outer[0].1->Object_0;
    assert(inner[0].0 == "code"@);
    assert(inner.drop_first()[0].0 == "message"@);
    if e is UpstreamTimeout {
        assert(inner.drop_first().drop_first()[0].0 == "attempts"@);
        assert(inner.drop_first().drop_first().drop_first().len() == 0);
    } else {
        assert(inner.drop_first().drop_first().len() == 0);
    }
}

} // verus!
