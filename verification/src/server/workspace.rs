//! Workspace rows, their create/patch payloads, and validation of the
//! remote-target metadata that control-plane routing depends on.

use vstd::prelude::*;
use crate::errors::StorageError;
use crate::ids::{ProjectId, Uid, WorkspaceId, is_v7_uuid};
use crate::json::{JsonModel, JsonValue};
use crate::server::http_error::HttpError;
use crate::text::{str_eq, trimmed, is_blank};

verus! {

/// A stored workspace.
#[derive(Debug)]
pub struct WorkspaceRow {
    /// Workspace id.
    pub id: WorkspaceId,
    /// Type identifier (for example `worktree`, `remote`).
    pub kind: String,
    /// Optional git branch.
    pub branch: Option<String>,
    /// Optional display name.
    pub name: Option<String>,
    /// Optional directory path.
    pub directory: Option<String>,
    /// Optional metadata blob.
    pub extra: Option<JsonValue>,
    /// Owning project.
    pub project_id: ProjectId,
}

/// View of an optional string.
pub open spec fn opt_str(o: Option<String>) -> Option<Seq<char>> {
    match o {
        Some(s) => Some(s@),
        None => None,
    }
}

/// View of an optional JSON value.
pub open spec fn opt_json(o: Option<JsonValue>) -> Option<JsonModel> {
    match o {
        Some(v) => Some(v@),
        None => None,
    }
}

/// View of a workspace row.
pub struct WorkspaceModel {
    pub id: WorkspaceId,
    pub kind: Seq<char>,
    pub branch: Option<Seq<char>>,
    pub name: Option<Seq<char>>,
    pub directory: Option<Seq<char>>,
    pub extra: Option<JsonModel>,
    pub project_id: ProjectId,
}

impl View for WorkspaceRow {
    type V = WorkspaceModel;

    open spec fn view(&self) -> WorkspaceModel {
        WorkspaceModel {
            id: self.id,
            kind: self.kind@,
            branch: opt_str(self.branch),
            name: opt_str(self.name),
            directory: opt_str(self.directory),
            extra: opt_json(self.extra),
            project_id: self.project_id,
        }
    }
}

/// Payload of a workspace creation.
#[derive(Debug)]
pub struct WorkspaceCreateDto {
    /// Requested id; a fresh one is allocated when absent.
    pub id: Option<WorkspaceId>,
    /// Type identifier.
    pub kind: String,
    /// Optional git branch.
    pub branch: Option<String>,
    /// Optional display name.
    pub name: Option<String>,
    /// Optional directory path.
    pub directory: Option<String>,
    /// Optional metadata blob.
    pub extra: Option<JsonValue>,
    /// Owning project.
    pub project_id: ProjectId,
}

impl WorkspaceCreateDto {
    /// The row to store: every field as given, the id allocated when the
    /// payload names none.
    pub fn into_row(self) -> (r: WorkspaceRow)
        ensures
            self.id matches Some(i) ==> r.id == i,
            self.id is None ==> is_v7_uuid(r.id.0),
            r.kind@ == self.kind@,
            opt_str(r.branch) == opt_str(self.branch),
            opt_str(r.name) == opt_str(self.name),
            opt_str(r.directory) == opt_str(self.directory),
            opt_json(r.extra) == opt_json(self.extra),
            r.project_id == self.project_id,
    {
        let id = match self.id {
            Some(i) => i,
            None => Uid::new(),
        };
        WorkspaceRow {
            id,
            kind: self.kind,
            branch: self.branch,
            name: self.name,
            directory: self.directory,
            extra: self.extra,
            project_id: self.project_id,
        }
    }
}

/// A field of a patch payload: absent, explicitly `null`, or a value.
#[derive(Debug)]
pub enum PatchField<T> {
    /// The key was absent: keep the current value.
    Missing,
    /// The key was `null`: clear the value.
    Null,
    /// Replace with this value.
    Value(T),
}

/// Payload of a workspace patch.
#[derive(Debug)]
pub struct WorkspacePatchDto {
    /// New type, when given.
    pub kind: Option<String>,
    /// Branch change.
    pub branch: PatchField<String>,
    /// Name change.
    pub name: PatchField<String>,
    /// Directory change.
    pub directory: PatchField<String>,
    /// Metadata change.
    pub extra: PatchField<JsonValue>,
}

/// A string field after a patch.
pub open spec fn patched_str(cur: Option<Seq<char>>, p: PatchField<String>) -> Option<Seq<char>> {
    match p {
        PatchField::Missing => cur,
        PatchField::Null => None,
        PatchField::Value(v) => Some(v@),
    }
}

/// A JSON field after a patch.
pub open spec fn patched_json(cur: Option<JsonModel>, p: PatchField<JsonValue>) -> Option<JsonModel> {
    match p {
        PatchField::Missing => cur,
        PatchField::Null => None,
        PatchField::Value(v) => Some(v@),
    }
}

/// Apply one string patch field.
pub fn apply_str_patch(slot: &mut Option<String>, p: PatchField<String>)
    ensures
        opt_str(*final(slot)) == patched_str(opt_str(*old(slot)), p),
{
    match p {
        PatchField::Missing => {},
        PatchField::Null => {
            *slot = None;
        },
        PatchField::Value(v) => {
            *slot = Some(v);
        },
    }
}

impl WorkspacePatchDto {
    /// Apply the patch: a given type replaces the type; each other field is
    /// kept when missing, cleared when `null`, replaced when given.
    pub fn apply(self, row: &mut WorkspaceRow)
        ensures
            final(row)@.id == old(row)@.id,
            final(row)@.project_id == old(row)@.project_id,
            final(row)@.kind == (match self.kind {
                Some(k) => k@,
                None => old(row)@.kind,
            }),
            final(row)@.branch == patched_str(old(row)@.branch, self.branch),
            final(row)@.name == patched_str(old(row)@.name, self.name),
            final(row)@.directory == patched_str(old(row)@.directory, self.directory),
            final(row)@.extra == patched_json(old(row)@.extra, self.extra),
    {
        if let Some(k) = self.kind {
            row.kind = k;
        }
        apply_str_patch(&mut row.branch, self.branch);
        apply_str_patch(&mut row.name, self.name);
        apply_str_patch(&mut row.directory, self.directory);
        match self.extra {
            PatchField::Missing => {},
            PatchField::Null => {
                row.extra = None;
            },
            PatchField::Value(v) => {
                row.extra = Some(v);
            },
        }
    }
}

/// Validated remote workspace target metadata.
#[derive(Debug, Clone, PartialEq, Eq)]
pub struct RemoteWorkspaceTarget {
    /// Destination instance identifier.
    pub instance: String,
    /// Destination control-plane base URL.
    pub base_url: String,
}

/// Parsed workspace target metadata.
#[derive(Debug, Clone, PartialEq, Eq)]
pub enum WorkspaceTargetMetadata {
    /// Remote target with explicit instance and base URL.
    Remote(RemoteWorkspaceTarget),
    /// Non-remote workspace types with no required target fields.
    Other,
}

/// Validation failures for workspace metadata.
#[derive(Debug, Clone, PartialEq, Eq)]
pub enum WorkspaceValidationError {
    /// A remote workspace without metadata.
    MissingExtra,
    /// Metadata that is not a JSON object.
    ExtraNotObject,
    /// A required field is absent.
    MissingField { field: &'static str },
    /// A required field is not a non-blank string.
    InvalidField { field: &'static str },
    /// The base URL is not an absolute http(s) URL.
    InvalidBaseUrl,
}

/// View of a validation error.
pub enum ValidationModel {
    MissingExtra,
    ExtraNotObject,
    MissingField(Seq<char>),
    InvalidField(Seq<char>),
    InvalidBaseUrl,
}

/// View of a target.
pub enum TargetModel {
    Remote { instance: Seq<char>, base_url: Seq<char> },
    Other,
}

/// View of a validation error.
pub open spec fn validation_view(e: WorkspaceValidationError) -> ValidationModel {
    match e {
        WorkspaceValidationError::MissingExtra => ValidationModel::MissingExtra,
        WorkspaceValidationError::ExtraNotObject => ValidationModel::ExtraNotObject,
        WorkspaceValidationError::MissingField { field } => ValidationModel::MissingField(field@),
        WorkspaceValidationError::InvalidField { field } => ValidationModel::InvalidField(field@),
        WorkspaceValidationError::InvalidBaseUrl => ValidationModel::InvalidBaseUrl,
    }
}

/// View of a target.
pub open spec fn target_view(t: WorkspaceTargetMetadata) -> TargetModel {
    match t {
        WorkspaceTargetMetadata::Remote(r) => TargetModel::Remote {
            instance: r.instance@,
            base_url: r.base_url@,
        },
        WorkspaceTargetMetadata::Other => TargetModel::Other,
    }
}

/// Text of a validation error.
pub open spec fn validation_text(e: ValidationModel) -> Seq<char> {
    match e {
        ValidationModel::MissingExtra => "remote workspace extra metadata is required"@,
        ValidationModel::ExtraNotObject => "remote workspace extra metadata must be a JSON object"@,
        ValidationModel::MissingField(f) => "remote workspace metadata field '"@ + f
            + "' is required"@,
        ValidationModel::InvalidField(f) => "remote workspace metadata field '"@ + f
            + "' must be a non-empty string"@,
        ValidationModel::InvalidBaseUrl => "remote workspace base_url must be an absolute http(s) URL"@,
    }
}

impl WorkspaceValidationError {
    /// Human-readable text (`Display`).
    pub fn message(&self) -> (r: String)
        ensures
            r@ == validation_text(validation_view(*self)),
    {
        match self {
            WorkspaceValidationError::MissingExtra => String::from_str(
                "remote workspace extra metadata is required",
            ),
            WorkspaceValidationError::ExtraNotObject => String::from_str(
                "remote workspace extra metadata must be a JSON object",
            ),
            WorkspaceValidationError::MissingField { field } => String::from_str(
                "remote workspace metadata field '",
            ).concat(field).concat("' is required"),
            WorkspaceValidationError::InvalidField { field } => String::from_str(
                "remote workspace metadata field '",
            ).concat(field).concat("' must be a non-empty string"),
            WorkspaceValidationError::InvalidBaseUrl => String::from_str(
                "remote workspace base_url must be an absolute http(s) URL",
            ),
        }
    }
}

/// What `axum::http::Uri`'s `FromStr` makes of a text, taken as the parsed
/// URI's scheme (`Uri::scheme_str`) and whether it has an authority
/// (`Uri::authority`); `None` when the text does not parse.
pub uninterp spec fn uri_scheme_authority(raw: Seq<char>) -> Option<(Option<Seq<char>>, bool)>;

/// Parses `raw` with `axum::http::Uri`'s `FromStr` and reads the scheme
/// and the presence of an authority; the result is `uri_scheme_authority`
/// of the text.
#[verifier::external_body]
fn parse_uri_parts(raw: &str) -> (r: Option<(Option<String>, bool)>)
    ensures
        match r {
            None => uri_scheme_authority(raw@) is None,
            Some((s, a)) => uri_scheme_authority(raw@) == Some((opt_str(s), a)),
        },
{
    match raw.parse::<axum::http::Uri>() {
        Ok(uri) => Some((uri.scheme_str().map(|s| s.to_string()), uri.authority().is_some())),
        Err(_) => None,
    }
}

/// Whether parsed URI parts describe an absolute http(s) URL.
pub open spec fn base_url_parts_ok(parts: Option<(Option<Seq<char>>, bool)>) -> bool {
    match parts {
        Some((Some(scheme), true)) => scheme == "http"@ || scheme == "https"@,
        _ => false,
    }
}

/// Accept parsed URI parts of an absolute http(s) URL: a scheme of `http`
/// or `https` and an authority.
pub fn check_base_url_parts(parts: Option<(Option<String>, bool)>) -> (r: Result<(), WorkspaceValidationError>)
    ensures
        r is Ok <==> base_url_parts_ok(match parts {
            None => None,
            Some((s, a)) => Some((opt_str(s), a)),
        }),
        r matches Err(e) ==> e == WorkspaceValidationError::InvalidBaseUrl,
{
    match parts {
        Some((Some(scheme), true)) => {
            if str_eq(scheme.as_str(), "http") || str_eq(scheme.as_str(), "https") {
                Ok(())
            } else {
                Err(WorkspaceValidationError::InvalidBaseUrl)
            }
        },
        _ => Err(WorkspaceValidationError::InvalidBaseUrl),
    }
}

/// Accept an absolute http(s) base URL.
pub fn validate_base_url(raw: &str) -> (r: Result<(), WorkspaceValidationError>)
    ensures
        r is Ok <==> base_url_parts_ok(uri_scheme_authority(raw@)),
        r matches Err(e) ==> e == WorkspaceValidationError::InvalidBaseUrl,
{
    let parts = parse_uri_parts(raw);
    check_base_url_parts(parts)
}

/// A required non-blank string field of a metadata object.
pub open spec fn required_string(obj: JsonModel, field: Seq<char>) -> Result<Seq<char>, ValidationModel> {
    match obj.field(field) {
        None => Err(ValidationModel::MissingField(field)),
        Some(v) => match v.as_str() {
            None => Err(ValidationModel::InvalidField(field)),
            Some(s) => if trimmed(s).len() == 0 {
                Err(ValidationModel::InvalidField(field))
            } else {
                Ok(s)
            },
        },
    }
}

/// Read a required non-blank string field of a metadata object.
pub fn read_required_string(obj: &JsonValue, field: &'static str) -> (r: Result<String, WorkspaceValidationError>)
    ensures
        match (r, required_string(obj@, field@)) {
            (Ok(s), Ok(v)) => s@ == v,
            (Err(e), Err(m)) => validation_view(e) == m,
            _ => false,
        },
{
    let value = match obj.get(field) {
        None => return Err(WorkspaceValidationError::MissingField { field }),
        Some(v) => v,
    };
    let s = match value.as_str() {
        None => return Err(WorkspaceValidationError::InvalidField { field }),
        Some(s) => s,
    };
    if is_blank(s.as_str()) {
        return Err(WorkspaceValidationError::InvalidField { field });
    }
    Ok(s.clone())
}

/// Target metadata of a workspace type and metadata blob: non-remote types
/// need nothing; a remote type needs an object with non-blank `instance`
/// and `base_url` strings, the latter an absolute http(s) URL.
pub open spec fn target_spec(kind: Seq<char>, extra: Option<JsonModel>) -> Result<TargetModel, ValidationModel> {
    if kind != "remote"@ {
        Ok(TargetModel::Other)
    } else {
        match extra {
            None => Err(ValidationModel::MissingExtra),
            Some(e) => if !(e is Object) {
                Err(ValidationModel::ExtraNotObject)
            } else {
                match required_string(e, "instance"@) {
                    Err(x) => Err(x),
                    Ok(i) => match required_string(e, "base_url"@) {
                        Err(x) => Err(x),
                        Ok(b) => if base_url_parts_ok(uri_scheme_authority(b)) {
                            Ok(TargetModel::Remote { instance: i, base_url: b })
                        } else {
                            Err(ValidationModel::InvalidBaseUrl)
                        },
                    },
                }
            },
        }
    }
}

/// Parse workspace metadata into validated target semantics.
pub fn parse_workspace_target(kind: &str, extra: Option<&JsonValue>) -> (r: Result<WorkspaceTargetMetadata, WorkspaceValidationError>)
    ensures
        match (r, target_spec(kind@, match extra {
            Some(e) => Some(e@),
            None => None,
        })) {
            (Ok(t), Ok(m)) => target_view(t) == m,
            (Err(e), Err(m)) => validation_view(e) == m,
            _ => false,
        },
{
    if !str_eq(kind, "remote") {
        return Ok(WorkspaceTargetMetadata::Other);
    }
    let extra = match extra {
        None => return Err(WorkspaceValidationError::MissingExtra),
        Some(e) => e,
    };
    match extra {
        JsonValue::Object(_) => {},
        _ => return Err(WorkspaceValidationError::ExtraNotObject),
    }
    let instance = match read_required_string(extra, "instance") {
        Err(e) => return Err(e),
        Ok(s) => s,
    };
    let base_url = match read_required_string(extra, "base_url") {
        Err(e) => return Err(e),
        Ok(s) => s,
    };
    match validate_base_url(base_url.as_str()) {
        Err(e) => return Err(e),
        Ok(()) => {},
    }
    Ok(WorkspaceTargetMetadata::Remote(RemoteWorkspaceTarget { instance, base_url }))
}

/// Map a storage failure of a workspace route: not-found gives 404 with
/// `not found: {entity} {id}`, other failures give 500 with their detail.
pub fn map_workspace_storage_error(err: StorageError) -> (r: HttpError)
    ensures
        match err {
            StorageError::NotFound { entity, id } => r.status_spec() == 404 && r.msg_spec()
                == "not found: "@ + entity@ + " "@ + id@,
            StorageError::Db(m) => r.status_spec() == 500 && r.msg_spec() == m@,
            StorageError::Serde(m) => r.status_spec() == 500 && r.msg_spec() == m@,
        },
{
    HttpError::from_storage_error(err)
}

/// Validate a creation payload and build the row to store; invalid
/// metadata is a 400 with the validation text.
pub fn prepare_create(dto: WorkspaceCreateDto) -> (r: Result<WorkspaceRow, HttpError>)
    ensures
        match r {
            Ok(row) => target_spec(dto.kind@, opt_json(dto.extra)) is Ok && row.kind@ == dto.kind@
                && opt_json(row.extra) == opt_json(dto.extra) && row.project_id == dto.project_id
                && opt_str(row.branch) == opt_str(dto.branch) && opt_str(row.name) == opt_str(dto.name)
                && opt_str(row.directory) == opt_str(dto.directory)
                && (dto.id matches Some(i) ==> row.id == i) && (dto.id is None ==> is_v7_uuid(row.id.0)),
            Err(e) => target_spec(dto.kind@, opt_json(dto.extra)) matches Err(m) && e.status_spec()
                == 400 && e.msg_spec() == validation_text(m),
        },
{
    let checked = match &dto.extra {
        Some(e) => parse_workspace_target(dto.kind.as_str(), Some(e)),
        None => parse_workspace_target(dto.kind.as_str(), None),
    };
    match checked {
        Err(e) => Err(HttpError::bad_request(e.message())),
        Ok(_) => Ok(dto.into_row()),
    }
}

/// Apply a patch to a stored row and validate the result; invalid metadata
/// is a 400 with the validation text.
pub fn prepare_patch(row: WorkspaceRow, dto: WorkspacePatchDto) -> (r: Result<WorkspaceRow, HttpError>)
    ensures
        r is Err <==> target_spec(
            match dto.kind {
                Some(k) => k@,
                None => row@.kind,
            },
            patched_json(row@.extra, dto.extra),
        ) is Err,
        match r {
            Ok(out) => out@.id == row@.id && out@.kind == (match dto.kind {
                Some(k) => k@,
                None => row@.kind,
            }) && out@.extra == patched_json(row@.extra, dto.extra) && out@.branch == patched_str(
                row@.branch,
                dto.branch,
            ) && out@.name == patched_str(row@.name, dto.name) && out@.directory == patched_str(
                row@.directory,
                dto.directory,
            ) && out@.project_id == row@.project_id && target_spec(out@.kind, out@.extra) is Ok,
            Err(e) => target_spec(
                match dto.kind {
                    Some(k) => k@,
                    None => row@.kind,
                },
                patched_json(row@.extra, dto.extra),
            ) matches Err(m) && e.status_spec() == 400 && e.msg_spec() == validation_text(m),
        },
{
    let mut row = row;
    dto.apply(&mut row);
    let checked = match &row.extra {
        Some(e) => parse_workspace_target(row.kind.as_str(), Some(e)),
        None => parse_workspace_target(row.kind.as_str(), None),
    };
    match checked {
        Err(e) => Err(HttpError::bad_request(e.message())),
        Ok(_) => Ok(row),
    }
}

} // verus!
