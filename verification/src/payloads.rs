//! Typed inputs and outputs of the administrative operations.

use vstd::prelude::*;
use crate::types::{AgentPubKey, CapSecret, CellId, DnaHash};

verus! {

/// Filter for listing installed applications by status.
#[derive(Clone, Copy, Debug, PartialEq, Eq, Structural)]
pub enum AppStatusFilter {
    Enabled,
    Disabled,
    Running,
    Stopped,
    Paused,
}

/// Status of an installed application as the host reports it.
#[derive(Clone, Copy, Debug, PartialEq, Eq, Structural)]
pub enum AppStatus {
    Running,
    Disabled,
    Paused,
}

/// Summary of one installed application.
#[derive(Clone, Debug, PartialEq, Eq)]
pub struct AppInfo {
    pub installed_app_id: String,
    pub agent_pub_key: AgentPubKey,
    pub status: AppStatus,
}

/// Where an application bundle comes from: a path on the host's disk or
/// the bundle bytes themselves.
#[derive(Clone, Debug, PartialEq, Eq)]
pub enum AppBundleSource {
    Path(String),
    Bundle(Vec<u8>),
}

/// Input to the install operation.
#[derive(Clone, Debug, PartialEq, Eq)]
pub struct InstallAppPayload {
    pub source: AppBundleSource,
    pub agent_key: AgentPubKey,
    pub installed_app_id: Option<String>,
    pub membrane_proofs: Vec<(String, Vec<u8>)>,
    pub network_seed: Option<String>,
}

/// Definition record of one application blueprint.
#[derive(Clone, Debug, PartialEq, Eq)]
pub struct DnaDef {
    pub name: String,
    pub network_seed: String,
    pub integrity_zomes: Vec<String>,
    pub coordinator_zomes: Vec<String>,
}

/// One record to graft into a cell's history: a signed action and its
/// optional entry, both held as encoded bytes.
#[derive(Clone, Debug, PartialEq, Eq)]
pub struct Record {
    pub signed_action: Vec<u8>,
    pub entry: Option<Vec<u8>>,
}

/// Storage used by the cells of one blueprint.
#[derive(Clone, Debug, PartialEq, Eq)]
pub struct DnaStorageInfo {
    pub used_by: Vec<String>,
    pub authored_data_size: u64,
    pub dht_data_size: u64,
    pub cache_data_size: u64,
}

/// One blob of the host's storage report.
#[derive(Clone, Debug, PartialEq, Eq)]
pub enum StorageBlob {
    Dna(DnaStorageInfo),
}

/// The host's storage usage report.
#[derive(Clone, Debug, PartialEq, Eq)]
pub struct StorageInfo {
    pub blobs: Vec<StorageBlob>,
}

/// Selects a variant ("clone") cell either by its clone selector within
/// the application or by its full cell identity.
#[derive(Clone, Debug, PartialEq, Eq)]
pub enum CloneCellId {
    CloneId(String),
    CellId(CellId),
}

/// Input to the delete-clone-cell operation.
#[derive(Clone, Debug, PartialEq, Eq)]
pub struct DeleteCloneCellPayload {
    pub app_id: String,
    pub clone_cell_id: CloneCellId,
}

/// Where replacement coordinator logic comes from.
#[derive(Clone, Debug, PartialEq, Eq)]
pub enum CoordinatorSource {
    Path(String),
    Bundle(Vec<u8>),
}

/// Input to the update-coordinators operation.
#[derive(Clone, Debug, PartialEq, Eq)]
pub struct UpdateCoordinatorsPayload {
    pub dna_hash: DnaHash,
    pub source: CoordinatorSource,
}

/// Function scope of a capability grant: every function, or an explicit
/// list of (zome name, function name) pairs.
#[derive(Clone, Debug, PartialEq, Eq)]
pub enum GrantedFunctions {
    All,
    Listed(Vec<(String, String)>),
}

/// Access policy of a capability grant.
#[derive(Clone, Debug, PartialEq, Eq)]
pub enum CapAccess {
    /// Any caller may exercise the grant.
    Unrestricted,
    /// Any caller holding the secret may exercise the grant.
    Transferable { secret: CapSecret },
    /// Only callers holding the secret and whose declared identity is in
    /// the assignee set may exercise the grant.
    Assigned { secret: CapSecret, assignees: Vec<AgentPubKey> },
}

/// A capability grant as submitted to the host.
#[derive(Clone, Debug, PartialEq, Eq)]
pub struct ZomeCallCapGrant {
    pub tag: String,
    pub access: CapAccess,
    pub functions: GrantedFunctions,
}

/// Input to the grant operation.
#[derive(Clone, Debug, PartialEq, Eq)]
pub struct GrantZomeCallCapabilityPayload {
    pub cell_id: CellId,
    pub cap_grant: ZomeCallCapGrant,
}

/// Result of enabling an application: its summary plus one startup error
/// message per cell that failed to start.
#[derive(Clone, Debug, PartialEq, Eq)]
pub struct EnableAppResponse {
    pub app: AppInfo,
    pub errors: Vec<(CellId, String)>,
}

/// Input to credential issuance: the cell the grant applies to and the
/// optional function scope (every function when absent).
#[derive(Clone, Debug, PartialEq, Eq)]
pub struct AuthorizeSigningCredentialsPayload {
    pub cell_id: CellId,
    pub functions: Option<GrantedFunctions>,
}

} // verus!
