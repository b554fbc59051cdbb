//! The administrative wire protocol: one closed tagged union of requests,
//! one closed tagged union of responses, and the operation and tag
//! vocabulary the decoders' contracts speak of.

use vstd::prelude::*;
use crate::payloads::{
    AppInfo, AppStatusFilter, DeleteCloneCellPayload, DnaDef, GrantZomeCallCapabilityPayload,
    InstallAppPayload, Record, StorageInfo, UpdateCoordinatorsPayload,
};
use crate::types::{AgentPubKey, CellId, DnaHash};

verus! {

/// One administrative operation. Identifies, in errors and contracts,
/// which request a response was held against.
#[derive(Clone, Copy, Debug, PartialEq, Eq, Structural)]
pub enum AdminOp {
    GenerateAgentPubKey,
    ListAppInterfaces,
    AttachAppInterface,
    ListApps,
    InstallApp,
    UninstallApp,
    EnableApp,
    DisableApp,
    GetDnaDefinition,
    GrantZomeCallCapability,
    DeleteCloneCell,
    StorageInfo,
    DumpNetworkStats,
    UpdateCoordinators,
    GraftRecords,
}

/// A request frame: one variant per administrative operation, each
/// carrying only the fields that operation needs.
#[derive(Clone, Debug, PartialEq, Eq)]
pub enum AdminRequest {
    GenerateAgentPubKey,
    ListAppInterfaces,
    AttachAppInterface { port: Option<u16> },
    ListApps { status_filter: Option<AppStatusFilter> },
    InstallApp(InstallAppPayload),
    UninstallApp { installed_app_id: String },
    EnableApp { installed_app_id: String },
    DisableApp { installed_app_id: String },
    GetDnaDefinition(DnaHash),
    GrantZomeCallCapability(GrantZomeCallCapabilityPayload),
    DeleteCloneCell(DeleteCloneCellPayload),
    StorageInfo,
    DumpNetworkStats,
    UpdateCoordinators(UpdateCoordinatorsPayload),
    GraftRecords { cell_id: CellId, validate: bool, records: Vec<Record> },
}

/// A response frame: one success variant per operation, plus the one
/// cross-cutting error variant carrying the host's diagnostic message.
#[derive(Clone, Debug, PartialEq, Eq)]
pub enum AdminResponse {
    Error(String),
    AgentPubKeyGenerated(AgentPubKey),
    AppInterfacesListed(Vec<u16>),
    AppInterfaceAttached { port: u16 },
    AppsListed(Vec<AppInfo>),
    AppInstalled(AppInfo),
    AppUninstalled,
    AppEnabled { app: AppInfo, errors: Vec<(CellId, String)> },
    AppDisabled,
    DnaDefinitionReturned(DnaDef),
    ZomeCallCapabilityGranted,
    CloneCellDeleted,
    StorageInfo(StorageInfo),
    NetworkStatsDumped(String),
    CoordinatorsUpdated,
    RecordsGrafted,
}

/// The variant identity of a response, without its payload.
#[derive(Clone, Copy, Debug, PartialEq, Eq, Structural)]
pub enum ResponseTag {
    Error,
    AgentPubKeyGenerated,
    AppInterfacesListed,
    AppInterfaceAttached,
    AppsListed,
    AppInstalled,
    AppUninstalled,
    AppEnabled,
    AppDisabled,
    DnaDefinitionReturned,
    ZomeCallCapabilityGranted,
    CloneCellDeleted,
    StorageInfo,
    NetworkStatsDumped,
    CoordinatorsUpdated,
    RecordsGrafted,
}

/// The variant identity of a response.
pub open spec fn tag_of(resp: AdminResponse) -> ResponseTag {
    match resp {
        AdminResponse::Error(..) => ResponseTag::Error,
        AdminResponse::AgentPubKeyGenerated(..) => ResponseTag::AgentPubKeyGenerated,
        AdminResponse::AppInterfacesListed(..) => ResponseTag::AppInterfacesListed,
        AdminResponse::AppInterfaceAttached { .. } => ResponseTag::AppInterfaceAttached,
        AdminResponse::AppsListed(..) => ResponseTag::AppsListed,
        AdminResponse::AppInstalled(..) => ResponseTag::AppInstalled,
        AdminResponse::AppUninstalled => ResponseTag::AppUninstalled,
        AdminResponse::AppEnabled { .. } => ResponseTag::AppEnabled,
        AdminResponse::AppDisabled => ResponseTag::AppDisabled,
        AdminResponse::DnaDefinitionReturned(..) => ResponseTag::DnaDefinitionReturned,
        AdminResponse::ZomeCallCapabilityGranted => ResponseTag::ZomeCallCapabilityGranted,
        AdminResponse::CloneCellDeleted => ResponseTag::CloneCellDeleted,
        AdminResponse::StorageInfo(..) => ResponseTag::StorageInfo,
        AdminResponse::NetworkStatsDumped(..) => ResponseTag::NetworkStatsDumped,
        AdminResponse::CoordinatorsUpdated => ResponseTag::CoordinatorsUpdated,
        AdminResponse::RecordsGrafted => ResponseTag::RecordsGrafted,
    }
}

/// The variant identity of a response, computed.
pub fn response_tag(resp: &AdminResponse) -> (r: ResponseTag)
    ensures
        r == tag_of(*resp),
{
    match resp {
        AdminResponse::Error(..) => ResponseTag::Error,
        AdminResponse::AgentPubKeyGenerated(..) => ResponseTag::AgentPubKeyGenerated,
        AdminResponse::AppInterfacesListed(..) => ResponseTag::AppInterfacesListed,
        AdminResponse::AppInterfaceAttached { .. } => ResponseTag::AppInterfaceAttached,
        AdminResponse::AppsListed(..) => ResponseTag::AppsListed,
        AdminResponse::AppInstalled(..) => ResponseTag::AppInstalled,
        AdminResponse::AppUninstalled => ResponseTag::AppUninstalled,
        AdminResponse::AppEnabled { .. } => ResponseTag::AppEnabled,
        AdminResponse::AppDisabled => ResponseTag::AppDisabled,
        AdminResponse::DnaDefinitionReturned(..) => ResponseTag::DnaDefinitionReturned,
        AdminResponse::ZomeCallCapabilityGranted => ResponseTag::ZomeCallCapabilityGranted,
        AdminResponse::CloneCellDeleted => ResponseTag::CloneCellDeleted,
        AdminResponse::StorageInfo(..) => ResponseTag::StorageInfo,
        AdminResponse::NetworkStatsDumped(..) => ResponseTag::NetworkStatsDumped,
        AdminResponse::CoordinatorsUpdated => ResponseTag::CoordinatorsUpdated,
        AdminResponse::RecordsGrafted => ResponseTag::RecordsGrafted,
    }
}

/// The operation a request frame belongs to.
pub open spec fn op_of(req: AdminRequest) -> AdminOp {
    match req {
        AdminRequest::GenerateAgentPubKey => AdminOp::GenerateAgentPubKey,
        AdminRequest::ListAppInterfaces => AdminOp::ListAppInterfaces,
        AdminRequest::AttachAppInterface { .. } => AdminOp::AttachAppInterface,
        AdminRequest::ListApps { .. } => AdminOp::ListApps,
        AdminRequest::InstallApp(..) => AdminOp::InstallApp,
        AdminRequest::UninstallApp { .. } => AdminOp::UninstallApp,
        AdminRequest::EnableApp { .. } => AdminOp::EnableApp,
        AdminRequest::DisableApp { .. } => AdminOp::DisableApp,
        AdminRequest::GetDnaDefinition(..) => AdminOp::GetDnaDefinition,
        AdminRequest::GrantZomeCallCapability(..) => AdminOp::GrantZomeCallCapability,
        AdminRequest::DeleteCloneCell(..) => AdminOp::DeleteCloneCell,
        AdminRequest::StorageInfo => AdminOp::StorageInfo,
        AdminRequest::DumpNetworkStats => AdminOp::DumpNetworkStats,
        AdminRequest::UpdateCoordinators(..) => AdminOp::UpdateCoordinators,
        AdminRequest::GraftRecords { .. } => AdminOp::GraftRecords,
    }
}

/// The operation a request frame belongs to, computed.
pub fn request_op(req: &AdminRequest) -> (r: AdminOp)
    ensures
        r == op_of(*req),
{
    match req {
        AdminRequest::GenerateAgentPubKey => AdminOp::GenerateAgentPubKey,
        AdminRequest::ListAppInterfaces => AdminOp::ListAppInterfaces,
        AdminRequest::AttachAppInterface { .. } => AdminOp::AttachAppInterface,
        AdminRequest::ListApps { .. } => AdminOp::ListApps,
        AdminRequest::InstallApp(..) => AdminOp::InstallApp,
        AdminRequest::UninstallApp { .. } => AdminOp::UninstallApp,
        AdminRequest::EnableApp { .. } => AdminOp::EnableApp,
        AdminRequest::DisableApp { .. } => AdminOp::DisableApp,
        AdminRequest::GetDnaDefinition(..) => AdminOp::GetDnaDefinition,
        AdminRequest::GrantZomeCallCapability(..) => AdminOp::GrantZomeCallCapability,
        AdminRequest::DeleteCloneCell(..) => AdminOp::DeleteCloneCell,
        AdminRequest::StorageInfo => AdminOp::StorageInfo,
        AdminRequest::DumpNetworkStats => AdminOp::DumpNetworkStats,
        AdminRequest::UpdateCoordinators(..) => AdminOp::UpdateCoordinators,
        AdminRequest::GraftRecords { .. } => AdminOp::GraftRecords,
    }
}

/// The one response variant that answers each operation's request.
pub open spec fn expected_tag(op: AdminOp) -> ResponseTag {
    match op {
        AdminOp::GenerateAgentPubKey => ResponseTag::AgentPubKeyGenerated,
        AdminOp::ListAppInterfaces => ResponseTag::AppInterfacesListed,
        AdminOp::AttachAppInterface => ResponseTag::AppInterfaceAttached,
        AdminOp::ListApps => ResponseTag::AppsListed,
        AdminOp::InstallApp => ResponseTag::AppInstalled,
        AdminOp::UninstallApp => ResponseTag::AppUninstalled,
        AdminOp::EnableApp => ResponseTag::AppEnabled,
        AdminOp::DisableApp => ResponseTag::AppDisabled,
        AdminOp::GetDnaDefinition => ResponseTag::DnaDefinitionReturned,
        AdminOp::GrantZomeCallCapability => ResponseTag::ZomeCallCapabilityGranted,
        AdminOp::DeleteCloneCell => ResponseTag::CloneCellDeleted,
        AdminOp::StorageInfo => ResponseTag::StorageInfo,
        AdminOp::DumpNetworkStats => ResponseTag::NetworkStatsDumped,
        AdminOp::UpdateCoordinators => ResponseTag::CoordinatorsUpdated,
        AdminOp::GraftRecords => ResponseTag::RecordsGrafted,
    }
}

/// No two operations accept the same response variant, and no operation
/// accepts the error variant: a response that one operation accepts can
/// never be silently misread as answering another.
pub proof fn lemma_expected_tags_distinct(op1: AdminOp, op2: AdminOp)
    ensures
        expected_tag(op1) == expected_tag(op2) ==> op1 == op2,
        expected_tag(op1) != ResponseTag::Error,
{
}

/// A response's variant identity is the sole means of knowing which
/// request it answers, and it suffices: two requests whose operations
/// both accept the same response belong to the same operation.
pub proof fn lemma_response_identifies_request(
    req1: AdminRequest,
    req2: AdminRequest,
    resp: AdminResponse,
)
    requires
        tag_of(resp) == expected_tag(op_of(req1)),
        tag_of(resp) == expected_tag(op_of(req2)),
    ensures
        op_of(req1) == op_of(req2),
{
    lemma_expected_tags_distinct(op_of(req1), op_of(req2));
}

} // verus!
