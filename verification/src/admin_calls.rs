//! Decoding of responses, one function per administrative operation.
//!
//! Every decoder follows the same contract: the payload of the one
//! response variant the operation accepts is returned unchanged; the
//! host's error variant becomes [`ConductorApiError::HostReportedError`]
//! with the message verbatim; every other variant becomes
//! [`ConductorApiError::ProtocolViolation`]. Success happens exactly when
//! the response carries the operation's expected tag, so a response can
//! never be silently misread as answering a different request.

use vstd::prelude::*;
use crate::error::{violation, ConductorApiError, ConductorApiResult};
use crate::payloads::{AppInfo, DnaDef, EnableAppResponse, StorageInfo};
use crate::protocol::{expected_tag, tag_of, AdminOp, AdminResponse};
use crate::types::AgentPubKey;

verus! {

/// Decodes the response to the generate-agent-identity-key operation.
pub fn decode_generate_agent_pub_key(resp: AdminResponse) -> (r: ConductorApiResult<AgentPubKey>)
    ensures
        r is Ok <==> tag_of(resp) == expected_tag(AdminOp::GenerateAgentPubKey),
        resp matches AdminResponse::AgentPubKeyGenerated(key) ==> r == Ok::<_, ConductorApiError>(key),
        resp matches AdminResponse::Error(message) ==> r == Err::<AgentPubKey, _>(
            ConductorApiError::HostReportedError(message),
        ),
        resp !is AgentPubKeyGenerated && resp !is Error ==> r == Err::<AgentPubKey, _>(
            violation(AdminOp::GenerateAgentPubKey, resp),
        ),
{
    match resp {
        AdminResponse::AgentPubKeyGenerated(key) => Ok(key),
        AdminResponse::Error(message) => Err(ConductorApiError::HostReportedError(message)),
        other => Err(crate::error::protocol_violation(AdminOp::GenerateAgentPubKey, &other)),
    }
}

/// Decodes the response to the list-attached-interface-ports operation.
pub fn decode_list_app_interfaces(resp: AdminResponse) -> (r: ConductorApiResult<Vec<u16>>)
    ensures
        r is Ok <==> tag_of(resp) == expected_tag(AdminOp::ListAppInterfaces),
        resp matches AdminResponse::AppInterfacesListed(ports) ==> r == Ok::<_, ConductorApiError>(
            ports,
        ),
        resp matches AdminResponse::Error(message) ==> r == Err::<Vec<u16>, _>(
            ConductorApiError::HostReportedError(message),
        ),
        resp !is AppInterfacesListed && resp !is Error ==> r == Err::<Vec<u16>, _>(
            violation(AdminOp::ListAppInterfaces, resp),
        ),
{
    match resp {
        AdminResponse::AppInterfacesListed(ports) => Ok(ports),
        AdminResponse::Error(message) => Err(ConductorApiError::HostReportedError(message)),
        other => Err(crate::error::protocol_violation(AdminOp::ListAppInterfaces, &other)),
    }
}

/// Decodes the response to the attach-application-interface operation:
/// the port the host actually bound.
pub fn decode_attach_app_interface(resp: AdminResponse) -> (r: ConductorApiResult<u16>)
    ensures
        r is Ok <==> tag_of(resp) == expected_tag(AdminOp::AttachAppInterface),
        resp matches AdminResponse::AppInterfaceAttached { port } ==> r == Ok::<_, ConductorApiError>(
            port,
        ),
        resp matches AdminResponse::Error(message) ==> r == Err::<u16, _>(
            ConductorApiError::HostReportedError(message),
        ),
        resp !is AppInterfaceAttached && resp !is Error ==> r == Err::<u16, _>(
            violation(AdminOp::AttachAppInterface, resp),
        ),
{
    match resp {
        AdminResponse::AppInterfaceAttached { port } => Ok(port),
        AdminResponse::Error(message) => Err(ConductorApiError::HostReportedError(message)),
        other => Err(crate::error::protocol_violation(AdminOp::AttachAppInterface, &other)),
    }
}

/// Decodes the response to the list-installed-applications operation.
pub fn decode_list_apps(resp: AdminResponse) -> (r: ConductorApiResult<Vec<AppInfo>>)
    ensures
        r is Ok <==> tag_of(resp) == expected_tag(AdminOp::ListApps),
        resp matches AdminResponse::AppsListed(infos) ==> r == Ok::<_, ConductorApiError>(infos),
        resp matches AdminResponse::Error(message) ==> r == Err::<Vec<AppInfo>, _>(
            ConductorApiError::HostReportedError(message),
        ),
        resp !is AppsListed && resp !is Error ==> r == Err::<Vec<AppInfo>, _>(
            violation(AdminOp::ListApps, resp),
        ),
{
    match resp {
        AdminResponse::AppsListed(infos) => Ok(infos),
        AdminResponse::Error(message) => Err(ConductorApiError::HostReportedError(message)),
        other => Err(crate::error::protocol_violation(AdminOp::ListApps, &other)),
    }
}

/// Decodes the response to the install-application operation.
pub fn decode_install_app(resp: AdminResponse) -> (r: ConductorApiResult<AppInfo>)
    ensures
        r is Ok <==> tag_of(resp) == expected_tag(AdminOp::InstallApp),
        resp matches AdminResponse::AppInstalled(info) ==> r == Ok::<_, ConductorApiError>(info),
        resp matches AdminResponse::Error(message) ==> r == Err::<AppInfo, _>(
            ConductorApiError::HostReportedError(message),
        ),
        resp !is AppInstalled && resp !is Error ==> r == Err::<AppInfo, _>(
            violation(AdminOp::InstallApp, resp),
        ),
{
    match resp {
        AdminResponse::AppInstalled(info) => Ok(info),
        AdminResponse::Error(message) => Err(ConductorApiError::HostReportedError(message)),
        other => Err(crate::error::protocol_violation(AdminOp::InstallApp, &other)),
    }
}

/// Decodes the response to the uninstall-application operation.
pub fn decode_uninstall_app(resp: AdminResponse) -> (r: ConductorApiResult<()>)
    ensures
        r is Ok <==> tag_of(resp) == expected_tag(AdminOp::UninstallApp),
        resp is AppUninstalled ==> r == Ok::<_, ConductorApiError>(()),
        resp matches AdminResponse::Error(message) ==> r == Err::<(), _>(
            ConductorApiError::HostReportedError(message),
        ),
        resp !is AppUninstalled && resp !is Error ==> r == Err::<(), _>(
            violation(AdminOp::UninstallApp, resp),
        ),
{
    match resp {
        AdminResponse::AppUninstalled => Ok(()),
        AdminResponse::Error(message) => Err(ConductorApiError::HostReportedError(message)),
        other => Err(crate::error::protocol_violation(AdminOp::UninstallApp, &other)),
    }
}

/// Decodes the response to the enable-application operation: the
/// application's summary plus one startup error entry per cell that
/// failed to start.
pub fn decode_enable_app(resp: AdminResponse) -> (r: ConductorApiResult<EnableAppResponse>)
    ensures
        r is Ok <==> tag_of(resp) == expected_tag(AdminOp::EnableApp),
        resp matches AdminResponse::AppEnabled { app, errors } ==> r == Ok::<_, ConductorApiError>(
            (EnableAppResponse { app, errors }),
        ),
        resp matches AdminResponse::Error(message) ==> r == Err::<EnableAppResponse, _>(
            ConductorApiError::HostReportedError(message),
        ),
        resp !is AppEnabled && resp !is Error ==> r == Err::<EnableAppResponse, _>(
            violation(AdminOp::EnableApp, resp),
        ),
{
    match resp {
        AdminResponse::AppEnabled { app, errors } => Ok(EnableAppResponse { app, errors }),
        AdminResponse::Error(message) => Err(ConductorApiError::HostReportedError(message)),
        other => Err(crate::error::protocol_violation(AdminOp::EnableApp, &other)),
    }
}

/// Decodes the response to the disable-application operation.
pub fn decode_disable_app(resp: AdminResponse) -> (r: ConductorApiResult<()>)
    ensures
        r is Ok <==> tag_of(resp) == expected_tag(AdminOp::DisableApp),
        resp is AppDisabled ==> r == Ok::<_, ConductorApiError>(()),
        resp matches AdminResponse::Error(message) ==> r == Err::<(), _>(
            ConductorApiError::HostReportedError(message),
        ),
        resp !is AppDisabled && resp !is Error ==> r == Err::<(), _>(
            violation(AdminOp::DisableApp, resp),
        ),
{
    match resp {
        AdminResponse::AppDisabled => Ok(()),
        AdminResponse::Error(message) => Err(ConductorApiError::HostReportedError(message)),
        other => Err(crate::error::protocol_violation(AdminOp::DisableApp, &other)),
    }
}

/// Decodes the response to the fetch-blueprint-definition operation.
pub fn decode_get_dna_definition(resp: AdminResponse) -> (r: ConductorApiResult<DnaDef>)
    ensures
        r is Ok <==> tag_of(resp) == expected_tag(AdminOp::GetDnaDefinition),
        resp matches AdminResponse::DnaDefinitionReturned(def) ==> r == Ok::<_, ConductorApiError>(
            def,
        ),
        resp matches AdminResponse::Error(message) ==> r == Err::<DnaDef, _>(
            ConductorApiError::HostReportedError(message),
        ),
        resp !is DnaDefinitionReturned && resp !is Error ==> r == Err::<DnaDef, _>(
            violation(AdminOp::GetDnaDefinition, resp),
        ),
{
    match resp {
        AdminResponse::DnaDefinitionReturned(def) => Ok(def),
        AdminResponse::Error(message) => Err(ConductorApiError::HostReportedError(message)),
        other => Err(crate::error::protocol_violation(AdminOp::GetDnaDefinition, &other)),
    }
}

/// Decodes the response to the grant-capability operation.
pub fn decode_grant_zome_call_capability(resp: AdminResponse) -> (r: ConductorApiResult<()>)
    ensures
        r is Ok <==> tag_of(resp) == expected_tag(AdminOp::GrantZomeCallCapability),
        resp is ZomeCallCapabilityGranted ==> r == Ok::<_, ConductorApiError>(()),
        resp matches AdminResponse::Error(message) ==> r == Err::<(), _>(
            ConductorApiError::HostReportedError(message),
        ),
        resp !is ZomeCallCapabilityGranted && resp !is Error ==> r == Err::<(), _>(
            violation(AdminOp::GrantZomeCallCapability, resp),
        ),
{
    match resp {
        AdminResponse::ZomeCallCapabilityGranted => Ok(()),
        AdminResponse::Error(message) => Err(ConductorApiError::HostReportedError(message)),
        other => Err(crate::error::protocol_violation(AdminOp::GrantZomeCallCapability, &other)),
    }
}

/// Decodes the response to the delete-clone-cell operation.
pub fn decode_delete_clone_cell(resp: AdminResponse) -> (r: ConductorApiResult<()>)
    ensures
        r is Ok <==> tag_of(resp) == expected_tag(AdminOp::DeleteCloneCell),
        resp is CloneCellDeleted ==> r == Ok::<_, ConductorApiError>(()),
        resp matches AdminResponse::Error(message) ==> r == Err::<(), _>(
            ConductorApiError::HostReportedError(message),
        ),
        resp !is CloneCellDeleted && resp !is Error ==> r == Err::<(), _>(
            violation(AdminOp::DeleteCloneCell, resp),
        ),
{
    match resp {
        AdminResponse::CloneCellDeleted => Ok(()),
        AdminResponse::Error(message) => Err(ConductorApiError::HostReportedError(message)),
        other => Err(crate::error::protocol_violation(AdminOp::DeleteCloneCell, &other)),
    }
}

/// Decodes the response to the query-storage-usage operation.
pub fn decode_storage_info(resp: AdminResponse) -> (r: ConductorApiResult<StorageInfo>)
    ensures
        r is Ok <==> tag_of(resp) == expected_tag(AdminOp::StorageInfo),
        resp matches AdminResponse::StorageInfo(info) ==> r == Ok::<_, ConductorApiError>(info),
        resp matches AdminResponse::Error(message) ==> r == Err::<StorageInfo, _>(
            ConductorApiError::HostReportedError(message),
        ),
        resp !is StorageInfo && resp !is Error ==> r == Err::<StorageInfo, _>(
            violation(AdminOp::StorageInfo, resp),
        ),
{
    match resp {
        AdminResponse::StorageInfo(info) => Ok(info),
        AdminResponse::Error(message) => Err(ConductorApiError::HostReportedError(message)),
        other => Err(crate::error::protocol_violation(AdminOp::StorageInfo, &other)),
    }
}

/// Decodes the response to the dump-network-statistics operation.
pub fn decode_dump_network_stats(resp: AdminResponse) -> (r: ConductorApiResult<String>)
    ensures
        r is Ok <==> tag_of(resp) == expected_tag(AdminOp::DumpNetworkStats),
        resp matches AdminResponse::NetworkStatsDumped(stats) ==> r == Ok::<_, ConductorApiError>(
            stats,
        ),
        resp matches AdminResponse::Error(message) ==> r == Err::<String, _>(
            ConductorApiError::HostReportedError(message),
        ),
        resp !is NetworkStatsDumped && resp !is Error ==> r == Err::<String, _>(
            violation(AdminOp::DumpNetworkStats, resp),
        ),
{
    match resp {
        AdminResponse::NetworkStatsDumped(stats) => Ok(stats),
        AdminResponse::Error(message) => Err(ConductorApiError::HostReportedError(message)),
        other => Err(crate::error::protocol_violation(AdminOp::DumpNetworkStats, &other)),
    }
}

/// Decodes the response to the update-coordinators operation.
pub fn decode_update_coordinators(resp: AdminResponse) -> (r: ConductorApiResult<()>)
    ensures
        r is Ok <==> tag_of(resp) == expected_tag(AdminOp::UpdateCoordinators),
        resp is CoordinatorsUpdated ==> r == Ok::<_, ConductorApiError>(()),
        resp matches AdminResponse::Error(message) ==> r == Err::<(), _>(
            ConductorApiError::HostReportedError(message),
        ),
        resp !is CoordinatorsUpdated && resp !is Error ==> r == Err::<(), _>(
            violation(AdminOp::UpdateCoordinators, resp),
        ),
{
    match resp {
        AdminResponse::CoordinatorsUpdated => Ok(()),
        AdminResponse::Error(message) => Err(ConductorApiError::HostReportedError(message)),
        other => Err(crate::error::protocol_violation(AdminOp::UpdateCoordinators, &other)),
    }
}

/// Decodes the response to the graft-records operation.
pub fn decode_graft_records(resp: AdminResponse) -> (r: ConductorApiResult<()>)
    ensures
        r is Ok <==> tag_of(resp) == expected_tag(AdminOp::GraftRecords),
        resp is RecordsGrafted ==> r == Ok::<_, ConductorApiError>(()),
        resp matches AdminResponse::Error(message) ==> r == Err::<(), _>(
            ConductorApiError::HostReportedError(message),
        ),
        resp !is RecordsGrafted && resp !is Error ==> r == Err::<(), _>(
            violation(AdminOp::GraftRecords, resp),
        ),
{
    match resp {
        AdminResponse::RecordsGrafted => Ok(()),
        AdminResponse::Error(message) => Err(ConductorApiError::HostReportedError(message)),
        other => Err(crate::error::protocol_violation(AdminOp::GraftRecords, &other)),
    }
}

} // verus!
