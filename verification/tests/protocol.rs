//! The request and response vocabulary: every request maps to its
//! operation, and every response carries the variant identity its tag
//! names.

use holochain_client::protocol::{
    request_op, response_tag, AdminOp, AdminRequest, AdminResponse, ResponseTag,
};

#[test]
fn every_request_maps_to_its_operation() {
    assert_eq!(request_op(&AdminRequest::GenerateAgentPubKey), AdminOp::GenerateAgentPubKey);
    assert_eq!(request_op(&AdminRequest::ListAppInterfaces), AdminOp::ListAppInterfaces);
    assert_eq!(
        request_op(&AdminRequest::AttachAppInterface { port: None }),
        AdminOp::AttachAppInterface
    );
    assert_eq!(
        request_op(&AdminRequest::ListApps { status_filter: None }),
        AdminOp::ListApps
    );
    assert_eq!(
        request_op(&AdminRequest::UninstallApp { installed_app_id: "a".to_string() }),
        AdminOp::UninstallApp
    );
    assert_eq!(
        request_op(&AdminRequest::EnableApp { installed_app_id: "a".to_string() }),
        AdminOp::EnableApp
    );
    assert_eq!(
        request_op(&AdminRequest::DisableApp { installed_app_id: "a".to_string() }),
        AdminOp::DisableApp
    );
    assert_eq!(request_op(&AdminRequest::StorageInfo), AdminOp::StorageInfo);
    assert_eq!(request_op(&AdminRequest::DumpNetworkStats), AdminOp::DumpNetworkStats);
}

#[test]
fn every_response_carries_its_variant_identity() {
    assert_eq!(response_tag(&AdminResponse::Error("e".to_string())), ResponseTag::Error);
    assert_eq!(response_tag(&AdminResponse::AppUninstalled), ResponseTag::AppUninstalled);
    assert_eq!(response_tag(&AdminResponse::AppDisabled), ResponseTag::AppDisabled);
    assert_eq!(
        response_tag(&AdminResponse::AppInterfaceAttached { port: 1 }),
        ResponseTag::AppInterfaceAttached
    );
    assert_eq!(
        response_tag(&AdminResponse::NetworkStatsDumped("s".to_string())),
        ResponseTag::NetworkStatsDumped
    );
    assert_eq!(
        response_tag(&AdminResponse::ZomeCallCapabilityGranted),
        ResponseTag::ZomeCallCapabilityGranted
    );
    assert_eq!(response_tag(&AdminResponse::CloneCellDeleted), ResponseTag::CloneCellDeleted);
    assert_eq!(
        response_tag(&AdminResponse::CoordinatorsUpdated),
        ResponseTag::CoordinatorsUpdated
    );
    assert_eq!(response_tag(&AdminResponse::RecordsGrafted), ResponseTag::RecordsGrafted);
}
