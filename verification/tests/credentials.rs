//! Credential issuance: the grant is assigned to exactly the fresh public
//! key, the secret is 64 bytes and byte-identical in grant and
//! credentials, the scope defaults to all functions, and independent
//! calls produce distinct keys and secrets.

use holochain_client::error::ConductorApiError;
use holochain_client::payloads::{
    AuthorizeSigningCredentialsPayload, CapAccess, GrantedFunctions,
};
use holochain_client::signing::{finish_authorize, prepare_signing_credentials};
use holochain_client::types::{AgentPubKey, CellId, DnaHash};

fn request(functions: Option<GrantedFunctions>) -> AuthorizeSigningCredentialsPayload {
    AuthorizeSigningCredentialsPayload {
        cell_id: CellId::new(
            DnaHash::from_raw_32(vec![1; 32]),
            AgentPubKey::from_raw_32(vec![2; 32]),
        ),
        functions,
    }
}

#[test]
fn grant_is_assigned_to_exactly_the_fresh_public_key() {
    let (payload, credentials) = prepare_signing_credentials(request(None));
    match &payload.cap_grant.access {
        CapAccess::Assigned { secret, assignees } => {
            assert_eq!(assignees.len(), 1);
            assert_eq!(assignees[0], credentials.signing_agent_key);
            assert_eq!(secret, &credentials.cap_secret);
        }
        other => panic!("expected an assigned grant, got {:?}", other),
    }
    assert_eq!(payload.cap_grant.tag, "zome-call-signing-key".to_string());
    assert_eq!(payload.cell_id, request(None).cell_id);
    assert_eq!(credentials.cell_id, request(None).cell_id);
}

#[test]
fn capability_secret_is_exactly_64_bytes() {
    let (payload, credentials) = prepare_signing_credentials(request(None));
    assert_eq!(credentials.cap_secret.as_bytes().len(), 64);
    match &payload.cap_grant.access {
        CapAccess::Assigned { secret, .. } => assert_eq!(secret.as_bytes().len(), 64),
        other => panic!("expected an assigned grant, got {:?}", other),
    }
}

#[test]
fn public_key_is_the_keypair_verifying_key() {
    let (_, credentials) = prepare_signing_credentials(request(None));
    assert_eq!(credentials.signing_agent_key.as_bytes().len(), 32);
    assert_eq!(
        credentials.signing_agent_key.as_bytes(),
        &credentials.keypair.verifying_key().as_bytes().to_vec()
    );
}

#[test]
fn scope_defaults_to_all_functions_and_keeps_an_explicit_list() {
    let (payload, _) = prepare_signing_credentials(request(None));
    assert_eq!(payload.cap_grant.functions, GrantedFunctions::All);

    let listed = GrantedFunctions::Listed(vec![("zome".to_string(), "fun".to_string())]);
    let (payload, _) = prepare_signing_credentials(request(Some(listed.clone())));
    assert_eq!(payload.cap_grant.functions, listed);
}

#[test]
fn independent_calls_produce_distinct_keys_and_secrets() {
    let (_, first) = prepare_signing_credentials(request(None));
    let (_, second) = prepare_signing_credentials(request(None));
    assert_ne!(first.signing_agent_key, second.signing_agent_key);
    assert_ne!(first.cap_secret, second.cap_secret);
}

#[test]
fn issuance_propagates_the_grant_error_untouched() {
    let (_, credentials) = prepare_signing_credentials(request(None));
    let err = ConductorApiError::HostReportedError("no cell found".to_string());
    match finish_authorize(Err(err.clone()), credentials) {
        Err(e) => assert_eq!(e, err),
        Ok(_) => panic!("an issuance whose grant failed must not return credentials"),
    }
}

#[test]
fn issuance_returns_the_credentials_once_the_grant_is_acknowledged() {
    let (_, credentials) = prepare_signing_credentials(request(None));
    let expected_key = credentials.signing_agent_key.clone();
    let issued = finish_authorize(Ok(()), credentials).unwrap();
    assert_eq!(issued.signing_agent_key, expected_key);
}
