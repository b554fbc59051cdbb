//! Issuance of scoped signing credentials: a fresh keypair and a fresh
//! capability secret, wrapped in a grant assigned to that keypair alone.

use vstd::prelude::*;
use rand::RngCore;
use crate::error::{ConductorApiError, ConductorApiResult};
use crate::payloads::{
    AuthorizeSigningCredentialsPayload, CapAccess, GrantZomeCallCapabilityPayload,
    GrantedFunctions, ZomeCallCapGrant,
};
use crate::types::{AgentPubKey, CapSecret, CellId, AGENT_PUB_KEY_BYTES, CAP_SECRET_BYTES};

verus! {

/// An asymmetric signing keypair of the `ed25519_dalek` crate, opaque
/// here; only its derived public key bytes enter the protocol.
#[verifier::external_type_specification]
#[verifier::external_body]
pub struct ExSigningKey(ed25519_dalek::SigningKey);

/// Relies on ed25519_dalek::SigningKey::generate with the operating
/// system's secure random source: nothing can be promised of a fresh
/// random keypair.
#[verifier::external_body]
fn generate_signing_key() -> ed25519_dalek::SigningKey {
    ed25519_dalek::SigningKey::generate(&mut rand::rngs::OsRng)
}

/// Relies on ed25519_dalek::SigningKey::verifying_key and
/// VerifyingKey::as_bytes: the public key of a keypair is exactly 32
/// bytes.
#[verifier::external_body]
fn verifying_key_bytes(keypair: &ed25519_dalek::SigningKey) -> (r: Vec<u8>)
    ensures
        r@.len() == AGENT_PUB_KEY_BYTES,
{
    keypair.verifying_key().as_bytes().to_vec()
}

/// Relies on rand::rngs::OsRng::fill_bytes: it fills the buffer from the
/// operating system's secure random source; nothing can be promised of
/// the bytes but their number.
#[verifier::external_body]
fn random_cap_secret_bytes() -> (r: Vec<u8>)
    ensures
        r@.len() == CAP_SECRET_BYTES,
{
    let mut buf = [0u8; 64];
    rand::rngs::OsRng.fill_bytes(&mut buf);
    buf.to_vec()
}

/// Credentials for signing calls against one cell: the freshly generated
/// keypair, its public key wrapped as the host's agent-identity type, the
/// fresh capability secret, and the cell the grant applies to. The host
/// retains only the public key and the secret, never the private key.
pub struct SigningCredentials {
    pub signing_agent_key: AgentPubKey,
    pub keypair: ed25519_dalek::SigningKey,
    pub cap_secret: CapSecret,
    pub cell_id: CellId,
}

/// Builds fresh signing credentials and the capability grant to submit
/// for them: the grant's access is assigned, its sole assignee is the
/// credentials' public key, its secret is byte-identical to the
/// credentials' secret, and its function scope is the caller's, or every
/// function when none was given.
pub fn prepare_signing_credentials(request: AuthorizeSigningCredentialsPayload) -> (r: (
    GrantZomeCallCapabilityPayload,
    SigningCredentials,
))
    ensures
        r.0.cap_grant.access matches CapAccess::Assigned { secret, assignees } && assignees@.len()
            == 1 && assignees@[0]@ == r.1.signing_agent_key@ && secret@ == r.1.cap_secret@,
        r.1.signing_agent_key.wf(),
        r.1.cap_secret.wf(),
        r.0.cell_id == request.cell_id,
        r.1.cell_id@ == request.cell_id@,
        r.0.cap_grant.functions == (match request.functions {
            Some(f) => f,
            None => GrantedFunctions::All,
        }),
        r.0.cap_grant.tag@ == "zome-call-signing-key"@,
{
    let AuthorizeSigningCredentialsPayload { cell_id, functions } = request;
    let keypair = generate_signing_key();
    let signing_agent_key = AgentPubKey::from_raw_32(verifying_key_bytes(&keypair));
    let cap_secret = CapSecret::from_raw_64(random_cap_secret_bytes());

    let mut assignees: Vec<AgentPubKey> = Vec::new();
    assignees.push(signing_agent_key.clone());

    let cell_id_for_credentials = cell_id.clone();
    let payload = GrantZomeCallCapabilityPayload {
        cell_id,
        cap_grant: ZomeCallCapGrant {
            tag: "zome-call-signing-key".to_owned(),
            access: CapAccess::Assigned { secret: cap_secret.clone(), assignees },
            functions: match functions {
                Some(f) => f,
                None => GrantedFunctions::All,
            },
        },
    };
    let credentials = SigningCredentials {
        signing_agent_key,
        keypair,
        cap_secret,
        cell_id: cell_id_for_credentials,
    };
    (payload, credentials)
}

/// Completes credential issuance from the decoded grant response: on
/// success the credentials are handed to the caller whole; on failure the
/// underlying error is propagated untouched and no partial credentials
/// are ever returned.
pub fn finish_authorize(
    grant_result: ConductorApiResult<()>,
    credentials: SigningCredentials,
) -> (r: ConductorApiResult<SigningCredentials>)
    ensures
        grant_result is Ok ==> (r matches Ok(c) && c == credentials),
        grant_result matches Err(e) ==> r == Err::<SigningCredentials, _>(e),
{
    match grant_result {
        Ok(()) => Ok(credentials),
        Err(e) => Err(e),
    }
}

} // verus!
