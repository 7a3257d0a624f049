//! The identity of a service: locked until the vault has given it a certificate.
//!
//! Unsealing leads from locked over unsealing to serving. A refusal leads back to locked; the
//! process then exits and is started anew.
use vstd::prelude::*;

use crate::handshake;
use crate::handshake::Errand;
use crate::handshake::VaultAction;
use crate::handshake::VaultEvent;
use crate::handshake::Words;
use crate::models::CertBundle;

verus! {

/// How far a service is.
#[derive(Debug, Clone, Copy, PartialEq, Eq, Structural)]
pub enum ServiceState {
    /// It has no certificate and listens to nobody.
    Locked,
    /// It has asked the vault.
    Unsealing,
    /// It has a certificate and accepts connections.
    Serving,
}

/// A service's state and its certificate.
pub struct ServiceIdentity {
    state: ServiceState,
    bundle: Option<CertBundle>,
    service_name: String,
}

/// The errand on which a service asks for its first certificate.
pub open spec fn unseal_words() -> Words {
    Words {
        path: "/vault/unseal"@,
        nonce_missing: "nonce field missing in vault response"@,
        nonce_bad: "bad nonce hex: "@,
    }
}

/// The state that follows `state` on an event.
pub open spec fn next_state(state: ServiceState, event: VaultEvent) -> ServiceState {
    match event {
        VaultEvent::Start => ServiceState::Unsealing,
        VaultEvent::Refused(_) => ServiceState::Locked,
        VaultEvent::Granted(Ok(_)) => ServiceState::Serving,
        _ => state,
    }
}

/// The certificate that is held after an event.
pub open spec fn next_bundle(bundle: Option<CertBundle>, event: VaultEvent) -> Option<CertBundle> {
    match event {
        VaultEvent::Granted(Ok(given)) => Some(given),
        _ => bundle,
    }
}

impl ServiceIdentity {
    #[verifier::type_invariant]
    spec fn serves_with_certificate(self) -> bool {
        self.state == ServiceState::Serving ==> self.bundle is Some
    }

    /// How far the service is.
    pub closed spec fn state(&self) -> ServiceState {
        self.state
    }

    /// The certificate that the service holds.
    pub closed spec fn certificate(&self) -> Option<CertBundle> {
        self.bundle
    }

    /// The name of the service.
    pub closed spec fn name(&self) -> Seq<char> {
        self.service_name@
    }

    /// A locked service.
    pub fn new(service_name: &str) -> (r: Self)
        ensures
            r.state() == ServiceState::Locked,
            r.certificate() is None,
            r.name() == service_name@,
    {
        ServiceIdentity {
            state: ServiceState::Locked,
            bundle: None,
            service_name: service_name.to_owned(),
        }
    }

    /// Whether the service accepts connections.
    pub fn is_serving(&self) -> (r: bool)
        ensures
            r == (self.state() == ServiceState::Serving),
            r ==> self.certificate() is Some,
    {
        proof {
            use_type_invariant(self);
        }
        self.state == ServiceState::Serving
    }

    /// The certificate that the service holds.
    pub fn bundle(&self) -> (r: Option<CertBundle>)
        ensures
            r == self.certificate(),
    {
        match &self.bundle {
            Some(bundle) => Some(bundle.clone()),
            None => None,
        }
    }

    /// Asks the vault for the service's first certificate, step by step: what came back from the
    /// last step changes the state, and what is to be done next is given back.
    pub fn unseal(&mut self, vault_url: &str, event: VaultEvent) -> (r: VaultAction)
        ensures
            handshake::follows(r, unseal_words(), vault_url@, old(self).name(), event),
            final(self).state() == next_state(old(self).state(), event),
            final(self).certificate() == next_bundle(old(self).certificate(), event),
            final(self).name() == old(self).name(),
    {
        proof {
            use_type_invariant(&*self);
        }
        match &event {
            VaultEvent::Start => {
                self.state = ServiceState::Unsealing;
            },
            VaultEvent::Refused(_) => {
                self.state = ServiceState::Locked;
            },
            VaultEvent::Granted(Ok(bundle)) => {
                self.bundle = Some(bundle.clone());
                self.state = ServiceState::Serving;
            },
            _ => {},
        }
        let errand = Errand {
            path: "/vault/unseal",
            nonce_missing: "nonce field missing in vault response",
            nonce_bad: "bad nonce hex: ",
        };
        handshake::advance(&errand, vault_url, self.service_name.as_str(), event)
    }
}

/// A service starts to serve only when the vault has granted it a certificate, and it then holds
/// that certificate.
pub proof fn serving_needs_a_grant(
    state: ServiceState,
    bundle: Option<CertBundle>,
    event: VaultEvent,
)
    requires
        state != ServiceState::Serving,
        next_state(state, event) == ServiceState::Serving,
    ensures
        event matches VaultEvent::Granted(Ok(given)) && next_bundle(bundle, event) == Some(given),
{
}

/// A service that is refused does not serve.
pub proof fn refusal_locks(state: ServiceState, body: String)
    ensures
        next_state(state, VaultEvent::Refused(body)) == ServiceState::Locked,
{
}

/// A service that begins to unseal asks its vault for a nonce, and does not serve yet.
pub proof fn unsealing_begins_with_a_nonce(
    identity: &mut ServiceIdentity,
    vault_url: &str,
    r: VaultAction,
    serving: bool,
)
    requires
        call_ensures(ServiceIdentity::unseal, (identity, vault_url, VaultEvent::Start), r),
        call_ensures(ServiceIdentity::is_serving, (final(identity),), serving),
    ensures
        r matches VaultAction::FetchNonce(url) && url@ == vault_url@ + "/vault/nonce"@,
        !serving,
{
}

/// With a nonce, a service sends a request in its own name to the vault's `unseal`, which quotes that
/// nonce.
pub proof fn unsealing_quotes_the_nonce(
    name: &str,
    made: ServiceIdentity,
    identity: &mut ServiceIdentity,
    vault_url: &str,
    host: Result<String, String>,
    nonce_hex: String,
    r: VaultAction,
)
    requires
        call_ensures(ServiceIdentity::new, (name,), made),
        identity.name() == made.name(),
        call_ensures(
            ServiceIdentity::unseal,
            (identity, vault_url, VaultEvent::Nonce { host, reply: Ok(Some(nonce_hex)) }),
            r,
        ),
    ensures
        match crate::encoding::hex_bytes(nonce_hex@) {
            Some(nonce) => {
                &&& r matches VaultAction::Send { url, request }
                &&& url@ == vault_url@ + "/vault/unseal"@
                &&& request.service_name@ == name@
                &&& request.nonce@ == nonce_hex@
                &&& request.tpm_quote@ == crate::encoding::hex_text(crate::encoding::sha256(nonce))
                &&& host is Err ==> request.machine_id@ == "unknown"@
                &&& host matches Ok(line) ==> request.machine_id@ == crate::text::trimmed(line@)
            },
            None => {
                &&& r matches VaultAction::Finish(
                    Err(crate::errors::AppError::VaultUnreachable(text)),
                )
                &&& exists|error: crate::encoding::HexError| #[trigger]
                    crate::encoding::hex_fault(nonce_hex@, error) && text@ == "bad nonce hex: "@
                        + crate::encoding::hex_error_message(error)
            },
        },
{
}

/// What the vault gives is what a service has: once a certificate was granted, the service serves and
/// holds that certificate, and the errand ends with it.
pub proof fn granted_certificates_are_held(
    identity: &mut ServiceIdentity,
    vault_url: &str,
    given: CertBundle,
    r: VaultAction,
    serving: bool,
    held: Option<CertBundle>,
)
    requires
        call_ensures(
            ServiceIdentity::unseal,
            (identity, vault_url, VaultEvent::Granted(Ok(given))),
            r,
        ),
        call_ensures(ServiceIdentity::is_serving, (final(identity),), serving),
        call_ensures(ServiceIdentity::bundle, (final(identity),), held),
    ensures
        r matches VaultAction::Finish(Ok(bundle)) && bundle == given,
        serving,
        held == Some(given),
{
}

/// A service that is refused gives up with the vault's words, and does not serve.
pub proof fn refused_services_give_up(
    identity: &mut ServiceIdentity,
    vault_url: &str,
    body: String,
    r: VaultAction,
    serving: bool,
)
    requires
        call_ensures(
            ServiceIdentity::unseal,
            (identity, vault_url, VaultEvent::Refused(body)),
            r,
        ),
        call_ensures(ServiceIdentity::is_serving, (final(identity),), serving),
    ensures
        r matches VaultAction::Finish(Err(crate::errors::AppError::VaultRejected(why))) && why@
            == body@,
        !serving,
{
}

/// Every other step of unsealing leaves the certificate, and only the first one the state, untouched; an
/// error ends the errand as one of a vault that cannot be reached, with its text.
pub proof fn other_steps_of_unsealing_change_nothing(
    identity: &mut ServiceIdentity,
    vault_url: &str,
    event: VaultEvent,
    r: VaultAction,
    before: Option<CertBundle>,
    after: Option<CertBundle>,
    served: bool,
    serving: bool,
)
    requires
        call_ensures(ServiceIdentity::unseal, (identity, vault_url, event), r),
        call_ensures(ServiceIdentity::bundle, (&*identity,), before),
        call_ensures(ServiceIdentity::bundle, (final(identity),), after),
        call_ensures(ServiceIdentity::is_serving, (&*identity,), served),
        call_ensures(ServiceIdentity::is_serving, (final(identity),), serving),
    ensures
        !(event matches VaultEvent::Granted(Ok(_))) ==> after == before,
        event is Nonce || event is Answered || (event matches VaultEvent::Granted(Err(_))) ==> serving
            == served,
        event matches VaultEvent::Nonce { reply: Err(why), .. } ==> r matches VaultAction::Finish(
            Err(crate::errors::AppError::VaultUnreachable(text)),
        ) && text@ == why@,
        event matches VaultEvent::Nonce { reply: Ok(None), .. } ==> r matches VaultAction::Finish(
            Err(crate::errors::AppError::VaultUnreachable(text)),
        ) && text@ == "nonce field missing in vault response"@,
        event matches VaultEvent::Answered(Err(why)) ==> r matches VaultAction::Finish(
            Err(crate::errors::AppError::VaultUnreachable(text)),
        ) && text@ == why@,
        event matches VaultEvent::Granted(Err(why)) ==> r matches VaultAction::Finish(
            Err(crate::errors::AppError::VaultUnreachable(text)),
        ) && text@ == why@,
        event matches VaultEvent::Answered(Ok(status)) ==> (r is ReadBundle <==> 200 <= status
            <= 299) && (r is ReadText <==> status < 200 || status > 299),
{
}

/// A service starts locked: it does not serve and holds no certificate.
pub proof fn services_start_locked(
    name: &str,
    made: ServiceIdentity,
    serving: bool,
    held: Option<CertBundle>,
)
    requires
        call_ensures(ServiceIdentity::new, (name,), made),
        call_ensures(ServiceIdentity::is_serving, (&made,), serving),
        call_ensures(ServiceIdentity::bundle, (&made,), held),
    ensures
        !serving,
        held is None,
{
}

} // verus!
