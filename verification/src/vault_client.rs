//! The client with which a service renews its certificate. It attests itself on every renewal.
use vstd::prelude::*;

use crate::handshake;
use crate::handshake::Errand;
use crate::handshake::VaultAction;
use crate::handshake::VaultEvent;
use crate::handshake::Words;
use crate::identity;
use crate::models::CertBundle;

verus! {

/// Where the vault is, who asks, and the certificate that was given last.
pub struct HttpVaultClient {
    vault_url: String,
    service_name: String,
    bundle: Option<CertBundle>,
}

/// The errand on which a service renews its certificate.
pub open spec fn renew_words() -> Words {
    Words {
        path: "/vault/renew"@,
        nonce_missing: "nonce field missing"@,
        nonce_bad: Seq::empty(),
    }
}

impl HttpVaultClient {
    /// Where the vault is.
    pub closed spec fn url(&self) -> Seq<char> {
        self.vault_url@
    }

    /// The service that the client belongs to.
    pub closed spec fn name(&self) -> Seq<char> {
        self.service_name@
    }

    /// The certificate that was given last.
    pub closed spec fn certificate(&self) -> Option<CertBundle> {
        self.bundle
    }

    /// A client that holds the service's first certificate.
    pub fn new(vault_url: &str, service_name: &str, initial_bundle: CertBundle) -> (r: Self)
        ensures
            r.url() == vault_url@,
            r.name() == service_name@,
            r.certificate() == Some(initial_bundle),
    {
        HttpVaultClient {
            vault_url: vault_url.to_owned(),
            service_name: service_name.to_owned(),
            bundle: Some(initial_bundle),
        }
    }

    /// The certificate that was given last.
    pub fn bundle(&self) -> (r: Option<CertBundle>)
        ensures
            r == self.certificate(),
    {
        match &self.bundle {
            Some(bundle) => Some(bundle.clone()),
            None => None,
        }
    }

    /// Renews the certificate of the named service, step by step: a certificate that is granted is
    /// kept, and what is to be done next is given back.
    pub fn renew(&mut self, service_name: &str, event: VaultEvent) -> (r: VaultAction)
        ensures
            handshake::follows(r, renew_words(), old(self).url(), service_name@, event),
            final(self).certificate() == identity::next_bundle(old(self).certificate(), event),
            final(self).url() == old(self).url(),
            final(self).name() == old(self).name(),
    {
        match &event {
            VaultEvent::Granted(Ok(bundle)) => {
                self.bundle = Some(bundle.clone());
            },
            _ => {},
        }
        let errand = Errand {
            path: "/vault/renew",
            nonce_missing: "nonce field missing",
            nonce_bad: "",
        };
        proof {
            reveal_strlit("");
            assert(""@ == Seq::<char>::empty());
        }
        handshake::advance(&errand, self.vault_url.as_str(), service_name, event)
    }
}

/// A renewal asks the vault that the client was made for, and every later one does too: first for a
/// nonce, then for the certificate, in the name of the service and with a quote over the nonce.
pub proof fn renewals_ask_the_same_vault(
    vault_url: &str,
    own_name: &str,
    initial: CertBundle,
    made: HttpVaultClient,
    client: &mut HttpVaultClient,
    service_name: &str,
    event: VaultEvent,
    r: VaultAction,
)
    requires
        call_ensures(HttpVaultClient::new, (vault_url, own_name, initial), made),
        client.url() == made.url(),
        call_ensures(HttpVaultClient::renew, (client, service_name, event), r),
    ensures
        final(client).url() == made.url(),
        final(client).name() == old(client).name(),
        event is Start ==> (r matches VaultAction::FetchNonce(url) && url@ == vault_url@
            + "/vault/nonce"@),
        event matches VaultEvent::Nonce { host, reply: Ok(Some(nonce_hex)) }
            ==> match crate::encoding::hex_bytes(nonce_hex@) {
            Some(nonce) => {
                &&& r matches VaultAction::Send { url, request }
                &&& url@ == vault_url@ + "/vault/renew"@
                &&& request.service_name@ == service_name@
                &&& request.nonce@ == nonce_hex@
                &&& request.tpm_quote@ == crate::encoding::hex_text(crate::encoding::sha256(nonce))
                &&& host is Err ==> request.machine_id@ == "unknown"@
                &&& host matches Ok(line) ==> request.machine_id@ == crate::text::trimmed(line@)
            },
            None => {
                &&& r matches VaultAction::Finish(
                    Err(crate::errors::AppError::VaultUnreachable(text)),
                )
                &&& exists|error: crate::encoding::HexError| #[trigger]
                    crate::encoding::hex_fault(nonce_hex@, error) && text@
                        == crate::encoding::hex_error_message(error)
            },
        },
{
}

/// The client keeps the certificate that was granted last: the one that it was made with, until another
/// is granted, which also ends the errand.
pub proof fn clients_keep_the_last_certificate(
    vault_url: &str,
    own_name: &str,
    initial: CertBundle,
    made: HttpVaultClient,
    first: Option<CertBundle>,
    client: &mut HttpVaultClient,
    service_name: &str,
    event: VaultEvent,
    r: VaultAction,
    before: Option<CertBundle>,
    after: Option<CertBundle>,
)
    requires
        call_ensures(HttpVaultClient::new, (vault_url, own_name, initial), made),
        call_ensures(HttpVaultClient::bundle, (&made,), first),
        call_ensures(HttpVaultClient::renew, (client, service_name, event), r),
        call_ensures(HttpVaultClient::bundle, (&*client,), before),
        call_ensures(HttpVaultClient::bundle, (final(client),), after),
    ensures
        first == Some(initial),
        event matches VaultEvent::Granted(Ok(given)) ==> after == Some(given)
            && (r matches VaultAction::Finish(Ok(bundle)) && bundle == given),
        !(event matches VaultEvent::Granted(Ok(_))) ==> after == before,
{
}

/// A renewal that fails ends with the reason: the vault's words if it has refused, and else the text of
/// the error.
pub proof fn failed_renewals_tell_why(
    client: &mut HttpVaultClient,
    service_name: &str,
    event: VaultEvent,
    r: VaultAction,
)
    requires
        call_ensures(HttpVaultClient::renew, (client, service_name, event), r),
    ensures
        event matches VaultEvent::Nonce { reply: Err(why), .. } ==> r matches VaultAction::Finish(
            Err(crate::errors::AppError::VaultUnreachable(text)),
        ) && text@ == why@,
        event matches VaultEvent::Nonce { reply: Ok(None), .. } ==> r matches VaultAction::Finish(
            Err(crate::errors::AppError::VaultUnreachable(text)),
        ) && text@ == "nonce field missing"@,
        event matches VaultEvent::Answered(Err(why)) ==> r matches VaultAction::Finish(
            Err(crate::errors::AppError::VaultUnreachable(text)),
        ) && text@ == why@,
        event matches VaultEvent::Answered(Ok(status)) ==> (r is ReadBundle <==> 200 <= status
            <= 299) && (r is ReadText <==> status < 200 || status > 299),
        event matches VaultEvent::Granted(Err(why)) ==> r matches VaultAction::Finish(
            Err(crate::errors::AppError::VaultUnreachable(text)),
        ) && text@ == why@,
        event matches VaultEvent::Refused(body) ==> r matches VaultAction::Finish(
            Err(crate::errors::AppError::VaultRejected(text)),
        ) && text@ == body@,
{
}

} // verus!
