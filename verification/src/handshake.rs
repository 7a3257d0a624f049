//! How a service asks the vault for a certificate: it fetches a nonce, sends a request that quotes
//! the nonce, and reads the answer. Each step takes what came back from the last one and says what
//! is to be done next.
use vstd::prelude::*;

use crate::attestation;
use crate::encoding;
use crate::errors::AppError;
use crate::models::CertBundle;
use crate::models::UnsealRequest;
use crate::text;

verus! {

/// What came back from the last step. An error is given by its text.
#[derive(Debug)]
pub enum VaultEvent {
    /// Nothing was done yet.
    Start,
    /// The host's identifier file, and the vault's answer to the request for a nonce: the member
    /// `nonce` of its JSON body, none where that is absent or no text.
    Nonce { host: Result<String, String>, reply: Result<Option<String>, String> },
    /// The status of the vault's answer to the request for a certificate.
    Answered(Result<u16, String>),
    /// The text of an answer that refuses the request.
    Refused(String),
    /// The certificate of an answer that grants the request.
    Granted(Result<CertBundle, String>),
}

/// What is to be done next.
#[derive(Debug)]
pub enum VaultAction {
    /// Fetch the nonce from this address.
    FetchNonce(String),
    /// Send this request to this address.
    Send { url: String, request: UnsealRequest },
    /// Read the answer as text: it is a refusal.
    ReadText,
    /// Read the answer as a certificate.
    ReadBundle,
    /// There is nothing more to do.
    Finish(Result<CertBundle, AppError>),
}

/// What differs between the first request for a certificate and the later ones.
#[derive(Debug, Clone, Copy)]
pub struct Errand {
    /// The path that the request is sent to.
    pub path: &'static str,
    /// What is said where the vault's answer holds no nonce.
    pub nonce_missing: &'static str,
    /// What precedes the description of a nonce that is not in hexadecimal.
    pub nonce_bad: &'static str,
}

/// The words of an errand.
pub struct Words {
    pub path: Seq<char>,
    pub nonce_missing: Seq<char>,
    pub nonce_bad: Seq<char>,
}

impl View for Errand {
    type V = Words;

    open spec fn view(&self) -> Words {
        Words {
            path: self.path@,
            nonce_missing: self.nonce_missing@,
            nonce_bad: self.nonce_bad@,
        }
    }
}

/// Whether `action` ends the errand because the vault cannot be reached, with the text `why`.
pub open spec fn unreachable(action: VaultAction, why: Seq<char>) -> bool {
    action matches VaultAction::Finish(Err(AppError::VaultUnreachable(text))) && text@ == why
}

/// Whether `action` is what follows `event`.
pub open spec fn follows(
    action: VaultAction,
    words: Words,
    vault_url: Seq<char>,
    service_name: Seq<char>,
    event: VaultEvent,
) -> bool {
    match event {
        VaultEvent::Start => action matches VaultAction::FetchNonce(url) && url@ == vault_url
            + "/vault/nonce"@,
        VaultEvent::Nonce { host, reply } => match reply {
            Err(why) => unreachable(action, why@),
            Ok(None) => unreachable(action, words.nonce_missing),
            Ok(Some(nonce_hex)) => match encoding::hex_bytes(nonce_hex@) {
                Some(nonce) => {
                    &&& action matches VaultAction::Send { url, request }
                    &&& url@ == vault_url + words.path
                    &&& attestation::is_attested(
                        request,
                        service_name,
                        attestation::host_name(host),
                        nonce_hex@,
                        nonce,
                    )
                },
                None => exists|error: encoding::HexError|
                    {
                        &&& #[trigger] encoding::hex_fault(nonce_hex@, error)
                        &&& unreachable(
                            action,
                            words.nonce_bad + encoding::hex_error_message(error),
                        )
                    },
            },
        },
        VaultEvent::Answered(Err(why)) => unreachable(action, why@),
        VaultEvent::Answered(Ok(status)) => if 200 <= status <= 299 {
            action is ReadBundle
        } else {
            action is ReadText
        },
        VaultEvent::Refused(body) => action matches VaultAction::Finish(
            Err(AppError::VaultRejected(text)),
        ) && text@ == body@,
        VaultEvent::Granted(Err(why)) => unreachable(action, why@),
        VaultEvent::Granted(Ok(bundle)) => action matches VaultAction::Finish(Ok(given)) && given
            == bundle,
    }
}

/// What is to be done next on an errand to the vault.
pub fn advance(errand: &Errand, vault_url: &str, service_name: &str, event: VaultEvent) -> (r:
    VaultAction)
    ensures
        follows(r, errand@, vault_url@, service_name@, event),
{
    match event {
        VaultEvent::Start => VaultAction::FetchNonce(text::concat2(vault_url, "/vault/nonce")),
        VaultEvent::Nonce { host, reply } => match reply {
            Err(why) => VaultAction::Finish(Err(AppError::VaultUnreachable(why))),
            Ok(None) => VaultAction::Finish(
                Err(AppError::VaultUnreachable(errand.nonce_missing.to_owned())),
            ),
            Ok(Some(nonce_hex)) => match attestation::attest(
                service_name,
                host,
                nonce_hex.as_str(),
            ) {
                Ok(request) => VaultAction::Send {
                    url: text::concat2(vault_url, errand.path),
                    request,
                },
                Err(error) => {
                    let why: String = text::concat2(
                        errand.nonce_bad,
                        encoding::hex_error_text(error).as_str(),
                    );
                    assert(encoding::hex_fault(nonce_hex@, error));
                    VaultAction::Finish(Err(AppError::VaultUnreachable(why)))
                },
            },
        },
        VaultEvent::Answered(Err(why)) => VaultAction::Finish(Err(AppError::VaultUnreachable(why))),
        VaultEvent::Answered(Ok(status)) => if 200 <= status && status <= 299 {
            VaultAction::ReadBundle
        } else {
            VaultAction::ReadText
        },
        VaultEvent::Refused(body) => VaultAction::Finish(Err(AppError::VaultRejected(body))),
        VaultEvent::Granted(Err(why)) => VaultAction::Finish(Err(AppError::VaultUnreachable(why))),
        VaultEvent::Granted(Ok(bundle)) => VaultAction::Finish(Ok(bundle)),
    }
}

/// An errand goes its way: it begins with a nonce from the vault, goes on with a request that quotes the
/// nonce and is sent to the errand's path, and ends with the certificate that the vault gives.
pub proof fn errands_go_their_way(
    errand: &Errand,
    vault_url: &str,
    service_name: &str,
    event: VaultEvent,
    r: VaultAction,
)
    requires
        call_ensures(advance, (errand, vault_url, service_name, event), r),
    ensures
        r is FetchNonce <==> event is Start,
        r matches VaultAction::FetchNonce(url) ==> url@ == vault_url@ + "/vault/nonce"@,
        r is Send <==> (event matches VaultEvent::Nonce { reply: Ok(Some(nonce_hex)), .. }
            && encoding::hex_bytes(nonce_hex@) is Some),
        r matches VaultAction::Send { url, request } ==> {
            &&& url@ == vault_url@ + errand.path@
            &&& request.service_name@ == service_name@
            &&& event matches VaultEvent::Nonce { host, reply: Ok(Some(nonce_hex)) }
            &&& request.nonce@ == nonce_hex@
            &&& request.tpm_quote@ == encoding::hex_text(
                encoding::sha256(encoding::hex_bytes(nonce_hex@)->0),
            )
            &&& host is Err ==> request.machine_id@ == "unknown"@
            &&& host matches Ok(line) ==> request.machine_id@ == text::trimmed(line@)
        },
        r is ReadBundle <==> (event matches VaultEvent::Answered(Ok(status)) && 200 <= status <= 299),
        r is ReadText <==> (event matches VaultEvent::Answered(Ok(status)) && (status < 200 || status
            > 299)),
        r matches VaultAction::Finish(Ok(bundle)) ==> event == VaultEvent::Granted(Ok(bundle)),
        event matches VaultEvent::Granted(Ok(bundle)) ==> r == VaultAction::Finish(Ok(bundle)),
{
}

/// An errand that fails tells why: with the vault's words if it has refused the request, and else, as a
/// vault that cannot be reached, with the text of the error or the errand's own words.
pub proof fn failed_errands_tell_why(
    errand: &Errand,
    vault_url: &str,
    service_name: &str,
    event: VaultEvent,
    error: AppError,
)
    requires
        call_ensures(
            advance,
            (errand, vault_url, service_name, event),
            VaultAction::Finish(Err(error)),
        ),
    ensures
        match event {
            VaultEvent::Refused(body) => error matches AppError::VaultRejected(why) && why@ == body@,
            VaultEvent::Nonce { reply: Err(text), .. } => error matches AppError::VaultUnreachable(
                why,
            ) && why@ == text@,
            VaultEvent::Nonce { reply: Ok(None), .. } => error matches AppError::VaultUnreachable(why)
                && why@ == errand.nonce_missing@,
            VaultEvent::Nonce { reply: Ok(Some(nonce_hex)), .. } => {
                &&& error matches AppError::VaultUnreachable(why)
                &&& why@.len() >= errand.nonce_bad@.len()
                &&& why@.take(errand.nonce_bad@.len() as int) == errand.nonce_bad@
            },
            VaultEvent::Answered(Err(text)) => error matches AppError::VaultUnreachable(why) && why@
                == text@,
            VaultEvent::Granted(Err(text)) => error matches AppError::VaultUnreachable(why) && why@
                == text@,
            _ => false,
        },
{
    if let VaultEvent::Nonce { reply: Ok(Some(nonce_hex)), .. } = event {
        let fault = choose|fault: encoding::HexError|
            {
                &&& #[trigger] encoding::hex_fault(nonce_hex@, fault)
                &&& unreachable(
                    VaultAction::Finish(Err(error)),
                    errand@.nonce_bad + encoding::hex_error_message(fault),
                )
            };
        let why = error->VaultUnreachable_0@;
        assert(why.take(errand.nonce_bad@.len() as int) =~= errand.nonce_bad@);
    }
}

} // verus!
