//! The requests that the vault answers.
use vstd::prelude::*;

use crate::clock;
use crate::clock::Timestamp;
use crate::encoding;
use crate::errors::AppError;
use crate::models::UnsealRequest;
use crate::models::UnsealResponse;
use crate::revocation::RevocationCache;
use crate::text;
use crate::vault::attestation_verifier;
use crate::vault::state;
use crate::vault::state::AppState;
use crate::vault::state::Moment;
use crate::vault::state::Vault;
use crate::vault::x509;

verus! {

/// What a request for a nonce is answered: the nonce in hexadecimal.
#[derive(Debug)]
pub struct NonceReply {
    pub nonce: String,
}

/// What a revocation is answered.
#[derive(Debug)]
pub struct RevokeReply {
    pub revoked: String,
    pub reason: String,
}

/// What a health check is answered.
#[derive(Debug)]
pub struct VaultHealth {
    pub status: &'static str,
    pub service: &'static str,
    pub issued: u64,
}

/// `GET /vault/nonce`: issues a fresh nonce, which a request must present within 30 seconds.
pub fn nonce(state: &mut AppState) -> (r: NonceReply)
    ensures
        exists|bytes: Seq<u8>, now: u128|
            {
                &&& bytes.len() == state::NONCE_BYTES
                &&& r.nonce@ == encoding::hex_text(bytes)
                &&& final(state)@ == (Vault {
                    nonces: #[trigger] attestation_verifier::with_nonce(
                        old(state)@.nonces,
                        bytes,
                        now,
                    ),
                    ..old(state)@
                })
                &&& state::was_drawn(bytes)
                &&& attestation_verifier::has_elapsed(old(state)@.origin, now)
            },
{
    let bytes: Vec<u8> = state.fresh_nonce();
    NonceReply { nonce: encoding::hex_encode(bytes.as_slice()) }
}

/// `POST /vault/unseal`: verifies the attestation of a service that has no certificate yet, and
/// issues its first one.
pub fn unseal(state: &mut AppState, request: &UnsealRequest) -> (r: Result<
    UnsealResponse,
    AppError,
>)
    ensures
        exists|moment: Moment| #[trigger]
            state::admission(r, old(state)@, final(state)@, *request, moment) && moment.wf()
                && moment.was_shown(old(state)@.origin),
{
    let moment: Moment = state.moment();
    state.admit_at(request, moment)
}

/// `POST /vault/renew`: verifies the attestation of a service once more, and issues its next
/// certificate.
pub fn renew(state: &mut AppState, request: &UnsealRequest) -> (r: Result<
    UnsealResponse,
    AppError,
>)
    ensures
        exists|moment: Moment| #[trigger]
            state::admission(r, old(state)@, final(state)@, *request, moment) && moment.wf()
                && moment.was_shown(old(state)@.origin),
{
    let moment: Moment = state.moment();
    state.admit_at(request, moment)
}

/// `POST /vault/revoke`: puts a serial number on the revocation list. The members of the request are
/// none where they are absent or no text; without a serial number nothing is revoked.
pub fn revoke(state: &mut AppState, serial: Option<String>, reason: Option<String>) -> (r: Result<
    RevokeReply,
    AppError,
>)
    ensures
        match serial {
            Some(serial) => {
                &&& r matches Ok(reply)
                &&& reply.revoked@ == serial@
                &&& reply.reason@ == match reason {
                    Some(reason) => reason@,
                    None => "no reason given"@,
                }
                &&& final(state)@ == (Vault {
                    revoked: old(state)@.revoked.insert(serial@, reply.reason),
                    ..old(state)@
                })
            },
            None => {
                &&& r matches Err(AppError::Internal(why)) && why@ == "missing serial field"@
                &&& final(state)@ == old(state)@
            },
        },
{
    match serial {
        Some(serial) => {
            let reason: String = match reason {
                Some(reason) => reason,
                None => "no reason given".to_owned(),
            };
            state.revoke_cert(serial.clone(), reason.clone());
            Ok(RevokeReply { revoked: serial, reason })
        },
        None => Err(AppError::Internal("missing serial field".to_owned())),
    }
}

/// `GET /vault/crl`: the revoked serial numbers, each once.
pub fn crl(state: &AppState) -> (r: Vec<String>)
    ensures
        forall|i: int, j: int| 0 <= i < j < r@.len() ==> (#[trigger] r@[i])@ != (#[trigger] r@[j])@,
        forall|i: int| 0 <= i < r@.len() ==> state@.revoked.contains_key((#[trigger] r@[i])@),
        forall|serial: Seq<char>| #[trigger]
            state@.revoked.contains_key(serial) ==> exists|i: int|
                0 <= i < r@.len() && (#[trigger] r@[i])@ == serial,
        forall|serial: Seq<char>| #[trigger]
            text::texts(r@).contains(serial) <==> state@.revoked.contains_key(serial),
{
    state.revocation_list()
}

/// `GET /vault/health`: that the vault runs, and how many certificates it has issued.
pub fn health(state: &AppState) -> (r: VaultHealth)
    ensures
        r.status@ == "ok"@,
        r.service@ == "vault-service"@,
        r.issued == state@.issued,
{
    VaultHealth { status: "ok", service: "vault-service", issued: state.issued_count() }
}

/// A certificate that the vault hands out is valid from the second that the certificate clock shows while
/// the request is handled, for five minutes, and expires five minutes after what the system clock shows
/// then; for the first certificate and for every later one.
pub proof fn certificates_are_dated_by_the_clocks(
    state: &mut AppState,
    request: &UnsealRequest,
    response: UnsealResponse,
)
    requires
        call_ensures(unseal, (state, request), Ok(response)) || call_ensures(
            renew,
            (state, request),
            Ok(response),
        ),
    ensures
        exists|now: i64, today: Timestamp|
            {
                &&& #[trigger] clock::was_dated(now)
                &&& #[trigger] clock::was_shown(today)
                &&& x509::certificate_in(response.bundle.cert_pem@) matches Some(read)
                &&& read.not_before == now
                &&& read.not_after == now + 300
                &&& response.bundle.expires_at.secs == today.secs + 300
                &&& response.bundle.expires_at.nanos == today.nanos
            },
{
    let moment = choose|moment: Moment| #[trigger]
        state::admission(Ok(response), old(state)@, final(state)@, *request, moment) && moment.wf()
            && moment.was_shown(old(state)@.origin);
    assert(clock::was_dated(moment.cert_clock) && clock::was_shown(moment.today));
}

/// A certificate that the vault hands out is for the service that has asked, from the vault's authority,
/// for a fresh key; it is logged and counted.
pub proof fn certificates_are_for_the_service(
    state: &mut AppState,
    request: &UnsealRequest,
    response: UnsealResponse,
)
    requires
        call_ensures(unseal, (state, request), Ok(response)) || call_ensures(
            renew,
            (state, request),
            Ok(response),
        ),
    ensures
        ({
            let bundle = response.bundle;
            &&& x509::certificate_in(bundle.cert_pem@) matches Some(read)
            &&& read.subject[0].text == request.service_name@ + ".securenet"@
            &&& read.serial == Some(old(state)@.serial as nat)
            &&& bundle.ca_pem@ == old(state)@.certificate
            &&& x509::was_generated(bundle.key_pem@)
            &&& Some(x509::signature_in(bundle.cert_pem@).subject_key) == x509::public_key_in(
                bundle.key_pem@,
            )
            &&& Some(x509::signature_in(bundle.cert_pem@).issuer_key) == x509::public_key_in(
                old(state)@.key,
            )
            &&& final(state)@.pending.len() == old(state)@.pending.len() + 1
            &&& final(state)@.pending.drop_last() == old(state)@.pending
            &&& final(state)@.pending.last().granted
            &&& final(state)@.pending.last().cert_serial@ == bundle.serial@
            &&& final(state)@.pending.last().service_name@ == request.service_name@
            &&& final(state)@.pending.last().machine_id@ == request.machine_id@
            &&& clock::was_shown(final(state)@.pending.last().timestamp)
        }),
        old(state)@.issued < u64::MAX ==> final(state)@.issued == old(state)@.issued + 1,
        encoding::hex_bytes(request.nonce@) matches Some(nonce) && old(state)@.nonces.contains_key(
            nonce,
        ) && !final(state)@.nonces.contains_key(nonce) && (request.tpm_quote@.len() > 0
            ==> request.tpm_quote@ == encoding::hex_text(encoding::sha256(nonce))),
{
    let moment = choose|moment: Moment| #[trigger]
        state::admission(Ok(response), old(state)@, final(state)@, *request, moment) && moment.wf()
            && moment.was_shown(old(state)@.origin);
    assert(state::granted(response.bundle, old(state)@, final(state)@, *request, moment));
}

/// A request that is refused is answered 503 and logged with the reason, and there is one: the machine is
/// not allowed, or the nonce is missing, unreadable, unknown, used or older than 30 seconds by the clock,
/// or the quote is not the digest of the nonce.
pub proof fn refusals_have_a_reason(
    state: &mut AppState,
    request: &UnsealRequest,
    why: String,
    status: u16,
)
    requires
        call_ensures(
            unseal,
            (state, request),
            Err::<UnsealResponse, AppError>(AppError::VaultRejected(why)),
        ) || call_ensures(
            renew,
            (state, request),
            Err::<UnsealResponse, AppError>(AppError::VaultRejected(why)),
        ),
        call_ensures(AppError::status_code, (&AppError::VaultRejected(why),), status),
    ensures
        status == 503,
        exists|now: u128| #[trigger]
            attestation_verifier::has_elapsed(old(state)@.origin, now) && {
                let bytes = encoding::hex_bytes(request.nonce@);
                ||| !old(state)@.ids.contains(request.machine_id@) && !old(state)@.ids.contains(
                    "dev"@,
                ) && why@ == "machine_id '"@ + request.machine_id@ + "' not in allowlist"@
                ||| request.nonce@.len() == 0 && why@ == "nonce is required"@
                ||| bytes is None && why@ == "nonce is not valid hex"@
                ||| bytes is Some && !(old(state)@.nonces.contains_key(bytes->0) && now < old(state)@.nonces[bytes->0] + 30_000_000_000) && why@
                    == "nonce is invalid, expired, or already used"@
                ||| bytes is Some && request.tpm_quote@.len() > 0 && request.tpm_quote@
                    != encoding::hex_text(encoding::sha256(bytes->0)) && why@
                    == "TPM quote verification failed"@
            },
        final(state)@.pending.len() == old(state)@.pending.len() + 1,
        final(state)@.pending.drop_last() == old(state)@.pending,
        !final(state)@.pending.last().granted,
        final(state)@.pending.last().reason matches Some(text) && text@ == why@,
        final(state)@.pending.last().service_name@ == request.service_name@,
        final(state)@.pending.last().machine_id@ == request.machine_id@,
        clock::was_shown(final(state)@.pending.last().timestamp),
        final(state)@.issued == old(state)@.issued,
{
    let r = Err::<UnsealResponse, AppError>(AppError::VaultRejected(why));
    let moment = choose|moment: Moment| #[trigger]
        state::admission(r, old(state)@, final(state)@, *request, moment) && moment.wf()
            && moment.was_shown(old(state)@.origin);
    let given = choose|given: attestation_verifier::Rejection| #[trigger]
        state::refused(given, why@, old(state)@, final(state)@, *request, moment);
    assert(attestation_verifier::verdict(
        Err(given),
        *request,
        old(state)@.ids,
        old(state)@.nonces,
        moment.nonce_clock,
    ));
    assert(attestation_verifier::has_elapsed(old(state)@.origin, moment.nonce_clock));
}

/// A good request is not refused: its machine is allowed, its nonce was issued less than 30 seconds before
/// whatever the clock shows, and its quote is missing or the digest of the nonce. It gets a certificate,
/// or is answered 500.
pub proof fn good_requests_are_not_refused(
    state: &mut AppState,
    request: &UnsealRequest,
    r: Result<UnsealResponse, AppError>,
    nonce: Seq<u8>,
)
    requires
        call_ensures(unseal, (state, request), r) || call_ensures(renew, (state, request), r),
        state@.ids.contains(request.machine_id@) || state@.ids.contains("dev"@),
        request.nonce@.len() > 0,
        encoding::hex_bytes(request.nonce@) == Some(nonce),
        state@.nonces.contains_key(nonce),
        forall|now: u128| #[trigger]
            attestation_verifier::has_elapsed(state@.origin, now) ==> now < state@.nonces[nonce]
                + 30_000_000_000,
        request.tpm_quote@.len() == 0 || request.tpm_quote@ == encoding::hex_text(
            encoding::sha256(nonce),
        ),
    ensures
        r is Ok || (r matches Err(error) && error is Internal),
{
    let moment = choose|moment: Moment| #[trigger]
        state::admission(r, old(state)@, final(state)@, *request, moment) && moment.wf()
            && moment.was_shown(old(state)@.origin);
    if let Err(AppError::VaultRejected(why)) = r {
        let given = choose|given: attestation_verifier::Rejection| #[trigger]
            state::refused(given, why@, old(state)@, final(state)@, *request, moment);
        assert(attestation_verifier::verdict(
            Err(given),
            *request,
            old(state)@.ids,
            old(state)@.nonces,
            moment.nonce_clock,
        ));
        assert(attestation_verifier::has_elapsed(old(state)@.origin, moment.nonce_clock));
    }
}

/// A nonce is handed out as 64 lower-case hexadecimal digits of random bytes, which the vault then knows,
/// from what its clock shows, and touches nothing else.
pub proof fn nonces_are_handed_out(state: &mut AppState, reply: NonceReply)
    requires
        call_ensures(nonce, (state,), reply),
    ensures
        reply.nonce@.len() == 64,
        crate::text::is_hex(reply.nonce@),
        encoding::hex_bytes(reply.nonce@) matches Some(bytes) && state::was_drawn(bytes) && final(state)@.nonces.contains_key(bytes) && attestation_verifier::has_elapsed(
            old(state)@.origin,
            final(state)@.nonces[bytes],
        ),
        final(state)@ == (Vault { nonces: final(state)@.nonces, ..old(state)@ }),
{
    let (bytes, now) = choose|bytes: Seq<u8>, now: u128|
        {
            &&& bytes.len() == state::NONCE_BYTES
            &&& reply.nonce@ == encoding::hex_text(bytes)
            &&& final(state)@ == (Vault {
                nonces: #[trigger] attestation_verifier::with_nonce(
                    old(state)@.nonces,
                    bytes,
                    now,
                ),
                ..old(state)@
            })
            &&& state::was_drawn(bytes)
            &&& attestation_verifier::has_elapsed(old(state)@.origin, now)
        };
    encoding::hex_reads_back(bytes);
    encoding::hex_is_lower_case(bytes);
}

/// What was revoked is revoked and published, once, and so is what was revoked before; nothing else is.
/// Without a serial number nothing changes.
pub proof fn revocations_are_published(
    state: &mut AppState,
    serial: Option<String>,
    reason: Option<String>,
    r: Result<RevokeReply, AppError>,
    before: Vec<String>,
    after: Vec<String>,
    asked: Seq<char>,
)
    requires
        call_ensures(revoke, (state, serial, reason), r),
        call_ensures(crl, (&*state,), before),
        call_ensures(crl, (final(state),), after),
    ensures
        r is Ok <==> serial is Some,
        r matches Ok(reply) ==> reply.revoked@ == serial->0@ && reply.reason@ == match reason {
            Some(text) => text@,
            None => "no reason given"@,
        },
        r matches Err(error) ==> error matches AppError::Internal(why) && why@
            == "missing serial field"@,
        text::texts(after@).contains(asked) <==> text::texts(before@).contains(asked) || (
        serial matches Some(given) && given@ == asked),
        forall|i: int, j: int|
            0 <= i < j < after@.len() ==> (#[trigger] after@[i])@ != (#[trigger] after@[j])@,
        serial is None ==> final(state)@ == old(state)@,
        final(state)@ == (Vault { revoked: final(state)@.revoked, ..old(state)@ }),
{
}

/// Services turn away whom the vault has revoked: once a service has fetched the vault's list, it rejects
/// a serial number exactly if the vault has revoked it.
pub proof fn revoked_serials_are_turned_away(
    state: &AppState,
    list: Vec<String>,
    cache: &mut RevocationCache,
    serial: &str,
    rejected: bool,
    revoked: bool,
)
    requires
        call_ensures(crl, (state,), list),
        call_ensures(RevocationCache::refresh, (cache, Ok::<Vec<String>, String>(list)), ()),
        call_ensures(RevocationCache::rejects, (final(cache), serial), rejected),
        call_ensures(AppState::is_revoked, (state, serial), revoked),
    ensures
        rejected == revoked,
{
    assert(text::texts(list@).contains(serial@) <==> state@.revoked.contains_key(serial@));
}

/// A health check tells how many certificates were issued.
pub proof fn health_tells_the_count(state: &AppState, r: VaultHealth, count: u64)
    requires
        call_ensures(health, (state,), r),
        call_ensures(AppState::issued_count, (state,), count),
    ensures
        r.status@ == "ok"@ && r.service@ == "vault-service"@,
        r.issued == count,
{
}

} // verus!
