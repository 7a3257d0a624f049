//! The state of the vault.
use vstd::prelude::*;

use crate::clock;
use crate::clock::Timestamp;
use crate::errors::AppError;
use crate::models::CertBundle;
use crate::models::IssuanceLogEntry;
use crate::models::UnsealRequest;
use crate::models::UnsealResponse;
use crate::table::Table;
use crate::vault::attestation_verifier;
use crate::vault::attestation_verifier::Allowlist;
use crate::vault::attestation_verifier::NonceEvent;
use crate::vault::attestation_verifier::NonceStore;
use crate::vault::attestation_verifier::Rejection;
use crate::vault::issuer;
use crate::vault::issuer::IssueError;
use crate::vault::issuer::Issuer;
use crate::vault::issuer::SerialCounter;
use crate::vault::log;
use crate::vault::log::IssuanceLog;
use crate::vault::x509;

verus! {

/// The vault: its authority, its log, the machines that it admits, the nonces that it has issued, the
/// counter of serial numbers, the certificates that were revoked, and how many were issued since the
/// start. A process has one vault.
pub struct AppState {
    pub issuer: Issuer,
    pub log: IssuanceLog,
    pub allowlist: Allowlist,
    pub nonce_store: NonceStore,
    serials: SerialCounter,
    revoked: Table<String, String>,
    issued: u64,
}

/// What the vault holds.
pub struct Vault {
    /// The authority's certificate and private key.
    pub certificate: Seq<char>,
    pub key: Seq<char>,
    /// The serial number of the next certificate.
    pub serial: u64,
    /// The machines that are allowed.
    pub ids: Seq<Seq<char>>,
    /// The nonces that were issued, with the time of each.
    pub nonces: Map<Seq<u8>, u128>,
    /// The instant that the times of the nonces are counted from.
    pub origin: std::time::Instant,
    /// The serial numbers that were revoked, with the reasons.
    pub revoked: Map<Seq<char>, String>,
    /// How many certificates were issued.
    pub issued: u64,
    /// The log file, and the entries that are still to be written to it.
    pub file: Seq<char>,
    pub pending: Seq<IssuanceLogEntry>,
}

/// What the clocks show while a request is handled.
#[derive(Debug, Clone, Copy)]
pub struct Moment {
    /// Nanoseconds since the nonce store was made.
    pub nonce_clock: u128,
    /// The second that certificates are dated by.
    pub cert_clock: i64,
    /// The time that the expiry is counted from.
    pub today: Timestamp,
    /// The time that is logged.
    pub logged: Timestamp,
    /// The time that the log entry of a refusal has for an expiry.
    pub logged_expiry: Timestamp,
}

impl Moment {
    /// Whether the times lie in the calendar.
    pub open spec fn wf(self) -> bool {
        self.today.wf() && self.logged.wf() && self.logged_expiry.wf()
    }

    /// Whether the clocks have shown the times, that of the nonces counted from `origin`.
    pub open spec fn was_shown(self, origin: std::time::Instant) -> bool {
        &&& attestation_verifier::has_elapsed(origin, self.nonce_clock)
        &&& clock::was_dated(self.cert_clock)
        &&& clock::was_shown(self.today)
        &&& clock::was_shown(self.logged)
        &&& clock::was_shown(self.logged_expiry)
    }
}

/// How many bytes a nonce has.
pub const NONCE_BYTES: usize = 32;

/// `rand::RngCore::fill_bytes` of `rand::thread_rng`: so many bytes, of which nothing else is said.
#[verifier::external_body]
fn random_bytes(count: usize) -> (r: Vec<u8>)
    ensures
        r@.len() == count,
{
    let mut bytes = vec![0u8; count];
    rand::RngCore::fill_bytes(&mut rand::thread_rng(), &mut bytes);
    bytes
}

/// Whether some bytes were drawn at random.
pub closed spec fn was_drawn(bytes: Seq<u8>) -> bool {
    exists|drawn: Vec<u8>|
        drawn@ == bytes && #[trigger] call_ensures(random_bytes, (NONCE_BYTES,), drawn)
}

/// Bytes count as drawn only if `random_bytes` has given them.
proof fn drawn_bytes_are_random(bytes: Seq<u8>)
    ensures
        was_drawn(bytes) ==> exists|drawn: Vec<u8>|
            drawn@ == bytes && #[trigger] call_ensures(random_bytes, (32,), drawn),
{
}

/// Whether the request is refused for `rejection`: it is answered with the reason and logged, and
/// nothing is issued.
pub open spec fn refused(
    rejection: Rejection,
    why: Seq<char>,
    before: Vault,
    after: Vault,
    request: UnsealRequest,
    moment: Moment,
) -> bool {
    &&& attestation_verifier::verdict(
        Err(rejection),
        request,
        before.ids,
        before.nonces,
        moment.nonce_clock,
    )
    &&& why == attestation_verifier::rejection_text(rejection)
    &&& after == (Vault {
        nonces: attestation_verifier::nonces_after(request, before.ids, before.nonces),
        pending: after.pending,
        ..before
    })
    &&& after.pending.len() > 0
    &&& after.pending.drop_last() == before.pending
    &&& log::records_rejection(
        after.pending.last(),
        request.service_name@,
        request.machine_id@,
        why,
        moment.logged,
        moment.logged_expiry,
    )
}

/// Whether the request passes and the certificate cannot be issued for `error`: it is answered with
/// the error, and nothing is logged.
pub open spec fn failed(
    error: IssueError,
    why: Seq<char>,
    before: Vault,
    after: Vault,
    request: UnsealRequest,
    moment: Moment,
) -> bool {
    &&& attestation_verifier::verdict(
        Ok(()),
        request,
        before.ids,
        before.nonces,
        moment.nonce_clock,
    )
    &&& issuer::issue_outcome(
        Err(error),
        request.service_name@,
        before.certificate,
        before.key,
        before.serial,
        moment.cert_clock,
        moment.today,
    )
    &&& why == issuer::issue_error_text(error)
    &&& after == (Vault {
        nonces: attestation_verifier::nonces_after(request, before.ids, before.nonces),
        serial: issuer::successor(before.serial),
        ..before
    })
}

/// Whether the request passes and `bundle` is issued: it is logged and counted.
pub open spec fn granted(
    bundle: CertBundle,
    before: Vault,
    after: Vault,
    request: UnsealRequest,
    moment: Moment,
) -> bool {
    &&& attestation_verifier::verdict(
        Ok(()),
        request,
        before.ids,
        before.nonces,
        moment.nonce_clock,
    )
    &&& issuer::issue_outcome(
        Ok(bundle),
        request.service_name@,
        before.certificate,
        before.key,
        before.serial,
        moment.cert_clock,
        moment.today,
    )
    &&& after == (Vault {
        nonces: attestation_verifier::nonces_after(request, before.ids, before.nonces),
        serial: issuer::successor(before.serial),
        issued: issuer::successor(before.issued),
        pending: after.pending,
        ..before
    })
    &&& after.pending.len() > 0
    &&& after.pending.drop_last() == before.pending
    &&& log::records_grant(
        after.pending.last(),
        request.service_name@,
        request.machine_id@,
        bundle.serial@,
        bundle.expires_at,
        moment.logged,
    )
}

/// Whether the request is refused for a reason with the text `why`.
pub open spec fn is_refusal(
    why: Seq<char>,
    before: Vault,
    after: Vault,
    request: UnsealRequest,
    moment: Moment,
) -> bool {
    exists|rejection: Rejection| #[trigger]
        refused(rejection, why, before, after, request, moment)
}

/// Whether the request passes and the certificate cannot be issued for an error with the text `why`.
pub open spec fn is_failure(
    why: Seq<char>,
    before: Vault,
    after: Vault,
    request: UnsealRequest,
    moment: Moment,
) -> bool {
    exists|error: IssueError| #[trigger] failed(error, why, before, after, request, moment)
}

/// What comes of a request for a certificate.
pub open spec fn admission(
    r: Result<UnsealResponse, AppError>,
    before: Vault,
    after: Vault,
    request: UnsealRequest,
    moment: Moment,
) -> bool {
    match r {
        Ok(response) => granted(response.bundle, before, after, request, moment),
        Err(AppError::VaultRejected(why)) => is_refusal(why@, before, after, request, moment),
        Err(AppError::Internal(why)) => is_failure(why@, before, after, request, moment),
        Err(_) => false,
    }
}

impl View for AppState {
    type V = Vault;

    closed spec fn view(&self) -> Vault {
        Vault {
            certificate: self.issuer.certificate(),
            key: self.issuer.key(),
            serial: self.serials.next(),
            ids: self.allowlist.ids(),
            nonces: self.nonce_store@,
            origin: self.nonce_store.origin(),
            revoked: self.revoked@,
            issued: self.issued,
            file: self.log.file(),
            pending: self.log.pending(),
        }
    }
}

impl AppState {
    /// A vault with the given parts, which has issued and revoked nothing.
    pub fn new(issuer: Issuer, log: IssuanceLog, allowlist: Allowlist) -> (r: Self)
        ensures
            r@ == (Vault {
                certificate: issuer.certificate(),
                key: issuer.key(),
                serial: 1,
                ids: allowlist.ids(),
                nonces: Map::empty(),
                origin: r@.origin,
                revoked: Map::empty(),
                issued: 0,
                file: log.file(),
                pending: log.pending(),
            }),
    {
        AppState {
            issuer,
            log,
            allowlist,
            nonce_store: NonceStore::new(),
            serials: SerialCounter::new(),
            revoked: Table::new(),
            issued: 0,
        }
    }

    /// Makes a nonce of 32 random bytes, registers it and hands it out.
    pub fn fresh_nonce(&mut self) -> (r: Vec<u8>)
        ensures
            r@.len() == NONCE_BYTES,
            was_drawn(r@),
            exists|now: u128|
                final(self)@ == (Vault {
                    nonces: #[trigger] attestation_verifier::with_nonce(old(self)@.nonces, r@, now),
                    ..old(self)@
                }) && attestation_verifier::has_elapsed(old(self)@.origin, now),
    {
        let nonce: Vec<u8> = random_bytes(NONCE_BYTES);
        let copy: Vec<u8> = vstd::slice::slice_to_vec(nonce.as_slice());
        assert(copy@ == nonce@);
        self.nonce_store.register(copy);
        proof {
            let now = choose|now: u128|
                self.nonce_store@ == #[trigger] attestation_verifier::with_nonce(
                    old(self)@.nonces,
                    copy@,
                    now,
                ) && attestation_verifier::has_elapsed(old(self)@.origin, now);
            assert(self@ == (Vault {
                nonces: attestation_verifier::with_nonce(old(self)@.nonces, nonce@, now),
                ..old(self)@
            }));
        }
        nonce
    }

    /// Puts a serial number on the revocation list.
    pub fn revoke_cert(&mut self, serial: String, reason: String)
        ensures
            final(self)@ == (Vault {
                revoked: old(self)@.revoked.insert(serial@, reason),
                ..old(self)@
            }),
    {
        self.revoked.insert(serial, reason);
    }

    /// The revoked serial numbers, each once.
    pub fn revocation_list(&self) -> (r: Vec<String>)
        ensures
            forall|i: int, j: int|
                0 <= i < j < r@.len() ==> (#[trigger] r@[i])@ != (#[trigger] r@[j])@,
            forall|i: int| 0 <= i < r@.len() ==> self@.revoked.contains_key((#[trigger] r@[i])@),
            forall|serial: Seq<char>| #[trigger]
                self@.revoked.contains_key(serial) ==> exists|i: int|
                    0 <= i < r@.len() && (#[trigger] r@[i])@ == serial,
            forall|serial: Seq<char>| #[trigger]
                crate::text::texts(r@).contains(serial) <==> self@.revoked.contains_key(serial),
    {
        let r: Vec<String> = self.revoked.keys();
        proof {
            assert forall|serial: Seq<char>| #[trigger]
                crate::text::texts(r@).contains(serial) <==> self@.revoked.contains_key(serial) by {
                crate::revocation::revoked_peers_are_rejected(self@.revoked, r@, serial);
            }
        }
        r
    }

    /// Whether a serial number was revoked.
    pub fn is_revoked(&self, serial: &str) -> (r: bool)
        ensures
            r == self@.revoked.contains_key(serial@),
    {
        let key: String = serial.to_owned();
        match self.revoked.get(&key) {
            Some(_) => true,
            None => false,
        }
    }

    /// Counts one more certificate, and gives the count.
    pub fn increment_issued(&mut self) -> (r: u64)
        ensures
            r == issuer::successor(old(self)@.issued),
            final(self)@ == (Vault { issued: issuer::successor(old(self)@.issued), ..old(self)@ }),
    {
        self.issued = self.issued.wrapping_add(1);
        self.issued
    }

    /// How many certificates were issued.
    pub fn issued_count(&self) -> (r: u64)
        ensures
            r == self@.issued,
    {
        self.issued
    }

    /// The entries that are to be written to the log file, the oldest first.
    pub fn take_log(&mut self) -> (r: Vec<IssuanceLogEntry>)
        ensures
            r@ == old(self)@.pending,
            final(self)@ == (Vault { pending: Seq::empty(), ..old(self)@ }),
    {
        self.log.take_pending()
    }

    /// What the clocks show.
    pub fn moment(&self) -> (r: Moment)
        ensures
            r.wf(),
            r.was_shown(self@.origin),
            r.today.showable(),
            r.logged.showable(),
            r.logged_expiry.showable(),
    {
        Moment {
            nonce_clock: self.nonce_store.now(),
            cert_clock: clock::cert_second(),
            today: clock::now(),
            logged: clock::now(),
            logged_expiry: clock::now(),
        }
    }

    /// What follows the issuing of a certificate for a request, while the clock shows `logged`: the
    /// certificate is logged, counted and handed out, or the error is answered and nothing changes.
    pub fn settle_at(
        &mut self,
        request: &UnsealRequest,
        issued: Result<CertBundle, IssueError>,
        logged: Timestamp,
    ) -> (r: Result<UnsealResponse, AppError>)
        requires
            logged.wf(),
        ensures
            match issued {
                Ok(bundle) => {
                    &&& r matches Ok(response)
                    &&& response.bundle == bundle
                    &&& final(self)@ == (Vault {
                        issued: issuer::successor(old(self)@.issued),
                        pending: final(self)@.pending,
                        ..old(self)@
                    })
                    &&& final(self)@.pending.len() > 0
                    &&& final(self)@.pending.drop_last() == old(self)@.pending
                    &&& log::records_grant(
                        final(self)@.pending.last(),
                        request.service_name@,
                        request.machine_id@,
                        bundle.serial@,
                        bundle.expires_at,
                        logged,
                    )
                },
                Err(error) => {
                    &&& r matches Err(AppError::Internal(why))
                    &&& why@ == issuer::issue_error_text(error)
                    &&& final(self)@ == old(self)@
                },
            },
    {
        match issued {
            Ok(bundle) => {
                self.log.record_grant_at(
                    request.service_name.as_str(),
                    request.machine_id.as_str(),
                    bundle.serial.as_str(),
                    bundle.expires_at,
                    logged,
                );
                let _ = self.increment_issued();
                Ok(UnsealResponse { bundle })
            },
            Err(error) => Err(AppError::Internal(error.message().to_owned())),
        }
    }

    /// Verifies a request for a certificate, and issues one if it passes. Every refusal and every
    /// certificate is logged.
    pub fn admit_at(&mut self, request: &UnsealRequest, moment: Moment) -> (r: Result<
        UnsealResponse,
        AppError,
    >)
        requires
            moment.wf(),
        ensures
            admission(r, old(self)@, final(self)@, *request, moment),
    {
        let ghost before = self@;
        match attestation_verifier::verify_at(
            request,
            &self.allowlist,
            &mut self.nonce_store,
            moment.nonce_clock,
        ) {
            Ok(_) => {},
            Err(rejection) => {
                let why: String = rejection.message();
                self.log.record_rejection_at(
                    request.service_name.as_str(),
                    request.machine_id.as_str(),
                    why.as_str(),
                    moment.logged,
                    moment.logged_expiry,
                );
                assert(refused(rejection, why@, before, self@, *request, moment));
                assert(is_refusal(why@, before, self@, *request, moment));
                return Err(AppError::VaultRejected(why));
            },
        }
        let issued: Result<CertBundle, IssueError> = self.issuer.issue_at(
            &mut self.serials,
            request.service_name.as_str(),
            moment.cert_clock,
            moment.today,
        );
        let ghost outcome = issued;
        let r: Result<UnsealResponse, AppError> = self.settle_at(request, issued, moment.logged);
        proof {
            if let Err(error) = outcome {
                let why = issuer::issue_error_text(error);
                assert(failed(error, why, before, self@, *request, moment));
                assert(is_failure(why, before, self@, *request, moment));
            }
        }
        r
    }
}

/// Nothing is taken from the log: whatever comes of a request, the entries before it stay, and at
/// most one is added.
pub proof fn log_only_grows(
    r: Result<UnsealResponse, AppError>,
    before: Vault,
    after: Vault,
    request: UnsealRequest,
    moment: Moment,
)
    requires
        admission(r, before, after, request, moment),
    ensures
        before.pending.is_prefix_of(after.pending),
        after.pending.len() <= before.pending.len() + 1,
        after.pending.len() > before.pending.len() <==> r is Ok || r matches Err(
            AppError::VaultRejected(_),
        ),
{
    if after.pending.len() > 0 {
        let kept = after.pending.drop_last();
        assert(kept == after.pending.take(after.pending.len() - 1));
    }
}

/// A certificate is issued only to a request that passes: it is counted, its serial number is used
/// up, and a refused request changes neither.
pub proof fn only_passing_requests_get_certificates(
    r: Result<UnsealResponse, AppError>,
    before: Vault,
    after: Vault,
    request: UnsealRequest,
    moment: Moment,
)
    requires
        admission(r, before, after, request, moment),
    ensures
        r is Ok ==> attestation_verifier::verdict(
            Ok(()),
            request,
            before.ids,
            before.nonces,
            moment.nonce_clock,
        ),
        r is Ok ==> after.issued == issuer::successor(before.issued) && after.serial == issuer::successor(before.serial),
        r !is Ok ==> after.issued == before.issued,
        r matches Err(AppError::VaultRejected(_)) ==> after.serial == before.serial,
{
}

/// What a refused request is answered: status 503 and the reason, whichever the reason is.
pub proof fn refusals_are_answered_with_the_reason(
    r: Result<UnsealResponse, AppError>,
    before: Vault,
    after: Vault,
    request: UnsealRequest,
    moment: Moment,
    rejection: Rejection,
)
    requires
        admission(r, before, after, request, moment),
        attestation_verifier::verdict(
            Err(rejection),
            request,
            before.ids,
            before.nonces,
            moment.nonce_clock,
        ),
    ensures
        r matches Err(error) && error is VaultRejected && crate::errors::status_of(error) == 503
            && crate::errors::message_of(error) == "vault rejected unseal request: "@
            + attestation_verifier::rejection_text(rejection),
{
}

/// Whether a vault can be `after` when it was `before` and one thing has happened to it: a nonce was
/// issued, a request was handled, or something else was done that touches neither nonces nor serial
/// numbers. Revocations are never taken back.
pub open spec fn is_step(before: Vault, after: Vault, event: NonceEvent) -> bool {
    &&& after.ids == before.ids
    &&& after.nonces == attestation_verifier::after_event(before.nonces, event)
    &&& after.serial == before.serial || after.serial == issuer::successor(before.serial)
    &&& forall|serial: Seq<char>| #[trigger]
        before.revoked.contains_key(serial) ==> after.revoked.contains_key(serial)
}

/// Whether `states` are what a vault was like before and after each of the events, in order.
pub open spec fn is_history(states: Seq<Vault>, events: Seq<NonceEvent>) -> bool {
    &&& states.len() == events.len() + 1
    &&& forall|i: int|
        0 <= i < events.len() ==> is_step(states[i], states[i + 1], #[trigger] events[i])
}

/// A request is a step in the life of a vault: it takes out the nonce that it presents.
pub proof fn requests_are_steps(
    r: Result<UnsealResponse, AppError>,
    before: Vault,
    after: Vault,
    request: UnsealRequest,
    moment: Moment,
)
    requires
        admission(r, before, after, request, moment),
    ensures
        is_step(
            before,
            after,
            match attestation_verifier::presented(request, before.ids) {
                Some(nonce) => NonceEvent::Consumed { nonce },
                None => NonceEvent::Other,
            },
        ),
{
}

/// Issuing a nonce is a step in the life of a vault, and so is what touches neither nonces nor serial
/// numbers: revoking, counting, and taking the log.
pub proof fn other_operations_are_steps(
    before: Vault,
    after: Vault,
    nonce: Seq<u8>,
    now: u128,
    serial: Seq<char>,
    reason: String,
    issued: u64,
    pending: Seq<IssuanceLogEntry>,
)
    ensures
        after == (Vault {
            nonces: attestation_verifier::with_nonce(before.nonces, nonce, now),
            ..before
        }) ==> is_step(before, after, NonceEvent::Registered { nonce, now }),
        after == (Vault { revoked: before.revoked.insert(serial, reason), ..before }) ==> is_step(
            before,
            after,
            NonceEvent::Other,
        ),
        after == (Vault { issued, pending, ..before }) ==> is_step(
            before,
            after,
            NonceEvent::Other,
        ),
{
}

/// What a history comes to: the allowlist stays, the nonces are those after all events, a serial
/// number is used up at most for each event, and what was revoked stays revoked.
pub proof fn history_adds_up(states: Seq<Vault>, events: Seq<NonceEvent>)
    requires
        is_history(states, events),
    ensures
        states.last().ids == states[0].ids,
        states.last().nonces == attestation_verifier::after_events(states[0].nonces, events),
        states[0].serial + events.len() <= u64::MAX ==> states[0].serial <= states.last().serial
            <= states[0].serial + events.len(),
        forall|serial: Seq<char>| #[trigger]
            states[0].revoked.contains_key(serial) ==> states.last().revoked.contains_key(serial),
    decreases events.len(),
{
    if events.len() > 0 {
        let earlier = states.drop_last();
        let before = events.drop_last();
        assert forall|i: int| 0 <= i < before.len() implies is_step(
            earlier[i],
            earlier[i + 1],
            #[trigger] before[i],
        ) by {
            assert(before[i] == events[i]);
        }
        history_adds_up(earlier, before);
        let n = events.len() - 1;
        assert(is_step(states[n], states[n + 1], events[n]));
    }
}

/// A serial number is revoked once it is put on the list, and stays revoked whatever follows.
pub proof fn revocation_lasts(
    revoked: Map<Seq<char>, String>,
    serial: Seq<char>,
    reason: String,
    states: Seq<Vault>,
    events: Seq<NonceEvent>,
)
    requires
        is_history(states, events),
        states[0].revoked == revoked.insert(serial, reason),
    ensures
        states[0].revoked.contains_key(serial),
        states.last().revoked.contains_key(serial),
{
    history_adds_up(states, events);
}

/// A nonce that the vault has issued is good for a certificate: if a service on an allowed machine
/// quotes it within 30 seconds, the request is not refused, whatever the vault was asked by others in
/// the meantime.
pub proof fn quoted_nonces_are_not_refused(
    r: Result<UnsealResponse, AppError>,
    issued_over: Map<Seq<u8>, u128>,
    nonce: Seq<u8>,
    issued_at: u128,
    states: Seq<Vault>,
    events: Seq<NonceEvent>,
    after: Vault,
    request: UnsealRequest,
    service_name: Seq<char>,
    machine_id: Seq<char>,
    moment: Moment,
)
    requires
        nonce.len() == NONCE_BYTES,
        is_history(states, events),
        states[0].nonces == attestation_verifier::with_nonce(issued_over, nonce, issued_at),
        !attestation_verifier::registers(events, nonce),
        !attestation_verifier::consumes(events, nonce),
        attestation_verifier::until(events, moment.nonce_clock),
        moment.nonce_clock < issued_at + attestation_verifier::NONCE_TTL_NANOS,
        attestation_verifier::allows(states[0].ids, machine_id),
        crate::attestation::is_attested(
            request,
            service_name,
            machine_id,
            crate::encoding::hex_text(nonce),
            nonce,
        ),
        admission(r, states.last(), after, request, moment),
    ensures
        !(r matches Err(AppError::VaultRejected(_))),
        r matches Ok(response) ==> issuer::issued(
            response.bundle,
            service_name,
            states.last().certificate,
            states.last().key,
            states.last().serial,
            moment.cert_clock,
            moment.today,
        ),
{
    let before = states.last();
    history_adds_up(states, events);
    attestation_verifier::nonces_are_usable_for_30_seconds(
        issued_over,
        nonce,
        issued_at,
        events,
        moment.nonce_clock,
    );
    if let Err(AppError::VaultRejected(why)) = r {
        let rejection = choose|rejection: Rejection| #[trigger]
            refused(rejection, why@, before, after, request, moment);
        attestation_verifier::attested_requests_pass(
            request,
            service_name,
            machine_id,
            nonce,
            before.ids,
            before.nonces,
            moment.nonce_clock,
            Err(rejection),
        );
    }
}

/// Later certificates have higher serial numbers: if a certificate was issued, and another one later,
/// the text of its serial number comes before that of the other, whatever came in between, as long as
/// the numbers are not used up.
pub proof fn later_certificates_have_higher_serials(
    first: Result<UnsealResponse, AppError>,
    second: Result<UnsealResponse, AppError>,
    start: Vault,
    states: Seq<Vault>,
    events: Seq<NonceEvent>,
    end: Vault,
    requests: (UnsealRequest, UnsealRequest),
    moments: (Moment, Moment),
)
    requires
        is_history(states, events),
        admission(first, start, states[0], requests.0, moments.0),
        admission(second, states.last(), end, requests.1, moments.1),
        start.serial + events.len() < u64::MAX,
        first is Ok,
        second is Ok,
    ensures
        crate::text::comes_before(first->Ok_0.bundle.serial@, second->Ok_0.bundle.serial@),
{
    history_adds_up(states, events);
    let later = states.last();
    issuer::serials_rise(
        first->Ok_0.bundle,
        second->Ok_0.bundle,
        (requests.0.service_name@, requests.1.service_name@),
        (start.certificate, later.certificate),
        (start.key, later.key),
        (start.serial, later.serial),
        (moments.0.cert_clock, moments.1.cert_clock),
        (moments.0.today, moments.1.today),
    );
}

/// A serial number is taken for every certificate: a request uses up the next one or none.
pub proof fn serials_are_not_given_back(
    r: Result<UnsealResponse, AppError>,
    before: Vault,
    after: Vault,
    request: UnsealRequest,
    moment: Moment,
)
    requires
        admission(r, before, after, request, moment),
    ensures
        after.serial == before.serial || after.serial == issuer::successor(before.serial),
        r is Ok ==> after.serial == issuer::successor(before.serial),
{
}

/// One nonce gives at most one certificate: once a request has presented it, or a certificate was
/// issued for it, every later request with it is refused, whatever the vault was asked in between, as
/// long as the nonce was not issued again.
pub proof fn one_certificate_per_nonce(
    first: Result<UnsealResponse, AppError>,
    second: Result<UnsealResponse, AppError>,
    start: Vault,
    states: Seq<Vault>,
    events: Seq<NonceEvent>,
    end: Vault,
    request: UnsealRequest,
    repeat: UnsealRequest,
    moment: Moment,
    later: Moment,
)
    requires
        is_history(states, events),
        admission(first, start, states[0], request, moment),
        admission(second, states.last(), end, repeat, later),
        first is Ok || attestation_verifier::presented(request, start.ids) is Some,
        attestation_verifier::presented(request, start.ids)
            == attestation_verifier::presented(repeat, start.ids),
        !attestation_verifier::registers(
            events,
            attestation_verifier::presented(request, start.ids)->0,
        ),
    ensures
        second matches Err(AppError::VaultRejected(_)),
{
    history_adds_up(states, events);
    attestation_verifier::nonces_do_not_come_back(
        states[0].nonces,
        attestation_verifier::presented(request, start.ids)->0,
        events,
    );
}

/// A new vault has issued, revoked and logged nothing.
pub proof fn vaults_start_empty(
    issuer: Issuer,
    log: IssuanceLog,
    allowlist: Allowlist,
    state: AppState,
    count: u64,
    serial: &str,
    revoked: bool,
    list: Vec<String>,
)
    requires
        call_ensures(AppState::new, (issuer, log, allowlist), state),
        call_ensures(AppState::issued_count, (&state,), count),
        call_ensures(AppState::is_revoked, (&state, serial), revoked),
        call_ensures(AppState::revocation_list, (&state,), list),
    ensures
        count == 0,
        !revoked,
        list@.len() == 0,
        state@.certificate == issuer.certificate() && state@.key == issuer.key(),
        state@.ids == allowlist.ids(),
        state@.serial == 1,
        state@.nonces == Map::<Seq<u8>, u128>::empty(),
        state@.pending == log.pending() && state@.file == log.file(),
{
    if list@.len() > 0 {
        assert(state@.revoked.contains_key(list@[0]@));
    }
}

/// What was revoked is revoked, and is on the list once; no other serial number is touched by it, and
/// neither is anything else.
pub proof fn revoking_puts_one_serial_on_the_list(
    state: &mut AppState,
    serial: String,
    reason: String,
    asked: &str,
    before: bool,
    after: bool,
    list: Vec<String>,
    counted: u64,
    count: u64,
)
    requires
        call_ensures(AppState::revoke_cert, (state, serial, reason), ()),
        call_ensures(AppState::is_revoked, (&*state, asked), before),
        call_ensures(AppState::is_revoked, (final(state), asked), after),
        call_ensures(AppState::revocation_list, (final(state),), list),
        call_ensures(AppState::issued_count, (&*state,), counted),
        call_ensures(AppState::issued_count, (final(state),), count),
    ensures
        asked@ == serial@ ==> after,
        asked@ != serial@ ==> after == before,
        after <==> crate::text::texts(list@).contains(asked@),
        forall|i: int, j: int|
            0 <= i < j < list@.len() ==> (#[trigger] list@[i])@ != (#[trigger] list@[j])@,
        count == counted,
        final(state)@.pending == old(state)@.pending,
        final(state)@.nonces == old(state)@.nonces,
        final(state)@.serial == old(state)@.serial,
{
}

/// Counting goes up by one, and the entries of the log are handed out once.
pub proof fn counting_and_taking(
    state: &mut AppState,
    n: u64,
    before: u64,
    after: u64,
    first: &mut AppState,
    entries: Vec<IssuanceLogEntry>,
    second: &mut AppState,
    none: Vec<IssuanceLogEntry>,
)
    requires
        call_ensures(AppState::increment_issued, (state,), n),
        call_ensures(AppState::issued_count, (&*state,), before),
        call_ensures(AppState::issued_count, (final(state),), after),
        call_ensures(AppState::take_log, (first,), entries),
        *second == *final(first),
        call_ensures(AppState::take_log, (second,), none),
    ensures
        after == n,
        before < u64::MAX ==> n == before + 1,
        entries@ == old(first)@.pending,
        none@.len() == 0,
{
}

/// A request is answered as its attestation is verified: refused with the words of the refusal, and else
/// not refused. Whatever comes of it, the nonces are what verifying leaves of them.
pub proof fn requests_are_answered_as_verified(
    state: &mut AppState,
    request: &UnsealRequest,
    moment: Moment,
    r: Result<UnsealResponse, AppError>,
    allowlist: &Allowlist,
    store: &mut NonceStore,
    verified: Result<(), Rejection>,
    words: String,
)
    requires
        moment.wf(),
        call_ensures(AppState::admit_at, (state, request, moment), r),
        store@ == state@.nonces,
        allowlist.ids() == state@.ids,
        call_ensures(
            attestation_verifier::verify_at,
            (request, allowlist, store, moment.nonce_clock),
            verified,
        ),
        verified matches Err(rejection) ==> call_ensures(Rejection::message, (&rejection,), words),
    ensures
        verified is Err ==> (r matches Err(AppError::VaultRejected(why)) && why@ == words@),
        verified is Ok ==> !(r matches Err(AppError::VaultRejected(_))),
        r is Ok ==> verified is Ok,
        final(state)@.nonces == final(store)@,
        final(state)@.origin == old(state)@.origin,
{
    if let Err(AppError::VaultRejected(why)) = r {
        let given = choose|given: Rejection| #[trigger]
            refused(given, why@, old(state)@, final(state)@, *request, moment);
        assert(attestation_verifier::verdict(
            Err(given),
            *request,
            old(state)@.ids,
            old(state)@.nonces,
            moment.nonce_clock,
        ));
    }
}

/// A granted request gets a certificate in its own name, with the next serial number, from the vault's own
/// authority, valid for five minutes from the moment of the request; it is logged as granted and counted.
pub proof fn granted_requests_get_their_certificate(
    state: &mut AppState,
    request: &UnsealRequest,
    moment: Moment,
    response: UnsealResponse,
)
    requires
        moment.wf(),
        call_ensures(AppState::admit_at, (state, request, moment), Ok(response)),
    ensures
        ({
            let bundle = response.bundle;
            &&& x509::certificate_in(bundle.cert_pem@) matches Some(read)
            &&& read.subject[0].text == request.service_name@ + ".securenet"@
            &&& read.not_before == moment.cert_clock
            &&& read.not_after == moment.cert_clock + 300
            &&& read.serial == Some(old(state)@.serial as nat)
            &&& bundle.expires_at.secs == moment.today.secs + 300
            &&& bundle.expires_at.nanos == moment.today.nanos
            &&& bundle.ca_pem@ == old(state)@.certificate
            &&& crate::text::value_of(bundle.serial@, 16) == old(state)@.serial
            &&& x509::was_generated(bundle.key_pem@)
            &&& Some(x509::signature_in(bundle.cert_pem@).subject_key) == x509::public_key_in(
                bundle.key_pem@,
            )
            &&& Some(x509::signature_in(bundle.cert_pem@).issuer_key) == x509::public_key_in(
                old(state)@.key,
            )
            &&& final(state)@.pending.len() == old(state)@.pending.len() + 1
            &&& final(state)@.pending.drop_last() == old(state)@.pending
            &&& final(state)@.pending.last().granted
            &&& final(state)@.pending.last().reason is None
            &&& final(state)@.pending.last().service_name@ == request.service_name@
            &&& final(state)@.pending.last().machine_id@ == request.machine_id@
            &&& final(state)@.pending.last().cert_serial@ == bundle.serial@
            &&& final(state)@.pending.last().expires_at == bundle.expires_at
            &&& final(state)@.pending.last().timestamp == moment.logged
        }),
        old(state)@.issued < u64::MAX ==> final(state)@.issued == old(state)@.issued + 1,
        old(state)@.serial < u64::MAX ==> final(state)@.serial == old(state)@.serial + 1,
        final(state)@.revoked == old(state)@.revoked,
        final(state)@.ids == old(state)@.ids,
        final(state)@.certificate == old(state)@.certificate,
        final(state)@.key == old(state)@.key,
{
    reveal_with_fuel(crate::text::pow16, 17);
    crate::text::padded_hex_has_the_value(old(state)@.serial as int, 16);
}

/// A refused request is logged with its reason, gets no certificate and uses up no serial number.
pub proof fn refused_requests_are_logged(
    state: &mut AppState,
    request: &UnsealRequest,
    moment: Moment,
    why: String,
)
    requires
        moment.wf(),
        call_ensures(
            AppState::admit_at,
            (state, request, moment),
            Err::<UnsealResponse, AppError>(AppError::VaultRejected(why)),
        ),
    ensures
        final(state)@.pending.len() == old(state)@.pending.len() + 1,
        final(state)@.pending.drop_last() == old(state)@.pending,
        ({
            let entry = final(state)@.pending.last();
            &&& !entry.granted
            &&& entry.reason matches Some(text) && text@ == why@
            &&& entry.service_name@ == request.service_name@
            &&& entry.machine_id@ == request.machine_id@
            &&& entry.cert_serial@.len() == 0
            &&& entry.timestamp == moment.logged
            &&& entry.expires_at == moment.logged_expiry
        }),
        final(state)@.issued == old(state)@.issued,
        final(state)@.serial == old(state)@.serial,
        final(state)@.revoked == old(state)@.revoked,
        final(state)@.ids == old(state)@.ids,
        final(state)@.certificate == old(state)@.certificate,
        final(state)@.key == old(state)@.key,
{
}

/// A request that passes and gets no certificate has a reason: the clock, a name that is not in ASCII, the
/// authority's certificate, or a failure to generate the key or to sign. It is answered 500, and neither
/// logged nor counted.
pub proof fn requests_fail_for_a_reason(
    state: &mut AppState,
    request: &UnsealRequest,
    moment: Moment,
    error: AppError,
)
    requires
        moment.wf(),
        call_ensures(
            AppState::admit_at,
            (state, request, moment),
            Err::<UnsealResponse, AppError>(error),
        ),
        !(error is VaultRejected),
    ensures
        error is Internal,
        final(state)@.pending == old(state)@.pending,
        final(state)@.issued == old(state)@.issued,
        final(state)@.revoked == old(state)@.revoked,
        final(state)@.ids == old(state)@.ids,
        final(state)@.certificate == old(state)@.certificate,
        final(state)@.key == old(state)@.key,
        ({
            let why = error->Internal_0@;
            let dated = -62_167_219_200 <= moment.cert_clock && moment.cert_clock + 300
                <= 253_402_300_799 && moment.today.secs + 300 <= 8_210_266_876_799;
            let named = forall|i: int|
                0 <= i < request.service_name@.len() ==> (#[trigger] request.service_name@[i]) as u32
                    <= 127;
            ||| !dated && why == "system clock is out of range"@
            ||| dated && !named && why == "failed to build cert params"@
            ||| x509::generating_failed() && why == "failed to generate leaf key pair"@
            ||| !issuer::usable(old(state)@.certificate) && why == "failed to parse CA cert PEM"@
            ||| issuer::signing_failed(
                issuer::leaf_settings(
                    request.service_name@,
                    moment.cert_clock as int,
                    old(state)@.serial as nat,
                ),
                old(state)@.key,
                true,
            ) && why == "failed to reconstruct CA cert"@
            ||| issuer::signing_failed(
                issuer::leaf_settings(
                    request.service_name@,
                    moment.cert_clock as int,
                    old(state)@.serial as nat,
                ),
                old(state)@.key,
                false,
            ) && why == "CA signing failed"@
        }),
{
    let why = error->Internal_0@;
    let cause = choose|cause: IssueError| #[trigger]
        failed(cause, why, old(state)@, final(state)@, *request, moment);
    assert(issuer::issue_outcome(
        Err(cause),
        request.service_name@,
        old(state)@.certificate,
        old(state)@.key,
        old(state)@.serial,
        moment.cert_clock,
        moment.today,
    ));
}

/// What issuing has given is handed out, logged and counted, or answered 500 with its words.
pub proof fn outcomes_of_issuing_are_settled(
    state: &mut AppState,
    request: &UnsealRequest,
    issued: Result<CertBundle, IssueError>,
    logged: Timestamp,
    r: Result<UnsealResponse, AppError>,
    words: &'static str,
)
    requires
        logged.wf(),
        call_ensures(AppState::settle_at, (state, request, issued, logged), r),
        issued matches Err(error) ==> call_ensures(IssueError::message, (&error,), words),
    ensures
        issued matches Ok(bundle) ==> {
            &&& r matches Ok(response)
            &&& response.bundle == bundle
            &&& final(state)@.pending.len() == old(state)@.pending.len() + 1
            &&& final(state)@.pending.drop_last() == old(state)@.pending
            &&& final(state)@.pending.last().granted
            &&& final(state)@.pending.last().service_name@ == request.service_name@
            &&& final(state)@.pending.last().machine_id@ == request.machine_id@
            &&& final(state)@.pending.last().cert_serial@ == bundle.serial@
            &&& final(state)@.pending.last().expires_at == bundle.expires_at
            &&& final(state)@.pending.last().timestamp == logged
            &&& old(state)@.issued < u64::MAX ==> final(state)@.issued == old(state)@.issued + 1
        },
        issued is Err ==> (r matches Err(AppError::Internal(why)) && why@ == words@) && final(state)@ == old(state)@,
        final(state)@.nonces == old(state)@.nonces,
        final(state)@.serial == old(state)@.serial,
        final(state)@.revoked == old(state)@.revoked,
{
}

/// The times that a request is handled by are those that the clocks show.
pub proof fn moments_are_shown_by_the_clocks(state: &AppState, moment: Moment)
    requires
        call_ensures(AppState::moment, (state,), moment),
    ensures
        attestation_verifier::has_elapsed(state@.origin, moment.nonce_clock),
        clock::was_dated(moment.cert_clock),
        clock::was_shown(moment.today),
        clock::was_shown(moment.logged),
        clock::was_shown(moment.logged_expiry),
        moment.wf(),
{
}

/// A fresh nonce has 32 bytes, drawn at random, and can be used for 30 seconds from what the clock shows.
pub proof fn fresh_nonces_are_random_and_usable(
    state: &mut AppState,
    nonce: Vec<u8>,
    store: &mut NonceStore,
    presented: &[u8],
    now: u128,
    used: bool,
)
    requires
        call_ensures(AppState::fresh_nonce, (state,), nonce),
        store@ == final(state)@.nonces,
        presented@ == nonce@,
        call_ensures(NonceStore::consume_at, (store, presented, now), used),
    ensures
        nonce@.len() == 32,
        was_drawn(nonce@),
        exists|issued_at: u128| #[trigger]
            attestation_verifier::has_elapsed(old(state)@.origin, issued_at) && (used <==> now
                < issued_at + 30_000_000_000),
        final(state)@ == (Vault { nonces: final(state)@.nonces, ..old(state)@ }),
{
    let issued_at = choose|issued_at: u128|
        final(state)@ == (Vault {
            nonces: #[trigger] attestation_verifier::with_nonce(
                old(state)@.nonces,
                nonce@,
                issued_at,
            ),
            ..old(state)@
        }) && attestation_verifier::has_elapsed(old(state)@.origin, issued_at);
    assert(attestation_verifier::has_elapsed(old(state)@.origin, issued_at));
}

} // verus!
