//! Certificate rotation without downtime.
//!
//! A certificate is renewed when nine tenths of its time have passed. A renewal is tried up to three
//! times, with a pause in between that doubles. The configuration in use is replaced as a whole and
//! only by one that was built without error.
use rustls::ServerConfig;
use vstd::prelude::*;

use crate::clock;
use crate::clock::Timestamp;
use crate::errors::AppError;
use crate::models;
use crate::models::CertBundle;
use crate::share;
use crate::text;
use crate::tls;

verus! {

/// A TLS configuration that is replaced when its certificate is renewed.
pub struct RotatingTlsConfig {
    inner: ServerConfig,
    serial: String,
    is_gateway: bool,
}

/// Whether `r` is the server configuration that a bundle gives, at the gateway or elsewhere.
pub open spec fn is_config(
    r: Result<ServerConfig, AppError>,
    bundle: CertBundle,
    gateway: bool,
) -> bool {
    if gateway {
        tls::is_gateway_config(r, bundle)
    } else {
        tls::is_server_config(r, bundle)
    }
}

fn build(bundle: &CertBundle, gateway: bool) -> (r: Result<ServerConfig, AppError>)
    ensures
        is_config(r, *bundle, gateway),
{
    if gateway {
        tls::gateway_server_config(bundle)
    } else {
        tls::server_config(bundle)
    }
}

/// Whether `r` is what building a configuration from a bundle gives.
pub open spec fn is_built(
    r: Result<RotatingTlsConfig, AppError>,
    bundle: CertBundle,
    gateway: bool,
) -> bool {
    match r {
        Ok(built) => {
            &&& is_config(Ok(built.config()), bundle, gateway)
            &&& built.serial() == bundle.serial@
            &&& built.gateway() == gateway
        },
        Err(error) => is_config(Err(error), bundle, gateway),
    }
}

/// Whether `after` is what is in use once the bundle was installed over `before`, with the outcome
/// `r`: the bundle's configuration, or what was in use before if there is an error.
pub open spec fn is_installed(
    r: Result<(), AppError>,
    before: RotatingTlsConfig,
    after: RotatingTlsConfig,
    bundle: CertBundle,
) -> bool {
    match r {
        Ok(_) => is_built(Ok(after), bundle, before.gateway()),
        Err(error) => after == before && is_config(Err(error), bundle, before.gateway()),
    }
}

impl RotatingTlsConfig {
    /// The configuration in use.
    pub closed spec fn config(&self) -> ServerConfig {
        self.inner
    }

    /// The serial number of the certificate in use.
    pub closed spec fn serial(&self) -> Seq<char> {
        self.serial@
    }

    /// Whether clients need no certificate.
    pub closed spec fn gateway(&self) -> bool {
        self.is_gateway
    }

    /// The configuration of a service, which demands certificates of its clients.
    pub fn new(bundle: &CertBundle) -> (r: Result<Self, AppError>)
        ensures
            is_built(r, *bundle, false),
    {
        match build(bundle, false) {
            Ok(inner) => Ok(
                RotatingTlsConfig { inner, serial: bundle.serial.clone(), is_gateway: false },
            ),
            Err(error) => Err(error),
        }
    }

    /// The configuration of the gateway, whose clients need no certificate.
    pub fn new_gateway(bundle: &CertBundle) -> (r: Result<Self, AppError>)
        ensures
            is_built(r, *bundle, true),
    {
        match build(bundle, true) {
            Ok(inner) => Ok(
                RotatingTlsConfig { inner, serial: bundle.serial.clone(), is_gateway: true },
            ),
            Err(error) => Err(error),
        }
    }

    /// The configuration in use.
    pub fn current(&self) -> (r: &ServerConfig)
        ensures
            *r == self.config(),
    {
        &self.inner
    }

    /// The serial number of the certificate in use.
    pub fn current_serial(&self) -> (r: String)
        ensures
            r@ == self.serial(),
    {
        self.serial.clone()
    }

    /// Puts a new certificate to use. If no configuration can be built from it, the one in use
    /// stays.
    pub fn install(&mut self, bundle: &CertBundle) -> (r: Result<(), AppError>)
        ensures
            is_installed(r, *old(self), *final(self), *bundle),
    {
        match build(bundle, self.is_gateway) {
            Ok(inner) => {
                self.inner = inner;
                self.serial = bundle.serial.clone();
                Ok(())
            },
            Err(error) => Err(error),
        }
    }
}

/// The pause in seconds before the first repeated attempt.
pub const FIRST_DELAY_SECS: u64 = 2;

/// How many attempts a renewal has.
pub const MAX_ATTEMPTS: u32 = 3;

/// The time in seconds after which a failed renewal counts as due again.
pub const RETRY_TTL_SECS: u64 = 30;

/// A renewal that is tried several times.
#[derive(Debug)]
pub struct Retry {
    failures: u32,
    max_attempts: u32,
    delay_secs: u64,
}

/// What has happened to a renewal that is tried several times.
#[derive(Debug)]
pub enum RetryEvent {
    /// It is to begin, or the wait before the next attempt is over.
    Ready,
    /// An attempt was made.
    Tried(Result<CertBundle, AppError>),
}

/// What is to be done next in a renewal that is tried several times.
#[derive(Debug)]
pub enum RetryAction {
    /// Make an attempt.
    Try,
    /// Wait so many seconds, then try again.
    Wait(u64),
    /// There are no more attempts.
    Finish(Result<CertBundle, AppError>),
}

/// The pause after a number of failed attempts: two seconds after the first, then twice as long
/// each time.
pub open spec fn pause_after(failures: nat) -> nat {
    vstd::arithmetic::power2::pow2(failures)
}

/// The text of the error when every attempt has failed.
pub open spec fn attempts_failed_text(max_attempts: nat) -> Seq<char> {
    "cert renewal failed after "@ + text::decimal(max_attempts) + " attempts"@
}

/// Whether `action` says that the renewal is given up.
pub open spec fn gives_up(action: RetryAction, max_attempts: nat) -> bool {
    action matches RetryAction::Finish(Err(AppError::VaultUnreachable(why))) && why@
        == attempts_failed_text(max_attempts)
}

/// Whether `action` is what follows when an attempt could be made: one is made, unless there are none
/// at all.
pub open spec fn follows_ready(action: RetryAction, max_attempts: nat) -> bool {
    if max_attempts == 0 {
        gives_up(action, max_attempts)
    } else {
        action is Try
    }
}

/// Whether `action` is what follows an attempt with the given outcome, when `failures` attempts had
/// failed before it.
pub open spec fn follows_attempt(
    action: RetryAction,
    failures: nat,
    max_attempts: nat,
    outcome: Result<CertBundle, AppError>,
) -> bool {
    match outcome {
        Ok(bundle) => action matches RetryAction::Finish(Ok(given)) && given == bundle,
        Err(_) => if failures + 1 < max_attempts {
            action matches RetryAction::Wait(secs) && secs == pause_after(failures + 1)
        } else {
            gives_up(action, max_attempts)
        },
    }
}

impl Retry {
    /// Whether another attempt is left if there are any, and the pause fits the failures so far.
    pub closed spec fn wf(&self) -> bool {
        &&& self.failures < self.max_attempts <= 63 || self.max_attempts == 0
        &&& self.failures <= self.max_attempts
        &&& self.delay_secs == vstd::arithmetic::power2::pow2((self.failures + 1) as nat)
    }

    /// How many attempts have failed.
    pub closed spec fn failures(&self) -> nat {
        self.failures as nat
    }

    /// How many attempts there are.
    pub closed spec fn max_attempts(&self) -> nat {
        self.max_attempts as nat
    }

    /// A renewal that is tried up to `max_attempts` times.
    pub fn new(max_attempts: u32) -> (r: Self)
        requires
            max_attempts <= 63,
        ensures
            r.wf(),
            r.failures() == 0,
            r.max_attempts() == max_attempts,
    {
        proof {
            vstd::arithmetic::power2::lemma2_to64();
        }
        Retry { failures: 0, max_attempts, delay_secs: FIRST_DELAY_SECS }
    }

    fn give_up(&self) -> (r: RetryAction)
        ensures
            gives_up(r, self.max_attempts()),
    {
        RetryAction::Finish(
            Err(
                AppError::VaultUnreachable(
                    text::concat3(
                        "cert renewal failed after ",
                        text::decimal_text(self.max_attempts).as_str(),
                        " attempts",
                    ),
                ),
            ),
        )
    }

    /// Takes one step of the renewal.
    pub fn retry_renew(&mut self, event: RetryEvent) -> (r: RetryAction)
        requires
            old(self).wf(),
        ensures
            final(self).wf(),
            final(self).max_attempts() == old(self).max_attempts(),
            final(self).failures() == old(self).failures() + if r is Wait {
                1int
            } else {
                0
            },
            match event {
                RetryEvent::Ready => follows_ready(r, old(self).max_attempts()),
                RetryEvent::Tried(outcome) => follows_attempt(
                    r,
                    old(self).failures(),
                    old(self).max_attempts(),
                    outcome,
                ),
            },
    {
        match event {
            RetryEvent::Ready => if self.max_attempts == 0 {
                self.give_up()
            } else {
                RetryAction::Try
            },
            RetryEvent::Tried(Ok(bundle)) => RetryAction::Finish(Ok(bundle)),
            RetryEvent::Tried(Err(_)) => {
                if self.failures + 1 < self.max_attempts {
                    let secs: u64 = self.delay_secs;
                    self.failures = self.failures + 1;
                    proof {
                        let n = (self.failures + 1) as nat;
                        vstd::arithmetic::power2::lemma_pow2_unfold(n);
                        if n < 63 {
                            vstd::arithmetic::power2::lemma_pow2_strictly_increases(n, 63);
                        }
                        vstd::arithmetic::power2::lemma2_to64_rest();
                    }
                    self.delay_secs = secs * 2;
                    RetryAction::Wait(secs)
                } else {
                    self.give_up()
                }
            },
        }
    }
}

/// What came back from the last step of a rotation.
#[derive(Debug)]
pub enum RotationEvent {
    /// The time to sleep is over.
    Slept,
    /// A renewal was tried.
    Renewed(Result<CertBundle, AppError>),
}

/// What is to be done next in a rotation.
#[derive(Debug)]
pub enum RotationAction {
    /// Sleep for so many seconds.
    Sleep(u64),
    /// Try to renew the certificate.
    Renew,
}

/// The endless task that renews a certificate before it expires.
#[derive(Debug)]
pub struct Rotation {
    ttl: u64,
    retry: Retry,
}

/// What a rotation remembers: the time that the certificate had left when the sleep was planned, and
/// the attempts of the current renewal that have failed.
pub struct Progress {
    pub ttl: u64,
    pub failures: nat,
}

/// The sleep that is planned for a remaining time.
pub open spec fn planned_sleep(ttl: u64) -> nat {
    share::nine_tenths_of(ttl as nat)
}

/// What an attempt to renew leads to: after a success with a usable certificate that certificate is
/// in use and the next sleep is planned by its time; after an unusable certificate or the last
/// failed attempt the one in use stays and the renewal is due again soon; after another failed
/// attempt there is a pause.
pub open spec fn rotates(
    before: Progress,
    after: Progress,
    tls_before: RotatingTlsConfig,
    tls_after: RotatingTlsConfig,
    outcome: Result<CertBundle, AppError>,
    now: Timestamp,
    sleep: nat,
) -> bool {
    match outcome {
        Ok(bundle) => {
            &&& after.failures == 0
            &&& sleep == planned_sleep(after.ttl)
            &&& {
                ||| is_installed(Ok(()), tls_before, tls_after, bundle) && after.ttl
                    == models::ttl_of(bundle.expires_at, now)
                ||| is_refused(tls_before, tls_after, bundle) && after.ttl == RETRY_TTL_SECS
            }
        },
        Err(_) => {
            &&& tls_after == tls_before
            &&& if before.failures + 1 < MAX_ATTEMPTS {
                &&& after.failures == before.failures + 1
                &&& after.ttl == before.ttl
                &&& sleep == pause_after(before.failures + 1)
            } else {
                &&& after.failures == 0
                &&& after.ttl == RETRY_TTL_SECS
                &&& sleep == planned_sleep(RETRY_TTL_SECS)
            }
        },
    }
}

/// Whether no configuration can be built from the bundle, and the one in use stays.
pub open spec fn is_refused(
    before: RotatingTlsConfig,
    after: RotatingTlsConfig,
    bundle: CertBundle,
) -> bool {
    exists|error: AppError| #[trigger] is_installed(Err(error), before, after, bundle)
}

impl Rotation {
    /// Whether another attempt is left.
    pub closed spec fn wf(&self) -> bool {
        self.retry.wf() && self.retry.max_attempts() == MAX_ATTEMPTS
    }

    /// What the rotation remembers.
    pub closed spec fn progress(&self) -> Progress {
        Progress { ttl: self.ttl, failures: self.retry.failures() }
    }

    /// The rotation of a certificate with so many seconds left.
    pub fn new(initial_ttl: u64) -> (r: Self)
        ensures
            r.wf(),
            r.progress() == (Progress { ttl: initial_ttl, failures: 0 }),
    {
        Rotation { ttl: initial_ttl, retry: Retry::new(MAX_ATTEMPTS) }
    }

    /// How many seconds to sleep before the next renewal.
    pub fn sleep_secs(&self) -> (r: u64)
        ensures
            r == planned_sleep(self.progress().ttl),
    {
        share::nine_tenths(self.ttl)
    }

    /// Takes one step of the rotation while the clock shows `now`.
    pub fn advance_at(
        &mut self,
        tls_config: &mut RotatingTlsConfig,
        event: RotationEvent,
        now: Timestamp,
    ) -> (r: RotationAction)
        requires
            old(self).wf(),
            now.wf(),
            event matches RotationEvent::Renewed(Ok(bundle)) ==> bundle.expires_at.wf(),
        ensures
            final(self).wf(),
            match event {
                RotationEvent::Slept => {
                    &&& r is Renew
                    &&& final(self).progress() == old(self).progress()
                    &&& *final(tls_config) == *old(tls_config)
                },
                RotationEvent::Renewed(outcome) => {
                    &&& r matches RotationAction::Sleep(secs)
                    &&& rotates(
                        old(self).progress(),
                        final(self).progress(),
                        *old(tls_config),
                        *final(tls_config),
                        outcome,
                        now,
                        secs as nat,
                    )
                },
            },
    {
        let outcome: Result<CertBundle, AppError> = match event {
            RotationEvent::Slept => {
                let action: RetryAction = self.retry.retry_renew(RetryEvent::Ready);
                assert(action is Try);
                return RotationAction::Renew;
            },
            RotationEvent::Renewed(outcome) => outcome,
        };
        match self.retry.retry_renew(RetryEvent::Tried(outcome)) {
            RetryAction::Try => {
                return RotationAction::Renew;
            },
            RetryAction::Wait(secs) => {
                return RotationAction::Sleep(secs);
            },
            RetryAction::Finish(Ok(bundle)) => {
                let installed: Result<(), AppError> = tls_config.install(&bundle);
                match installed {
                    Ok(_) => {
                        self.ttl = bundle.ttl_secs_at(&now);
                    },
                    Err(error) => {
                        assert(is_installed(Err(error), *old(tls_config), *tls_config, bundle));
                        self.ttl = RETRY_TTL_SECS;
                    },
                }
            },
            RetryAction::Finish(Err(_)) => {
                self.ttl = RETRY_TTL_SECS;
            },
        }
        self.retry = Retry::new(MAX_ATTEMPTS);
        RotationAction::Sleep(self.sleep_secs())
    }

    /// Takes one step of the rotation.
    pub fn advance(&mut self, tls_config: &mut RotatingTlsConfig, event: RotationEvent) -> (r:
        RotationAction)
        requires
            old(self).wf(),
            event matches RotationEvent::Renewed(Ok(bundle)) ==> bundle.expires_at.wf(),
        ensures
            final(self).wf(),
            match event {
                RotationEvent::Slept => {
                    &&& r is Renew
                    &&& final(self).progress() == old(self).progress()
                    &&& *final(tls_config) == *old(tls_config)
                },
                RotationEvent::Renewed(outcome) => {
                    &&& r matches RotationAction::Sleep(secs)
                    &&& exists|now: Timestamp| #[trigger]
                        rotates(
                            old(self).progress(),
                            final(self).progress(),
                            *old(tls_config),
                            *final(tls_config),
                            outcome,
                            now,
                            secs as nat,
                        ) && now.wf() && clock::was_shown(now)
                },
            },
    {
        let now: Timestamp = clock::now();
        self.advance_at(tls_config, event, now)
    }
}

/// A renewal that fails keeps the certificate in use, however it fails.
pub proof fn failures_keep_the_certificate(
    before: Progress,
    after: Progress,
    tls_before: RotatingTlsConfig,
    tls_after: RotatingTlsConfig,
    error: AppError,
    now: Timestamp,
    sleep: nat,
)
    requires
        rotates(before, after, tls_before, tls_after, Err(error), now, sleep),
    ensures
        tls_after == tls_before,
{
}

/// The certificate in use changes only to the one that was given, and its serial number with it.
pub proof fn only_given_certificates_are_used(
    before: Progress,
    after: Progress,
    tls_before: RotatingTlsConfig,
    tls_after: RotatingTlsConfig,
    outcome: Result<CertBundle, AppError>,
    now: Timestamp,
    sleep: nat,
)
    requires
        rotates(before, after, tls_before, tls_after, outcome, now, sleep),
    ensures
        tls_after != tls_before ==> {
            &&& outcome matches Ok(bundle)
            &&& is_built(Ok(tls_after), bundle, tls_before.gateway())
            &&& tls_after.serial() == bundle.serial@
        },
{
}

/// A rotation sleeps for less than the time that is left, so the renewal comes before the expiry;
/// up to 2^49 seconds it sleeps for nine tenths of it.
pub proof fn renewal_is_in_time(ttl: u64)
    ensures
        ttl > 0 ==> planned_sleep(ttl) < ttl,
        ttl <= 562_949_953_421_312 ==> planned_sleep(ttl) == 9 * ttl as nat / 10,
{
    if ttl > 0 {
        share::nine_tenths_is_less(ttl as nat);
    }
    if ttl <= 562_949_953_421_312 {
        share::nine_tenths_is_exact(ttl as nat);
    }
}

/// A certificate has five minutes when it is issued, and is renewed half a minute before its end.
pub proof fn fresh_certificates_are_renewed_after_270_seconds(expires_at: Timestamp, today: Timestamp)
    requires
        expires_at.secs == today.secs + crate::vault::issuer::CERT_TTL_SECS,
        expires_at.nanos == today.nanos,
    ensures
        models::ttl_of(expires_at, today) == 300,
        planned_sleep(models::ttl_of(expires_at, today) as u64) == 270,
{
    share::nine_tenths_is_exact(300);
}

/// The pauses between attempts start at two seconds and double.
pub proof fn pauses_double(failures: nat)
    requires
        failures > 0,
    ensures
        pause_after(1) == FIRST_DELAY_SECS,
        pause_after(failures + 1) == 2 * pause_after(failures),
{
    vstd::arithmetic::power2::lemma2_to64();
    vstd::arithmetic::power2::lemma_pow2_unfold(failures + 1);
}

/// Failing attempts come to an end: after as many failures as there are attempts, the renewal is
/// given up.
pub proof fn attempts_are_bounded(
    action: RetryAction,
    failures: nat,
    max_attempts: nat,
    error: AppError,
)
    requires
        follows_attempt(action, failures, max_attempts, Err(error)),
    ensures
        action is Wait <==> failures + 1 < max_attempts,
        failures + 1 == max_attempts ==> action is Finish,
{
}

/// Without attempts nothing is tried: the renewal is given up at once, with an error that names no
/// attempts.
pub proof fn no_attempts_are_given_up_at_once(action: RetryAction)
    requires
        follows_ready(action, 0),
    ensures
        action matches RetryAction::Finish(Err(AppError::VaultUnreachable(why))) && why@
            == "cert renewal failed after "@ + seq!['0'] + " attempts"@,
{
}

/// The gateway never demands a certificate of its clients, and a service always does: whichever bundle
/// the configuration was made from.
pub proof fn only_services_demand_certificates(
    bundle: &CertBundle,
    gateway: RotatingTlsConfig,
    open: &ServerConfig,
    service: RotatingTlsConfig,
    mutual: &ServerConfig,
)
    requires
        call_ensures(RotatingTlsConfig::new_gateway, (bundle,), Ok(gateway)),
        call_ensures(RotatingTlsConfig::current, (&gateway,), open),
        call_ensures(RotatingTlsConfig::new, (bundle,), Ok(service)),
        call_ensures(RotatingTlsConfig::current, (&service,), mutual),
    ensures
        tls::server_terms(*open).client_anchors is None,
        tls::server_terms(*mutual).client_anchors matches Some(roots) && roots.len() > 0,
        tls::server_terms(*open).chain == tls::server_terms(*mutual).chain,
        tls::server_terms(*open).key == tls::server_terms(*mutual).key,
        gateway.gateway() && !service.gateway(),
{
}

/// A configuration is built whenever the bundle gives one, and with it the bundle's serial number is in
/// use.
pub proof fn configurations_are_built_from_bundles(
    bundle: &CertBundle,
    gateway: Result<RotatingTlsConfig, AppError>,
    open: Result<ServerConfig, AppError>,
    service: Result<RotatingTlsConfig, AppError>,
    mutual: Result<ServerConfig, AppError>,
    serial: String,
    gateway_serial: String,
)
    requires
        call_ensures(RotatingTlsConfig::new_gateway, (bundle,), gateway),
        call_ensures(tls::gateway_server_config, (bundle,), open),
        call_ensures(RotatingTlsConfig::new, (bundle,), service),
        call_ensures(tls::server_config, (bundle,), mutual),
        service matches Ok(built) ==> call_ensures(
            RotatingTlsConfig::current_serial,
            (&built,),
            serial,
        ),
        gateway matches Ok(built) ==> call_ensures(
            RotatingTlsConfig::current_serial,
            (&built,),
            gateway_serial,
        ),
    ensures
        gateway is Ok <==> open is Ok,
        service is Ok <==> mutual is Ok,
        service is Ok ==> serial@ == bundle.serial@,
        gateway is Ok ==> gateway_serial@ == bundle.serial@,
{
}

/// Installing a bundle puts its certificate and its serial number to use, and what is demanded of clients
/// stays: nothing at the gateway, a certificate elsewhere. A bundle that gives no configuration changes
/// nothing.
pub proof fn installing_keeps_the_demands(
    config: &mut RotatingTlsConfig,
    bundle: &CertBundle,
    r: Result<(), AppError>,
    current: &ServerConfig,
    serial: String,
    open: Result<ServerConfig, AppError>,
    mutual: Result<ServerConfig, AppError>,
)
    requires
        call_ensures(RotatingTlsConfig::install, (config, bundle), r),
        call_ensures(RotatingTlsConfig::current, (final(config),), current),
        call_ensures(RotatingTlsConfig::current_serial, (final(config),), serial),
        call_ensures(tls::gateway_server_config, (bundle,), open),
        call_ensures(tls::server_config, (bundle,), mutual),
    ensures
        r is Err ==> *final(config) == *old(config),
        final(config).gateway() == old(config).gateway(),
        r is Ok ==> serial@ == bundle.serial@,
        if old(config).gateway() {
            &&& r is Ok <==> open is Ok
            &&& r matches Err(error) ==> crate::errors::message_of(error)
                == crate::errors::message_of(open->Err_0)
            &&& r is Ok ==> tls::server_terms(*current) == tls::server_terms(open->Ok_0)
            &&& r is Ok ==> tls::server_terms(*current).client_anchors is None
        } else {
            &&& r is Ok <==> mutual is Ok
            &&& r matches Err(error) ==> crate::errors::message_of(error)
                == crate::errors::message_of(mutual->Err_0)
            &&& r is Ok ==> tls::server_terms(*current) == tls::server_terms(mutual->Ok_0)
            &&& r is Ok ==> tls::server_terms(*current).client_anchors is Some
        },
{
}

/// A renewal that is tried several times: the first attempt is made at once, a success ends it with the
/// certificate that was given, and a failure leads to a pause of 2, 4, 8... seconds or, if it was the
/// last attempt, to an error that names the number of attempts.
pub proof fn attempts_are_repeated(
    max_attempts: u32,
    made: Retry,
    retry: &mut Retry,
    event: RetryEvent,
    r: RetryAction,
)
    requires
        max_attempts <= 63,
        call_ensures(Retry::new, (max_attempts,), made),
        retry.wf(),
        retry.max_attempts() == made.max_attempts(),
        retry.failures() >= made.failures(),
        call_ensures(Retry::retry_renew, (retry, event), r),
    ensures
        made.failures() == 0,
        final(retry).wf(),
        final(retry).max_attempts() == max_attempts,
        event is Ready && max_attempts > 0 ==> r is Try,
        event is Ready && max_attempts == 0 ==> (r matches RetryAction::Finish(Err(error))
            && error is VaultUnreachable),
        event is Ready ==> final(retry).failures() == old(retry).failures(),
        event matches RetryEvent::Tried(Ok(bundle)) ==> r matches RetryAction::Finish(Ok(given))
            && given == bundle,
        event matches RetryEvent::Tried(Err(_)) ==> if old(retry).failures() + 1 < max_attempts {
            &&& final(retry).failures() == old(retry).failures() + 1
            &&& r matches RetryAction::Wait(secs)
            &&& old(retry).failures() == 0 ==> secs == 2
            &&& old(retry).failures() == 1 ==> secs == 4
            &&& secs == vstd::arithmetic::power2::pow2(old(retry).failures() + 1)
        } else {
            &&& r matches RetryAction::Finish(Err(AppError::VaultUnreachable(why)))
            &&& exists|digits: Seq<char>|
                why@ == "cert renewal failed after "@ + digits + " attempts"@
                    && #[trigger] text::value_of(digits, 10) == max_attempts
        },
{
    vstd::arithmetic::power2::lemma2_to64();
    text::decimal_has_the_value(max_attempts as nat);
    assert(text::value_of(text::decimal(max_attempts as nat), 10) == max_attempts);
}

/// A rotation first sleeps for nine tenths of the time that its certificate has left, and then renews.
pub proof fn rotations_sleep_then_renew(
    ttl: u64,
    made: Rotation,
    secs: u64,
    rotation: &mut Rotation,
    config: &mut RotatingTlsConfig,
    now: Timestamp,
    r: RotationAction,
)
    requires
        call_ensures(Rotation::new, (ttl,), made),
        call_ensures(Rotation::sleep_secs, (&made,), secs),
        rotation.wf(),
        now.wf(),
        call_ensures(
            Rotation::advance_at,
            (rotation, config, RotationEvent::Slept, now),
            r,
        ),
    ensures
        made.wf(),
        ttl <= 562_949_953_421_312 ==> 10 * secs <= 9 * ttl < 10 * (secs + 1),
        ttl > 0 ==> secs < ttl,
        r is Renew,
        *final(config) == *old(config),
        final(rotation).wf() && final(rotation).progress() == old(rotation).progress(),
{
    renewal_is_in_time(ttl);
}

/// A renewed certificate is put to use if it can be, and the next sleep is nine tenths of its time; if it
/// cannot, the one in use stays and the next renewal is due after 27 seconds. Either way the attempts
/// start anew.
pub proof fn renewed_certificates_are_put_to_use(
    rotation: &mut Rotation,
    config: &mut RotatingTlsConfig,
    bundle: CertBundle,
    now: Timestamp,
    r: RotationAction,
    same: &mut RotatingTlsConfig,
    installed: Result<(), AppError>,
    ttl: u64,
)
    requires
        rotation.wf(),
        now.wf(),
        bundle.expires_at.wf(),
        call_ensures(
            Rotation::advance_at,
            (rotation, config, RotationEvent::Renewed(Ok(bundle)), now),
            r,
        ),
        *same == *config,
        call_ensures(RotatingTlsConfig::install, (same, &bundle), installed),
        call_ensures(CertBundle::ttl_secs_at, (&bundle, &now), ttl),
    ensures
        final(rotation).wf() && final(rotation).progress().failures == 0,
        r matches RotationAction::Sleep(secs) && if installed is Ok {
            &&& final(config).serial() == bundle.serial@
            &&& final(config).gateway() == old(config).gateway()
            &&& tls::server_terms(final(config).config()) == tls::server_terms(
                final(same).config(),
            )
            &&& 10 * secs <= 9 * ttl < 10 * (secs + 1)
        } else {
            &&& *final(config) == *old(config)
            &&& secs == 27
        },
{
    share::nine_tenths_is_exact(30);
    assert(ttl <= 562_949_953_421_312) by {
        assert(bundle.expires_at@ - now@ <= 16_544_868_105_600 * 1_000_000_000);
    }
    share::nine_tenths_is_exact(ttl as nat);
}

/// Failed renewals change nothing but the time of the next one: it comes after 2 seconds, then after 4,
/// and after the third failure in 27 seconds, whatever the errors are and whatever the clock shows.
pub proof fn failed_renewals_are_repeated(
    ttl: u64,
    made: Rotation,
    first: &mut Rotation,
    second: &mut Rotation,
    third: &mut Rotation,
    configs: (&mut RotatingTlsConfig, &mut RotatingTlsConfig, &mut RotatingTlsConfig),
    errors: (AppError, AppError, AppError),
    times: (Timestamp, Timestamp, Timestamp),
    r: (RotationAction, RotationAction, RotationAction),
)
    requires
        call_ensures(Rotation::new, (ttl,), made),
        times.0.wf() && times.1.wf() && times.2.wf(),
        first.wf() && second.wf() && third.wf(),
        first.progress() == made.progress(),
        call_ensures(
            Rotation::advance_at,
            (first, configs.0, RotationEvent::Renewed(Err(errors.0)), times.0),
            r.0,
        ),
        second.progress() == final(first).progress(),
        call_ensures(
            Rotation::advance_at,
            (second, configs.1, RotationEvent::Renewed(Err(errors.1)), times.1),
            r.1,
        ),
        third.progress() == final(second).progress(),
        call_ensures(
            Rotation::advance_at,
            (third, configs.2, RotationEvent::Renewed(Err(errors.2)), times.2),
            r.2,
        ),
    ensures
        r.0 == RotationAction::Sleep(2),
        r.1 == RotationAction::Sleep(4),
        r.2 == RotationAction::Sleep(27),
        final(third).progress().failures == made.progress().failures,
        *final(configs.0) == *old(configs.0),
        *final(configs.1) == *old(configs.1),
        *final(configs.2) == *old(configs.2),
{
    vstd::arithmetic::power2::lemma2_to64();
    share::nine_tenths_is_exact(30);
}

/// A rotation goes by what the system clock shows: the sleep after a renewed certificate is nine tenths
/// of the time from then to its expiry.
pub proof fn rotations_go_by_the_clock(
    rotation: &mut Rotation,
    config: &mut RotatingTlsConfig,
    bundle: CertBundle,
    r: RotationAction,
    same: &mut RotatingTlsConfig,
    installed: Result<(), AppError>,
)
    requires
        rotation.wf(),
        bundle.expires_at.wf(),
        call_ensures(
            Rotation::advance,
            (rotation, config, RotationEvent::Renewed(Ok(bundle))),
            r,
        ),
        *same == *config,
        call_ensures(RotatingTlsConfig::install, (same, &bundle), installed),
    ensures
        r matches RotationAction::Sleep(secs) && if installed is Ok {
            exists|now: Timestamp| #[trigger]
                clock::was_shown(now) && {
                    let left = models::nanos_between(now, bundle.expires_at);
                    if left <= 0 {
                        secs == 0
                    } else {
                        10 * secs <= 9 * (left / 1_000_000_000) < 10 * (secs + 1)
                    }
                }
        } else {
            *final(config) == *old(config) && secs == 27
        },
        installed is Ok ==> final(config).serial() == bundle.serial@,
{
    share::nine_tenths_is_exact(30);
    let secs = r->Sleep_0;
    let now = choose|now: Timestamp| #[trigger]
        rotates(
            old(rotation).progress(),
            final(rotation).progress(),
            *old(config),
            *final(config),
            Ok(bundle),
            now,
            secs as nat,
        ) && now.wf() && clock::was_shown(now);
    let ttl = models::ttl_of(bundle.expires_at, now);
    assert(ttl <= 562_949_953_421_312) by {
        assert(bundle.expires_at@ - now@ <= 16_544_868_105_600 * 1_000_000_000);
    }
    share::nine_tenths_is_exact(ttl);
    assert(clock::was_shown(now));
}

/// By the system clock too, the end of a sleep leads to a renewal, and a failed renewal keeps the
/// certificate in use.
pub proof fn failures_change_nothing_by_the_clock(
    rotation: &mut Rotation,
    config: &mut RotatingTlsConfig,
    event: RotationEvent,
    r: RotationAction,
)
    requires
        rotation.wf(),
        event is Slept || (event matches RotationEvent::Renewed(Err(_))),
        call_ensures(Rotation::advance, (rotation, config, event), r),
    ensures
        *final(config) == *old(config),
        event is Slept ==> r is Renew && final(rotation).progress() == old(rotation).progress(),
        event is Renewed ==> (r matches RotationAction::Sleep(secs) && if old(rotation).progress().failures == 0 {
            secs == 2
        } else if old(rotation).progress().failures == 1 {
            secs == 4
        } else {
            secs == 27
        }),
{
    vstd::arithmetic::power2::lemma2_to64();
    share::nine_tenths_is_exact(30);
}

} // verus!
