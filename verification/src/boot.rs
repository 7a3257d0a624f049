//! How a service starts: it unseals, builds its TLS configuration from the certificate, and plans
//! the first renewal.
use vstd::prelude::*;

use crate::clock;
use crate::clock::Timestamp;
use crate::errors::AppError;
use crate::handshake::VaultAction;
use crate::handshake::VaultEvent;
use crate::identity::ServiceIdentity;
use crate::models;
use crate::models::CertBundle;
use crate::rotation;
use crate::rotation::Rotation;
use crate::rotation::RotatingTlsConfig;
use crate::text;
use crate::vault_client::HttpVaultClient;

verus! {

/// Everything that a service needs once it is unsealed.
pub struct BootResult {
    /// The first certificate.
    pub bundle: CertBundle,
    /// The TLS configuration in use.
    pub tls_config: RotatingTlsConfig,
    /// The client that renewals go through.
    pub vault: HttpVaultClient,
    /// The service's identity.
    pub identity: ServiceIdentity,
    /// The task that renews the certificate.
    pub rotation: Rotation,
}

/// Why a service did not start: what was being done, and the error.
#[derive(Debug)]
pub struct BootError {
    pub context: String,
    pub cause: AppError,
}

/// What was being done when no configuration could be built.
pub open spec fn config_context(gateway: bool) -> Seq<char> {
    if gateway {
        "failed to build gateway TLS config"@
    } else {
        "failed to build TLS config from cert bundle"@
    }
}

/// What comes of starting a service with the outcome of its unsealing, at `now`.
pub open spec fn boots(
    r: Result<BootResult, BootError>,
    identity: ServiceIdentity,
    service_name: Seq<char>,
    vault_url: Seq<char>,
    unsealed: Result<CertBundle, AppError>,
    gateway: bool,
    now: Timestamp,
) -> bool {
    match unsealed {
        Err(error) => r matches Err(failure) && failure.cause == error && failure.context@
            == "failed to unseal with vault at "@ + vault_url,
        Ok(bundle) => match r {
            Ok(boot) => {
                &&& boot.bundle == bundle
                &&& rotation::is_built(Ok(boot.tls_config), bundle, gateway)
                &&& boot.vault.url() == vault_url
                &&& boot.vault.name() == service_name
                &&& boot.vault.certificate() == Some(bundle)
                &&& boot.identity == identity
                &&& boot.rotation.wf()
                &&& boot.rotation.progress() == (rotation::Progress {
                    ttl: models::ttl_of(bundle.expires_at, now) as u64,
                    failures: 0,
                })
            },
            Err(failure) => {
                &&& rotation::is_built(Err(failure.cause), bundle, gateway)
                &&& failure.context@ == config_context(gateway)
            },
        },
    }
}

/// Starts a service or the gateway with the outcome of its unsealing, at `now`.
pub fn start_at(
    identity: ServiceIdentity,
    service_name: &str,
    vault_url: &str,
    unsealed: Result<CertBundle, AppError>,
    gateway: bool,
    now: Timestamp,
) -> (r: Result<BootResult, BootError>)
    requires
        now.wf(),
        unsealed matches Ok(bundle) ==> bundle.expires_at.wf(),
    ensures
        boots(r, identity, service_name@, vault_url@, unsealed, gateway, now),
{
    let bundle: CertBundle = match unsealed {
        Ok(bundle) => bundle,
        Err(cause) => {
            return Err(
                BootError {
                    context: text::concat2("failed to unseal with vault at ", vault_url),
                    cause,
                },
            );
        },
    };
    let built: Result<RotatingTlsConfig, AppError> = if gateway {
        RotatingTlsConfig::new_gateway(&bundle)
    } else {
        RotatingTlsConfig::new(&bundle)
    };
    let tls_config: RotatingTlsConfig = match built {
        Ok(tls_config) => tls_config,
        Err(cause) => {
            let context: &'static str = if gateway {
                "failed to build gateway TLS config"
            } else {
                "failed to build TLS config from cert bundle"
            };
            return Err(BootError { context: context.to_owned(), cause });
        },
    };
    let vault = HttpVaultClient::new(vault_url, service_name, bundle.clone());
    let rotation = Rotation::new(bundle.ttl_secs_at(&now));
    Ok(BootResult { bundle, tls_config, vault, identity, rotation })
}

/// Starts a service with the outcome of its unsealing.
pub fn run(
    identity: ServiceIdentity,
    service_name: &str,
    vault_url: &str,
    unsealed: Result<CertBundle, AppError>,
) -> (r: Result<BootResult, BootError>)
    requires
        unsealed matches Ok(bundle) ==> bundle.expires_at.wf(),
    ensures
        exists|now: Timestamp| #[trigger]
            boots(r, identity, service_name@, vault_url@, unsealed, false, now) && now.wf()
                && clock::was_shown(now),
{
    let now: Timestamp = clock::now();
    start_at(identity, service_name, vault_url, unsealed, false, now)
}

/// Starts the gateway with the outcome of its unsealing. Its clients need no certificate.
pub fn run_gateway(
    identity: ServiceIdentity,
    service_name: &str,
    vault_url: &str,
    unsealed: Result<CertBundle, AppError>,
) -> (r: Result<BootResult, BootError>)
    requires
        unsealed matches Ok(bundle) ==> bundle.expires_at.wf(),
    ensures
        exists|now: Timestamp| #[trigger]
            boots(r, identity, service_name@, vault_url@, unsealed, true, now) && now.wf()
                && clock::was_shown(now),
{
    let now: Timestamp = clock::now();
    start_at(identity, service_name, vault_url, unsealed, true, now)
}

/// Once a service or the gateway has started, its renewals go to the vault that it was started with, in
/// its own name, and what it was unsealed with is what it holds.
pub proof fn started_services_renew_with_their_vault(
    identity: ServiceIdentity,
    service_name: &str,
    vault_url: &str,
    bundle: CertBundle,
    boot: BootResult,
    client: &mut HttpVaultClient,
    asked: VaultAction,
    held: Option<CertBundle>,
)
    requires
        bundle.expires_at.wf(),
        call_ensures(run, (identity, service_name, vault_url, Ok(bundle)), Ok(boot))
            || call_ensures(
            run_gateway,
            (identity, service_name, vault_url, Ok(bundle)),
            Ok(boot),
        ),
        *client == boot.vault,
        call_ensures(HttpVaultClient::renew, (client, service_name, VaultEvent::Start), asked),
        call_ensures(HttpVaultClient::bundle, (&boot.vault,), held),
    ensures
        asked matches VaultAction::FetchNonce(url) && url@ == vault_url@ + "/vault/nonce"@,
        boot.vault.name() == service_name@,
        held == Some(bundle),
        boot.bundle == bundle,
        boot.identity == identity,
{
}

/// The same at a given time.
pub proof fn services_started_at_a_time_renew_with_their_vault(
    identity: ServiceIdentity,
    service_name: &str,
    vault_url: &str,
    bundle: CertBundle,
    gateway: bool,
    now: Timestamp,
    boot: BootResult,
    client: &mut HttpVaultClient,
    event: VaultEvent,
    asked: VaultAction,
)
    requires
        now.wf(),
        bundle.expires_at.wf(),
        call_ensures(
            start_at,
            (identity, service_name, vault_url, Ok(bundle), gateway, now),
            Ok(boot),
        ),
        *client == boot.vault,
        call_ensures(HttpVaultClient::renew, (client, service_name, event), asked),
    ensures
        event is Start ==> (asked matches VaultAction::FetchNonce(url) && url@ == vault_url@
            + "/vault/nonce"@),
        asked matches VaultAction::Send { url, request } ==> url@ == vault_url@ + "/vault/renew"@
            && request.service_name@ == service_name@,
        boot.vault.name() == service_name@,
        boot.bundle == bundle,
        boot.identity == identity,
{
}

/// A service that has started demands certificates of its clients, the gateway does not, and both present
/// the certificate that they were unsealed with.
pub proof fn started_services_use_their_certificate(
    identity: ServiceIdentity,
    service_name: &str,
    vault_url: &str,
    bundle: CertBundle,
    gateway: bool,
    now: Timestamp,
    boot: BootResult,
    current: &rustls::ServerConfig,
    serial: String,
    first_sleep: u64,
    ttl: u64,
)
    requires
        now.wf(),
        bundle.expires_at.wf(),
        call_ensures(
            start_at,
            (identity, service_name, vault_url, Ok(bundle), gateway, now),
            Ok(boot),
        ),
        call_ensures(RotatingTlsConfig::current, (&boot.tls_config,), current),
        call_ensures(RotatingTlsConfig::current_serial, (&boot.tls_config,), serial),
        call_ensures(Rotation::sleep_secs, (&boot.rotation,), first_sleep),
        call_ensures(CertBundle::ttl_secs_at, (&bundle, &now), ttl),
    ensures
        gateway <==> crate::tls::server_terms(*current).client_anchors is None,
        gateway <==> boot.tls_config.gateway(),
        serial@ == bundle.serial@,
        10 * first_sleep <= 9 * ttl < 10 * (first_sleep + 1),
        boot.rotation.wf() && boot.rotation.progress().failures == 0,
{
    assert(ttl <= 562_949_953_421_312) by {
        assert(bundle.expires_at@ - now@ <= 16_544_868_105_600 * 1_000_000_000);
    }
    crate::share::nine_tenths_is_exact(ttl as nat);
}

/// A service that starts now demands certificates and the gateway does not, and the first renewal comes
/// after nine tenths of the time from what the clock shows to the expiry.
pub proof fn services_start_by_the_clock(
    identity: ServiceIdentity,
    service_name: &str,
    vault_url: &str,
    bundle: CertBundle,
    gateway: bool,
    boot: BootResult,
    current: &rustls::ServerConfig,
    serial: String,
    first_sleep: u64,
)
    requires
        bundle.expires_at.wf(),
        if gateway {
            call_ensures(
                run_gateway,
                (identity, service_name, vault_url, Ok(bundle)),
                Ok(boot),
            )
        } else {
            call_ensures(run, (identity, service_name, vault_url, Ok(bundle)), Ok(boot))
        },
        call_ensures(RotatingTlsConfig::current, (&boot.tls_config,), current),
        call_ensures(RotatingTlsConfig::current_serial, (&boot.tls_config,), serial),
        call_ensures(Rotation::sleep_secs, (&boot.rotation,), first_sleep),
    ensures
        gateway <==> crate::tls::server_terms(*current).client_anchors is None,
        gateway <==> boot.tls_config.gateway(),
        serial@ == bundle.serial@,
        exists|now: Timestamp| #[trigger]
            clock::was_shown(now) && {
                let left = models::nanos_between(now, bundle.expires_at);
                if left <= 0 {
                    first_sleep == 0
                } else {
                    10 * first_sleep <= 9 * (left / 1_000_000_000) < 10 * (first_sleep + 1)
                }
            },
{
    let now = choose|now: Timestamp| #[trigger]
        boots(
            Ok(boot),
            identity,
            service_name@,
            vault_url@,
            Ok(bundle),
            gateway,
            now,
        ) && now.wf() && clock::was_shown(now);
    let ttl = models::ttl_of(bundle.expires_at, now);
    assert(ttl <= 562_949_953_421_312) by {
        assert(bundle.expires_at@ - now@ <= 16_544_868_105_600 * 1_000_000_000);
    }
    crate::share::nine_tenths_is_exact(ttl);
    assert(clock::was_shown(now));
}

/// A service starts exactly if it was unsealed and its certificate gives a configuration; else the error
/// is the one of unsealing or of the configuration, and says what was being done.
pub proof fn services_start_if_they_can(
    identity: ServiceIdentity,
    service_name: &str,
    vault_url: &str,
    unsealed: Result<CertBundle, AppError>,
    gateway: bool,
    now: Timestamp,
    r: Result<BootResult, BootError>,
    built: Result<RotatingTlsConfig, AppError>,
)
    requires
        now.wf(),
        unsealed matches Ok(bundle) ==> bundle.expires_at.wf(),
        call_ensures(
            start_at,
            (identity, service_name, vault_url, unsealed, gateway, now),
            r,
        ),
        unsealed matches Ok(bundle) ==> if gateway {
            call_ensures(RotatingTlsConfig::new_gateway, (&bundle,), built)
        } else {
            call_ensures(RotatingTlsConfig::new, (&bundle,), built)
        },
    ensures
        r is Ok <==> unsealed is Ok && built is Ok,
        unsealed matches Err(error) ==> r matches Err(failure) && failure.cause == error
            && failure.context@ == "failed to unseal with vault at "@ + vault_url@,
        unsealed is Ok && built is Err ==> (r matches Err(failure) && failure.context@ == if gateway {
            "failed to build gateway TLS config"@
        } else {
            "failed to build TLS config from cert bundle"@
        } && crate::errors::message_of(failure.cause) == crate::errors::message_of(
            built->Err_0,
        )),
{
}

} // verus!
