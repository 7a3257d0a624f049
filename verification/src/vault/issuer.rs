//! Certificate issuance.
//!
//! An [`Issuer`] holds the root authority and signs a leaf certificate for each service that asks.
//! A leaf certificate is valid for five minutes and names everything that the service may be
//! reached under. Serial numbers come from a [`SerialCounter`], of which a process has one.
use rcgen::CertificateParams;
use vstd::prelude::*;

use crate::clock;
use crate::clock::Timestamp;
use crate::models::CertBundle;
use crate::text;
use crate::vault::x509;
use crate::vault::x509::CertProfile;
use crate::vault::x509::ExtendedUsage;
use crate::vault::x509::KeyUsage;

verus! {

/// How long a leaf certificate is valid, in seconds.
pub const CERT_TTL_SECS: i64 = 300;

/// How long a root certificate is valid, in seconds: ten years of 365 days.
pub const CA_TTL_SECS: i64 = 315_360_000;

/// Why no certificate was issued.
#[derive(Debug, Clone, Copy, PartialEq, Eq, Structural)]
pub enum IssueError {
    /// The authority's private key cannot be read.
    CaKey,
    /// The clock shows a time that no certificate can be dated at.
    Clock,
    /// The service's name cannot be written down in a certificate.
    Params,
    /// No key could be generated for the leaf certificate.
    LeafKey,
    /// The authority's certificate cannot be read.
    CaCertificate,
    /// The authority's certificate could not be rebuilt.
    CaRebuild,
    /// The leaf certificate could not be signed.
    Signing,
    /// The settings of a root certificate were refused.
    RootParams,
    /// No key could be generated for a root certificate.
    RootKey,
    /// A root certificate could not be signed.
    RootSigning,
}

/// The sentence that describes an error.
pub open spec fn issue_error_text(error: IssueError) -> Seq<char> {
    match error {
        IssueError::CaKey => "failed to parse CA private key"@,
        IssueError::Clock => "system clock is out of range"@,
        IssueError::Params => "failed to build cert params"@,
        IssueError::LeafKey => "failed to generate leaf key pair"@,
        IssueError::CaCertificate => "failed to parse CA cert PEM"@,
        IssueError::CaRebuild => "failed to reconstruct CA cert"@,
        IssueError::Signing => "CA signing failed"@,
        IssueError::RootParams => "failed to create CA params"@,
        IssueError::RootKey => "failed to generate CA key pair"@,
        IssueError::RootSigning => "failed to self-sign CA"@,
    }
}

impl IssueError {
    /// The sentence that describes this error.
    pub fn message(&self) -> (r: &'static str)
        ensures
            r@ == issue_error_text(*self),
    {
        match self {
            IssueError::CaKey => "failed to parse CA private key",
            IssueError::Clock => "system clock is out of range",
            IssueError::Params => "failed to build cert params",
            IssueError::LeafKey => "failed to generate leaf key pair",
            IssueError::CaCertificate => "failed to parse CA cert PEM",
            IssueError::CaRebuild => "failed to reconstruct CA cert",
            IssueError::Signing => "CA signing failed",
            IssueError::RootParams => "failed to create CA params",
            IssueError::RootKey => "failed to generate CA key pair",
            IssueError::RootSigning => "failed to self-sign CA",
        }
    }
}

/// Whether a certificate of `ttl` seconds can start at the second `now`.
pub open spec fn datable(now: i64, ttl: i64) -> bool {
    clock::FIRST_CERT_SECS <= now && now + ttl <= clock::LAST_CERT_SECS
}

/// What the leaf certificate of a service says when it is issued at the second `now`: the names
/// that the service is reached under, five minutes of validity, both ends of a TLS connection, and
/// no authority.
pub open spec fn leaf_settings(service_name: Seq<char>, now: int, serial: nat) -> x509::Settings {
    x509::Settings {
        subject: seq![
            x509::entry(x509::name_oid(x509::NameKind::CommonName), service_name + ".securenet"@),
            x509::entry(x509::name_oid(x509::NameKind::OrganizationName), "SecureNet"@),
        ],
        alt_names: seq![
            x509::alt_name(service_name),
            x509::AltName::Dns(service_name + ".securenet.svc.cluster.local"@),
            x509::AltName::Dns("localhost"@),
            x509::AltName::Address(seq![127u8, 0, 0, 1]),
        ],
        not_before: now,
        not_after: now + CERT_TTL_SECS,
        authority: false,
        key_usages: set![
            x509::usage_bit(KeyUsage::DigitalSignature),
            x509::usage_bit(KeyUsage::KeyEncipherment),
        ],
        extended_usages: set![
            x509::extended_usage_oid(ExtendedUsage::ServerAuth),
            x509::extended_usage_oid(ExtendedUsage::ClientAuth),
        ],
        serial: Some(serial),
        utc: true,
        constrained: false,
        plain: true,
    }
}

/// What a root certificate says when it is made at the second `now`: the authority to sign
/// certificates and revocation lists for ten years.
pub open spec fn root_settings(now: int) -> x509::Settings {
    x509::Settings {
        subject: seq![
            x509::entry(x509::name_oid(x509::NameKind::CommonName), "SecureNet Root CA"@),
            x509::entry(x509::name_oid(x509::NameKind::OrganizationName), "SecureNet"@),
        ],
        alt_names: Seq::empty(),
        not_before: now,
        not_after: now + CA_TTL_SECS,
        authority: true,
        key_usages: set![
            x509::usage_bit(KeyUsage::KeyCertSign),
            x509::usage_bit(KeyUsage::CrlSign),
        ],
        extended_usages: Set::empty(),
        serial: None,
        utc: true,
        constrained: false,
        plain: true,
    }
}

/// What the leaf certificate of a service is to say.
pub fn leaf_profile(service_name: &str, now: i64, serial: u64) -> (r: CertProfile)
    requires
        datable(now, CERT_TTL_SECS),
    ensures
        r.datable(),
        r.extended(),
        r.serial == Some(serial),
        r.writable() <==> x509::is_ascii(service_name@),
        r.settings() == leaf_settings(service_name@, now as int, serial as nat),
{
    let mut names: Vec<String> = Vec::new();
    names.push(service_name.to_owned());
    names.push(text::concat2(service_name, ".securenet.svc.cluster.local"));
    names.push("localhost".to_owned());
    let mut addresses: Vec<[u8; 4]> = Vec::new();
    addresses.push([127u8, 0, 0, 1]);
    let mut key_usages: Vec<KeyUsage> = Vec::new();
    key_usages.push(KeyUsage::DigitalSignature);
    key_usages.push(KeyUsage::KeyEncipherment);
    let mut extended_usages: Vec<ExtendedUsage> = Vec::new();
    extended_usages.push(ExtendedUsage::ServerAuth);
    extended_usages.push(ExtendedUsage::ClientAuth);
    let r = CertProfile {
        names,
        addresses,
        common_name: text::concat2(service_name, ".securenet"),
        organization: "SecureNet".to_owned(),
        not_before: now,
        not_after: now + CERT_TTL_SECS,
        authority: false,
        key_usages,
        extended_usages,
        serial: Some(serial),
    };
    proof {
        let suffix = ".securenet.svc.cluster.local"@;
        reveal_strlit(".securenet.svc.cluster.local");
        reveal_strlit("localhost");
        let long = service_name@ + suffix;
        assert(long[service_name@.len() as int + 1] == 's');
        assert(x509::plainly_no_address(long));
        assert("localhost"@[0] == 'l');
        assert(x509::plainly_no_address("localhost"@));
        assert(r.settings().alt_names == leaf_settings(
            service_name@,
            now as int,
            serial as nat,
        ).alt_names);
        assert(x509::is_ascii("localhost"@));
        assert(x509::is_ascii(suffix));
        if x509::is_ascii(service_name@) {
            assert(x509::is_ascii(long));
            assert(r.writable());
        } else {
            assert(!x509::is_ascii(r.names@[0]@));
        }
        two_to_set(
            x509::usage_bits(key_usages@),
            key_usages@.map_values(|u: KeyUsage| x509::usage_bit(u)),
        );
        two_to_set(
            x509::extended_usage_oids(extended_usages@),
            extended_usages@.map_values(|u: ExtendedUsage| x509::extended_usage_oid(u)),
        );
    }
    r
}

/// The set of a list of two.
proof fn two_to_set<A>(set: Set<A>, list: Seq<A>)
    requires
        set == list.to_set(),
        list.len() == 2,
    ensures
        set == set![list[0], list[1]],
{
    assert(list.contains(list[0]) && list.contains(list[1]));
    assert(set =~= set![list[0], list[1]]);
}

/// What a root certificate is to say.
pub fn root_profile(now: i64) -> (r: CertProfile)
    requires
        datable(now, CA_TTL_SECS),
    ensures
        r.datable(),
        r.writable(),
        r.settings() == root_settings(now as int),
{
    let mut key_usages: Vec<KeyUsage> = Vec::new();
    key_usages.push(KeyUsage::KeyCertSign);
    key_usages.push(KeyUsage::CrlSign);
    let r = CertProfile {
        names: Vec::new(),
        addresses: Vec::new(),
        common_name: "SecureNet Root CA".to_owned(),
        organization: "SecureNet".to_owned(),
        not_before: now,
        not_after: now + CA_TTL_SECS,
        authority: true,
        key_usages,
        extended_usages: Vec::new(),
        serial: None,
    };
    proof {
        two_to_set(
            x509::usage_bits(key_usages@),
            key_usages@.map_values(|u: KeyUsage| x509::usage_bit(u)),
        );
        assert(r.settings().extended_usages =~= Set::<Seq<nat>>::empty());
        assert(r.settings().alt_names =~= Seq::empty());
    }
    r
}

/// The number behind `n`, where the largest number is followed by zero.
pub open spec fn successor(n: u64) -> u64 {
    if n == u64::MAX {
        0
    } else {
        (n + 1) as u64
    }
}

/// The serial numbers of a process. There is one counter, from which every authority takes its serial
/// numbers.
#[derive(Debug)]
pub struct SerialCounter {
    next: u64,
}

impl SerialCounter {
    /// The serial number that is taken next.
    pub closed spec fn next(&self) -> u64 {
        self.next
    }

    /// A counter that starts at 1.
    pub fn new() -> (r: Self)
        ensures
            r.next() == 1,
    {
        SerialCounter { next: 1 }
    }

    /// Takes a serial number.
    pub fn take(&mut self) -> (r: u64)
        ensures
            r == old(self).next(),
            final(self).next() == successor(old(self).next()),
    {
        let serial: u64 = self.next;
        self.next = serial.wrapping_add(1);
        serial
    }
}

/// The root authority.
pub struct Issuer {
    ca_cert_pem: String,
    ca_key_pem: String,
}

/// Whether `bundle` is what a service gets when a certificate is issued at the second `now` of the
/// certificate clock and at `today`.
pub open spec fn issued(
    bundle: CertBundle,
    service_name: Seq<char>,
    ca_cert_pem: Seq<char>,
    ca_key_pem: Seq<char>,
    serial: u64,
    now: i64,
    today: Timestamp,
) -> bool {
    &&& is_certified(
        bundle.cert_pem@,
        leaf_settings(service_name, now as int, serial as nat),
        bundle.key_pem@,
        ca_cert_pem,
        ca_key_pem,
    )
    &&& x509::carries_serial(bundle.cert_pem@, serial as nat)
    &&& bundle.ca_pem@ == ca_cert_pem
    &&& bundle.serial@ == text::padded_hex(serial as int, 16)
    &&& bundle.expires_at.wf()
    &&& bundle.expires_at.secs == today.secs + CERT_TTL_SECS
    &&& bundle.expires_at.nanos == today.nanos
}

/// Whether a certificate says what `settings` say, is for the public half of a key, and is signed by
/// an authority with its key and in its name.
pub open spec fn is_certified(
    cert_pem: Seq<char>,
    settings: x509::Settings,
    key_pem: Seq<char>,
    ca_cert_pem: Seq<char>,
    ca_key_pem: Seq<char>,
) -> bool {
    &&& x509::certificate_in(cert_pem) == Some(settings)
    &&& x509::certificate_in(ca_cert_pem) matches Some(ca)
    &&& x509::public_key_in(ca_key_pem) matches Some(ca_key)
    &&& x509::public_key_in(key_pem) matches Some(key)
    &&& x509::signature_in(cert_pem) == (x509::Signature {
        issuer: ca.subject,
        issuer_key: ca_key,
        subject_key: key,
    })
}

/// Whether certificates can be signed in the name of the authority with this certificate: it can be
/// read, and its subject can be written down.
pub open spec fn usable(ca_cert_pem: Seq<char>) -> bool {
    x509::certificate_in(ca_cert_pem) matches Some(ca) && x509::nameable(ca.subject)
}

/// Whether no certificate with the given settings came of signing one for a fresh key with an
/// authority's key: the authority's certificate could not be rebuilt, or the leaf not be signed.
pub open spec fn signing_failed(
    settings: x509::Settings,
    ca_key_pem: Seq<char>,
    rebuilding: bool,
) -> bool {
    exists|key_pem: Seq<char>, signed: Result<Result<String, rcgen::Error>, rcgen::Error>|
        {
            &&& x509::was_generated(key_pem)
            &&& #[trigger] x509::signing_gave(settings, key_pem, ca_key_pem, signed)
            &&& if rebuilding {
                signed is Err
            } else {
                signed matches Ok(Err(_))
            }
        }
}

/// What may come of issuing a certificate. A key that cannot be generated and a signature that
/// cannot be made are reported whenever they occur; every other error comes exactly on the inputs
/// given here, in this order.
pub open spec fn issue_outcome(
    r: Result<CertBundle, IssueError>,
    service_name: Seq<char>,
    ca_cert_pem: Seq<char>,
    ca_key_pem: Seq<char>,
    serial: u64,
    now: i64,
    today: Timestamp,
) -> bool {
    let dated = datable(now, CERT_TTL_SECS) && today.secs + CERT_TTL_SECS <= clock::MAX_SECS;
    let named = x509::is_ascii(service_name);
    match r {
        Ok(bundle) => {
            &&& dated && named && usable(ca_cert_pem)
            &&& x509::was_generated(bundle.key_pem@)
            &&& issued(bundle, service_name, ca_cert_pem, ca_key_pem, serial, now, today)
        },
        Err(IssueError::Clock) => !dated,
        Err(IssueError::Params) => dated && !named,
        Err(IssueError::LeafKey) => dated && named && x509::generating_failed(),
        Err(IssueError::CaCertificate) => dated && named && !usable(ca_cert_pem),
        Err(IssueError::CaRebuild) => dated && named && usable(ca_cert_pem) && signing_failed(
            leaf_settings(service_name, now as int, serial as nat),
            ca_key_pem,
            true,
        ),
        Err(IssueError::Signing) => dated && named && usable(ca_cert_pem) && signing_failed(
            leaf_settings(service_name, now as int, serial as nat),
            ca_key_pem,
            false,
        ),
        Err(_) => false,
    }
}

/// Whether `r` is what follows the signing of a leaf certificate.
pub open spec fn is_concluded(
    r: Result<CertBundle, IssueError>,
    signed: Result<Result<String, rcgen::Error>, rcgen::Error>,
    key_pem: String,
    ca_cert_pem: Seq<char>,
    serial: u64,
    expires_at: Timestamp,
) -> bool {
    match signed {
        Ok(Ok(cert_pem)) => {
            &&& r matches Ok(bundle)
            &&& bundle.cert_pem == cert_pem
            &&& bundle.key_pem == key_pem
            &&& bundle.ca_pem@ == ca_cert_pem
            &&& bundle.expires_at == expires_at
            &&& bundle.serial@ == text::padded_hex(serial as int, 16)
        },
        Ok(Err(_)) => r == Err::<CertBundle, IssueError>(IssueError::Signing),
        Err(_) => r == Err::<CertBundle, IssueError>(IssueError::CaRebuild),
    }
}

/// What follows the signing of a leaf certificate: the outer error is that of rebuilding the
/// authority's certificate, the inner one that of signing.
pub fn conclude(
    signed: Result<Result<String, rcgen::Error>, rcgen::Error>,
    key_pem: String,
    ca_cert_pem: &str,
    serial: u64,
    expires_at: Timestamp,
) -> (r: Result<CertBundle, IssueError>)
    ensures
        is_concluded(r, signed, key_pem, ca_cert_pem@, serial, expires_at),
{
    match signed {
        Ok(Ok(cert_pem)) => Ok(
            CertBundle {
                cert_pem,
                key_pem,
                ca_pem: ca_cert_pem.to_owned(),
                expires_at,
                serial: text::hex16(serial),
            },
        ),
        Ok(Err(_)) => Err(IssueError::Signing),
        Err(_) => Err(IssueError::CaRebuild),
    }
}

/// Whether `r` is what follows the generation of the key `key_pem`: the authority must be usable, and
/// a certificate that was signed says what `settings` say.
pub open spec fn is_signed_leaf(
    r: Result<CertBundle, IssueError>,
    settings: x509::Settings,
    key_pem: String,
    ca_cert_pem: Seq<char>,
    ca_key_pem: Seq<char>,
    serial: u64,
    expires_at: Timestamp,
) -> bool {
    if usable(ca_cert_pem) {
        &&& exists|signed: Result<Result<String, rcgen::Error>, rcgen::Error>| #[trigger]
            is_concluded(r, signed, key_pem, ca_cert_pem, serial, expires_at) && x509::signing_gave(
                settings,
                key_pem@,
                ca_key_pem,
                signed,
            )
        &&& r matches Ok(bundle) ==> {
            &&& is_certified(bundle.cert_pem@, settings, key_pem@, ca_cert_pem, ca_key_pem)
            &&& x509::carries_serial(bundle.cert_pem@, serial as nat)
        }
    } else {
        r == Err::<CertBundle, IssueError>(IssueError::CaCertificate)
    }
}

impl Issuer {
    #[verifier::type_invariant]
    spec fn key_is_readable(self) -> bool {
        x509::public_key_in(self.ca_key_pem@) is Some
    }

    /// The authority's certificate.
    pub closed spec fn certificate(&self) -> Seq<char> {
        self.ca_cert_pem@
    }

    /// The authority's private key.
    pub closed spec fn key(&self) -> Seq<char> {
        self.ca_key_pem@
    }

    /// The authority with the given certificate and private key.
    pub fn from_pem(ca_cert_pem: &str, ca_key_pem: &str) -> (r: Result<Issuer, IssueError>)
        ensures
            match r {
                Ok(issuer) => {
                    &&& x509::public_key_in(ca_key_pem@) is Some
                    &&& issuer.certificate() == ca_cert_pem@
                    &&& issuer.key() == ca_key_pem@
                },
                Err(error) => {
                    &&& error == IssueError::CaKey
                    &&& x509::public_key_in(ca_key_pem@) is None
                },
            },
    {
        match x509::check_key(ca_key_pem) {
            Ok(_) => Ok(
                Issuer { ca_cert_pem: ca_cert_pem.to_owned(), ca_key_pem: ca_key_pem.to_owned() },
            ),
            Err(_) => Err(IssueError::CaKey),
        }
    }

    /// What follows the generation of the key of a leaf certificate, given what the certificate is to
    /// say, its serial number and when it expires. Of the authority only the name, the key and its
    /// identifier go into the leaf, so it is rebuilt with the leaf's dates.
    pub fn sign_leaf(
        &self,
        profile: &CertProfile,
        key: Result<String, rcgen::Error>,
        serial: u64,
        expires_at: Timestamp,
    ) -> (r: Result<CertBundle, IssueError>)
        requires
            profile.datable(),
            profile.extended(),
            profile.serial == Some(serial),
            key matches Ok(key_pem) ==> x509::public_key_in(key_pem@) is Some,
        ensures
            if profile.writable() {
                match key {
                    Ok(key_pem) => is_signed_leaf(
                        r,
                        profile.settings(),
                        key_pem,
                        self.certificate(),
                        self.key(),
                        serial,
                        expires_at,
                    ),
                    Err(_) => r == Err::<CertBundle, IssueError>(IssueError::LeafKey),
                }
            } else {
                r == Err::<CertBundle, IssueError>(IssueError::Params)
            },
    {
        proof {
            use_type_invariant(self);
        }
        let params: CertificateParams = match x509::prepare(profile) {
            Ok(params) => params,
            Err(_) => {
                return Err(IssueError::Params);
            },
        };
        let key_pem: String = match key {
            Ok(key_pem) => key_pem,
            Err(_) => {
                return Err(IssueError::LeafKey);
            },
        };
        let authority: CertificateParams = match x509::read_certificate(self.ca_cert_pem.as_str()) {
            Ok(authority) => authority,
            Err(_) => {
                return Err(IssueError::CaCertificate);
            },
        };
        if !x509::subject_is_nameable(&authority) {
            return Err(IssueError::CaCertificate);
        }
        let ghost written = x509::settings(params);
        let signed: Result<Result<String, rcgen::Error>, rcgen::Error> = x509::signed(
            params,
            key_pem.as_str(),
            x509::plain_authority(authority, profile.not_before, profile.not_after),
            self.ca_key_pem.as_str(),
        );
        assert(signed matches Ok(Ok(cert_pem)) ==> x509::certificate_in(cert_pem@)->0 == written);
        conclude(signed, key_pem, self.ca_cert_pem.as_str(), serial, expires_at)
    }

    /// Issues a certificate for the named service while the certificate clock shows the second
    /// `now` and the calendar `today`. A serial number is used up even if nothing is issued.
    pub fn issue_at(
        &self,
        serials: &mut SerialCounter,
        service_name: &str,
        now: i64,
        today: Timestamp,
    ) -> (r: Result<CertBundle, IssueError>)
        requires
            today.wf(),
        ensures
            final(serials).next() == successor(old(serials).next()),
            issue_outcome(
                r,
                service_name@,
                self.certificate(),
                self.key(),
                old(serials).next(),
                now,
                today,
            ),
    {
        let serial: u64 = serials.take();
        if now < clock::FIRST_CERT_SECS || now > clock::LAST_CERT_SECS - CERT_TTL_SECS {
            return Err(IssueError::Clock);
        }
        let expires_at: Timestamp = match today.plus_secs(CERT_TTL_SECS) {
            Some(expires_at) => expires_at,
            None => {
                return Err(IssueError::Clock);
            },
        };
        let profile: CertProfile = leaf_profile(service_name, now, serial);
        let key: Result<String, rcgen::Error> = x509::fresh_key();
        let ghost generated = key;
        let r: Result<CertBundle, IssueError> = self.sign_leaf(&profile, key, serial, expires_at);
        proof {
            if let Ok(key_pem) = generated {
                if r is Err && profile.writable() && usable(self.certificate()) {
                    let signed = choose|
                        signed: Result<Result<String, rcgen::Error>, rcgen::Error>,
                    | #[trigger]
                        is_concluded(r, signed, key_pem, self.certificate(), serial, expires_at)
                            && x509::signing_gave(
                            profile.settings(),
                            key_pem@,
                            self.key(),
                            signed,
                        );
                    assert(x509::signing_gave(profile.settings(), key_pem@, self.key(), signed));
                }
            }
        }
        r
    }

    /// Issues a certificate for the named service.
    pub fn issue(&self, serials: &mut SerialCounter, service_name: &str) -> (r: Result<
        CertBundle,
        IssueError,
    >)
        ensures
            final(serials).next() == successor(old(serials).next()),
            exists|now: i64, today: Timestamp| #[trigger]
                issue_outcome(
                    r,
                    service_name@,
                    self.certificate(),
                    self.key(),
                    old(serials).next(),
                    now,
                    today,
                ) && today.wf() && clock::was_dated(now) && clock::was_shown(today),
    {
        let now: i64 = clock::cert_second();
        let today: Timestamp = clock::now();
        self.issue_at(serials, service_name, now, today)
    }

    /// The authority's certificate, by which services verify their peers.
    pub fn ca_cert_pem(&self) -> (r: &str)
        ensures
            r@ == self.certificate(),
    {
        self.ca_cert_pem.as_str()
    }
}

/// Whether `root` is a root certificate made at the second `now` and its key: an issuer can be made
/// from the two.
pub open spec fn root_made(root: (String, String), now: i64) -> bool {
    &&& x509::certificate_in(root.0@) matches Some(read)
    &&& x509::reads_back(root_settings(now as int), read)
    &&& x509::public_key_in(root.1@) matches Some(key)
    &&& x509::signature_in(root.0@) == (x509::Signature {
        issuer: read.subject,
        issuer_key: key,
        subject_key: key,
    })
}

/// Whether no root certificate of the second `now` came of signing one with the key `key_pem`.
pub open spec fn root_signing_failed(key_pem: Seq<char>, now: i64) -> bool {
    exists|signed: Result<String, rcgen::Error>| #[trigger]
        x509::self_signing_gave(root_settings(now as int), key_pem, signed) && signed is Err
}

/// What follows the signing of a root certificate.
pub fn conclude_root(signed: Result<String, rcgen::Error>, key_pem: String) -> (r: Result<
    (String, String),
    IssueError,
>)
    ensures
        match signed {
            Ok(cert_pem) => r == Ok::<(String, String), IssueError>((cert_pem, key_pem)),
            Err(_) => r == Err::<(String, String), IssueError>(IssueError::RootSigning),
        },
{
    match signed {
        Ok(cert_pem) => Ok((cert_pem, key_pem)),
        Err(_) => Err(IssueError::RootSigning),
    }
}

/// What follows the generation of the key of a root authority that is made at the second `now`: its
/// certificate, signed by itself, and its private key.
pub fn sign_root(key: Result<String, rcgen::Error>, now: i64) -> (r: Result<
    (String, String),
    IssueError,
>)
    requires
        datable(now, CA_TTL_SECS),
        key matches Ok(key_pem) ==> x509::public_key_in(key_pem@) is Some,
    ensures
        match key {
            Ok(key_pem) => match r {
                Ok(root) => root.1 == key_pem && root_made(root, now),
                Err(error) => error == IssueError::RootSigning && root_signing_failed(
                    key_pem@,
                    now,
                ),
            },
            Err(_) => r == Err::<(String, String), IssueError>(IssueError::RootKey),
        },
{
    let profile: CertProfile = root_profile(now);
    let params: CertificateParams = match x509::prepare(&profile) {
        Ok(params) => params,
        Err(_) => {
            return Err(IssueError::RootParams);
        },
    };
    match key {
        Ok(key_pem) => conclude_root(x509::self_signed(params, key_pem.as_str()), key_pem),
        Err(_) => Err(IssueError::RootKey),
    }
}

/// Makes a new root authority while the certificate clock shows the second `now`: its certificate,
/// signed by itself, and its private key.
pub fn generate_ca_at(now: i64) -> (r: Result<(String, String), IssueError>)
    ensures
        match r {
            Ok(root) => datable(now, CA_TTL_SECS) && root_made(root, now) && x509::was_generated(
                root.1@,
            ),
            Err(IssueError::Clock) => !datable(now, CA_TTL_SECS),
            Err(IssueError::RootKey) => datable(now, CA_TTL_SECS) && x509::generating_failed(),
            Err(IssueError::RootSigning) => datable(now, CA_TTL_SECS) && exists|key_pem: Seq<char>|
                x509::was_generated(key_pem) && #[trigger] root_signing_failed(key_pem, now),
            Err(_) => false,
        },
{
    if now < clock::FIRST_CERT_SECS || now > clock::LAST_CERT_SECS - CA_TTL_SECS {
        return Err(IssueError::Clock);
    }
    sign_root(x509::fresh_key(), now)
}

/// Makes a new root authority: its certificate, signed by itself, and its private key.
pub fn generate_ca() -> (r: Result<(String, String), IssueError>)
    ensures
        exists|now: i64| #[trigger]
            clock::was_dated(now) && match r {
                Ok(root) => datable(now, CA_TTL_SECS) && root_made(root, now) && x509::was_generated(
                    root.1@,
                ),
                Err(IssueError::Clock) => !datable(now, CA_TTL_SECS),
                Err(IssueError::RootKey) => datable(now, CA_TTL_SECS) && x509::generating_failed(),
                Err(IssueError::RootSigning) => datable(now, CA_TTL_SECS) && exists|
                    key_pem: Seq<char>,
                |
                    x509::was_generated(key_pem) && #[trigger] root_signing_failed(key_pem, now),
                Err(_) => false,
            },
{
    let now: i64 = clock::cert_second();
    generate_ca_at(now)
}

/// Serial numbers rise. Of two certificates, of the same authority or of two, the one with the higher
/// number has the text that comes later, and each text is sixteen hexadecimal digits; so no two
/// certificates whose numbers come from one counter have the same serial text.
pub proof fn serials_rise(
    first: CertBundle,
    second: CertBundle,
    names: (Seq<char>, Seq<char>),
    authorities: (Seq<char>, Seq<char>),
    keys: (Seq<char>, Seq<char>),
    serials: (u64, u64),
    clocks: (i64, i64),
    days: (Timestamp, Timestamp),
)
    requires
        issued(first, names.0, authorities.0, keys.0, serials.0, clocks.0, days.0),
        issued(second, names.1, authorities.1, keys.1, serials.1, clocks.1, days.1),
        serials.0 < serials.1,
    ensures
        text::comes_before(first.serial@, second.serial@),
        first.serial@ != second.serial@,
        text::is_hex(first.serial@) && first.serial@.len() == 16,
        text::is_hex(second.serial@) && second.serial@.len() == 16,
{
    reveal_with_fuel(text::pow16, 17);
    text::padded_hex_orders_numbers(serials.0 as int, serials.1 as int, 16);
    text::padded_hex_is_hex(serials.0 as int, 16);
    text::padded_hex_is_hex(serials.1 as int, 16);
}

/// Certificates with different serial numbers have different serial texts.
pub proof fn serials_tell_certificates_apart(a: u64, b: u64)
    requires
        text::padded_hex(a as int, 16) == text::padded_hex(b as int, 16),
    ensures
        a == b,
{
    reveal_with_fuel(text::pow16, 17);
    text::padded_hex_tells_numbers_apart(a as int, b as int, 16);
}

/// A generated authority can issue: if a certificate is asked for in its name at a time and for a name
/// that certificates can have, it is issued, signed with the authority's key and readable back, unless
/// generating the key or signing fails.
pub proof fn generated_authorities_can_issue(
    root: (String, String),
    made_at: i64,
    r: Result<CertBundle, IssueError>,
    service_name: Seq<char>,
    serial: u64,
    now: i64,
    today: Timestamp,
)
    requires
        root_made(root, made_at),
        issue_outcome(r, service_name, root.0@, root.1@, serial, now, today),
        datable(now, CERT_TTL_SECS),
        today.secs + CERT_TTL_SECS <= clock::MAX_SECS,
        x509::is_ascii(service_name),
    ensures
        match r {
            Ok(bundle) => {
                &&& bundle.ca_pem@ == root.0@
                &&& x509::signature_in(bundle.cert_pem@).issuer == root_settings(
                    made_at as int,
                ).subject
                &&& Some(x509::signature_in(bundle.cert_pem@).issuer_key) == x509::public_key_in(
                    root.1@,
                )
            },
            Err(error) => error is LeafKey || error is CaRebuild || error is Signing,
        },
{
    assert(x509::nameable(root_settings(made_at as int).subject));
}

/// A certificate names the service that asked for it and nobody else, is valid for five minutes from the
/// second of its issue, may be presented at both ends of a connection, and may not sign certificates.
pub proof fn certificates_name_their_service(
    issuer: &Issuer,
    serials: &mut SerialCounter,
    service_name: &str,
    now: i64,
    today: Timestamp,
    bundle: CertBundle,
)
    requires
        today.wf(),
        call_ensures(Issuer::issue_at, (issuer, serials, service_name, now, today), Ok(bundle)),
    ensures
        x509::certificate_in(bundle.cert_pem@) matches Some(read) && {
            &&& read.subject.len() == 2
            &&& read.subject[0].oid == seq![2nat, 5, 4, 3]
            &&& read.subject[0].text == service_name@ + ".securenet"@
            &&& read.subject[1].oid == seq![2nat, 5, 4, 10]
            &&& read.subject[1].text == "SecureNet"@
            &&& read.alt_names.len() == 4
            &&& read.alt_names[0] == x509::AltName::Dns(service_name@) || (x509::address_in(
                service_name@,
            ) matches Some(octets) && read.alt_names[0] == x509::AltName::Address(octets))
            &&& x509::address_in(service_name@) is None ==> read.alt_names[0] == x509::AltName::Dns(
                service_name@,
            )
            &&& read.alt_names[1] == x509::AltName::Dns(
                service_name@ + ".securenet.svc.cluster.local"@,
            )
            &&& read.alt_names[2] == x509::AltName::Dns("localhost"@)
            &&& read.alt_names[3] == x509::AltName::Address(seq![127u8, 0, 0, 1])
            &&& read.not_before == now
            &&& read.not_after == now + 300
            &&& !read.authority
            &&& read.key_usages == set![0nat, 2nat]
            &&& read.extended_usages == set![
                seq![1nat, 3, 6, 1, 5, 5, 7, 3, 1],
                seq![1nat, 3, 6, 1, 5, 5, 7, 3, 2],
            ]
        },
{
}

/// A bundle fits together: its certificate is for its own key, which was freshly generated, is signed with
/// the authority's key and in its name, carries the serial number that the bundle writes out, and comes
/// with the authority's certificate.
pub proof fn bundles_fit_together(
    issuer: &Issuer,
    serials: &mut SerialCounter,
    service_name: &str,
    now: i64,
    today: Timestamp,
    bundle: CertBundle,
    ca_cert_pem: &str,
)
    requires
        today.wf(),
        call_ensures(Issuer::issue_at, (issuer, serials, service_name, now, today), Ok(bundle)),
        call_ensures(Issuer::ca_cert_pem, (issuer,), ca_cert_pem),
    ensures
        x509::was_generated(bundle.key_pem@),
        Some(x509::signature_in(bundle.cert_pem@).subject_key) == x509::public_key_in(
            bundle.key_pem@,
        ),
        Some(x509::signature_in(bundle.cert_pem@).issuer_key) == x509::public_key_in(issuer.key()),
        x509::certificate_in(ca_cert_pem@) matches Some(ca) && x509::signature_in(
            bundle.cert_pem@,
        ).issuer == ca.subject,
        bundle.ca_pem@ == ca_cert_pem@,
        bundle.serial@.len() == 16 && text::is_hex(bundle.serial@),
        text::value_of(bundle.serial@, 16) == old(serials).next(),
        x509::certificate_in(bundle.cert_pem@)->0.serial == Some(old(serials).next() as nat),
        bundle.expires_at.secs - today.secs == 300,
        bundle.expires_at.nanos == today.nanos,
{
    let n = old(serials).next() as int;
    reveal_with_fuel(text::pow16, 17);
    text::padded_hex_is_hex(n, 16);
    text::padded_hex_has_the_value(n, 16);
}

/// Issuing fails for a reason: the clock is out of range, the name is not in ASCII, the authority's
/// certificate cannot be used, or generating the key or signing has failed; and the first two always make
/// it fail. A serial number is used up in any case.
pub proof fn issuing_fails_for_a_reason(
    issuer: &Issuer,
    serials: &mut SerialCounter,
    service_name: &str,
    now: i64,
    today: Timestamp,
    r: Result<CertBundle, IssueError>,
)
    requires
        today.wf(),
        call_ensures(Issuer::issue_at, (issuer, serials, service_name, now, today), r),
    ensures
        ({
            let dated = -62_167_219_200 <= now && now + 300 <= 253_402_300_799 && today.secs + 300
                <= 8_210_266_876_799;
            let named = forall|i: int|
                0 <= i < service_name@.len() ==> (#[trigger] service_name@[i]) as u32 <= 127;
            let readable = x509::certificate_in(issuer.certificate()) matches Some(ca)
                && x509::nameable(ca.subject);
            &&& r == Err::<CertBundle, IssueError>(IssueError::Clock) <==> !dated
            &&& r == Err::<CertBundle, IssueError>(IssueError::Params) <==> dated && !named
            &&& r == Err::<CertBundle, IssueError>(IssueError::CaCertificate) ==> !readable
            &&& r is Ok ==> readable
            &&& r == Err::<CertBundle, IssueError>(IssueError::LeafKey) ==> x509::generating_failed()
            &&& r matches Err(error) ==> error is Clock || error is Params || error is CaCertificate
                || error is LeafKey || error is CaRebuild || error is Signing
            &&& r matches Err(error) ==> error is CaRebuild || error is Signing ==> exists|
                written: x509::Settings,
                key_pem: Seq<char>,
                signed: Result<Result<String, rcgen::Error>, rcgen::Error>,
            |
                #[trigger] x509::signing_gave(written, key_pem, issuer.key(), signed)
                    && x509::was_generated(key_pem) && !(signed matches Ok(Ok(_)))
        }),
        old(serials).next() < u64::MAX ==> final(serials).next() == old(serials).next() + 1,
{
    let settings = leaf_settings(service_name@, now as int, old(serials).next() as nat);
    if let Err(error) = r {
        if error is CaRebuild || error is Signing {
            let (key_pem, signed) = choose|
                key_pem: Seq<char>,
                signed: Result<Result<String, rcgen::Error>, rcgen::Error>,
            |
                {
                    &&& x509::was_generated(key_pem)
                    &&& #[trigger] x509::signing_gave(settings, key_pem, issuer.key(), signed)
                    &&& if error is CaRebuild {
                        signed is Err
                    } else {
                        signed matches Ok(Err(_))
                    }
                };
            assert(x509::signing_gave(settings, key_pem, issuer.key(), signed));
        }
    }
}

/// A certificate that is issued now is dated by what the clocks show.
pub proof fn certificates_are_dated_by_the_clocks(
    issuer: &Issuer,
    serials: &mut SerialCounter,
    service_name: &str,
    bundle: CertBundle,
)
    requires
        call_ensures(Issuer::issue, (issuer, serials, service_name), Ok(bundle)),
    ensures
        exists|now: i64, today: Timestamp|
            {
                &&& #[trigger] clock::was_dated(now)
                &&& #[trigger] clock::was_shown(today)
                &&& x509::certificate_in(bundle.cert_pem@) matches Some(read)
                &&& read.not_before == now
                &&& read.not_after == now + 300
                &&& read.subject[0].text == service_name@ + ".securenet"@
                &&& bundle.expires_at.secs - today.secs == 300
                &&& bundle.expires_at.nanos == today.nanos
            },
        x509::was_generated(bundle.key_pem@),
        Some(x509::signature_in(bundle.cert_pem@).subject_key) == x509::public_key_in(
            bundle.key_pem@,
        ),
        Some(x509::signature_in(bundle.cert_pem@).issuer_key) == x509::public_key_in(issuer.key()),
        bundle.ca_pem@ == issuer.certificate(),
        old(serials).next() < u64::MAX ==> final(serials).next() == old(serials).next() + 1,
{
    let (now, today) = choose|now: i64, today: Timestamp| #[trigger]
        issue_outcome(
            Ok(bundle),
            service_name@,
            issuer.certificate(),
            issuer.key(),
            old(serials).next(),
            now,
            today,
        ) && today.wf() && clock::was_dated(now) && clock::was_shown(today);
    assert(clock::was_dated(now) && clock::was_shown(today));
}

/// Serial numbers are counted: the first is 1, and each is one more than the last, until they are used up.
pub proof fn serials_are_counted(
    counter: SerialCounter,
    first: &mut SerialCounter,
    one: u64,
    some: &mut SerialCounter,
    n: u64,
    next: &mut SerialCounter,
    m: u64,
)
    requires
        call_ensures(SerialCounter::new, (), counter),
        *first == counter,
        call_ensures(SerialCounter::take, (first,), one),
        call_ensures(SerialCounter::take, (some,), n),
        *next == *final(some),
        call_ensures(SerialCounter::take, (next,), m),
    ensures
        one == 1,
        n < u64::MAX ==> m == n + 1,
        n == u64::MAX ==> m == 0,
{
}

/// An authority is made exactly of a key that can be read, and keeps the certificate that it is given.
pub proof fn authorities_keep_what_they_are_given(
    ca_cert_pem: &str,
    ca_key_pem: &str,
    r: Result<Issuer, IssueError>,
    told: &str,
)
    requires
        call_ensures(Issuer::from_pem, (ca_cert_pem, ca_key_pem), r),
        r matches Ok(issuer) ==> call_ensures(Issuer::ca_cert_pem, (&issuer,), told),
    ensures
        r is Ok <==> x509::public_key_in(ca_key_pem@) is Some,
        r is Ok ==> told@ == ca_cert_pem@,
        r matches Ok(issuer) ==> issuer.key() == ca_key_pem@,
        r matches Err(error) ==> error is CaKey,
{
}

/// A root certificate is an authority's for ten years of 365 days, may sign certificates and revocation
/// lists and nothing else, and is signed with its own key, which was freshly generated.
pub proof fn roots_are_authorities_for_ten_years(now: i64, root: (String, String))
    requires
        call_ensures(generate_ca_at, (now,), Ok(root)),
    ensures
        x509::certificate_in(root.0@) matches Some(read) && {
            &&& read.subject.len() == 2
            &&& read.subject[0].oid == seq![2nat, 5, 4, 3]
            &&& read.subject[0].text == "SecureNet Root CA"@
            &&& read.subject[1].oid == seq![2nat, 5, 4, 10]
            &&& read.subject[1].text == "SecureNet"@
            &&& read.authority
            &&& read.key_usages == set![5nat, 6nat]
            &&& read.extended_usages == Set::<Seq<nat>>::empty()
            &&& read.alt_names.len() == 0
            &&& read.not_before == now
            &&& read.not_after == now + 10 * 365 * 24 * 60 * 60
            &&& x509::signature_in(root.0@).issuer == read.subject
        },
        x509::was_generated(root.1@),
        Some(x509::signature_in(root.0@).issuer_key) == x509::public_key_in(root.1@),
        Some(x509::signature_in(root.0@).subject_key) == x509::public_key_in(root.1@),
{
}

/// Making a root authority fails for a reason: the clock is out of range, which always makes it fail, or
/// generating the key or signing has failed.
pub proof fn making_roots_fails_for_a_reason(now: i64, r: Result<(String, String), IssueError>)
    requires
        call_ensures(generate_ca_at, (now,), r),
    ensures
        r == Err::<(String, String), IssueError>(IssueError::Clock) <==> !(-62_167_219_200 <= now
            && now + 315_360_000 <= 253_402_300_799),
        r matches Err(error) ==> error is Clock || error is RootKey || error is RootSigning,
        r matches Err(error) ==> error is RootKey ==> x509::generating_failed(),
        r matches Err(error) ==> error is RootSigning ==> exists|
            written: x509::Settings,
            key_pem: Seq<char>,
            signed: Result<String, rcgen::Error>,
        |
            #[trigger] x509::self_signing_gave(written, key_pem, signed) && x509::was_generated(
                key_pem,
            ) && signed is Err,
{
    if r == Err::<(String, String), IssueError>(IssueError::RootSigning) {
        let key_pem = choose|key_pem: Seq<char>|
            x509::was_generated(key_pem) && #[trigger] root_signing_failed(key_pem, now);
        let signed = choose|signed: Result<String, rcgen::Error>| #[trigger]
            x509::self_signing_gave(root_settings(now as int), key_pem, signed) && signed is Err;
        assert(x509::self_signing_gave(root_settings(now as int), key_pem, signed));
    }
}

/// A root authority that is made now is dated by what the clock shows.
pub proof fn roots_are_dated_by_the_clock(root: (String, String))
    requires
        call_ensures(generate_ca, (), Ok(root)),
    ensures
        exists|now: i64| #[trigger]
            clock::was_dated(now) && (x509::certificate_in(root.0@) matches Some(read)
                && read.not_before == now && read.not_after == now + 315_360_000
                && read.authority),
        x509::was_generated(root.1@),
        Some(x509::signature_in(root.0@).issuer_key) == x509::public_key_in(root.1@),
{
    let now = choose|now: i64| #[trigger]
        clock::was_dated(now) && datable(now, CA_TTL_SECS) && root_made(root, now)
            && x509::was_generated(root.1@);
    assert(clock::was_dated(now));
}

/// An authority that was made can issue: its certificate and key make an issuer, what that issues is
/// signed with the key and in the name of the root, and its certificate is never refused.
pub proof fn made_roots_can_issue(
    made_at: i64,
    root: (String, String),
    cert: &str,
    key: &str,
    made: Result<Issuer, IssueError>,
    serials: &mut SerialCounter,
    service_name: &str,
    now: i64,
    today: Timestamp,
    r: Result<CertBundle, IssueError>,
)
    requires
        today.wf(),
        call_ensures(generate_ca_at, (made_at,), Ok(root)),
        cert@ == root.0@,
        key@ == root.1@,
        call_ensures(Issuer::from_pem, (cert, key), made),
        made matches Ok(issuer) ==> call_ensures(
            Issuer::issue_at,
            (&issuer, serials, service_name, now, today),
            r,
        ),
    ensures
        made is Ok,
        r matches Err(error) ==> !(error is CaCertificate),
        r matches Ok(bundle) ==> {
            &&& bundle.ca_pem@ == root.0@
            &&& x509::signature_in(bundle.cert_pem@).issuer == x509::signature_in(root.0@).issuer
            &&& x509::signature_in(bundle.cert_pem@).issuer_key == x509::signature_in(
                root.0@,
            ).subject_key
        },
{
    assert(x509::nameable(root_settings(made_at as int).subject));
}

/// Each error says in words what has failed.
pub proof fn issue_errors_have_words(error: &IssueError, r: &'static str)
    requires
        call_ensures(IssueError::message, (error,), r),
    ensures
        match *error {
            IssueError::CaKey => r@ == "failed to parse CA private key"@,
            IssueError::Clock => r@ == "system clock is out of range"@,
            IssueError::Params => r@ == "failed to build cert params"@,
            IssueError::LeafKey => r@ == "failed to generate leaf key pair"@,
            IssueError::CaCertificate => r@ == "failed to parse CA cert PEM"@,
            IssueError::CaRebuild => r@ == "failed to reconstruct CA cert"@,
            IssueError::Signing => r@ == "CA signing failed"@,
            IssueError::RootParams => r@ == "failed to create CA params"@,
            IssueError::RootKey => r@ == "failed to generate CA key pair"@,
            IssueError::RootSigning => r@ == "failed to self-sign CA"@,
        },
{
}

/// What was signed is handed out as it is, with the key, the root certificate, the serial number and the
/// expiry; what was not is an error.
pub proof fn signed_certificates_are_handed_out(
    signed: Result<Result<String, rcgen::Error>, rcgen::Error>,
    key_pem: String,
    ca_cert_pem: &str,
    serial: u64,
    expires_at: Timestamp,
    r: Result<CertBundle, IssueError>,
    root: Result<String, rcgen::Error>,
    root_key: String,
    made: Result<(String, String), IssueError>,
)
    requires
        call_ensures(conclude, (signed, key_pem, ca_cert_pem, serial, expires_at), r),
        call_ensures(conclude_root, (root, root_key), made),
    ensures
        r is Ok <==> (signed matches Ok(Ok(_))),
        r matches Ok(bundle) ==> {
            &&& bundle.cert_pem@ == signed->Ok_0->Ok_0@
            &&& bundle.key_pem@ == key_pem@
            &&& bundle.ca_pem@ == ca_cert_pem@
            &&& bundle.expires_at == expires_at
            &&& bundle.serial@.len() == 16 && text::value_of(bundle.serial@, 16) == serial
        },
        signed is Err ==> r == Err::<CertBundle, IssueError>(IssueError::CaRebuild),
        (signed matches Ok(Err(_))) ==> r == Err::<CertBundle, IssueError>(IssueError::Signing),
        made is Ok <==> root is Ok,
        made matches Ok(pair) ==> pair.0@ == root->Ok_0@ && pair.1@ == root_key@,
        made matches Err(error) ==> error is RootSigning,
{
    reveal_with_fuel(text::pow16, 17);
    text::padded_hex_is_hex(serial as int, 16);
    text::padded_hex_has_the_value(serial as int, 16);
}

/// A certificate that is signed for a key is for that key: it says what the profile says, and goes out
/// with the key, the serial number and the expiry that were given. Without a key nothing is signed.
pub proof fn leaves_are_signed_for_their_key(
    issuer: &Issuer,
    profile: &CertProfile,
    key: Result<String, rcgen::Error>,
    serial: u64,
    expires_at: Timestamp,
    r: Result<CertBundle, IssueError>,
)
    requires
        profile.datable(),
        profile.extended(),
        profile.serial == Some(serial),
        key matches Ok(key_pem) ==> x509::public_key_in(key_pem@) is Some,
        call_ensures(Issuer::sign_leaf, (issuer, profile, key, serial, expires_at), r),
    ensures
        r matches Ok(bundle) ==> {
            &&& key matches Ok(key_pem) && bundle.key_pem@ == key_pem@
            &&& bundle.expires_at == expires_at
            &&& bundle.ca_pem@ == issuer.certificate()
            &&& text::value_of(bundle.serial@, 16) == serial
            &&& x509::certificate_in(bundle.cert_pem@) matches Some(read)
            &&& read.not_before == profile.not_before && read.not_after == profile.not_after
            &&& read.subject[0].text == profile.common_name@
            &&& read.subject[1].text == profile.organization@
            &&& read.authority == profile.authority
            &&& read.serial == Some(serial as nat)
            &&& read.alt_names.len() == profile.names@.len() + profile.addresses@.len()
            &&& forall|i: int|
                0 <= i < profile.names@.len() ==> #[trigger] read.alt_names[i] == x509::AltName::Dns(
                    profile.names@[i]@,
                ) || (x509::address_in(profile.names@[i]@) is Some && read.alt_names[i]
                    == x509::AltName::Address(x509::address_in(profile.names@[i]@)->0))
            &&& forall|j: int|
                0 <= j < profile.addresses@.len() ==> read.alt_names[profile.names@.len() + j]
                    == x509::AltName::Address((#[trigger] profile.addresses@[j])@)
            &&& Some(x509::signature_in(bundle.cert_pem@).subject_key) == x509::public_key_in(
                bundle.key_pem@,
            )
            &&& Some(x509::signature_in(bundle.cert_pem@).issuer_key) == x509::public_key_in(
                issuer.key(),
            )
        },
        key is Err && (forall|i: int|
            0 <= i < profile.names@.len() ==> x509::is_ascii(#[trigger] profile.names@[i]@)) ==> r
            == Err::<CertBundle, IssueError>(IssueError::LeafKey),
{
    reveal_with_fuel(text::pow16, 17);
    text::padded_hex_has_the_value(serial as int, 16);
}

/// What certificates are to say: a leaf the names of its service, for five minutes and with its serial
/// number; a root that it is an authority, for ten years of 365 days. The names can be written down exactly
/// if that of the service is in ASCII.
pub proof fn profiles_say_what_certificates_are_to_say(
    service_name: &str,
    now: i64,
    serial: u64,
    leaf: CertProfile,
    made_at: i64,
    root: CertProfile,
)
    requires
        -62_167_219_200 <= now && now + 300 <= 253_402_300_799,
        call_ensures(leaf_profile, (service_name, now, serial), leaf),
        -62_167_219_200 <= made_at && made_at + 315_360_000 <= 253_402_300_799,
        call_ensures(root_profile, (made_at,), root),
    ensures
        leaf.common_name@ == service_name@ + ".securenet"@ && leaf.organization@ == "SecureNet"@,
        leaf.not_before == now && leaf.not_after == now + 300,
        !leaf.authority && leaf.serial == Some(serial),
        leaf.names@.len() + leaf.addresses@.len() == 4,
        (forall|i: int| 0 <= i < leaf.names@.len() ==> x509::is_ascii(#[trigger] leaf.names@[i]@)) <==> (
        forall|i: int|
            0 <= i < service_name@.len() ==> (#[trigger] service_name@[i]) as u32 <= 127),
        root.common_name@ == "SecureNet Root CA"@ && root.organization@ == "SecureNet"@,
        root.not_before == made_at && root.not_after == made_at + 315_360_000,
        root.authority && root.serial is None,
        root.names@.len() == 0 && root.addresses@.len() == 0,
{
    assert(leaf.settings().subject[0].text == leaf.common_name@);
    assert(leaf.settings().subject[1].text == leaf.organization@);
    assert(leaf.settings().alt_names.len() == leaf.names@.len() + leaf.addresses@.len());
    assert(root.settings().subject[0].text == root.common_name@);
    assert(root.settings().subject[1].text == root.organization@);
    assert(root.settings().alt_names.len() == root.names@.len() + root.addresses@.len());
}

/// A root certificate that is signed with a key is for that key and says that it is an authority's; without
/// a key there is none.
pub proof fn roots_are_signed_with_their_key(
    key: Result<String, rcgen::Error>,
    now: i64,
    r: Result<(String, String), IssueError>,
)
    requires
        -62_167_219_200 <= now && now + 315_360_000 <= 253_402_300_799,
        key matches Ok(key_pem) ==> x509::public_key_in(key_pem@) is Some,
        call_ensures(sign_root, (key, now), r),
    ensures
        key is Err ==> r == Err::<(String, String), IssueError>(IssueError::RootKey),
        r matches Ok(root) ==> {
            &&& key matches Ok(key_pem) && root.1@ == key_pem@
            &&& x509::certificate_in(root.0@) matches Some(read)
            &&& read.authority
            &&& read.subject[0].text == "SecureNet Root CA"@
            &&& read.not_before == now && read.not_after == now + 315_360_000
            &&& read.key_usages == set![5nat, 6nat]
            &&& Some(x509::signature_in(root.0@).issuer_key) == x509::public_key_in(root.1@)
            &&& Some(x509::signature_in(root.0@).subject_key) == x509::public_key_in(root.1@)
        },
        key is Ok && r is Err ==> r == Err::<(String, String), IssueError>(IssueError::RootSigning)
            && exists|written: x509::Settings, signed: Result<String, rcgen::Error>| #[trigger]
            x509::self_signing_gave(written, key->Ok_0@, signed) && signed is Err,
{
    if key is Ok && r is Err {
        let signed = choose|signed: Result<String, rcgen::Error>| #[trigger]
            x509::self_signing_gave(root_settings(now as int), key->Ok_0@, signed) && signed is Err;
        assert(x509::self_signing_gave(root_settings(now as int), key->Ok_0@, signed));
    }
}

} // verus!
