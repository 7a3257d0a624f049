//! Certificates as `rcgen` makes and reads them.
//!
//! What a certificate is to say is written down in a [`CertProfile`]; [`prepare`] turns it into
//! `rcgen`'s parameters, which are then signed.
use rcgen::CertificateParams;
use vstd::prelude::*;

use crate::clock;
use crate::revocation;
use crate::tls;

verus! {

/// `rcgen::CertificateParams`: the settings of a certificate.
#[verifier::external_type_specification]
#[verifier::external_body]
pub struct ExCertificateParams(rcgen::CertificateParams);

/// `rcgen::Error`.
#[verifier::external_type_specification]
#[verifier::external_body]
pub struct ExRcgenError(rcgen::Error);

/// A kind of entry in a distinguished name.
#[derive(Debug, Clone, Copy, PartialEq, Eq, Structural)]
pub enum NameKind {
    CommonName,
    OrganizationName,
}

/// What a key may be used for.
#[derive(Debug, Clone, Copy, PartialEq, Eq, Structural)]
pub enum KeyUsage {
    DigitalSignature,
    KeyEncipherment,
    KeyCertSign,
    CrlSign,
}

/// What a certificate may be presented for.
#[derive(Debug, Clone, Copy, PartialEq, Eq, Structural)]
pub enum ExtendedUsage {
    ServerAuth,
    ClientAuth,
}

/// An entry of a distinguished name: the object identifier of its kind, its text, and whether that is
/// kept as a printable string.
pub struct NameEntry {
    pub oid: Seq<nat>,
    pub text: Seq<char>,
    pub printable: bool,
}

/// A distinguished name: its entries, in order.
pub type DistinguishedName = Seq<NameEntry>;

/// A subject alternative name: a DNS name, the octets of an address, or a kind not used here.
pub enum AltName {
    Dns(Seq<char>),
    Address(Seq<u8>),
    Other,
}

/// What a certificate says of its subject. Key usages are bit numbers of the key usage extension,
/// extended usages are object identifiers, times are seconds since the start of 1970; `utc` is
/// whether they are kept in UTC, `constrained` whether there are name constraints. `plain` is whether
/// there is nothing else: no address of a revocation list and no extension of another kind, and no
/// entry of the subject whose kind is given by an object identifier although `rcgen` names it.
pub struct Settings {
    pub subject: DistinguishedName,
    pub alt_names: Seq<AltName>,
    pub not_before: int,
    pub not_after: int,
    pub authority: bool,
    pub key_usages: Set<nat>,
    pub extended_usages: Set<Seq<nat>>,
    pub serial: Option<nat>,
    pub utc: bool,
    pub constrained: bool,
    pub plain: bool,
}

/// Who signed a certificate, with which key, and the key that it certifies.
pub struct Signature {
    pub issuer: DistinguishedName,
    pub issuer_key: Seq<u8>,
    pub subject_key: Seq<u8>,
}

/// The object identifier of a kind of name.
pub open spec fn name_oid(kind: NameKind) -> Seq<nat> {
    match kind {
        NameKind::CommonName => seq![2nat, 5, 4, 3],
        NameKind::OrganizationName => seq![2nat, 5, 4, 10],
    }
}

/// The bit of the key usage extension that stands for a usage.
pub open spec fn usage_bit(usage: KeyUsage) -> nat {
    match usage {
        KeyUsage::DigitalSignature => 0,
        KeyUsage::KeyEncipherment => 2,
        KeyUsage::KeyCertSign => 5,
        KeyUsage::CrlSign => 6,
    }
}

/// The object identifier of an extended usage.
pub open spec fn extended_usage_oid(usage: ExtendedUsage) -> Seq<nat> {
    match usage {
        ExtendedUsage::ServerAuth => seq![1nat, 3, 6, 1, 5, 5, 7, 3, 1],
        ExtendedUsage::ClientAuth => seq![1nat, 3, 6, 1, 5, 5, 7, 3, 2],
    }
}

/// An entry of a distinguished name as it is made here.
pub open spec fn entry(oid: Seq<nat>, text: Seq<char>) -> NameEntry {
    NameEntry { oid, text, printable: false }
}

/// Whether an object identifier can be written down in a certificate: the first number is at most 2,
/// and below 2 the second is less than 40.
pub open spec fn encodable(oid: Seq<nat>) -> bool {
    &&& oid.len() >= 2
    &&& oid[0] < 3
    &&& oid[0] == 2 || oid[1] < 40
    &&& oid[1] < 18446744073709551535
}

/// Whether a printable string may hold a character, as far as one can be written down.
pub open spec fn is_printable(c: char) -> bool {
    ||| c == ' '
    ||| '\'' <= c <= ':' && c != '*'
    ||| c == '='
    ||| 'A' <= c <= 'Z'
    ||| 'a' <= c <= 'z'
}

/// Whether an entry of a distinguished name can be written down in a certificate.
pub open spec fn is_nameable(entry: NameEntry) -> bool {
    &&& encodable(entry.oid)
    &&& entry.printable ==> forall|i: int|
        0 <= i < entry.text.len() ==> is_printable(#[trigger] entry.text[i])
}

/// Whether a distinguished name can be written down in a certificate.
pub open spec fn nameable(name: DistinguishedName) -> bool {
    forall|i: int| 0 <= i < name.len() ==> is_nameable(#[trigger] name[i])
}

/// Whether a certificate with these settings can be written down.
pub open spec fn signable(s: Settings) -> bool {
    &&& nameable(s.subject)
    &&& forall|i: int| 0 <= i < s.alt_names.len() ==> !(#[trigger] s.alt_names[i] is Other)
    &&& forall|oid: Seq<nat>| #[trigger] s.extended_usages.contains(oid) ==> encodable(oid)
    &&& s.utc
    &&& clock::FIRST_CERT_SECS <= s.not_before <= clock::LAST_CERT_SECS
    &&& clock::FIRST_CERT_SECS <= s.not_after <= clock::LAST_CERT_SECS
    &&& !s.constrained
    &&& s.plain
}

/// The bits of a list of usages.
pub open spec fn usage_bits(usages: Seq<KeyUsage>) -> Set<nat> {
    usages.map_values(|u: KeyUsage| usage_bit(u)).to_set()
}

/// The object identifiers of a list of extended usages.
pub open spec fn extended_usage_oids(usages: Seq<ExtendedUsage>) -> Set<Seq<nat>> {
    usages.map_values(|u: ExtendedUsage| extended_usage_oid(u)).to_set()
}

/// A distinguished name with the entry `oid` set to `text`: in place where there was one, else at
/// the end.
pub open spec fn with_name(
    name: DistinguishedName,
    oid: Seq<nat>,
    text: Seq<char>,
) -> DistinguishedName {
    if exists|i: int| 0 <= i < name.len() && (#[trigger] name[i]).oid == oid {
        name.map_values(
            |held: NameEntry|
                if held.oid == oid {
                    entry(oid, text)
                } else {
                    held
                },
        )
    } else {
        name.push(entry(oid, text))
    }
}

/// Whether a text holds only ASCII characters.
pub open spec fn is_ascii(text: Seq<char>) -> bool {
    forall|i: int| 0 <= i < text.len() ==> (#[trigger] text[i]) as u32 <= 127
}

/// Whether a text holds a character that no written IP address has.
pub open spec fn plainly_no_address(text: Seq<char>) -> bool {
    exists|i: int|
        0 <= i < text.len() && !{
            let c = #[trigger] text[i];
            ||| '0' <= c <= '9'
            ||| 'a' <= c <= 'f'
            ||| 'A' <= c <= 'F'
            ||| c == '.'
            ||| c == ':'
        }
}

/// The octets of the IP address that a text is, as `std::net::IpAddr` reads it; none if it is none.
pub uninterp spec fn address_in(text: Seq<char>) -> Option<Seq<u8>>;

/// The alternative name that a text stands for, given the address that it reads as: that address,
/// else a DNS name.
pub open spec fn alt_name_of(text: Seq<char>, address: Option<Seq<u8>>) -> AltName {
    if plainly_no_address(text) {
        AltName::Dns(text)
    } else {
        match address {
            Some(octets) => AltName::Address(octets),
            None => AltName::Dns(text),
        }
    }
}

/// The alternative name that a text stands for.
pub open spec fn alt_name(text: Seq<char>) -> AltName {
    alt_name_of(text, address_in(text))
}

/// The settings that an `rcgen::CertificateParams` holds.
pub uninterp spec fn settings(params: CertificateParams) -> Settings;

/// The settings that `rcgen::CertificateParams::from_ca_cert_pem` reads from a certificate in PEM
/// form; none where it refuses the text.
pub uninterp spec fn certificate_in(pem: Seq<char>) -> Option<Settings>;

/// Who signed the certificate in a PEM text, with which key, and for which key.
pub uninterp spec fn signature_in(pem: Seq<char>) -> Signature;

/// The public key of the key pair that `rcgen::KeyPair::from_pem` reads from a PEM text; none where
/// it refuses the text.
pub uninterp spec fn public_key_in(pem: Seq<char>) -> Option<Seq<u8>>;

/// Whether every setting is of a kind that a certificate can carry and that is read back from it.
pub open spec fn readable(written: Settings) -> bool {
    &&& forall|i: int| 0 <= i < written.alt_names.len() ==> !(#[trigger] written.alt_names[i] is Other)
    &&& forall|oid: Seq<nat>| #[trigger]
        written.extended_usages.contains(oid) ==> oid == extended_usage_oid(ExtendedUsage::ServerAuth)
            || oid == extended_usage_oid(ExtendedUsage::ClientAuth)
    &&& written.alt_names.len() > 0 || written.authority
}

/// What is read back from a certificate that was made from the settings `written`. Without a serial
/// number among the settings, one is made up from the key.
pub open spec fn reads_back(written: Settings, read: Settings) -> bool {
    &&& read.subject == written.subject
    &&& read.alt_names == written.alt_names
    &&& read.not_before == written.not_before
    &&& read.not_after == written.not_after
    &&& read.authority == written.authority
    &&& read.key_usages == written.key_usages
    &&& read.extended_usages == written.extended_usages
    &&& written.serial is Some ==> read.serial == written.serial
    &&& read.utc && !read.constrained && read.plain
}

/// A number in as few bytes as hold it, the highest first.
pub open spec fn big_endian(n: nat) -> Seq<u8>
    decreases n,
{
    if n < 256 {
        seq![n as u8]
    } else {
        big_endian(n / 256).push((n % 256) as u8)
    }
}

/// Whether a PEM text holds one certificate, and the serial number in its DER form is `serial`.
pub open spec fn carries_serial(pem: Seq<char>, serial: nat) -> bool {
    let found = tls::certificates_in(pem);
    &&& found.len() == 1
    &&& found[0] matches Ok(der)
    &&& revocation::serial_in(der) == Some(big_endian(serial))
}

/// `rcgen::CertificateParams::new`: a name that reads as an IP address becomes an address, another
/// name a DNS name, which must be ASCII. The subject starts with a common name of `rcgen`'s own.
/// Nothing is said of the validity that the parameters start with.
#[verifier::external_body]
fn new_params(names: Vec<String>) -> (r: Result<CertificateParams, rcgen::Error>)
    ensures
        match r {
            Ok(params) => {
                let s = settings(params);
                &&& forall|i: int| 0 <= i < names@.len() ==> is_ascii(#[trigger] names@[i]@)
                &&& s.subject == seq![
                    entry(name_oid(NameKind::CommonName), "rcgen self signed cert"@),
                ]
                &&& s.alt_names == names@.map_values(|n: String| alt_name_of(n@, address_in(n@)))
                &&& !s.authority
                &&& s.key_usages == Set::<nat>::empty()
                &&& s.extended_usages == Set::<Seq<nat>>::empty()
                &&& s.serial is None
                &&& s.utc
                &&& !s.constrained
                &&& s.plain
            },
            Err(_) => exists|i: int| 0 <= i < names@.len() && !is_ascii(#[trigger] names@[i]@),
        },
{
    CertificateParams::new(names)
}

/// `rcgen::DistinguishedName::push` on the subject: sets the entry of that kind.
#[verifier::external_body]
fn push_name(params: &mut CertificateParams, kind: NameKind, value: &str)
    requires
        settings(*old(params)).plain,
    ensures
        settings(*final(params)) == (Settings {
            subject: with_name(settings(*old(params)).subject, name_oid(kind), value@),
            ..settings(*old(params))
        }),
{
    let dn_type = match kind {
        NameKind::CommonName => rcgen::DnType::CommonName,
        NameKind::OrganizationName => rcgen::DnType::OrganizationName,
    };
    params.distinguished_name.push(dn_type, value);
}

/// Appends an IPv4 address to `rcgen::CertificateParams::subject_alt_names`.
#[verifier::external_body]
fn push_address(params: &mut CertificateParams, octets: [u8; 4])
    ensures
        settings(*final(params)) == (Settings {
            alt_names: settings(*old(params)).alt_names.push(AltName::Address(octets@)),
            ..settings(*old(params))
        }),
{
    params.subject_alt_names.push(rcgen::SanType::IpAddress(octets.into()));
}

/// Sets the validity, the role and the serial number of an `rcgen::CertificateParams`.
#[verifier::external_body]
fn set_terms(
    params: &mut CertificateParams,
    not_before: i64,
    not_after: i64,
    authority: bool,
    serial: Option<u64>,
)
    requires
        clock::FIRST_CERT_SECS <= not_before <= clock::LAST_CERT_SECS,
        clock::FIRST_CERT_SECS <= not_after <= clock::LAST_CERT_SECS,
    ensures
        settings(*final(params)) == (Settings {
            not_before: not_before as int,
            not_after: not_after as int,
            authority,
            serial: match serial {
                Some(n) => Some(n as nat),
                None => None,
            },
            utc: true,
            ..settings(*old(params))
        }),
{
    params.not_before = time::OffsetDateTime::from_unix_timestamp(not_before).unwrap();
    params.not_after = time::OffsetDateTime::from_unix_timestamp(not_after).unwrap();
    params.is_ca = match authority {
        true => rcgen::IsCa::Ca(rcgen::BasicConstraints::Unconstrained),
        false => rcgen::IsCa::NoCa,
    };
    params.serial_number = serial.map(rcgen::SerialNumber::from);
}

/// Sets `rcgen::CertificateParams::key_usages`.
#[verifier::external_body]
fn set_key_usages(params: &mut CertificateParams, usages: &Vec<KeyUsage>)
    ensures
        settings(*final(params)) == (Settings {
            key_usages: usage_bits(usages@),
            ..settings(*old(params))
        }),
{
    let convert = |u: &KeyUsage|
        match u {
            KeyUsage::DigitalSignature => rcgen::KeyUsagePurpose::DigitalSignature,
            KeyUsage::KeyEncipherment => rcgen::KeyUsagePurpose::KeyEncipherment,
            KeyUsage::KeyCertSign => rcgen::KeyUsagePurpose::KeyCertSign,
            KeyUsage::CrlSign => rcgen::KeyUsagePurpose::CrlSign,
        };
    params.key_usages = usages.iter().map(convert).collect();
}

/// Sets `rcgen::CertificateParams::extended_key_usages`.
#[verifier::external_body]
fn set_extended_usages(params: &mut CertificateParams, usages: &Vec<ExtendedUsage>)
    ensures
        settings(*final(params)) == (Settings {
            extended_usages: extended_usage_oids(usages@),
            ..settings(*old(params))
        }),
{
    let convert = |u: &ExtendedUsage|
        match u {
            ExtendedUsage::ServerAuth => rcgen::ExtendedKeyUsagePurpose::ServerAuth,
            ExtendedUsage::ClientAuth => rcgen::ExtendedKeyUsagePurpose::ClientAuth,
        };
    params.extended_key_usages = usages.iter().map(convert).collect();
}

/// Takes the alternative names, the extended usages and the name constraints out of an
/// `rcgen::CertificateParams`.
#[verifier::external_body]
fn clear_extras(params: &mut CertificateParams)
    ensures
        settings(*final(params)) == (Settings {
            alt_names: Seq::empty(),
            extended_usages: Set::empty(),
            constrained: false,
            ..settings(*old(params))
        }),
{
    params.subject_alt_names = Vec::new();
    params.extended_key_usages = Vec::new();
    params.name_constraints = None;
}

/// The numbers of an object identifier.
pub open spec fn numbers(oid: Seq<u64>) -> Seq<nat> {
    oid.map_values(|n: u64| n as nat)
}

/// What is looked at in an entry of a distinguished name: the object identifier if its kind is none
/// that `rcgen` names, and the text if it is a printable string.
pub open spec fn shows(shown: (Option<Vec<u64>>, Option<String>), entry: NameEntry) -> bool {
    &&& match shown.0 {
        Some(oid) => entry.oid == numbers(oid@),
        None => encodable(entry.oid),
    }
    &&& match shown.1 {
        Some(text) => entry.printable && entry.text == text@,
        None => !entry.printable,
    }
}

/// `rcgen::DistinguishedName::iter` on the subject: its entries, in order. The kinds that `rcgen`
/// names have object identifiers under 2.5.4.
#[verifier::external_body]
fn subject_of(params: &CertificateParams) -> (r: Vec<(Option<Vec<u64>>, Option<String>)>)
    ensures
        r@.len() == settings(*params).subject.len(),
        forall|i: int| 0 <= i < r@.len() ==> shows(#[trigger] r@[i], settings(*params).subject[i]),
{
    let kind = |kind: &rcgen::DnType|
        match kind {
            rcgen::DnType::CustomDnType(oid) => Some(oid.clone()),
            _ => None,
        };
    let text = |value: &rcgen::DnValue|
        match value {
            rcgen::DnValue::PrintableString(text) => Some(text.as_str().to_owned()),
            _ => None,
        };
    params.distinguished_name.iter().map(|(k, v)| (kind(k), text(v))).collect()
}

/// Whether an object identifier can be written down in a certificate.
fn oid_is_encodable(oid: &Vec<u64>) -> (r: bool)
    ensures
        r == encodable(numbers(oid@)),
{
    oid.len() >= 2 && oid[0] < 3 && (oid[0] == 2 || oid[1] < 40) && oid[1] < 18446744073709551535
}

/// Whether a printable string can be written down in a certificate.
fn text_is_printable(text: &str) -> (r: bool)
    ensures
        r == (forall|i: int| 0 <= i < text@.len() ==> is_printable(#[trigger] text@[i])),
{
    let mut i: usize = 0;
    let len: usize = text.unicode_len();
    while i < len
        invariant
            i <= len,
            len == text@.len(),
            forall|j: int| 0 <= j < i ==> is_printable(#[trigger] text@[j]),
        decreases len - i,
    {
        let c: char = text.get_char(i);
        if !(c == ' ' || ('\'' <= c && c <= ':' && c != '*') || c == '=' || ('A' <= c && c <= 'Z')
            || ('a' <= c && c <= 'z')) {
            assert(!is_printable(text@[i as int]));
            return false;
        }
        i += 1;
    }
    true
}

/// Whether the subject can be written down in a certificate.
pub(crate) fn subject_is_nameable(params: &CertificateParams) -> (r: bool)
    ensures
        r == nameable(settings(*params).subject),
{
    let entries: Vec<(Option<Vec<u64>>, Option<String>)> = subject_of(params);
    let ghost subject = settings(*params).subject;
    let mut i: usize = 0;
    while i < entries.len()
        invariant
            i <= entries.len(),
            subject == settings(*params).subject,
            entries@.len() == subject.len(),
            forall|j: int| 0 <= j < entries@.len() ==> shows(#[trigger] entries@[j], subject[j]),
            forall|j: int| 0 <= j < i ==> is_nameable(#[trigger] subject[j]),
        decreases entries.len() - i,
    {
        assert(shows(entries@[i as int], subject[i as int]));
        let oid_fits: bool = match &entries[i].0 {
            Some(oid) => oid_is_encodable(oid),
            None => true,
        };
        let text_fits: bool = match &entries[i].1 {
            Some(text) => text_is_printable(text.as_str()),
            None => true,
        };
        if !oid_fits || !text_fits {
            assert(!is_nameable(subject[i as int]));
            return false;
        }
        i += 1;
    }
    true
}

/// An authority in whose name certificates can be signed: the subject, the key usages and the key
/// identifier stay, and everything else becomes something that can be written down.
pub(crate) fn plain_authority(authority: CertificateParams, not_before: i64, not_after: i64) -> (r:
    CertificateParams)
    requires
        nameable(settings(authority).subject),
        settings(authority).plain,
        clock::FIRST_CERT_SECS <= not_before <= clock::LAST_CERT_SECS,
        clock::FIRST_CERT_SECS <= not_after <= clock::LAST_CERT_SECS,
    ensures
        signable(settings(r)),
        settings(r).subject == settings(authority).subject,
        settings(r).key_usages == settings(authority).key_usages,
{
    let mut r: CertificateParams = authority;
    clear_extras(&mut r);
    set_terms(&mut r, not_before, not_after, true, None);
    r
}

/// `rcgen::CertificateParams::from_ca_cert_pem`: the settings of an existing certificate. Addresses of
/// revocation lists and extensions of other kinds are left behind.
#[verifier::external_body]
pub(crate) fn read_certificate(pem: &str) -> (r: Result<CertificateParams, rcgen::Error>)
    ensures
        match r {
            Ok(params) => certificate_in(pem@) == Some(settings(params)) && settings(params).plain,
            Err(_) => certificate_in(pem@) is None,
        },
{
    CertificateParams::from_ca_cert_pem(pem)
}

/// `rcgen::KeyPair::from_pem`: whether a PEM text holds a private key that certificates can be
/// signed with.
#[verifier::external_body]
pub(crate) fn check_key(pem: &str) -> (r: Result<(), rcgen::Error>)
    ensures
        r is Ok <==> public_key_in(pem@) is Some,
{
    rcgen::KeyPair::from_pem(pem).map(|_| ())
}

/// `rcgen::KeyPair::generate`: a fresh private key in PEM form, which `rcgen` reads back.
#[verifier::external_body]
pub(crate) fn generate_key() -> (r: Result<String, rcgen::Error>)
    ensures
        r matches Ok(pem) ==> public_key_in(pem@) is Some,
{
    rcgen::KeyPair::generate().map(|key| key.serialize_pem())
}

/// `rcgen::CertificateParams::self_signed`: a certificate with these settings, signed by its own
/// key, in PEM form. Whether signing succeeds is left open.
#[verifier::external_body]
pub(crate) fn self_sign(params: CertificateParams, key_pem: &str) -> (r: Result<String, rcgen::Error>)
    requires
        public_key_in(key_pem@) is Some,
        signable(settings(params)),
    ensures
        r matches Ok(pem) ==> signature_in(pem@) == (Signature {
            issuer: settings(params).subject,
            issuer_key: public_key_in(key_pem@)->0,
            subject_key: public_key_in(key_pem@)->0,
        }),
        r matches Ok(pem) ==> readable(settings(params)) ==> {
            &&& certificate_in(pem@) matches Some(read)
            &&& reads_back(settings(params), read)
        },
{
    let key = rcgen::KeyPair::from_pem(key_pem).unwrap();
    params.self_signed(&key).map(|certificate| certificate.pem())
}

/// `rcgen::CertificateParams::signed_by`: a certificate with these settings for the public half of
/// `key_pem`, signed by the authority's key, in PEM form. `rcgen` wants the authority as a
/// certificate, so the authority's settings are signed first; the outer error is that step's. The
/// certificate's DER form is what `rustls_pemfile` finds in the PEM text. Whether signing succeeds is
/// left open.
#[verifier::external_body]
pub(crate) fn sign(
    params: CertificateParams,
    key_pem: &str,
    authority: CertificateParams,
    authority_key_pem: &str,
) -> (r: Result<Result<String, rcgen::Error>, rcgen::Error>)
    requires
        public_key_in(key_pem@) is Some,
        public_key_in(authority_key_pem@) is Some,
        signable(settings(params)),
        signable(settings(authority)),
    ensures
        r matches Ok(Ok(pem)) ==> signature_in(pem@) == (Signature {
            issuer: settings(authority).subject,
            issuer_key: public_key_in(authority_key_pem@)->0,
            subject_key: public_key_in(key_pem@)->0,
        }),
        r matches Ok(Ok(pem)) ==> readable(settings(params)) ==> {
            &&& certificate_in(pem@) matches Some(read)
            &&& reads_back(settings(params), read)
            &&& settings(params).serial matches Some(serial) ==> carries_serial(pem@, serial)
        },
{
    let key = rcgen::KeyPair::from_pem(key_pem).unwrap();
    let issuer_key = rcgen::KeyPair::from_pem(authority_key_pem).unwrap();
    let issuer = authority.self_signed(&issuer_key)?;
    Ok(params.signed_by(&key, &issuer, &issuer_key).map(|certificate| certificate.pem()))
}

/// Whether a key in PEM form was freshly generated.
pub closed spec fn was_generated(key_pem: Seq<char>) -> bool {
    exists|outcome: Result<String, rcgen::Error>| #[trigger]
        call_ensures(generate_key, (), outcome) && (outcome matches Ok(key) && key@ == key_pem)
}

/// Whether generating a key has failed.
pub closed spec fn generating_failed() -> bool {
    exists|outcome: Result<String, rcgen::Error>| #[trigger]
        call_ensures(generate_key, (), outcome) && outcome is Err
}

/// Whether signing a certificate with the given settings for the key `key_pem`, with the authority's
/// key, gave this outcome.
pub closed spec fn signing_gave(
    written: Settings,
    key_pem: Seq<char>,
    authority_key_pem: Seq<char>,
    outcome: Result<Result<String, rcgen::Error>, rcgen::Error>,
) -> bool {
    exists|params: CertificateParams, key: &str, authority: CertificateParams, authority_key: &str|
        {
            &&& settings(params) == written
            &&& key@ == key_pem
            &&& authority_key@ == authority_key_pem
            &&& #[trigger] call_ensures(sign, (params, key, authority, authority_key), outcome)
        }
}

/// Whether signing a certificate with the given settings by its own key gave this outcome.
pub closed spec fn self_signing_gave(
    written: Settings,
    key_pem: Seq<char>,
    outcome: Result<String, rcgen::Error>,
) -> bool {
    exists|params: CertificateParams, key: &str|
        {
            &&& settings(params) == written
            &&& key@ == key_pem
            &&& #[trigger] call_ensures(self_sign, (params, key), outcome)
        }
}

/// Keys count as generated, generating as failed and signing as done only if `generate_key`, `sign` and
/// `self_sign` have said so.
pub(crate) proof fn outcomes_come_from_calls(
    key_pem: Seq<char>,
    written: Settings,
    authority_key_pem: Seq<char>,
    outcome: Result<Result<String, rcgen::Error>, rcgen::Error>,
    root: Result<String, rcgen::Error>,
)
    ensures
        was_generated(key_pem) ==> exists|fresh: Result<String, rcgen::Error>| #[trigger]
            call_ensures(generate_key, (), fresh) && (fresh matches Ok(key) && key@ == key_pem),
        generating_failed() ==> exists|fresh: Result<String, rcgen::Error>| #[trigger]
            call_ensures(generate_key, (), fresh) && fresh is Err,
        signing_gave(written, key_pem, authority_key_pem, outcome) ==> exists|
            params: CertificateParams,
            key: &str,
            authority: CertificateParams,
            authority_key: &str,
        |
            {
                &&& settings(params) == written
                &&& key@ == key_pem
                &&& authority_key@ == authority_key_pem
                &&& #[trigger] call_ensures(sign, (params, key, authority, authority_key), outcome)
            },
        self_signing_gave(written, key_pem, root) ==> exists|params: CertificateParams, key: &str|
            {
                &&& settings(params) == written
                &&& key@ == key_pem
                &&& #[trigger] call_ensures(self_sign, (params, key), root)
            },
{
}

/// A fresh private key in PEM form.
pub(crate) fn fresh_key() -> (r: Result<String, rcgen::Error>)
    ensures
        match r {
            Ok(pem) => was_generated(pem@) && public_key_in(pem@) is Some,
            Err(_) => generating_failed(),
        },
{
    generate_key()
}

/// A certificate with these settings for the public half of `key_pem`, signed by the authority's key.
pub(crate) fn signed(
    params: CertificateParams,
    key_pem: &str,
    authority: CertificateParams,
    authority_key_pem: &str,
) -> (r: Result<Result<String, rcgen::Error>, rcgen::Error>)
    requires
        public_key_in(key_pem@) is Some,
        public_key_in(authority_key_pem@) is Some,
        signable(settings(params)),
        signable(settings(authority)),
    ensures
        signing_gave(settings(params), key_pem@, authority_key_pem@, r),
        r matches Ok(Ok(pem)) ==> signature_in(pem@) == (Signature {
            issuer: settings(authority).subject,
            issuer_key: public_key_in(authority_key_pem@)->0,
            subject_key: public_key_in(key_pem@)->0,
        }),
        r matches Ok(Ok(pem)) ==> readable(settings(params)) ==> {
            &&& certificate_in(pem@) matches Some(read)
            &&& reads_back(settings(params), read)
            &&& settings(params).serial matches Some(serial) ==> carries_serial(pem@, serial)
        },
{
    sign(params, key_pem, authority, authority_key_pem)
}

/// A certificate with these settings, signed by its own key.
pub(crate) fn self_signed(params: CertificateParams, key_pem: &str) -> (r: Result<
    String,
    rcgen::Error,
>)
    requires
        public_key_in(key_pem@) is Some,
        signable(settings(params)),
    ensures
        self_signing_gave(settings(params), key_pem@, r),
        r matches Ok(pem) ==> signature_in(pem@) == (Signature {
            issuer: settings(params).subject,
            issuer_key: public_key_in(key_pem@)->0,
            subject_key: public_key_in(key_pem@)->0,
        }),
        r matches Ok(pem) ==> readable(settings(params)) ==> {
            &&& certificate_in(pem@) matches Some(read)
            &&& reads_back(settings(params), read)
        },
{
    self_sign(params, key_pem)
}

/// What a certificate is to say.
#[derive(Debug)]
pub struct CertProfile {
    /// DNS names, or IP addresses in written form.
    pub names: Vec<String>,
    /// IPv4 addresses.
    pub addresses: Vec<[u8; 4]>,
    pub common_name: String,
    pub organization: String,
    /// The first and the last second of its validity.
    pub not_before: i64,
    pub not_after: i64,
    /// Whether it may sign certificates.
    pub authority: bool,
    pub key_usages: Vec<KeyUsage>,
    pub extended_usages: Vec<ExtendedUsage>,
    pub serial: Option<u64>,
}

impl CertProfile {
    /// Whether the validity can be written down in a certificate.
    pub open spec fn datable(&self) -> bool {
        &&& clock::FIRST_CERT_SECS <= self.not_before <= clock::LAST_CERT_SECS
        &&& clock::FIRST_CERT_SECS <= self.not_after <= clock::LAST_CERT_SECS
    }

    /// Whether every name can be written down in a certificate.
    pub open spec fn writable(&self) -> bool {
        forall|i: int| 0 <= i < self.names@.len() ==> is_ascii(#[trigger] self.names@[i]@)
    }

    /// The settings that the profile stands for: the names come before the addresses, and the
    /// common name before the organization.
    pub open spec fn settings(&self) -> Settings {
        Settings {
            subject: seq![
                entry(name_oid(NameKind::CommonName), self.common_name@),
                entry(name_oid(NameKind::OrganizationName), self.organization@),
            ],
            alt_names: self.names@.map_values(|n: String| alt_name(n@)) + self.addresses@.map_values(
                |a: [u8; 4]| AltName::Address(a@),
            ),
            not_before: self.not_before as int,
            not_after: self.not_after as int,
            authority: self.authority,
            key_usages: usage_bits(self.key_usages@),
            extended_usages: extended_usage_oids(self.extended_usages@),
            serial: match self.serial {
                Some(n) => Some(n as nat),
                None => None,
            },
            utc: true,
            constrained: false,
            plain: true,
        }
    }

    /// Whether the certificate has an extension that every setting can be read back with: it names
    /// something, or is an authority's.
    pub open spec fn extended(&self) -> bool {
        self.names@.len() > 0 || self.addresses@.len() > 0 || self.authority
    }
}

/// The parameters of a certificate that says what `profile` says.
pub(crate) fn prepare(profile: &CertProfile) -> (r: Result<CertificateParams, rcgen::Error>)
    requires
        profile.datable(),
    ensures
        match r {
            Ok(params) => {
                &&& profile.writable()
                &&& settings(params) == profile.settings()
                &&& signable(settings(params))
                &&& profile.extended() ==> readable(settings(params))
            },
            Err(_) => !profile.writable(),
        },
{
    let mut params: CertificateParams = match new_params(crate::text::copy_texts(&profile.names)) {
        Ok(params) => params,
        Err(error) => {
            return Err(error);
        },
    };
    push_name(&mut params, NameKind::CommonName, profile.common_name.as_str());
    push_name(&mut params, NameKind::OrganizationName, profile.organization.as_str());
    let ghost names = profile.names@.map_values(|n: String| alt_name(n@));
    assert(settings(params).alt_names == names);
    let ghost addresses = profile.addresses@.map_values(|a: [u8; 4]| AltName::Address(a@));
    proof {
        let cn = name_oid(NameKind::CommonName);
        let first = seq![entry(cn, "rcgen self signed cert"@)];
        assert(first[0].oid == cn);
        assert(with_name(first, cn, profile.common_name@) == seq![entry(cn, profile.common_name@)]);
        assert(cn[3] != name_oid(NameKind::OrganizationName)[3]);
        assert(settings(params).subject == profile.settings().subject);
    }
    let mut i: usize = 0;
    while i < profile.addresses.len()
        invariant
            i <= profile.addresses.len(),
            addresses == profile.addresses@.map_values(|a: [u8; 4]| AltName::Address(a@)),
            settings(params).subject == profile.settings().subject,
            settings(params).alt_names == names + addresses.take(i as int),
            !settings(params).constrained,
            settings(params).plain,
        decreases profile.addresses.len() - i,
    {
        push_address(&mut params, profile.addresses[i]);
        i += 1;
        assert(addresses.take(i as int) == addresses.take(i - 1).push(addresses[i - 1]));
    }
    assert(addresses.take(i as int) == addresses);
    set_terms(
        &mut params,
        profile.not_before,
        profile.not_after,
        profile.authority,
        profile.serial,
    );
    set_key_usages(&mut params, &profile.key_usages);
    set_extended_usages(&mut params, &profile.extended_usages);
    assert forall|oid: Seq<nat>| #[trigger]
        settings(params).extended_usages.contains(oid) implies encodable(oid) && (oid
        == extended_usage_oid(ExtendedUsage::ServerAuth) || oid == extended_usage_oid(
        ExtendedUsage::ClientAuth,
    )) by {
        let oids = profile.extended_usages@.map_values(|u: ExtendedUsage| extended_usage_oid(u));
        let k = choose|k: int| 0 <= k < oids.len() && oids[k] == oid;
        assert(oid == extended_usage_oid(profile.extended_usages@[k]));
    }
    Ok(params)
}

/// The characters that a printable string may hold here: letters, digits, the blank and eleven others.
pub proof fn printable_characters(c: char)
    ensures
        is_printable(c) <==> 'A' <= c <= 'Z' || 'a' <= c <= 'z' || '0' <= c <= '9' || " '()+,-./:="@.contains(
            c,
        ),
{
    let others = " '()+,-./:="@;
    reveal_strlit(" '()+,-./:=");
    if is_printable(c) && !('A' <= c <= 'Z' || 'a' <= c <= 'z' || '0' <= c <= '9') {
        let i: int = if c == ' ' {
            0
        } else if c == '\'' {
            1
        } else if c == '(' {
            2
        } else if c == ')' {
            3
        } else if c == '+' {
            4
        } else if c == ',' {
            5
        } else if c == '-' {
            6
        } else if c == '.' {
            7
        } else if c == '/' {
            8
        } else if c == ':' {
            9
        } else {
            10
        };
        assert(others[i] == c);
    }
}

/// A name can be written down if the object identifiers of its entries can be, and its printable strings
/// hold only characters that they may; one without printable strings under 2.5.4 always can.
pub proof fn names_that_can_be_written(name: DistinguishedName)
    ensures
        nameable(name) <==> forall|i: int|
            0 <= i < name.len() ==> {
                let held = #[trigger] name[i];
                &&& held.oid.len() >= 2
                &&& (held.oid[0] <= 1 && held.oid[1] <= 39) || (held.oid[0] == 2 && held.oid[1]
                    < 18_446_744_073_709_551_535)
                &&& held.printable ==> forall|k: int|
                    0 <= k < held.text.len() ==> is_printable(#[trigger] held.text[k])
            },
        (forall|i: int|
            0 <= i < name.len() ==> !(#[trigger] name[i]).printable && name[i].oid.len() >= 2
                && name[i].oid[0] == 2 && name[i].oid[1] == 5) ==> nameable(name),
{
    if nameable(name) {
        assert forall|i: int| 0 <= i < name.len() implies {
            let held = #[trigger] name[i];
            &&& held.oid.len() >= 2
            &&& (held.oid[0] <= 1 && held.oid[1] <= 39) || (held.oid[0] == 2 && held.oid[1]
                < 18_446_744_073_709_551_535)
            &&& held.printable ==> forall|k: int|
                0 <= k < held.text.len() ==> is_printable(#[trigger] held.text[k])
        } by {
            assert(is_nameable(name[i]));
        }
    }
}

} // verus!
