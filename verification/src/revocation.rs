//! The revocation list as a service keeps it: fetched from the vault every 30 seconds, and asked of
//! every peer that presents a certificate.
use vstd::prelude::*;

use crate::clock::Timestamp;
use crate::encoding;
use crate::models::CertBundle;
use crate::text;
use crate::tls;
use crate::vault::issuer;
use crate::vault::x509;

verus! {

/// How often the list is fetched, in seconds.
pub const POLL_SECS: u64 = 30;

/// How many bytes the serial number of a certificate is padded to.
pub const SERIAL_BYTES: usize = 8;

/// The serial numbers that were revoked when the list was last fetched.
#[derive(Debug)]
pub struct RevocationCache {
    serials: Vec<String>,
}

/// The bytes of the serial number of a certificate in DER form, the highest first and as few as hold
/// it, as `rcgen::CertificateParams::from_ca_cert_der` reads it; none where it refuses the
/// certificate.
pub uninterp spec fn serial_in(certificate: Seq<u8>) -> Option<Seq<u8>>;

/// `rcgen::CertificateParams::from_ca_cert_der`: the serial number of a certificate.
#[verifier::external_body]
fn read_serial(certificate: &[u8]) -> (r: Option<Vec<u8>>)
    ensures
        match r {
            Some(bytes) => serial_in(certificate@) == Some(bytes@),
            None => serial_in(certificate@) is None,
        },
{
    let certificate = rustls::pki_types::CertificateDer::from(certificate);
    let params = rcgen::CertificateParams::from_ca_cert_der(&certificate).ok()?;
    params.serial_number.map(|serial| serial.to_bytes())
}

/// Some bytes behind as many zeros as it takes to make them eight.
pub open spec fn padded(bytes: Seq<u8>) -> Seq<u8> {
    if bytes.len() < SERIAL_BYTES {
        Seq::new((SERIAL_BYTES - bytes.len()) as nat, |i: int| 0u8) + bytes
    } else {
        bytes
    }
}

/// Whether a serial number was read and is on the list.
pub open spec fn is_listed(serials: Seq<Seq<char>>, read: Option<Seq<u8>>) -> bool {
    match read {
        Some(bytes) => serials.contains(encoding::hex_text(padded(bytes))),
        None => false,
    }
}

/// The serial number of a peer's certificate in hexadecimal, as the vault writes it.
pub fn peer_serial(certificate: &[u8]) -> (r: Option<String>)
    ensures
        match (r, serial_in(certificate@)) {
            (Some(serial), Some(bytes)) => serial@ == encoding::hex_text(padded(bytes)),
            (None, None) => true,
            _ => false,
        },
{
    match read_serial(certificate) {
        Some(bytes) => {
            let mut out: Vec<u8> = Vec::new();
            while out.len() + bytes.len() < SERIAL_BYTES
                invariant
                    out@.len() + bytes@.len() <= SERIAL_BYTES || out@.len() == 0,
                    out@ == Seq::new(out@.len(), |i: int| 0u8),
                decreases SERIAL_BYTES - out.len(),
            {
                out.push(0);
            }
            let ghost zeros = out@;
            let mut i: usize = 0;
            while i < bytes.len()
                invariant
                    i <= bytes.len(),
                    out@ == zeros + bytes@.take(i as int),
                decreases bytes.len() - i,
            {
                out.push(bytes[i]);
                i += 1;
                assert(bytes@.take(i as int) == bytes@.take(i - 1).push(bytes@[i - 1]));
            }
            assert(bytes@.take(i as int) == bytes@);
            assert(out@ == padded(bytes@));
            Some(encoding::hex_encode(out.as_slice()))
        },
        None => None,
    }
}

impl RevocationCache {
    /// The serial numbers on the list.
    pub closed spec fn serials(&self) -> Seq<Seq<char>> {
        text::texts(self.serials@)
    }

    /// An empty list.
    pub fn new() -> (r: Self)
        ensures
            r.serials() == Seq::<Seq<char>>::empty(),
    {
        let r = RevocationCache { serials: Vec::new() };
        assert(r.serials() =~= Seq::<Seq<char>>::empty());
        r
    }

    /// Takes over the list that was fetched; where fetching has failed, the last one stays.
    pub fn refresh(&mut self, fetched: Result<Vec<String>, String>)
        ensures
            final(self).serials() == match fetched {
                Ok(serials) => text::texts(serials@),
                Err(_) => old(self).serials(),
            },
    {
        match fetched {
            Ok(serials) => {
                self.serials = serials;
            },
            Err(_) => {},
        }
    }

    /// Whether a peer whose certificate has this serial number is turned away.
    pub fn rejects(&self, serial: &str) -> (r: bool)
        ensures
            r == self.serials().contains(serial@),
    {
        text::contains_text(&self.serials, serial)
    }

    /// Whether a connection is turned away: its peer has presented a certificate, and the serial
    /// number of that is on the list.
    pub fn rejects_peer(&self, certificate: Option<&[u8]>) -> (r: bool)
        ensures
            r == (certificate matches Some(presented) && is_listed(
                self.serials(),
                serial_in(presented@),
            )),
    {
        match certificate {
            Some(presented) => match peer_serial(presented) {
                Some(serial) => self.rejects(serial.as_str()),
                None => false,
            },
            None => false,
        }
    }
}

/// A service turns away exactly the peers that the vault has revoked: for a list that holds what the
/// vault has on it, a serial number is rejected if and only if it was revoked.
pub proof fn revoked_peers_are_rejected(
    revoked: Map<Seq<char>, String>,
    list: Seq<String>,
    serial: Seq<char>,
)
    requires
        forall|i: int| 0 <= i < list.len() ==> revoked.contains_key((#[trigger] list[i])@),
        forall|held: Seq<char>| #[trigger]
            revoked.contains_key(held) ==> exists|i: int|
                0 <= i < list.len() && (#[trigger] list[i])@ == held,
    ensures
        text::texts(list).contains(serial) <==> revoked.contains_key(serial),
{
    if revoked.contains_key(serial) {
        let i = choose|i: int| 0 <= i < list.len() && (#[trigger] list[i])@ == serial;
        assert(text::texts(list)[i] == serial);
    }
    if text::texts(list).contains(serial) {
        let i = choose|i: int| 0 <= i < text::texts(list).len() && text::texts(list)[i] == serial;
        assert(list[i]@ == serial);
    }
}

/// The lowest `count` bytes of a number, the highest first.
spec fn fixed_bytes(n: nat, count: nat) -> Seq<u8>
    decreases count,
{
    if count == 0 {
        Seq::empty()
    } else {
        fixed_bytes(n / 256, (count - 1) as nat).push((n % 256) as u8)
    }
}

/// A number behind zeros is the number in a fixed count of bytes.
proof fn zeros_fill_up(n: nat, count: nat)
    requires
        count > 0,
        n < text::pow16(2 * count),
    ensures
        x509::big_endian(n).len() <= count,
        Seq::new((count - x509::big_endian(n).len()) as nat, |i: int| 0u8) + x509::big_endian(n)
            == fixed_bytes(n, count),
    decreases count,
{
    reveal_with_fuel(text::pow16, 3);
    let bytes = x509::big_endian(n);
    let zeros = Seq::new((count - bytes.len()) as nat, |i: int| 0u8);
    if count == 1 {
        assert(fixed_bytes(n / 256, 0) =~= Seq::<u8>::empty());
        assert(zeros + bytes =~= fixed_bytes(n, 1));
    } else {
        let fewer = (count - 1) as nat;
        assert(text::pow16(2 * count) == 256 * text::pow16(2 * fewer)) by {
            assert(2 * count - 2 == 2 * fewer);
            assert(text::pow16((2 * count - 1) as nat) == 16 * text::pow16(2 * fewer));
        }
        zeros_fill_up(n / 256, fewer);
        let high = x509::big_endian(n / 256);
        let fill = Seq::new((fewer - high.len()) as nat, |i: int| 0u8);
        if n < 256 {
            assert(n / 256 == 0);
        }
        assert(zeros + bytes =~= (fill + high).push((n % 256) as u8));
    }
}

/// The hexadecimal form of a number in a fixed count of bytes is its padded form.
proof fn bytes_are_two_digits(n: nat, count: nat)
    ensures
        encoding::hex_text(fixed_bytes(n, count)) == text::padded_hex(n as int, 2 * count),
    decreases count,
{
    if count == 0 {
        assert(encoding::hex_text(fixed_bytes(n, 0)) =~= Seq::<char>::empty());
    } else {
        let fewer = (count - 1) as nat;
        bytes_are_two_digits(n / 256, fewer);
        let front = fixed_bytes(n / 256, fewer);
        let byte = (n % 256) as u8;
        let high = text::hex_digit(byte as int / 16);
        let low = text::hex_digit(byte as int % 16);
        assert(encoding::hex_text(front.push(byte)) =~= encoding::hex_text(front).push(high).push(low));
        let m = n as int;
        assert(m / 16 / 16 == m / 256 && m / 16 % 16 == (m % 256) / 16 && m % 16 == m % 256 % 16);
        assert(text::padded_hex(m, 2 * count) == text::padded_hex(
            m / 16,
            (2 * count - 1) as nat,
        ).push(text::hex_digit(m % 16)));
        assert(text::padded_hex(m / 16, (2 * count - 1) as nat) == text::padded_hex(
            m / 16 / 16,
            2 * fewer,
        ).push(text::hex_digit(m / 16 % 16)));
    }
}

/// Revoking a serial number turns away the certificate that has it, and no other: a peer that presents
/// an issued certificate is rejected exactly if the serial number of its bundle is on the list.
pub proof fn revoked_certificates_are_rejected(
    bundle: CertBundle,
    service_name: Seq<char>,
    ca_cert_pem: Seq<char>,
    ca_key_pem: Seq<char>,
    serial: u64,
    now: i64,
    today: Timestamp,
    serials: Seq<Seq<char>>,
)
    requires
        issuer::issued(bundle, service_name, ca_cert_pem, ca_key_pem, serial, now, today),
    ensures
        tls::certificates_in(bundle.cert_pem@).len() == 1,
        tls::certificates_in(bundle.cert_pem@)[0] matches Ok(der) && (is_listed(
            serials,
            serial_in(der),
        ) <==> serials.contains(bundle.serial@)),
{
    let n = serial as nat;
    reveal_with_fuel(text::pow16, 17);
    zeros_fill_up(n, 8);
    bytes_are_two_digits(n, 8);
    assert(padded(x509::big_endian(n)) =~= fixed_bytes(n, 8));
}

/// A list that was fetched is followed to the letter, and one that could not be fetched changes nothing;
/// before any was fetched, nobody is rejected.
pub proof fn fetched_lists_are_followed(
    cache: &mut RevocationCache,
    fetched: Result<Vec<String>, String>,
    serial: &str,
    before: bool,
    after: bool,
    fresh: RevocationCache,
    at_first: bool,
)
    requires
        call_ensures(RevocationCache::refresh, (cache, fetched), ()),
        call_ensures(RevocationCache::rejects, (&*cache, serial), before),
        call_ensures(RevocationCache::rejects, (final(cache), serial), after),
        call_ensures(RevocationCache::new, (), fresh),
        call_ensures(RevocationCache::rejects, (&fresh, serial), at_first),
    ensures
        fetched matches Ok(list) ==> (after <==> exists|i: int|
            0 <= i < list@.len() && (#[trigger] list@[i])@ == serial@),
        fetched is Err ==> after == before,
        !at_first,
{
    if let Ok(list) = fetched {
        if after {
            let i = choose|i: int| 0 <= i < list@.len() && text::texts(list@)[i] == serial@;
            assert(list@[i]@ == serial@);
        }
        if exists|i: int| 0 <= i < list@.len() && (#[trigger] list@[i])@ == serial@ {
            let i = choose|i: int| 0 <= i < list@.len() && (#[trigger] list@[i])@ == serial@;
            assert(text::texts(list@)[i] == serial@);
        }
    }
}

/// A peer is judged by the serial number of the certificate that it presents: one without a certificate,
/// or whose certificate cannot be read, is not turned away, and any other is exactly if its serial number
/// is rejected.
pub proof fn peers_are_judged_by_their_serials(
    cache: &RevocationCache,
    presented: &[u8],
    serial: Option<String>,
    written: &str,
    rejected: bool,
    turned_away: bool,
    nobody: bool,
)
    requires
        call_ensures(RevocationCache::rejects_peer, (cache, Some(presented)), turned_away),
        call_ensures(RevocationCache::rejects_peer, (cache, None), nobody),
        call_ensures(peer_serial, (presented,), serial),
        serial matches Some(text) ==> text@ == written@,
        call_ensures(RevocationCache::rejects, (cache, written), rejected),
    ensures
        !nobody,
        serial is None ==> !turned_away,
        serial is Some ==> turned_away == rejected,
{
}

/// The serial number of a peer's certificate is written in hexadecimal: the bytes that are read, behind
/// as many zeros as it takes to make eight.
pub proof fn peer_serials_hold_the_bytes(presented: &[u8], serial: Option<String>)
    requires
        call_ensures(peer_serial, (presented,), serial),
    ensures
        serial is Some <==> serial_in(presented@) is Some,
        serial matches Some(written) ==> {
            let bytes = serial_in(presented@)->0;
            &&& text::is_hex(written@)
            &&& encoding::hex_bytes(written@) matches Some(all)
            &&& all.len() == if bytes.len() < 8 {
                8
            } else {
                bytes.len()
            }
            &&& all.skip(all.len() - bytes.len()) == bytes
            &&& forall|i: int| 0 <= i < all.len() - bytes.len() ==> #[trigger] all[i] == 0
        },
{
    if let Some(bytes) = serial_in(presented@) {
        encoding::hex_reads_back(padded(bytes));
        encoding::hex_is_lower_case(padded(bytes));
        assert(padded(bytes).skip(padded(bytes).len() - bytes.len()) =~= bytes);
    }
}

/// A peer that presents a certificate which was issued shows the serial number that the bundle names.
pub proof fn peers_show_the_serial_of_their_bundle(
    issuer: &issuer::Issuer,
    serials: &mut issuer::SerialCounter,
    service_name: &str,
    now: i64,
    today: Timestamp,
    bundle: CertBundle,
    presented: &[u8],
    serial: Option<String>,
)
    requires
        today.wf(),
        call_ensures(
            issuer::Issuer::issue_at,
            (issuer, serials, service_name, now, today),
            Ok(bundle),
        ),
        tls::certificates_in(bundle.cert_pem@)[0] == Ok::<Seq<u8>, Seq<char>>(presented@),
        call_ensures(peer_serial, (presented,), serial),
    ensures
        serial matches Some(written) && written@ == bundle.serial@,
{
    let n = serials.next() as nat;
    reveal_with_fuel(text::pow16, 17);
    zeros_fill_up(n, 8);
    bytes_are_two_digits(n, 8);
    assert(padded(x509::big_endian(n)) =~= fixed_bytes(n, 8));
}

} // verus!
