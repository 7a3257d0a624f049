//! The values that travel between the services.
use vstd::prelude::*;

use crate::clock;
use crate::clock::Timestamp;
use crate::share;
use crate::text;

verus! {

/// A registered user; `id` is the number behind the UUID.
#[derive(Debug)]
pub struct User {
    pub id: u128,
    pub name: String,
    pub email: String,
}

impl Clone for User {
    fn clone(&self) -> (r: Self)
        ensures
            r == *self,
    {
        User { id: self.id, name: self.name.clone(), email: self.email.clone() }
    }
}

/// An order placed by a user; the ids are the numbers behind the UUIDs.
#[derive(Debug)]
pub struct Order {
    pub id: u128,
    pub user_id: u128,
    pub item: String,
    pub qty: u32,
}

impl Clone for Order {
    fn clone(&self) -> (r: Self)
        ensures
            r == *self,
    {
        Order { id: self.id, user_id: self.user_id, item: self.item.clone(), qty: self.qty }
    }
}

/// An order together with the user who placed it.
#[derive(Debug)]
pub struct OrderWithUser {
    pub order: Order,
    pub user: User,
}

impl Clone for OrderWithUser {
    fn clone(&self) -> (r: Self)
        ensures
            r == *self,
    {
        OrderWithUser { order: self.order.clone(), user: self.user.clone() }
    }
}

/// A short-lived certificate as the vault hands it out.
#[derive(Debug)]
pub struct CertBundle {
    /// The leaf certificate, which is the service's identity, as PEM.
    pub cert_pem: String,
    /// The private key of the leaf certificate, as PEM.
    pub key_pem: String,
    /// The root certificate by which peers are verified, as PEM.
    pub ca_pem: String,
    /// When the leaf certificate expires.
    pub expires_at: Timestamp,
    /// The serial number of the leaf certificate in hexadecimal.
    pub serial: String,
}

impl Clone for CertBundle {
    fn clone(&self) -> (r: Self)
        ensures
            r == *self,
    {
        CertBundle {
            cert_pem: self.cert_pem.clone(),
            key_pem: self.key_pem.clone(),
            ca_pem: self.ca_pem.clone(),
            expires_at: self.expires_at,
            serial: self.serial.clone(),
        }
    }
}

/// The seconds left at `now` until `expires_at`: whole seconds, none once it is past.
pub open spec fn ttl_of(expires_at: Timestamp, now: Timestamp) -> nat {
    let left = clock::whole_secs(expires_at@ - now@);
    if left > 0 {
        left as nat
    } else {
        0
    }
}

/// Nine tenths of a number of seconds in whole seconds, the fraction dropped on either side of
/// zero.
pub open spec fn nine_tenths_signed(secs: int) -> int {
    if secs >= 0 {
        9 * secs / 10
    } else {
        -(9 * -secs / 10)
    }
}

/// The second at which a certificate is to be renewed: nine tenths of the time that is left at
/// `ttl_now`, counted from `base_now`.
pub open spec fn renewal_second(
    expires_at: Timestamp,
    ttl_now: Timestamp,
    base_now: Timestamp,
) -> int {
    base_now.secs + nine_tenths_signed(clock::whole_secs(expires_at@ - ttl_now@))
}

impl CertBundle {
    /// How many seconds remain at `now` until expiry, or 0 if the certificate has expired.
    pub fn ttl_secs_at(&self, now: &Timestamp) -> (r: u64)
        requires
            self.expires_at.wf(),
            now.wf(),
        ensures
            r == ttl_of(self.expires_at, *now),
    {
        let left: i64 = self.expires_at.secs_since(now);
        if left > 0 {
            left as u64
        } else {
            0
        }
    }

    /// How many seconds remain until expiry by the system clock, or 0 if the certificate has expired.
    pub fn ttl_secs(&self) -> (r: u64)
        requires
            self.expires_at.wf(),
        ensures
            exists|now: Timestamp| #[trigger]
                now.showable() && r == ttl_of(self.expires_at, now) && clock::was_shown(now),
            r == 0 || r <= self.expires_at.secs,
    {
        let now: Timestamp = clock::now();
        assert(now.showable());
        self.ttl_secs_at(&now)
    }

    /// When to renew, for a clock that showed `ttl_now` when the remaining time was taken and
    /// `base_now` when it was counted from; none if that lies beyond the calendar.
    pub fn renew_at_from(&self, ttl_now: &Timestamp, base_now: &Timestamp) -> (r: Option<Timestamp>)
        requires
            self.expires_at.wf(),
            ttl_now.wf(),
            base_now.wf(),
        ensures
            ({
                let second = renewal_second(self.expires_at, *ttl_now, *base_now);
                match r {
                    Some(t) => t.wf() && t.secs == second && t.nanos == base_now.nanos,
                    None => second < clock::MIN_SECS || clock::MAX_SECS < second,
                }
            }),
    {
        let left: i64 = self.expires_at.secs_since(ttl_now);
        let offset: i64 = if left >= 0 {
            proof {
                share::nine_tenths_is_exact(left as nat);
            }
            share::nine_tenths(left as u64) as i64
        } else {
            proof {
                share::nine_tenths_is_exact((-left) as nat);
            }
            -(share::nine_tenths((-left) as u64) as i64)
        };
        base_now.plus_secs(offset)
    }

    /// When the rotation task should renew: once nine tenths of the remaining time have passed, so
    /// that there is time left to try again; none if that lies beyond the calendar. The times are
    /// those that the system clock shows.
    pub fn renew_at(&self) -> (r: Option<Timestamp>)
        requires
            self.expires_at.wf(),
        ensures
            exists|ttl_now: Timestamp, base_now: Timestamp|
                #![trigger ttl_now.showable(), base_now.showable()]
                {
                    let second = renewal_second(self.expires_at, ttl_now, base_now);
                    &&& ttl_now.showable()
                    &&& base_now.showable()
                    &&& clock::was_shown(ttl_now)
                    &&& clock::was_shown(base_now)
                    &&& match r {
                        Some(t) => t.wf() && t.secs == second && t.nanos == base_now.nanos,
                        None => second < clock::MIN_SECS || clock::MAX_SECS < second,
                    }
                },
    {
        let ttl_now: Timestamp = clock::now();
        let base_now: Timestamp = clock::now();
        let r: Option<Timestamp> = self.renew_at_from(&ttl_now, &base_now);
        assert(ttl_now.showable() && base_now.showable());
        r
    }
}

/// No time is left exactly if less than a second lies between `now` and the expiry, or it is past.
pub proof fn no_time_left_after_expiry(expires_at: Timestamp, now: Timestamp)
    ensures
        ttl_of(expires_at, now) == 0 <==> expires_at@ < now@ + 1_000_000_000,
{
}

/// Renewal falls between now and the expiry, and before the last whole second that is left.
pub proof fn renewal_comes_before_expiry(expires_at: Timestamp, now: Timestamp)
    requires
        expires_at.wf(),
        now.wf(),
        now@ <= expires_at@,
    ensures
        now.secs <= renewal_second(expires_at, now, now) <= expires_at.secs,
        renewal_second(expires_at, now, now) == now.secs + 9 * ttl_of(expires_at, now) / 10,
        ttl_of(expires_at, now) > 0 ==> renewal_second(expires_at, now, now) < now.secs + ttl_of(
            expires_at,
            now,
        ),
{
    let left = clock::whole_secs(expires_at@ - now@);
    assert(now.secs + left <= expires_at.secs) by {
        assert(left * 1_000_000_000 <= expires_at@ - now@);
    }
}

/// What an access token says of its bearer.
#[derive(Debug)]
pub struct Claims {
    /// The authenticated username.
    pub sub: String,
    /// When the token was issued, in seconds since the start of 1970.
    pub iat: i64,
    /// When the token expires, in seconds since the start of 1970.
    pub exp: i64,
    /// Who issued the token.
    pub iss: String,
    /// The roles granted to the user.
    pub roles: Vec<String>,
}

impl Clone for Claims {
    fn clone(&self) -> (r: Self)
        ensures
            r.sub == self.sub,
            r.iat == self.iat,
            r.exp == self.exp,
            r.iss == self.iss,
            r.roles@ == self.roles@,
    {
        Claims {
            sub: self.sub.clone(),
            iat: self.iat,
            exp: self.exp,
            iss: self.iss.clone(),
            roles: text::copy_texts(&self.roles),
        }
    }
}

/// The credentials that a user logs in with.
#[derive(Debug)]
pub struct LoginRequest {
    pub username: String,
    pub password: String,
}

/// What a successful login is answered.
#[derive(Debug)]
pub struct TokenResponse {
    pub access_token: String,
    pub token_type: String,
    pub expires_in: i64,
}

/// A service's request for a certificate.
#[derive(Debug)]
pub struct UnsealRequest {
    /// The name of the requesting service.
    pub service_name: String,
    /// The identifier of the host.
    pub machine_id: String,
    /// The TPM quote in hexadecimal; empty where there is none.
    pub tpm_quote: String,
    /// The vault's nonce in hexadecimal.
    pub nonce: String,
    /// The public area of the attestation key in hexadecimal; empty where there is none.
    pub ak_pub: String,
}

impl Clone for UnsealRequest {
    fn clone(&self) -> (r: Self)
        ensures
            r == *self,
    {
        UnsealRequest {
            service_name: self.service_name.clone(),
            machine_id: self.machine_id.clone(),
            tpm_quote: self.tpm_quote.clone(),
            nonce: self.nonce.clone(),
            ak_pub: self.ak_pub.clone(),
        }
    }
}

/// What a granted request for a certificate is answered.
#[derive(Debug)]
pub struct UnsealResponse {
    pub bundle: CertBundle,
}

/// One entry of the vault's issuance log.
#[derive(Debug)]
pub struct IssuanceLogEntry {
    pub timestamp: Timestamp,
    pub service_name: String,
    pub machine_id: String,
    pub cert_serial: String,
    pub expires_at: Timestamp,
    pub granted: bool,
    /// Why the request was refused; none if it was granted.
    pub reason: Option<String>,
}

/// What a service answers to a health check.
#[derive(Debug)]
pub struct HealthResponse {
    pub status: &'static str,
    pub service: String,
    pub version: &'static str,
    /// Whether the service is still sealed.
    pub sealed: bool,
    /// The serial number of the certificate in use.
    pub cert_serial: Option<String>,
}

/// The nanoseconds from one time to another.
pub open spec fn nanos_between(from: Timestamp, to: Timestamp) -> int {
    (to.secs - from.secs) * 1_000_000_000 + to.nanos - from.nanos
}

/// The time that is left is counted in whole seconds: it does not go past the expiry, less than a
/// second of it is missing, and nothing is left of a certificate that has expired.
pub proof fn time_left_is_in_whole_seconds(bundle: &CertBundle, now: &Timestamp, r: u64)
    requires
        bundle.expires_at.wf(),
        now.wf(),
        call_ensures(CertBundle::ttl_secs_at, (bundle, now), r),
    ensures
        nanos_between(*now, bundle.expires_at) <= 0 ==> r == 0,
        nanos_between(*now, bundle.expires_at) >= 0 ==> r * 1_000_000_000 <= nanos_between(
            *now,
            bundle.expires_at,
        ) < (r + 1) * 1_000_000_000,
{
}

/// The time that is left is counted from what the system clock shows.
pub proof fn time_left_goes_by_the_clock(bundle: &CertBundle, r: u64)
    requires
        bundle.expires_at.wf(),
        call_ensures(CertBundle::ttl_secs, (bundle,), r),
    ensures
        exists|now: Timestamp| #[trigger]
            clock::was_shown(now) && if nanos_between(now, bundle.expires_at) <= 0 {
                r == 0
            } else {
                r * 1_000_000_000 <= nanos_between(now, bundle.expires_at) < (r + 1) * 1_000_000_000
            },
{
    let now = choose|now: Timestamp| #[trigger]
        now.showable() && r == ttl_of(bundle.expires_at, now) && clock::was_shown(now);
    assert(clock::was_shown(now));
}

/// A certificate is renewed when nine tenths of the time that is left have passed, in whole seconds;
/// one that has expired is due at once.
pub proof fn renewal_is_due_after_nine_tenths(
    bundle: &CertBundle,
    ttl_now: &Timestamp,
    base_now: &Timestamp,
    ttl: u64,
    r: Option<Timestamp>,
)
    requires
        bundle.expires_at.wf(),
        ttl_now.wf(),
        base_now.wf(),
        call_ensures(CertBundle::ttl_secs_at, (bundle, ttl_now), ttl),
        call_ensures(CertBundle::renew_at_from, (bundle, ttl_now, base_now), r),
    ensures
        r matches Some(t) ==> t.nanos == base_now.nanos,
        r matches Some(t) ==> nanos_between(*ttl_now, bundle.expires_at) >= 0 ==> t.secs
            - base_now.secs == 9 * ttl / 10,
        r matches Some(t) ==> nanos_between(*ttl_now, bundle.expires_at) < 0 ==> t.secs
            <= base_now.secs,
        nanos_between(*ttl_now, bundle.expires_at) >= 0 && base_now.secs + ttl
            <= 8_210_266_876_799 ==> r is Some,
{
}

/// When to renew is counted from what the system clock shows.
pub proof fn renewal_goes_by_the_clock(bundle: &CertBundle, r: Option<Timestamp>)
    requires
        bundle.expires_at.wf(),
        call_ensures(CertBundle::renew_at, (bundle,), r),
    ensures
        r matches Some(t) ==> exists|ttl_now: Timestamp, base_now: Timestamp|
            {
                &&& #[trigger] clock::was_shown(ttl_now)
                &&& #[trigger] clock::was_shown(base_now)
                &&& t.nanos == base_now.nanos
                &&& nanos_between(ttl_now, bundle.expires_at) >= 0 ==> t.secs - base_now.secs == 9
                    * (nanos_between(ttl_now, bundle.expires_at) / 1_000_000_000) / 10
                &&& nanos_between(ttl_now, bundle.expires_at) < 0 ==> t.secs <= base_now.secs
            },
{
    let (ttl_now, base_now) = choose|ttl_now: Timestamp, base_now: Timestamp|
        #![trigger ttl_now.showable(), base_now.showable()]
        {
            let second = renewal_second(bundle.expires_at, ttl_now, base_now);
            &&& ttl_now.showable()
            &&& base_now.showable()
            &&& clock::was_shown(ttl_now)
            &&& clock::was_shown(base_now)
            &&& match r {
                Some(t) => t.wf() && t.secs == second && t.nanos == base_now.nanos,
                None => second < clock::MIN_SECS || clock::MAX_SECS < second,
            }
        };
    assert(clock::was_shown(ttl_now) && clock::was_shown(base_now));
}

/// A copy holds what was copied.
pub proof fn copies_are_equal(
    user: (&User, User),
    order: (&Order, Order),
    full: (&OrderWithUser, OrderWithUser),
    bundle: (&CertBundle, CertBundle),
    request: (&UnsealRequest, UnsealRequest),
    claims: (&Claims, Claims),
)
    requires
        call_ensures(<User as Clone>::clone, (user.0,), user.1),
        call_ensures(<Order as Clone>::clone, (order.0,), order.1),
        call_ensures(<OrderWithUser as Clone>::clone, (full.0,), full.1),
        call_ensures(<CertBundle as Clone>::clone, (bundle.0,), bundle.1),
        call_ensures(<UnsealRequest as Clone>::clone, (request.0,), request.1),
        call_ensures(<Claims as Clone>::clone, (claims.0,), claims.1),
    ensures
        *user.0 == user.1,
        *order.0 == order.1,
        *full.0 == full.1,
        *bundle.0 == bundle.1,
        *request.0 == request.1,
        claims.0.sub == claims.1.sub && claims.0.iss == claims.1.iss,
        claims.0.iat == claims.1.iat && claims.0.exp == claims.1.exp,
        claims.0.roles@ == claims.1.roles@,
{
}

} // verus!
