//! What the vault verifies before it issues a certificate: the machine must be on the allowlist, the
//! nonce must be one of the vault's own, fresh and not yet used, and a quote must be one over the
//! nonce. A missing quote is let through, for hosts without a TPM.
use vstd::prelude::*;

use crate::encoding;
use crate::models::UnsealRequest;
use crate::table::Table;
use crate::text;

verus! {

/// `std::time::Instant`.
#[verifier::external_type_specification]
#[verifier::external_body]
pub struct ExInstant(std::time::Instant);

/// `std::time::Instant::now`. Nothing is said of the instant.
pub assume_specification[ std::time::Instant::now ]() -> (r: std::time::Instant)
;

/// `std::time::Instant::elapsed`. Nothing is said of the time passed.
pub assume_specification[ std::time::Instant::elapsed ](instant: &std::time::Instant) -> (r:
    std::time::Duration)
;

/// `std::time::Duration::as_nanos`. Nothing is said of the number.
pub assume_specification[ std::time::Duration::as_nanos ](duration: &std::time::Duration) -> (r:
    u128)
;

/// The machines that may unseal.
#[derive(Debug)]
pub struct Allowlist {
    pub machine_ids: Vec<String>,
}

/// Whether a machine may unseal: it is listed, or `dev` is, which stands for every machine.
pub open spec fn allows(machine_ids: Seq<Seq<char>>, machine_id: Seq<char>) -> bool {
    machine_ids.contains("dev"@) || machine_ids.contains(machine_id)
}

/// A member of a TOML document: absent, a list, whose entries are none if they are no text, or
/// something else.
#[derive(Debug)]
pub enum TomlMember {
    Absent,
    List(Vec<Option<String>>),
    Other,
}

/// What a member of a TOML document holds.
pub enum TomlView {
    Absent,
    List(Seq<Option<Seq<char>>>),
    Other,
}

impl View for TomlMember {
    type V = TomlView;

    open spec fn view(&self) -> TomlView {
        match *self {
            TomlMember::Absent => TomlView::Absent,
            TomlMember::List(list) => TomlView::List(text::entries(list@)),
            TomlMember::Other => TomlView::Other,
        }
    }
}

/// The member with the given key of a TOML document as `toml` reads it, or the text of the error
/// that it gives.
pub uninterp spec fn toml_member(document: Seq<char>, key: Seq<char>) -> Result<TomlView, Seq<char>>;

/// `toml::from_str`: the member with the given key of a TOML document.
#[verifier::external_body]
fn read_toml(document: &str, key: &str) -> (r: Result<TomlMember, String>)
    ensures
        match r {
            Ok(member) => toml_member(document@, key@) == Ok::<TomlView, Seq<char>>(member@),
            Err(why) => toml_member(document@, key@) == Err::<TomlView, Seq<char>>(why@),
        },
{
    let table: toml::Table = toml::from_str(document).map_err(|e| e.to_string())?;
    Ok(
        match table.get(key) {
            None => TomlMember::Absent,
            Some(toml::Value::Array(list)) => TomlMember::List(
                list.iter().map(|v| v.as_str().map(String::from)).collect(),
            ),
            Some(_) => TomlMember::Other,
        },
    )
}

/// The allowlist that a member of a TOML document is: a list of texts, or else the text of an error.
pub open spec fn listed(member: Result<TomlView, Seq<char>>) -> Result<Seq<Seq<char>>, Seq<char>> {
    match member {
        Err(why) => Err(why),
        Ok(TomlView::Absent) => Err("missing field `machine_ids`"@),
        Ok(TomlView::List(list)) => match text::all_texts(list) {
            Some(ids) => Ok(ids),
            None => Err("invalid type in `machine_ids`, expected a string"@),
        },
        Ok(TomlView::Other) => Err("invalid type of `machine_ids`, expected a sequence"@),
    }
}

/// The allowlist that a member of a TOML document is.
pub fn allowlist_from(member: Result<TomlMember, String>) -> (r: Result<Allowlist, String>)
    ensures
        match (r, listed(
            match member {
                Ok(member) => Ok(member@),
                Err(why) => Err(why@),
            },
        )) {
            (Ok(allowlist), Ok(ids)) => allowlist.ids() == ids,
            (Err(why), Err(expected)) => why@ == expected,
            _ => false,
        },
{
    match member {
        Err(why) => Err(why),
        Ok(TomlMember::Absent) => Err("missing field `machine_ids`".to_owned()),
        Ok(TomlMember::Other) => Err("invalid type of `machine_ids`, expected a sequence".to_owned()),
        Ok(TomlMember::List(list)) => match text::texts_of(&list) {
            Some(machine_ids) => Ok(Allowlist { machine_ids }),
            None => Err("invalid type in `machine_ids`, expected a string".to_owned()),
        },
    }
}

impl Allowlist {
    /// The allowlist of a TOML document: its member `machine_ids`, a list of texts.
    pub fn from_toml(document: &str) -> (r: Result<Allowlist, String>)
        ensures
            match (r, listed(toml_member(document@, "machine_ids"@))) {
                (Ok(allowlist), Ok(ids)) => allowlist.ids() == ids,
                (Err(why), Err(expected)) => why@ == expected,
                _ => false,
            },
    {
        allowlist_from(read_toml(document, "machine_ids"))
    }

    /// The identifiers on the list.
    pub open spec fn ids(&self) -> Seq<Seq<char>> {
        text::texts(self.machine_ids@)
    }

    /// Whether a machine may unseal.
    pub fn contains(&self, machine_id: &str) -> (r: bool)
        ensures
            r == allows(self.ids(), machine_id@),
    {
        if text::contains_text(&self.machine_ids, "dev") {
            return true;
        }
        text::contains_text(&self.machine_ids, machine_id)
    }
}

/// How long a nonce can be used, in nanoseconds: 30 seconds.
pub const NONCE_TTL_NANOS: u128 = 30_000_000_000;

/// Whether a nonce issued at `issued_at` can still be used at `now`.
pub open spec fn fresh(issued_at: u128, now: u128) -> bool {
    now < issued_at + NONCE_TTL_NANOS
}

/// Whether a nonce can be used at `now`: it was issued, and is fresh.
pub open spec fn usable(nonces: Map<Seq<u8>, u128>, nonce: Seq<u8>, now: u128) -> bool {
    nonces.contains_key(nonce) && fresh(nonces[nonce], now)
}

/// The nonces that are still fresh at `now`.
pub open spec fn fresh_nonces(nonces: Map<Seq<u8>, u128>, now: u128) -> Map<Seq<u8>, u128> {
    nonces.restrict(
        Set::new(|nonce: Seq<u8>| nonces.contains_key(nonce) && fresh(nonces[nonce], now)),
    )
}

/// The nonces after one more was issued at `now`, when the expired ones are dropped.
pub open spec fn with_nonce(nonces: Map<Seq<u8>, u128>, nonce: Seq<u8>, now: u128) -> Map<
    Seq<u8>,
    u128,
> {
    fresh_nonces(nonces, now).insert(nonce, now)
}

/// Whether so many nanoseconds have passed since an instant, as the machine's clock has shown them.
pub open spec fn has_elapsed(origin: std::time::Instant, nanos: u128) -> bool {
    exists|passed: std::time::Duration|
        call_ensures(std::time::Instant::elapsed, (&origin,), passed) && #[trigger] call_ensures(
            std::time::Duration::as_nanos,
            (&passed,),
            nanos,
        )
}

/// The nonces that the vault has issued, with the time of each since the store was made.
#[derive(Debug)]
pub struct NonceStore {
    origin: std::time::Instant,
    nonces: Table<Vec<u8>, u128>,
}

impl View for NonceStore {
    type V = Map<Seq<u8>, u128>;

    closed spec fn view(&self) -> Map<Seq<u8>, u128> {
        self.nonces@
    }
}

impl NonceStore {
    /// The instant that times are counted from.
    pub closed spec fn origin(&self) -> std::time::Instant {
        self.origin
    }

    /// A store without nonces.
    pub fn new() -> (r: Self)
        ensures
            r@ == Map::<Seq<u8>, u128>::empty(),
    {
        NonceStore { origin: std::time::Instant::now(), nonces: Table::new() }
    }

    /// The nanoseconds since the store was made, as the machine's clock shows them: `register_at` and
    /// `consume_at` say what follows from each.
    pub(crate) fn now(&self) -> (r: u128)
        ensures
            has_elapsed(self.origin(), r),
    {
        let passed: std::time::Duration = self.origin.elapsed();
        passed.as_nanos()
    }

    /// Registers a nonce issued at `now`, and drops those that have expired.
    pub fn register_at(&mut self, nonce: Vec<u8>, now: u128)
        ensures
            final(self)@ == with_nonce(old(self)@, nonce@, now),
            final(self).origin() == old(self).origin(),
    {
        let keep = |issued_at: &u128| -> (r: bool)
            ensures
                r == fresh(*issued_at, now),
            { *issued_at > now || now - *issued_at < NONCE_TTL_NANOS };
        self.nonces.retain(keep, Ghost(|issued_at: u128| fresh(issued_at, now)));
        self.nonces.insert(nonce, now);
        assert(self@ =~= with_nonce(old(self)@, nonce@, now));
    }

    /// Registers a nonce that was just issued.
    pub fn register(&mut self, nonce: Vec<u8>)
        ensures
            exists|now: u128|
                final(self)@ == #[trigger] with_nonce(old(self)@, nonce@, now) && has_elapsed(
                    old(self).origin(),
                    now,
                ),
            final(self).origin() == old(self).origin(),
    {
        let now: u128 = self.now();
        self.register_at(nonce, now);
    }

    /// Takes a nonce out of the store, and says whether it could be used at `now`.
    pub fn consume_at(&mut self, nonce: &[u8], now: u128) -> (r: bool)
        ensures
            r == usable(old(self)@, nonce@, now),
            final(self)@ == old(self)@.remove(nonce@),
            final(self).origin() == old(self).origin(),
    {
        let key: Vec<u8> = vstd::slice::slice_to_vec(nonce);
        match self.nonces.remove(&key) {
            Some(issued_at) => issued_at > now || now - issued_at < NONCE_TTL_NANOS,
            None => false,
        }
    }

    /// Takes a nonce out of the store, and says whether it could be used.
    pub fn consume(&mut self, nonce: &[u8]) -> (r: bool)
        ensures
            exists|now: u128|
                r == #[trigger] usable(old(self)@, nonce@, now) && has_elapsed(
                    old(self).origin(),
                    now,
                ),
            final(self)@ == old(self)@.remove(nonce@),
            final(self).origin() == old(self).origin(),
    {
        let now: u128 = self.now();
        self.consume_at(nonce, now)
    }
}

/// Why a request for a certificate is refused.
#[derive(Debug)]
pub enum Rejection {
    /// The machine with this identifier is not on the allowlist.
    NotAllowed(String),
    /// The request holds no nonce.
    NonceMissing,
    /// The nonce is not in hexadecimal.
    NonceNotHex,
    /// The nonce is not one of the vault's, has expired or was used before.
    NonceRefused,
    /// The quote is not one over the nonce.
    QuoteMismatch,
}

/// The sentence that describes a refusal.
pub open spec fn rejection_text(rejection: Rejection) -> Seq<char> {
    match rejection {
        Rejection::NotAllowed(id) => "machine_id '"@ + id@ + "' not in allowlist"@,
        Rejection::NonceMissing => "nonce is required"@,
        Rejection::NonceNotHex => "nonce is not valid hex"@,
        Rejection::NonceRefused => "nonce is invalid, expired, or already used"@,
        Rejection::QuoteMismatch => "TPM quote verification failed"@,
    }
}

impl Rejection {
    /// The sentence that describes this refusal.
    pub fn message(&self) -> (r: String)
        ensures
            r@ == rejection_text(*self),
    {
        match self {
            Rejection::NotAllowed(id) => text::concat3(
                "machine_id '",
                id.as_str(),
                "' not in allowlist",
            ),
            Rejection::NonceMissing => "nonce is required".to_owned(),
            Rejection::NonceNotHex => "nonce is not valid hex".to_owned(),
            Rejection::NonceRefused => "nonce is invalid, expired, or already used".to_owned(),
            Rejection::QuoteMismatch => "TPM quote verification failed".to_owned(),
        }
    }
}

/// Whether a quote passes for a nonce: it is absent, or is the digest of the nonce in hexadecimal.
pub open spec fn quote_passes(quote: Seq<char>, nonce: Seq<u8>) -> bool {
    quote.len() == 0 || quote == encoding::hex_text(encoding::sha256(nonce))
}

/// The nonce that a request presents once its machine is allowed.
pub open spec fn presented(request: UnsealRequest, ids: Seq<Seq<char>>) -> Option<Seq<u8>> {
    if allows(ids, request.machine_id@) && request.nonce@.len() > 0 {
        encoding::hex_bytes(request.nonce@)
    } else {
        None
    }
}

/// Whether `r` is the verdict on a request at `now`: the machine is looked at first, then the nonce,
/// then the quote.
pub open spec fn verdict(
    r: Result<(), Rejection>,
    request: UnsealRequest,
    ids: Seq<Seq<char>>,
    nonces: Map<Seq<u8>, u128>,
    now: u128,
) -> bool {
    let allowed = allows(ids, request.machine_id@);
    let given = request.nonce@.len() > 0;
    let bytes = encoding::hex_bytes(request.nonce@);
    let used = bytes is Some && usable(nonces, bytes->0, now);
    match r {
        Ok(_) => allowed && given && used && quote_passes(request.tpm_quote@, bytes->0),
        Err(Rejection::NotAllowed(id)) => !allowed && id@ == request.machine_id@,
        Err(Rejection::NonceMissing) => allowed && !given,
        Err(Rejection::NonceNotHex) => allowed && given && bytes is None,
        Err(Rejection::NonceRefused) => allowed && given && bytes is Some && !used,
        Err(Rejection::QuoteMismatch) => allowed && given && used && !quote_passes(
            request.tpm_quote@,
            bytes->0,
        ),
    }
}

/// The nonces that are left when a request has been verified: a nonce that was presented is gone,
/// whatever the verdict.
pub open spec fn nonces_after(
    request: UnsealRequest,
    ids: Seq<Seq<char>>,
    nonces: Map<Seq<u8>, u128>,
) -> Map<Seq<u8>, u128> {
    match presented(request, ids) {
        Some(nonce) => nonces.remove(nonce),
        None => nonces,
    }
}

/// Verifies a request at `now`.
pub fn verify_at(
    request: &UnsealRequest,
    allowlist: &Allowlist,
    nonce_store: &mut NonceStore,
    now: u128,
) -> (r: Result<(), Rejection>)
    ensures
        verdict(r, *request, allowlist.ids(), old(nonce_store)@, now),
        final(nonce_store)@ == nonces_after(*request, allowlist.ids(), old(nonce_store)@),
        final(nonce_store).origin() == old(nonce_store).origin(),
{
    if !allowlist.contains(request.machine_id.as_str()) {
        return Err(Rejection::NotAllowed(request.machine_id.clone()));
    }
    if request.nonce.as_str().is_empty() {
        return Err(Rejection::NonceMissing);
    }
    let nonce: Vec<u8> = match encoding::hex_decode(request.nonce.as_str()) {
        Ok(nonce) => nonce,
        Err(_) => {
            return Err(Rejection::NonceNotHex);
        },
    };
    if !nonce_store.consume_at(nonce.as_slice(), now) {
        return Err(Rejection::NonceRefused);
    }
    if request.tpm_quote.as_str().is_empty() {
        return Ok(());
    }
    let digest: Vec<u8> = encoding::sha256_digest(nonce.as_slice());
    let expected: String = encoding::hex_encode(digest.as_slice());
    if !text::same_text(request.tpm_quote.as_str(), expected.as_str()) {
        return Err(Rejection::QuoteMismatch);
    }
    Ok(())
}

/// Verifies a request.
pub fn verify(request: &UnsealRequest, allowlist: &Allowlist, nonce_store: &mut NonceStore) -> (r:
    Result<(), Rejection>)
    ensures
        exists|now: u128| #[trigger]
            verdict(r, *request, allowlist.ids(), old(nonce_store)@, now) && has_elapsed(
                old(nonce_store).origin(),
                now,
            ),
        final(nonce_store)@ == nonces_after(*request, allowlist.ids(), old(nonce_store)@),
        final(nonce_store).origin() == old(nonce_store).origin(),
{
    let now: u128 = nonce_store.now();
    verify_at(request, allowlist, nonce_store, now)
}

/// What happens to a store of nonces.
pub enum NonceEvent {
    /// A nonce is registered at a time.
    Registered { nonce: Seq<u8>, now: u128 },
    /// A nonce is presented, and taken out.
    Consumed { nonce: Seq<u8> },
    /// Something that does not touch the nonces.
    Other,
}

/// The nonces after an event.
pub open spec fn after_event(nonces: Map<Seq<u8>, u128>, event: NonceEvent) -> Map<Seq<u8>, u128> {
    match event {
        NonceEvent::Registered { nonce, now } => with_nonce(nonces, nonce, now),
        NonceEvent::Consumed { nonce } => nonces.remove(nonce),
        NonceEvent::Other => nonces,
    }
}

/// The nonces after some events.
pub open spec fn after_events(nonces: Map<Seq<u8>, u128>, events: Seq<NonceEvent>) -> Map<
    Seq<u8>,
    u128,
>
    decreases events.len(),
{
    if events.len() == 0 {
        nonces
    } else {
        after_event(after_events(nonces, events.drop_last()), events.last())
    }
}

/// Whether a nonce is registered in one of the events.
pub open spec fn registers(events: Seq<NonceEvent>, nonce: Seq<u8>) -> bool {
    exists|i: int|
        0 <= i < events.len() && (#[trigger] events[i] matches NonceEvent::Registered {
            nonce: registered,
            ..
        } && registered == nonce)
}

/// Whether a nonce is presented in one of the events.
pub open spec fn consumes(events: Seq<NonceEvent>, nonce: Seq<u8>) -> bool {
    exists|i: int|
        0 <= i < events.len() && (#[trigger] events[i] matches NonceEvent::Consumed {
            nonce: consumed,
        } && consumed == nonce)
}

/// Whether nothing is registered in the events after the time `now`.
pub open spec fn until(events: Seq<NonceEvent>, now: u128) -> bool {
    forall|i: int|
        0 <= i < events.len() ==> (#[trigger] events[i] matches NonceEvent::Registered {
            now: registered_at,
            ..
        } ==> registered_at <= now)
}

/// A nonce that is not there does not come back unless it is registered.
pub proof fn nonces_do_not_come_back(
    nonces: Map<Seq<u8>, u128>,
    nonce: Seq<u8>,
    events: Seq<NonceEvent>,
)
    requires
        !nonces.contains_key(nonce),
        !registers(events, nonce),
    ensures
        !after_events(nonces, events).contains_key(nonce),
    decreases events.len(),
{
    if events.len() > 0 {
        let before = events.drop_last();
        assert(!registers(before, nonce)) by {
            assert(forall|i: int| 0 <= i < before.len() ==> before[i] == #[trigger] events[i]);
        }
        nonces_do_not_come_back(nonces, nonce, before);
        assert(events.last() == events[events.len() - 1]);
    }
}

/// A nonce that was issued can be used for 30 seconds, and no longer, whatever happens to others in the
/// meantime.
pub proof fn nonces_are_usable_for_30_seconds(
    nonces: Map<Seq<u8>, u128>,
    nonce: Seq<u8>,
    issued_at: u128,
    events: Seq<NonceEvent>,
    now: u128,
)
    requires
        !registers(events, nonce),
        !consumes(events, nonce),
        until(events, now),
    ensures
        usable(after_events(with_nonce(nonces, nonce, issued_at), events), nonce, now) <==> now
            < issued_at + NONCE_TTL_NANOS,
{
    nonces_are_kept(nonces, nonce, issued_at, events, now);
}

/// A nonce is in the store as long as it is fresh, and never with another time.
proof fn nonces_are_kept(
    nonces: Map<Seq<u8>, u128>,
    nonce: Seq<u8>,
    issued_at: u128,
    events: Seq<NonceEvent>,
    now: u128,
)
    requires
        !registers(events, nonce),
        !consumes(events, nonce),
        until(events, now),
    ensures
        ({
            let left = after_events(with_nonce(nonces, nonce, issued_at), events);
            &&& now < issued_at + NONCE_TTL_NANOS ==> left.contains_key(nonce)
            &&& left.contains_key(nonce) ==> left[nonce] == issued_at
        }),
    decreases events.len(),
{
    if events.len() > 0 {
        let before = events.drop_last();
        assert(forall|i: int| 0 <= i < before.len() ==> before[i] == #[trigger] events[i]);
        assert(!registers(before, nonce) && !consumes(before, nonce));
        assert(until(before, now));
        nonces_are_kept(nonces, nonce, issued_at, before, now);
        assert(events.last() == events[events.len() - 1]);
    }
}

/// Issuing a nonce neither makes another one usable nor takes it away.
pub proof fn nonces_are_independent(
    nonces: Map<Seq<u8>, u128>,
    nonce: Seq<u8>,
    other: Seq<u8>,
    issued_at: u128,
    now: u128,
)
    requires
        nonce != other,
        issued_at <= now,
    ensures
        usable(with_nonce(nonces, nonce, issued_at), other, now) == usable(nonces, other, now),
{
}

/// A nonce is used once: whoever presented it, a later request with it is refused at any time, whatever
/// happened in between, as long as the nonce was not issued again.
pub proof fn nonces_are_single_use(
    first: UnsealRequest,
    second: UnsealRequest,
    ids: Seq<Seq<char>>,
    nonces: Map<Seq<u8>, u128>,
    events: Seq<NonceEvent>,
    now: u128,
    r: Result<(), Rejection>,
)
    requires
        presented(first, ids) is Some,
        presented(first, ids) == presented(second, ids),
        !registers(events, presented(first, ids)->0),
        verdict(r, second, ids, after_events(nonces_after(first, ids, nonces), events), now),
    ensures
        r == Err::<(), Rejection>(Rejection::NonceRefused),
{
    nonces_do_not_come_back(nonces_after(first, ids, nonces), presented(first, ids)->0, events);
}

/// A request of a machine that is not allowed, and one without a readable nonce, leave every nonce
/// in place.
pub proof fn early_refusals_keep_nonces(
    request: UnsealRequest,
    ids: Seq<Seq<char>>,
    nonces: Map<Seq<u8>, u128>,
    now: u128,
    r: Result<(), Rejection>,
)
    requires
        verdict(r, request, ids, nonces, now),
        r matches Err(why) && (why is NotAllowed || why is NonceMissing || why is NonceNotHex),
    ensures
        nonces_after(request, ids, nonces) == nonces,
{
}

/// With `dev` on the allowlist, every machine is allowed.
pub proof fn dev_allows_every_machine(ids: Seq<Seq<char>>, machine_id: Seq<char>)
    requires
        ids.contains("dev"@),
    ensures
        allows(ids, machine_id),
{
}

/// What a service asks with passes: if its machine is allowed and the vault's nonce is still usable,
/// the request that it makes for the nonce's hexadecimal form is granted.
pub proof fn attested_requests_pass(
    request: UnsealRequest,
    service_name: Seq<char>,
    machine_id: Seq<char>,
    nonce: Seq<u8>,
    ids: Seq<Seq<char>>,
    nonces: Map<Seq<u8>, u128>,
    now: u128,
    r: Result<(), Rejection>,
)
    requires
        crate::attestation::is_attested(
            request,
            service_name,
            machine_id,
            encoding::hex_text(nonce),
            nonce,
        ),
        nonce.len() > 0,
        allows(ids, machine_id),
        usable(nonces, nonce, now),
        verdict(r, request, ids, nonces, now),
    ensures
        r is Ok,
{
    encoding::hex_reads_back(nonce);
}

/// A nonce that is taken out of the store could be used exactly if it was registered less than 30 seconds
/// before, and cannot be used a second time.
pub proof fn registered_nonces_are_consumed_once(
    store: &mut NonceStore,
    nonce: Vec<u8>,
    issued_at: u128,
    first: &mut NonceStore,
    second: &mut NonceStore,
    presented: &[u8],
    now: u128,
    later: u128,
    used: bool,
    again: bool,
)
    requires
        call_ensures(NonceStore::register_at, (store, nonce, issued_at), ()),
        *first == *final(store),
        presented@ == nonce@,
        call_ensures(NonceStore::consume_at, (first, presented, now), used),
        *second == *final(first),
        call_ensures(NonceStore::consume_at, (second, presented, later), again),
    ensures
        used <==> now < issued_at + 30_000_000_000,
        !again,
        final(store).origin() == old(store).origin(),
        final(first).origin() == old(first).origin(),
{
}

/// What is done with one nonce does not touch another: it can be used afterwards exactly if it could be
/// before, as long as time does not run backwards. In a new store there are no nonces.
pub proof fn nonces_do_not_touch_each_other(
    store: &mut NonceStore,
    nonce: Vec<u8>,
    issued_at: u128,
    taken: &mut NonceStore,
    presented: &[u8],
    used: bool,
    untouched: &mut NonceStore,
    touched: &mut NonceStore,
    other: &[u8],
    now: u128,
    before: bool,
    after: bool,
    fresh: NonceStore,
    empty: &mut NonceStore,
    unknown: bool,
)
    requires
        issued_at <= now,
        *untouched == *store,
        call_ensures(NonceStore::consume_at, (untouched, other, now), before),
        call_ensures(NonceStore::register_at, (store, nonce, issued_at), ()),
        *taken == *final(store),
        call_ensures(NonceStore::consume_at, (taken, presented, now), used),
        *touched == *final(taken),
        other@ != nonce@,
        other@ != presented@,
        call_ensures(NonceStore::consume_at, (touched, other, now), after),
        call_ensures(NonceStore::new, (), fresh),
        *empty == fresh,
        call_ensures(NonceStore::consume_at, (empty, other, now), unknown),
    ensures
        after == before,
        !unknown,
{
}

/// The store goes by the time that has passed since it was made, as the machine's clock shows it.
pub proof fn stores_go_by_the_clock(
    store: &mut NonceStore,
    nonce: Vec<u8>,
    first: &mut NonceStore,
    presented: &[u8],
    used: bool,
)
    requires
        call_ensures(NonceStore::register, (store, nonce), ()),
        *first == *final(store),
        presented@ == nonce@,
        call_ensures(NonceStore::consume, (first, presented), used),
    ensures
        exists|issued_at: u128, now: u128|
            {
                &&& #[trigger] has_elapsed(old(store).origin(), issued_at)
                &&& #[trigger] has_elapsed(old(store).origin(), now)
                &&& used <==> now < issued_at + 30_000_000_000
            },
        !final(first)@.contains_key(nonce@),
{
    let issued_at = choose|now: u128|
        final(store)@ == #[trigger] with_nonce(old(store)@, nonce@, now) && has_elapsed(
            old(store).origin(),
            now,
        );
    let now = choose|now: u128|
        used == #[trigger] usable(old(first)@, presented@, now) && has_elapsed(
            old(first).origin(),
            now,
        );
    assert(has_elapsed(old(store).origin(), issued_at) && has_elapsed(old(store).origin(), now));
}

/// A request is accepted only with a quote over its own nonce: if it has a quote at all, that is the
/// lower-case hexadecimal form of the SHA-256 digest of the nonce.
pub proof fn accepted_quotes_are_digests(
    request: &UnsealRequest,
    allowlist: &Allowlist,
    store: &mut NonceStore,
    now: u128,
)
    requires
        call_ensures(verify_at, (request, allowlist, store, now), Ok(())),
    ensures
        encoding::hex_bytes(request.nonce@) matches Some(nonce) && (request.tpm_quote@.len() > 0
            ==> request.tpm_quote@ == encoding::hex_text(encoding::sha256(nonce))),
{
}

/// A request is accepted only from a machine on the allowlist, or if `dev` is on it, and only with a nonce
/// that was issued less than 30 seconds before.
pub proof fn accepted_requests_are_fresh_and_listed(
    request: &UnsealRequest,
    allowlist: &Allowlist,
    store: &mut NonceStore,
    now: u128,
)
    requires
        call_ensures(verify_at, (request, allowlist, store, now), Ok(())),
    ensures
        exists|i: int|
            0 <= i < allowlist.machine_ids@.len() && ((#[trigger] allowlist.machine_ids@[i])@
                == request.machine_id@ || allowlist.machine_ids@[i]@ == "dev"@),
        encoding::hex_bytes(request.nonce@) matches Some(nonce) && old(store)@.contains_key(nonce)
            && now < old(store)@[nonce] + 30_000_000_000 && !final(store)@.contains_key(nonce),
        request.nonce@.len() > 0,
{
    let ids = allowlist.ids();
    let wanted = if ids.contains("dev"@) {
        "dev"@
    } else {
        request.machine_id@
    };
    let i = choose|i: int| 0 <= i < ids.len() && ids[i] == wanted;
    assert(allowlist.machine_ids@[i]@ == wanted);
}

/// Every request that ought to be accepted is: its machine is on the allowlist, its nonce was issued less
/// than 30 seconds before, and its quote is missing or the digest of the nonce.
pub proof fn good_requests_are_accepted(
    request: &UnsealRequest,
    allowlist: &Allowlist,
    store: &mut NonceStore,
    now: u128,
    place: int,
    nonce: Seq<u8>,
    r: Result<(), Rejection>,
)
    requires
        call_ensures(verify_at, (request, allowlist, store, now), r),
        0 <= place < allowlist.machine_ids@.len(),
        allowlist.machine_ids@[place]@ == request.machine_id@ || allowlist.machine_ids@[place]@
            == "dev"@,
        request.nonce@.len() > 0,
        encoding::hex_bytes(request.nonce@) == Some(nonce),
        store@.contains_key(nonce),
        now < store@[nonce] + 30_000_000_000,
        request.tpm_quote@.len() == 0 || request.tpm_quote@ == encoding::hex_text(
            encoding::sha256(nonce),
        ),
    ensures
        r is Ok,
{
    assert(allowlist.ids()[place] == allowlist.machine_ids@[place]@);
}

/// Why a request is refused: the machine is looked at first, then the nonce, then the quote. A machine
/// that is not allowed is named; a nonce must be there, be in hexadecimal and be fresh; and a quote that
/// is not the digest of the nonce is refused whatever it is.
pub proof fn bad_requests_are_refused(
    request: &UnsealRequest,
    allowlist: &Allowlist,
    store: &mut NonceStore,
    now: u128,
    r: Result<(), Rejection>,
)
    requires
        call_ensures(verify_at, (request, allowlist, store, now), r),
    ensures
        ({
            let listed = exists|i: int|
                0 <= i < allowlist.machine_ids@.len() && ((#[trigger] allowlist.machine_ids@[i])@
                    == request.machine_id@ || allowlist.machine_ids@[i]@ == "dev"@);
            let bytes = encoding::hex_bytes(request.nonce@);
            let fresh = bytes is Some && old(store)@.contains_key(bytes->0) && now < old(store)@[bytes->0] + 30_000_000_000;
            &&& !listed <==> (r matches Err(Rejection::NotAllowed(_)))
            &&& r matches Err(Rejection::NotAllowed(id)) ==> id@ == request.machine_id@
            &&& listed && request.nonce@.len() == 0 <==> (r matches Err(Rejection::NonceMissing))
            &&& listed && request.nonce@.len() > 0 && bytes is None <==> (r matches Err(
                Rejection::NonceNotHex,
            ))
            &&& listed && request.nonce@.len() > 0 && bytes is Some && !fresh <==> (r matches Err(
                Rejection::NonceRefused,
            ))
            &&& listed && request.nonce@.len() > 0 && fresh && request.tpm_quote@.len() > 0
                && request.tpm_quote@ != encoding::hex_text(encoding::sha256(bytes->0)) <==> (
            r matches Err(Rejection::QuoteMismatch))
        }),
{
    let ids = allowlist.ids();
    let listed = exists|i: int|
        0 <= i < allowlist.machine_ids@.len() && ((#[trigger] allowlist.machine_ids@[i])@
            == request.machine_id@ || allowlist.machine_ids@[i]@ == "dev"@);
    if listed {
        let i = choose|i: int|
            0 <= i < allowlist.machine_ids@.len() && ((#[trigger] allowlist.machine_ids@[i])@
                == request.machine_id@ || allowlist.machine_ids@[i]@ == "dev"@);
        assert(ids[i] == allowlist.machine_ids@[i]@);
    }
    if allows(ids, request.machine_id@) {
        let wanted = if ids.contains("dev"@) {
            "dev"@
        } else {
            request.machine_id@
        };
        let i = choose|i: int| 0 <= i < ids.len() && ids[i] == wanted;
        assert(allowlist.machine_ids@[i]@ == wanted);
    }
}

/// What verifying does to the nonces: one that an allowed machine has presented is gone, whatever the
/// verdict, and all others stay as they were.
pub proof fn verifying_takes_out_the_presented_nonce(
    request: &UnsealRequest,
    allowlist: &Allowlist,
    store: &mut NonceStore,
    now: u128,
    r: Result<(), Rejection>,
    nonce: Seq<u8>,
)
    requires
        call_ensures(verify_at, (request, allowlist, store, now), r),
    ensures
        final(store).origin() == old(store).origin(),
        r is Ok || (r matches Err(why) && (why is NonceRefused || why is QuoteMismatch)) ==> {
            &&& encoding::hex_bytes(request.nonce@) == Some(nonce) ==> !final(store)@.contains_key(nonce)
            &&& encoding::hex_bytes(request.nonce@) != Some(nonce) ==> (final(store)@.contains_key(
                nonce,
            ) <==> old(store)@.contains_key(nonce)) && (old(store)@.contains_key(nonce) ==> final(store)@[nonce] == old(store)@[nonce])
        },
        r matches Err(why) ==> (why is NotAllowed || why is NonceMissing || why is NonceNotHex
            ==> final(store)@ == old(store)@),
{
}

/// A request is verified by the time that has passed since the store was made.
pub proof fn requests_are_verified_by_the_clock(
    request: &UnsealRequest,
    allowlist: &Allowlist,
    store: &mut NonceStore,
    r: Result<(), Rejection>,
)
    requires
        call_ensures(verify, (request, allowlist, store), r),
    ensures
        exists|now: u128| #[trigger]
            has_elapsed(old(store).origin(), now) && match encoding::hex_bytes(request.nonce@) {
                Some(nonce) => {
                    let fresh = old(store)@.contains_key(nonce) && now < old(store)@[nonce]
                        + 30_000_000_000;
                    &&& r is Ok ==> fresh && (request.tpm_quote@.len() > 0 ==> request.tpm_quote@
                        == encoding::hex_text(encoding::sha256(nonce)))
                    &&& (r matches Err(Rejection::NonceRefused)) ==> !fresh
                    &&& (r matches Err(Rejection::QuoteMismatch)) ==> fresh
                        && request.tpm_quote@.len() > 0 && request.tpm_quote@ != encoding::hex_text(
                        encoding::sha256(nonce),
                    )
                    &&& !(r matches Err(Rejection::NonceNotHex))
                },
                None => r is Err,
            },
        encoding::hex_bytes(request.nonce@) matches Some(nonce) ==> r is Ok ==> !final(store)@.contains_key(nonce),
        final(store).origin() == old(store).origin(),
{
    let now = choose|now: u128| #[trigger]
        verdict(r, *request, allowlist.ids(), old(store)@, now) && has_elapsed(
            old(store).origin(),
            now,
        );
    assert(has_elapsed(old(store).origin(), now));
}

/// What a service asks with is accepted once: the request that it makes for a nonce of the vault passes
/// within 30 seconds if its machine is allowed, and is refused when it is sent again.
pub proof fn attested_requests_are_accepted_once(
    store: &mut NonceStore,
    nonce: Vec<u8>,
    issued_at: u128,
    service_name: &str,
    host: Result<String, String>,
    nonce_hex: &str,
    request: UnsealRequest,
    allowlist: &Allowlist,
    allowed: bool,
    machine_id: &str,
    first: &mut NonceStore,
    now: u128,
    r: Result<(), Rejection>,
    second: &mut NonceStore,
    later: u128,
    again: Result<(), Rejection>,
)
    requires
        nonce@.len() > 0,
        call_ensures(NonceStore::register_at, (store, nonce, issued_at), ()),
        nonce_hex@ == encoding::hex_text(nonce@),
        call_ensures(
            crate::attestation::attest,
            (service_name, host, nonce_hex),
            Ok::<UnsealRequest, encoding::HexError>(request),
        ),
        machine_id@ == request.machine_id@,
        call_ensures(Allowlist::contains, (allowlist, machine_id), allowed),
        *first == *final(store),
        call_ensures(verify_at, (&request, allowlist, first, now), r),
        *second == *final(first),
        call_ensures(verify_at, (&request, allowlist, second, later), again),
    ensures
        r is Ok <==> allowed && now < issued_at + 30_000_000_000,
        allowed ==> again == Err::<(), Rejection>(Rejection::NonceRefused),
{
    encoding::hex_reads_back(nonce@);
}

/// A machine is allowed exactly if it is listed or `dev` is.
pub proof fn listed_machines_are_allowed(allowlist: &Allowlist, machine_id: &str, r: bool)
    requires
        call_ensures(Allowlist::contains, (allowlist, machine_id), r),
    ensures
        r <==> exists|i: int|
            0 <= i < allowlist.machine_ids@.len() && ((#[trigger] allowlist.machine_ids@[i])@
                == machine_id@ || allowlist.machine_ids@[i]@ == "dev"@),
{
    let ids = allowlist.ids();
    if exists|i: int|
        0 <= i < allowlist.machine_ids@.len() && ((#[trigger] allowlist.machine_ids@[i])@
            == machine_id@ || allowlist.machine_ids@[i]@ == "dev"@) {
        let i = choose|i: int|
            0 <= i < allowlist.machine_ids@.len() && ((#[trigger] allowlist.machine_ids@[i])@
                == machine_id@ || allowlist.machine_ids@[i]@ == "dev"@);
        assert(ids[i] == allowlist.machine_ids@[i]@);
    }
    if r {
        let wanted = if ids.contains("dev"@) {
            "dev"@
        } else {
            machine_id@
        };
        let i = choose|i: int| 0 <= i < ids.len() && ids[i] == wanted;
        assert(allowlist.machine_ids@[i]@ == wanted);
    }
}

/// An allowlist is the list of texts under `machine_ids`, all of them and in their order; a document
/// without such a list is refused, and one that cannot be read with the text of its error.
pub proof fn allowlists_hold_the_listed_machines(document: &str, r: Result<Allowlist, String>)
    requires
        call_ensures(Allowlist::from_toml, (document,), r),
    ensures
        r matches Ok(allowlist) ==> {
            &&& toml_member(document@, "machine_ids"@) matches Ok(TomlView::List(list))
            &&& list.len() == allowlist.machine_ids@.len()
            &&& forall|i: int|
                0 <= i < list.len() ==> #[trigger] list[i] == Some(allowlist.machine_ids@[i]@)
        },
        r matches Err(why) ==> match toml_member(document@, "machine_ids"@) {
            Err(text) => why@ == text,
            Ok(TomlView::List(list)) => exists|i: int|
                0 <= i < list.len() && (#[trigger] list[i]) is None,
            Ok(_) => true,
        },
{
    if let Ok(TomlView::List(list)) = toml_member(document@, "machine_ids"@) {
        if let Ok(allowlist) = r {
            assert(allowlist.ids().len() == list.len());
            assert forall|i: int| 0 <= i < list.len() implies #[trigger] list[i] == Some(
                allowlist.machine_ids@[i]@,
            ) by {
                assert(list[i] is Some);
                assert(allowlist.ids()[i] == list[i]->0);
            }
        } else if !(exists|i: int| 0 <= i < list.len() && (#[trigger] list[i]) is None) {
            assert(forall|i: int| 0 <= i < list.len() ==> (#[trigger] list[i]) is Some);
        }
    }
}

/// Each refusal says in words what is wrong.
pub proof fn refusals_have_words(rejection: &Rejection, r: String)
    requires
        call_ensures(Rejection::message, (rejection,), r),
    ensures
        match *rejection {
            Rejection::NotAllowed(id) => r@ == "machine_id '"@ + id@ + "' not in allowlist"@,
            Rejection::NonceMissing => r@ == "nonce is required"@,
            Rejection::NonceNotHex => r@ == "nonce is not valid hex"@,
            Rejection::NonceRefused => r@ == "nonce is invalid, expired, or already used"@,
            Rejection::QuoteMismatch => r@ == "TPM quote verification failed"@,
        },
{
}

/// Registering a nonce forgets those that have expired, and keeps the others with their times.
pub proof fn registering_forgets_expired_nonces(
    store: &mut NonceStore,
    nonce: Vec<u8>,
    now: u128,
    held: Seq<u8>,
)
    requires
        call_ensures(NonceStore::register_at, (store, nonce, now), ()),
        held != nonce@,
    ensures
        final(store)@.contains_key(nonce@) && final(store)@[nonce@] == now,
        final(store)@.contains_key(held) <==> old(store)@.contains_key(held) && now < old(store)@[held] + 30_000_000_000,
        final(store)@.contains_key(held) ==> final(store)@[held] == old(store)@[held],
{
}

/// A member of a document is an allowlist exactly if it is a list of texts: those texts, in their order.
pub proof fn only_lists_of_texts_are_allowlists(
    member: Result<TomlMember, String>,
    r: Result<Allowlist, String>,
)
    requires
        call_ensures(allowlist_from, (member,), r),
    ensures
        r is Ok <==> (member matches Ok(TomlMember::List(list)) && forall|i: int|
            0 <= i < list@.len() ==> (#[trigger] list@[i]) is Some),
        r matches Ok(allowlist) ==> member matches Ok(TomlMember::List(list))
            && allowlist.machine_ids@.len() == list@.len() && forall|i: int|
            0 <= i < list@.len() ==> (#[trigger] allowlist.machine_ids@[i])@ == list@[i]->0@,
        member matches Err(text) ==> r matches Err(why) && why@ == text@,
        member matches Ok(TomlMember::Absent) ==> r matches Err(why) && why@
            == "missing field `machine_ids`"@,
{
    if let Ok(TomlMember::List(list)) = member {
        let all = text::entries(list@);
        assert(all.len() == list@.len());
        if forall|i: int| 0 <= i < list@.len() ==> (#[trigger] list@[i]) is Some {
            assert forall|i: int| 0 <= i < all.len() implies (#[trigger] all[i]) is Some by {
                assert(list@[i] is Some);
            }
        }
        if let Ok(allowlist) = r {
            assert(allowlist.ids().len() == list@.len());
            assert forall|i: int| 0 <= i < list@.len() implies (
            #[trigger] allowlist.machine_ids@[i])@ == list@[i]->0@ && list@[i] is Some by {
                assert(all[i] is Some);
                assert(allowlist.ids()[i] == all[i]->0);
            }
            assert forall|i: int| 0 <= i < list@.len() implies (#[trigger] list@[i]) is Some by {
                assert(all[i] is Some);
            }
        }
    }
}

} // verus!
