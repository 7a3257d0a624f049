//! The service that keeps the users.
use std::collections::HashMap;
use vstd::prelude::*;

use crate::models::HealthResponse;
use crate::models::User;

verus! {

/// The users by their ids.
#[derive(Debug)]
pub struct Users {
    users: HashMap<u128, User>,
}

/// Whether `list` holds the values of a table under the given keys in that order, and the keys are
/// all there are, each once.
pub open spec fn lists<V>(keys: Seq<u128>, table: Map<u128, V>, list: Seq<V>) -> bool {
    &&& keys.len() == list.len()
    &&& keys.no_duplicates()
    &&& forall|i: int| 0 <= i < keys.len() ==> table.contains_key(#[trigger] keys[i])
    &&& forall|i: int| 0 <= i < keys.len() ==> #[trigger] list[i] == table[keys[i]]
    &&& forall|key: u128| #[trigger] table.contains_key(key) ==> keys.contains(key)
}

/// The values of the pairs that a table holds list the table.
pub(crate) proof fn pairs_list_the_table<V>(pairs: Seq<(u128, V)>, table: Map<u128, V>, list: Seq<V>)
    requires
        pairs.no_duplicates(),
        pairs.to_set() == table.kv_pairs(),
        list.len() == pairs.len(),
        forall|i: int| 0 <= i < list.len() ==> #[trigger] list[i] == pairs[i].1,
    ensures
        exists|keys: Seq<u128>| #[trigger] lists(keys, table, list),
{
    let keys = pairs.map_values(|pair: (u128, V)| pair.0);
    assert forall|i: int| 0 <= i < pairs.len() implies table.contains_key(#[trigger] keys[i])
        && table[keys[i]] == pairs[i].1 by {
        assert(pairs.to_set().contains(pairs[i]));
    }
    assert forall|i: int, j: int| 0 <= i < keys.len() && 0 <= j < keys.len() && i != j implies keys[i]
        != keys[j] by {
        if keys[i] == keys[j] {
            assert(pairs[i] == pairs[j]);
        }
    }
    assert forall|key: u128| #[trigger] table.contains_key(key) implies keys.contains(key) by {
        assert(table.kv_pairs().contains((key, table[key])));
        let i = choose|i: int| 0 <= i < pairs.len() && pairs[i] == (key, table[key]);
        assert(keys[i] == key);
    }
    assert(lists(keys, table, list));
}

/// Whether the users in a table are found under their own ids.
pub open spec fn own_ids(users: Map<u128, User>) -> bool {
    forall|id: u128| #[trigger] users.contains_key(id) ==> users[id].id == id
}

/// Whether a user is the one described.
pub open spec fn is_user(user: User, id: u128, name: Seq<char>, email: Seq<char>) -> bool {
    user.id == id && user.name@ == name && user.email@ == email
}

/// The ids of the users that the service starts with: 550e8400-e29b-41d4-a716-446655440001 and the
/// two behind it.
pub const ALICE: u128 = 0x550e8400_e29b_41d4_a716_446655440001;

pub const BOB: u128 = 0x550e8400_e29b_41d4_a716_446655440002;

pub const CAROL: u128 = 0x550e8400_e29b_41d4_a716_446655440003;

impl View for Users {
    type V = Map<u128, User>;

    closed spec fn view(&self) -> Map<u128, User> {
        self.users@
    }
}

/// The users that the service starts with.
pub fn seed_users() -> (r: Users)
    ensures
        r@.dom() == set![ALICE, BOB, CAROL],
        own_ids(r@),
        is_user(r@[ALICE], ALICE, "Alice Chen"@, "alice@securenet.dev"@),
        is_user(r@[BOB], BOB, "Bob Santos"@, "bob@securenet.dev"@),
        is_user(r@[CAROL], CAROL, "Carol White"@, "carol@securenet.dev"@),
{
    let mut users: HashMap<u128, User> = HashMap::new();
    users.insert(
        ALICE,
        User {
            id: ALICE,
            name: "Alice Chen".to_owned(),
            email: "alice@securenet.dev".to_owned(),
        },
    );
    users.insert(
        BOB,
        User { id: BOB, name: "Bob Santos".to_owned(), email: "bob@securenet.dev".to_owned() },
    );
    users.insert(
        CAROL,
        User {
            id: CAROL,
            name: "Carol White".to_owned(),
            email: "carol@securenet.dev".to_owned(),
        },
    );
    assert(users@.dom() =~= set![ALICE, BOB, CAROL]);
    Users { users }
}

impl Users {
    /// `GET /users/:id`: the user with this id, or status 404.
    pub fn get_user(&self, id: u128) -> (r: Result<User, u16>)
        ensures
            r == (if self@.contains_key(id) {
                Ok(self@[id])
            } else {
                Err(404u16)
            }),
    {
        match self.users.get(&id) {
            Some(user) => Ok(user.clone()),
            None => Err(404),
        }
    }

    /// `GET /users`: every user once, in no particular order.
    pub fn list_users(&self) -> (r: Vec<User>)
        ensures
            exists|ids: Seq<u128>| #[trigger] lists(ids, self@, r@),
    {
        let mut out: Vec<User> = Vec::new();
        let entries = self.users.iter();
        let ghost pairs = vstd::std_specs::hash::into_iter(entries);
        for entry in walked: entries
            invariant
                walked.seq().unref() == pairs,
                out@.len() == walked.index(),
                forall|j: int| 0 <= j < out@.len() ==> #[trigger] out@[j] == pairs[j].1,
        {
            out.push(entry.1.clone());
        }
        proof {
            pairs_list_the_table(pairs, self@, out@);
        }
        out
    }
}

/// `GET /health`: that the service runs, and the serial number of the certificate in use.
pub fn health(cert_serial: &str, sealed: bool, version: &'static str) -> (r: HealthResponse)
    ensures
        r.status@ == "ok"@,
        r.service@ == "user-service"@,
        r.version@ == version@,
        r.sealed == sealed,
        r.cert_serial matches Some(serial) && serial@ == cert_serial@,
{
    HealthResponse {
        status: "ok",
        service: "user-service".to_owned(),
        version,
        sealed,
        cert_serial: Some(cert_serial.to_owned()),
    }
}

/// Every user that is listed can be fetched by their id, and every user that can be fetched is
/// listed.
pub proof fn lists_hold_what_can_be_fetched(
    ids: Seq<u128>,
    users: Map<u128, User>,
    list: Seq<User>,
    user: User,
)
    requires
        lists(ids, users, list),
        own_ids(users),
    ensures
        list.contains(user) <==> users.contains_key(user.id) && users[user.id] == user,
{
    if list.contains(user) {
        let i = choose|i: int| 0 <= i < list.len() && list[i] == user;
        assert(users.contains_key(ids[i]));
    }
    if users.contains_key(user.id) && users[user.id] == user {
        let i = choose|i: int| 0 <= i < ids.len() && ids[i] == user.id;
        assert(list[i] == user);
    }
}

/// Fetching and listing agree: a user who can be fetched is listed, a user who cannot is answered 404,
/// and nobody is listed twice.
pub proof fn fetched_users_are_listed(
    users: &Users,
    id: u128,
    fetched: Result<User, u16>,
    list: Vec<User>,
)
    requires
        own_ids(users@),
        call_ensures(Users::get_user, (users, id), fetched),
        call_ensures(Users::list_users, (users,), list),
    ensures
        fetched matches Ok(user) ==> user.id == id && list@.contains(user),
        fetched matches Err(status) ==> status == 404 && forall|i: int|
            0 <= i < list@.len() ==> (#[trigger] list@[i]).id != id,
        forall|i: int, j: int|
            0 <= i < j < list@.len() ==> (#[trigger] list@[i]).id != (#[trigger] list@[j]).id,
{
    let ids = choose|ids: Seq<u128>| #[trigger] lists(ids, users@, list@);
    if let Ok(user) = fetched {
        let i = choose|i: int| 0 <= i < ids.len() && ids[i] == id;
        assert(list@[i] == user);
    }
    assert forall|i: int| 0 <= i < list@.len() implies (#[trigger] list@[i]).id == ids[i] by {
        assert(users@.contains_key(ids[i]));
    }
}

/// The service starts with three users, each found under their own id.
pub proof fn seeded_users_can_be_fetched(users: Users, id: u128, fetched: Result<User, u16>)
    requires
        call_ensures(seed_users, (), users),
        call_ensures(Users::get_user, (&users, id), fetched),
    ensures
        fetched is Ok <==> 0x550e8400_e29b_41d4_a716_446655440001 <= id
            <= 0x550e8400_e29b_41d4_a716_446655440003,
        fetched matches Ok(user) ==> user.id == id,
        fetched matches Ok(user) ==> id == ALICE ==> user.name@ == "Alice Chen"@ && user.email@
            == "alice@securenet.dev"@,
        fetched matches Ok(user) ==> id == BOB ==> user.name@ == "Bob Santos"@ && user.email@
            == "bob@securenet.dev"@,
        fetched matches Ok(user) ==> id == CAROL ==> user.name@ == "Carol White"@ && user.email@
            == "carol@securenet.dev"@,
{
    assert(users@.contains_key(id) <==> users@.dom().contains(id));
}

/// A health check tells the serial number of the certificate in use, and whether the service is sealed.
pub proof fn health_tells_serial_and_seal(
    cert_serial: &str,
    sealed: bool,
    version: &'static str,
    r: HealthResponse,
)
    requires
        call_ensures(health, (cert_serial, sealed, version), r),
    ensures
        r.status@ == "ok"@ && r.service@ == "user-service"@ && r.version@ == version@,
        r.sealed == sealed,
        r.cert_serial matches Some(serial) && serial@ == cert_serial@,
{
}

} // verus!
