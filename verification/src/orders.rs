//! The service that keeps the orders, and completes each with the user who placed it.
use std::collections::HashMap;
use vstd::prelude::*;

use crate::models::HealthResponse;
use crate::models::Order;
use crate::models::OrderWithUser;
use crate::models::User;
use crate::text;
use crate::users;

verus! {

/// The orders by their ids.
#[derive(Debug)]
pub struct Orders {
    orders: HashMap<u128, Order>,
}

/// The ids of the orders that the service starts with: 660e8400-e29b-41d4-a716-446655440001 and the
/// one behind it.
pub const FIRST_ORDER: u128 = 0x660e8400_e29b_41d4_a716_446655440001;

pub const SECOND_ORDER: u128 = 0x660e8400_e29b_41d4_a716_446655440002;

/// Whether an order is the one described.
pub open spec fn is_order(order: Order, id: u128, user_id: u128, item: Seq<char>, qty: u32) -> bool {
    order.id == id && order.user_id == user_id && order.item@ == item && order.qty == qty
}

impl View for Orders {
    type V = Map<u128, Order>;

    closed spec fn view(&self) -> Map<u128, Order> {
        self.orders@
    }
}

/// The orders that the service starts with.
pub fn seed_orders() -> (r: Orders)
    ensures
        r@.dom() == set![FIRST_ORDER, SECOND_ORDER],
        is_order(r@[FIRST_ORDER], FIRST_ORDER, users::ALICE, "Neuralink N1 Implant"@, 1),
        is_order(r@[SECOND_ORDER], SECOND_ORDER, users::BOB, "Neural Interface Headset"@, 2),
{
    let mut orders: HashMap<u128, Order> = HashMap::new();
    orders.insert(
        FIRST_ORDER,
        Order {
            id: FIRST_ORDER,
            user_id: users::ALICE,
            item: "Neuralink N1 Implant".to_owned(),
            qty: 1,
        },
    );
    orders.insert(
        SECOND_ORDER,
        Order {
            id: SECOND_ORDER,
            user_id: users::BOB,
            item: "Neural Interface Headset".to_owned(),
            qty: 2,
        },
    );
    assert(orders@.dom() =~= set![FIRST_ORDER, SECOND_ORDER]);
    Orders { orders }
}

/// The written form of a UUID: 32 lower-case hexadecimal digits in groups of 8, 4, 4, 4 and 12.
pub open spec fn hyphenated(id: u128) -> Seq<char> {
    let digits = text::padded_hex(id as int, 32);
    digits.subrange(0, 8) + "-"@ + digits.subrange(8, 12) + "-"@ + digits.subrange(12, 16) + "-"@
        + digits.subrange(16, 20) + "-"@ + digits.subrange(20, 32)
}

/// `uuid::Uuid` as it is displayed.
#[verifier::external_body]
fn uuid_text(id: u128) -> (r: String)
    ensures
        r@ == hyphenated(id),
{
    uuid::Uuid::from_u128(id).to_string()
}

/// What came back from the user service: a status, and a user or the text of the error that reading
/// it gave.
#[derive(Debug)]
pub struct UserAnswer {
    pub status: u16,
    pub body: Result<User, String>,
}

/// Whether `r` is what an order is answered for what came back from the user service: the order with
/// the user, or status 502 if the service was not reached, has failed or cannot be understood.
pub open spec fn is_completed(
    r: Result<OrderWithUser, u16>,
    order: Order,
    sent: Result<UserAnswer, String>,
) -> bool {
    match sent {
        Ok(answer) => match answer.body {
            Ok(user) => if 200 <= answer.status <= 299 {
                r matches Ok(full) && full.order == order && full.user == user
            } else {
                r == Err::<OrderWithUser, u16>(502)
            },
            Err(_) => r == Err::<OrderWithUser, u16>(502),
        },
        Err(_) => r == Err::<OrderWithUser, u16>(502),
    }
}

/// What an order is answered for what came back from the user service.
pub fn complete(order: Order, sent: Result<UserAnswer, String>) -> (r: Result<OrderWithUser, u16>)
    ensures
        is_completed(r, order, sent),
{
    match sent {
        Ok(answer) => {
            if answer.status < 200 || 299 < answer.status {
                return Err(502);
            }
            match answer.body {
                Ok(user) => Ok(OrderWithUser { order, user }),
                Err(_) => Err(502),
            }
        },
        Err(_) => Err(502),
    }
}

impl Orders {
    /// `GET /orders/:id`: the order with this id and where the user service is asked for its user,
    /// or status 404.
    pub fn get_order(&self, id: u128, user_svc_url: &str) -> (r: Result<(Order, String), u16>)
        ensures
            match r {
                Ok((order, url)) => {
                    &&& self@.contains_key(id)
                    &&& order == self@[id]
                    &&& url@ == user_svc_url@ + "/users/"@ + hyphenated(self@[id].user_id)
                },
                Err(status) => !self@.contains_key(id) && status == 404,
            },
    {
        match self.orders.get(&id) {
            Some(order) => {
                let user: String = uuid_text(order.user_id);
                Ok((order.clone(), text::concat3(user_svc_url, "/users/", user.as_str())))
            },
            None => Err(404),
        }
    }

    /// `GET /orders`: every order once, in no particular order.
    pub fn list_orders(&self) -> (r: Vec<Order>)
        ensures
            exists|ids: Seq<u128>| #[trigger] users::lists(ids, self@, r@),
    {
        let mut out: Vec<Order> = Vec::new();
        let entries = self.orders.iter();
        let ghost pairs = vstd::std_specs::hash::into_iter(entries);
        for entry in walked: entries
            invariant
                walked.seq().unref() == pairs,
                out@.len() == walked.index(),
                forall|j: int| 0 <= j < out@.len() ==> #[trigger] out@[j] == pairs[j].1,
        {
            out.push(entry.1.clone());
        }
        proof {
            users::pairs_list_the_table(pairs, self@, out@);
        }
        out
    }
}

/// `GET /health`: that the service runs, and the serial number of the certificate in use.
pub fn health(cert_serial: &str, version: &'static str) -> (r: HealthResponse)
    ensures
        r.status@ == "ok"@,
        r.service@ == "order-service"@,
        r.version@ == version@,
        !r.sealed,
        r.cert_serial matches Some(serial) && serial@ == cert_serial@,
{
    HealthResponse {
        status: "ok",
        service: "order-service".to_owned(),
        version,
        sealed: false,
        cert_serial: Some(cert_serial.to_owned()),
    }
}

/// An order is answered with a user only if the user service has given one.
pub proof fn orders_name_given_users(
    r: Result<OrderWithUser, u16>,
    order: Order,
    sent: Result<UserAnswer, String>,
)
    requires
        is_completed(r, order, sent),
    ensures
        r is Ok <==> (sent matches Ok(answer) && 200 <= answer.status <= 299 && answer.body is Ok),
        r matches Ok(full) ==> full.order == order,
        r matches Err(status) ==> status == 502,
{
}

/// An order is answered with the user whom the user service has given, unchanged, and as it was; if the
/// user service was not reached, has failed or cannot be understood, the answer is 502.
pub proof fn orders_are_completed_with_the_given_user(
    order: Order,
    sent: Result<UserAnswer, String>,
    r: Result<OrderWithUser, u16>,
)
    requires
        call_ensures(complete, (order, sent), r),
    ensures
        r matches Ok(full) ==> {
            &&& full.order.id == order.id
            &&& full.order.user_id == order.user_id
            &&& full.order.item@ == order.item@
            &&& full.order.qty == order.qty
            &&& sent matches Ok(answer)
            &&& 200 <= answer.status <= 299
            &&& answer.body matches Ok(user)
            &&& full.user.id == user.id
            &&& full.user.name@ == user.name@
            &&& full.user.email@ == user.email@
        },
        r matches Err(status) ==> {
            &&& status == 502
            &&& sent matches Ok(answer) ==> answer.body is Err || answer.status < 200
                || answer.status > 299
        },
{
}

/// The order that is fetched is the one that was asked for and is among those listed, and the user
/// service is asked for the user who has placed it; an order that is not there is answered 404.
pub proof fn fetched_orders_are_listed(
    orders: &Orders,
    id: u128,
    user_svc_url: &str,
    fetched: Result<(Order, String), u16>,
    list: Vec<Order>,
)
    requires
        forall|held: u128| #[trigger] orders@.contains_key(held) ==> orders@[held].id == held,
        call_ensures(Orders::get_order, (orders, id, user_svc_url), fetched),
        call_ensures(Orders::list_orders, (orders,), list),
    ensures
        fetched matches Ok((order, url)) ==> {
            &&& order.id == id
            &&& list@.contains(order)
            &&& url@ == user_svc_url@ + "/users/"@ + hyphenated(order.user_id)
        },
        fetched matches Err(status) ==> status == 404 && forall|i: int|
            0 <= i < list@.len() ==> (#[trigger] list@[i]).id != id,
        forall|i: int, j: int|
            0 <= i < j < list@.len() ==> (#[trigger] list@[i]).id != (#[trigger] list@[j]).id,
{
    let ids = choose|ids: Seq<u128>| #[trigger] users::lists(ids, orders@, list@);
    if let Ok((order, _)) = fetched {
        let i = choose|i: int| 0 <= i < ids.len() && ids[i] == id;
        assert(list@[i] == order);
    }
    assert forall|i: int| 0 <= i < list@.len() implies (#[trigger] list@[i]).id == ids[i] by {
        assert(orders@.contains_key(ids[i]));
    }
}

/// The service starts with two orders, each found under its own id and placed by a user that the user
/// service starts with.
pub proof fn seeded_orders_can_be_fetched(
    orders: Orders,
    id: u128,
    url: &str,
    fetched: Result<(Order, String), u16>,
    seeded: users::Users,
    user: Result<User, u16>,
)
    requires
        call_ensures(seed_orders, (), orders),
        call_ensures(Orders::get_order, (&orders, id, url), fetched),
        call_ensures(users::seed_users, (), seeded),
        fetched matches Ok((order, _)) ==> call_ensures(
            users::Users::get_user,
            (&seeded, order.user_id),
            user,
        ),
    ensures
        fetched is Ok <==> 0x660e8400_e29b_41d4_a716_446655440001 <= id
            <= 0x660e8400_e29b_41d4_a716_446655440002,
        fetched matches Ok((order, _)) ==> order.id == id && user is Ok,
        fetched matches Ok((order, _)) ==> id == FIRST_ORDER ==> order.user_id == users::ALICE
            && order.item@ == "Neuralink N1 Implant"@ && order.qty == 1,
        fetched matches Ok((order, _)) ==> id == SECOND_ORDER ==> order.user_id == users::BOB
            && order.item@ == "Neural Interface Headset"@ && order.qty == 2,
{
    assert(orders@.contains_key(id) <==> orders@.dom().contains(id));
    if let Ok((order, _)) = fetched {
        users::seeded_users_can_be_fetched(seeded, order.user_id, user);
    }
}

/// The written form of an id has 36 characters, with hyphens behind the 8th, 12th, 16th and 20th digit.
/// The digits are those of the number in hexadecimal, so different ids are written differently.
pub proof fn written_ids_hold_the_number(id: u128)
    ensures
        hyphenated(id).len() == 36,
        hyphenated(id)[8] == '-' && hyphenated(id)[13] == '-',
        hyphenated(id)[18] == '-' && hyphenated(id)[23] == '-',
        text::value_of(
            hyphenated(id).subrange(0, 8) + hyphenated(id).subrange(9, 13) + hyphenated(
                id,
            ).subrange(14, 18) + hyphenated(id).subrange(19, 23) + hyphenated(id).subrange(24, 36),
            16,
        ) == id,
{
    let digits = text::padded_hex(id as int, 32);
    let whole = hyphenated(id);
    reveal_strlit("-");
    text::padded_hex_is_hex(id as int, 32);
    reveal_with_fuel(text::pow16, 33);
    text::padded_hex_has_the_value(id as int, 32);
    assert(whole.subrange(0, 8) + whole.subrange(9, 13) + whole.subrange(14, 18) + whole.subrange(
        19,
        23,
    ) + whole.subrange(24, 36) =~= digits);
}

/// A health check tells the serial number of the certificate in use.
pub proof fn health_tells_the_serial(cert_serial: &str, version: &'static str, r: HealthResponse)
    requires
        call_ensures(health, (cert_serial, version), r),
    ensures
        r.status@ == "ok"@ && r.service@ == "order-service"@ && r.version@ == version@,
        !r.sealed,
        r.cert_serial matches Some(serial) && serial@ == cert_serial@,
{
}

} // verus!
