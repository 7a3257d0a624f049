use securenet::chaos::{drop_body, inject, Dice, Fault, DELAY_MAX_MS, DELAY_MIN_MS, DROP_STATUS};
use securenet::models::User;
use securenet::orders::{complete, seed_orders, UserAnswer, FIRST_ORDER, SECOND_ORDER};
use securenet::table::Table;
use securenet::users::{seed_users, ALICE, BOB, CAROL};
use securenet::{orders, users};

fn id(text: &str) -> u128 {
    text.parse::<uuid::Uuid>().unwrap().as_u128()
}

#[test]
fn seeded_ids_are_the_written_ones() {
    assert_eq!(ALICE, id("550e8400-e29b-41d4-a716-446655440001"));
    assert_eq!(BOB, id("550e8400-e29b-41d4-a716-446655440002"));
    assert_eq!(CAROL, id("550e8400-e29b-41d4-a716-446655440003"));
    assert_eq!(FIRST_ORDER, id("660e8400-e29b-41d4-a716-446655440001"));
    assert_eq!(SECOND_ORDER, id("660e8400-e29b-41d4-a716-446655440002"));
}

#[test]
fn users_are_found_by_id() {
    let users = seed_users();
    let user = users.get_user(BOB).unwrap();
    assert_eq!((user.id, user.name.as_str(), user.email.as_str()), (BOB, "Bob Santos", "bob@securenet.dev"));
    assert_eq!(users.get_user(ALICE).unwrap().name, "Alice Chen");
    assert_eq!(users.get_user(CAROL).unwrap().email, "carol@securenet.dev");
    assert_eq!(users.get_user(7).unwrap_err(), 404);
}

#[test]
fn every_user_is_listed_once() {
    let mut ids: Vec<u128> = seed_users().list_users().iter().map(|u| u.id).collect();
    ids.sort();
    assert_eq!(ids, vec![ALICE, BOB, CAROL]);
}

#[test]
fn orders_are_found_with_the_address_of_their_user() {
    let orders = seed_orders();
    let (order, url) = orders.get_order(SECOND_ORDER, "https://localhost:8001").unwrap();
    assert_eq!((order.user_id, order.item.as_str(), order.qty), (BOB, "Neural Interface Headset", 2));
    assert_eq!(url, "https://localhost:8001/users/550e8400-e29b-41d4-a716-446655440002");
    let (order, _) = orders.get_order(FIRST_ORDER, "").unwrap();
    assert_eq!((order.item.as_str(), order.qty), ("Neuralink N1 Implant", 1));
    assert_eq!(orders.get_order(1, "x").unwrap_err(), 404);
}

#[test]
fn every_order_is_listed_once() {
    let mut ids: Vec<u128> = seed_orders().list_orders().iter().map(|o| o.id).collect();
    ids.sort();
    assert_eq!(ids, vec![FIRST_ORDER, SECOND_ORDER]);
}

#[test]
fn orders_are_completed_with_their_user() {
    let order = || seed_orders().get_order(FIRST_ORDER, "").unwrap().0;
    let user = || User { id: ALICE, name: "Alice Chen".to_string(), email: String::new() };
    let full = complete(order(), Ok(UserAnswer { status: 200, body: Ok(user()) })).unwrap();
    assert_eq!((full.order.id, full.user.id), (FIRST_ORDER, ALICE));
    assert_eq!(full.clone().user.name, "Alice Chen");
    let no = || "no".to_string();
    assert_eq!(complete(order(), Err(no())).unwrap_err(), 502);
    let failed = UserAnswer { status: 404, body: Ok(user()) };
    assert_eq!(complete(order(), Ok(failed)).unwrap_err(), 502);
    let garbled = UserAnswer { status: 200, body: Err(no()) };
    assert_eq!(complete(order(), Ok(garbled)).unwrap_err(), 502);
}

#[test]
fn services_report_their_health() {
    let health = users::health("01", true, "0.1.0");
    assert_eq!((health.status, health.service.as_str(), health.version), ("ok", "user-service", "0.1.0"));
    assert!(health.sealed);
    assert_eq!(health.cert_serial.as_deref(), Some("01"));
    let health = orders::health("02", "0.1.0");
    assert_eq!(health.service, "order-service");
    assert!(!health.sealed);
}

#[test]
fn faults_are_injected_drop_first() {
    let dice = |drop, delay| Some(Dice { drop, delay, delay_ms: 123 });
    assert_eq!(inject(None), Fault::Forward);
    assert_eq!(inject(dice(false, false)), Fault::Forward);
    assert_eq!(inject(dice(false, true)), Fault::Delay(123));
    assert_eq!(inject(dice(true, false)), Fault::Drop);
    assert_eq!(inject(dice(true, true)), Fault::Drop);
}

#[test]
fn dropped_requests_are_answered_in_json() {
    assert_eq!(drop_body(), r#"{"error":"CHAOS_DROP","message":"chaos fault injected"}"#);
    assert_eq!((DROP_STATUS, DELAY_MIN_MS, DELAY_MAX_MS), (503, 100, 500));
}

#[test]
fn tables_hold_one_value_for_each_key() {
    let mut table: Table<String, u8> = Table::new();
    table.insert("a".to_string(), 1);
    table.insert("b".to_string(), 2);
    table.insert("a".to_string(), 3);
    assert_eq!(table.get(&"a".to_string()), Some(&3));
    assert_eq!(table.keys().len(), 2);
    assert_eq!(table.remove(&"a".to_string()), Some(3));
    assert_eq!(table.remove(&"a".to_string()), None);
    assert_eq!(table.keys(), vec!["b".to_string()]);
}
