use shop_server::clock::Moment;
use shop_server::constants::{MONEY_PER_WORK, WORK_INTERVAL_SECS};
use shop_server::db::{DbReply, DbRequest};
use shop_server::messages::{ClientMessage, ServerResponse};
use shop_server::server::{
    continue_response, get_response, response_or_error, work_check, Failure, Outcome, Pending, Step,
};
use shop_server::util::{hash_password, verify_password};

fn answered(step: Step) -> ServerResponse {
    match step {
        Step::Done(Outcome { response: Ok(r), login: None }) => r,
        other => panic!("expected a plain answer, got {:?}", other),
    }
}

fn failed(step: Step) -> Failure {
    match step {
        Step::Done(Outcome { response: Err(f), login: None }) => f,
        other => panic!("expected a failure, got {:?}", other),
    }
}

fn query(step: Step) -> (Pending, DbRequest) {
    match step {
        Step::Query(p, r) => (p, r),
        other => panic!("expected a query, got {:?}", other),
    }
}

#[test]
fn ping_is_answered_without_login() {
    assert_eq!(answered(get_response(None, ClientMessage::Ping)), ServerResponse::Pong);
    assert_eq!(answered(get_response(Some(4), ClientMessage::Ping)), ServerResponse::Pong);
}

#[test]
fn anonymous_requests_are_unauthorized() {
    for m in [
        ClientMessage::Work,
        ClientMessage::GetBalance,
        ClientMessage::GetMyItems,
        ClientMessage::BuyItem(1),
        ClientMessage::SellItem(1),
    ] {
        assert_eq!(answered(get_response(None, m)), ServerResponse::Unauthorized);
    }
}

#[test]
fn catalogue_is_public() {
    let (p, r) = query(get_response(None, ClientMessage::GetAvailableItems));
    assert_eq!(p, Pending::AllItems);
    assert_eq!(r, DbRequest::GetAllItems);
    let items = vec![(1, "Hat".to_string(), 50), (2, "Cane".to_string(), 70)];
    let resp = answered(continue_response(p, DbReply::AllItems(Some(items.clone()))));
    assert_eq!(resp, ServerResponse::ItemList(items));
    assert_eq!(failed(continue_response(Pending::AllItems, DbReply::AllItems(None))), Failure::ItemsUnavailable);
}

#[test]
fn too_long_username_is_refused() {
    let name = "a".repeat(31);
    let resp = answered(get_response(None, ClientMessage::Register(name, "pw".to_string())));
    assert_eq!(resp, ServerResponse::AuthorizationError("Username too long (30 max)".to_string()));
}

#[test]
fn username_length_counts_bytes() {
    let name = "é".repeat(16);
    let resp = answered(get_response(None, ClientMessage::Register(name, "pw".to_string())));
    assert_eq!(resp, ServerResponse::AuthorizationError("Username too long (30 max)".to_string()));
}

#[test]
fn registration_stores_a_verifying_hash() {
    let name = "b".repeat(30);
    let (p, r) = query(get_response(None, ClientMessage::Register(name.clone(), "secret".to_string())));
    assert_eq!(p, Pending::Register { username: name.clone() });
    match r {
        DbRequest::InsertUser(n, hash) => {
            assert_eq!(n, name);
            assert!(verify_password("secret".to_string(), hash));
        },
        other => panic!("unexpected request {:?}", other),
    }
    assert_eq!(answered(continue_response(p, DbReply::Written(true))), ServerResponse::Registered(name));
}

#[test]
fn taken_username_is_reported() {
    let p = Pending::Register { username: "bob".to_string() };
    assert_eq!(
        answered(continue_response(p, DbReply::Written(false))),
        ServerResponse::RegistrationError("Username already taken".to_string())
    );
}

#[test]
fn registered_password_signs_in() {
    let hash = hash_password("pw".to_string()).unwrap();
    let (p, r) = query(get_response(None, ClientMessage::Identity("carol".to_string(), "pw".to_string())));
    assert_eq!(r, DbRequest::GetUserHashAndId("carol".to_string()));
    let step = continue_response(p, DbReply::UserHashAndId(Some((hash, 12))));
    assert_eq!(
        step,
        Step::Done(Outcome { response: Ok(ServerResponse::Authorized("carol".to_string())), login: Some(12) })
    );
    if let Step::Done(o) = step {
        assert_eq!(o.session_after(None), Some(12));
        assert_eq!(o.session_after(Some(3)), Some(12));
    }
}

#[test]
fn wrong_password_or_user_is_invalid() {
    let hash = hash_password("pw".to_string()).unwrap();
    let p = Pending::Identity { username: "carol".to_string(), password: "nope".to_string() };
    let invalid = ServerResponse::AuthorizationError("Invalid password".to_string());
    assert_eq!(answered(continue_response(p, DbReply::UserHashAndId(Some((hash, 12))))), invalid);
    let p = Pending::Identity { username: "dave".to_string(), password: "pw".to_string() };
    assert_eq!(answered(continue_response(p, DbReply::UserHashAndId(None))), invalid);
}

#[test]
fn other_outcomes_keep_the_session() {
    let o = Outcome { response: Ok(ServerResponse::Pong), login: None };
    assert_eq!(o.session_after(Some(5)), Some(5));
    assert_eq!(o.session_after(None), None);
}

#[test]
fn balance_is_reported() {
    let (p, r) = query(get_response(Some(3), ClientMessage::GetBalance));
    assert_eq!(r, DbRequest::GetBalance(3));
    assert_eq!(answered(continue_response(p, DbReply::Balance(Some(42)))), ServerResponse::Balance(42));
    assert_eq!(failed(continue_response(Pending::Balance, DbReply::Balance(None))), Failure::BalanceUnavailable);
}

#[test]
fn own_items_are_listed() {
    let (p, r) = query(get_response(Some(3), ClientMessage::GetMyItems));
    assert_eq!(r, DbRequest::GetUserItems(3));
    let items = vec![("Hat".to_string(), "A fine hat".to_string())];
    assert_eq!(answered(continue_response(p, DbReply::UserItems(Some(items.clone())))), ServerResponse::YourItems(items));
    assert_eq!(failed(continue_response(Pending::MyItems, DbReply::UserItems(None))), Failure::UserItemsUnavailable);
}

#[test]
fn purchase_takes_the_price() {
    let (p, r) = query(get_response(Some(3), ClientMessage::BuyItem(9)));
    assert_eq!(r, DbRequest::GetItemPrice(9));
    let (p, r) = query(continue_response(p, DbReply::ItemPrice(Some(40))));
    assert_eq!(r, DbRequest::GetBalance(3));
    let (p, r) = query(continue_response(p, DbReply::Balance(Some(40))));
    assert_eq!(r, DbRequest::AddUserItem(3, 9));
    let (p, r) = query(continue_response(p, DbReply::Written(true)));
    assert_eq!(r, DbRequest::ChangeUserMoney(3, -40));
    assert_eq!(answered(continue_response(p, DbReply::Written(true))), ServerResponse::ItemBought(9));
}

#[test]
fn purchase_too_expensive() {
    let p = Pending::BuyBalance { user: 3, item: 9, price: 41 };
    assert_eq!(answered(continue_response(p, DbReply::Balance(Some(40)))), ServerResponse::YouAreTooPoor);
}

#[test]
fn purchase_of_unknown_item() {
    let p = Pending::BuyPrice { user: 3, item: 9 };
    assert_eq!(answered(continue_response(p, DbReply::ItemPrice(None))), ServerResponse::BadItem);
}

#[test]
fn purchase_failures() {
    let p = Pending::BuyBalance { user: 3, item: 9, price: 1 };
    assert_eq!(failed(continue_response(p, DbReply::Balance(None))), Failure::BalanceUnavailable);
    let p = Pending::BuyAdd { user: 3, item: 9, price: 1 };
    assert_eq!(failed(continue_response(p, DbReply::Written(false))), Failure::ItemAddFailed);
    let p = Pending::BuyCharge { item: 9 };
    assert_eq!(failed(continue_response(p, DbReply::Written(false))), Failure::ChargeFailed);
}

#[test]
fn charge_of_lowest_price_wraps() {
    let p = Pending::BuyAdd { user: 3, item: 9, price: i64::MIN };
    let (_, r) = query(continue_response(p, DbReply::Written(true)));
    assert_eq!(r, DbRequest::ChangeUserMoney(3, i64::MIN));
}

#[test]
fn sale_pays_the_price() {
    let (p, r) = query(get_response(Some(3), ClientMessage::SellItem(9)));
    assert_eq!(r, DbRequest::GetUserHasItem(3, 9));
    let (p, r) = query(continue_response(p, DbReply::HasItem(Some(true))));
    assert_eq!(r, DbRequest::GetItemPrice(9));
    let (p, r) = query(continue_response(p, DbReply::ItemPrice(Some(25))));
    assert_eq!(r, DbRequest::ChangeUserMoney(3, 25));
    let (p, r) = query(continue_response(p, DbReply::Written(true)));
    assert_eq!(r, DbRequest::RemoveUserItem(3, 9));
    assert_eq!(answered(continue_response(p, DbReply::Written(true))), ServerResponse::ItemSold(9));
}

#[test]
fn sale_of_unowned_or_unknown_item() {
    let p = Pending::SellCheck { user: 3, item: 9 };
    assert_eq!(answered(continue_response(p, DbReply::HasItem(Some(false)))), ServerResponse::BadItem);
    let p = Pending::SellPrice { user: 3, item: 9 };
    assert_eq!(answered(continue_response(p, DbReply::ItemPrice(None))), ServerResponse::BadItem);
}

#[test]
fn sale_failures() {
    let p = Pending::SellCheck { user: 3, item: 9 };
    assert_eq!(failed(continue_response(p, DbReply::HasItem(None))), Failure::OwnershipUnavailable);
    let p = Pending::SellPay { user: 3, item: 9 };
    assert_eq!(failed(continue_response(p, DbReply::Written(false))), Failure::PaymentFailed);
    let p = Pending::SellRemove { item: 9 };
    assert_eq!(failed(continue_response(p, DbReply::Written(false))), Failure::ItemRemoveFailed);
}

#[test]
fn work_pays_and_schedules_next_work() {
    let (p, r) = query(get_response(Some(3), ClientMessage::Work));
    assert_eq!(r, DbRequest::GetUserCanWorkAt(3));
    let now = match &p {
        Pending::WorkCheck { user, now } => {
            assert_eq!(*user, 3);
            *now
        },
        other => panic!("unexpected pending {:?}", other),
    };
    let (p, r) = query(continue_response(p, DbReply::CanWorkAt(Some(0))));
    assert_eq!(r, DbRequest::ChangeUserMoney(3, MONEY_PER_WORK));
    let (p, r) = query(continue_response(p, DbReply::Written(true)));
    assert_eq!(r, DbRequest::SetUserCanWorkAt(3, now.seconds() + WORK_INTERVAL_SECS as i64));
    assert_eq!(answered(continue_response(p, DbReply::Written(true))), ServerResponse::Worked(10));
}

#[test]
fn work_too_early_is_refused() {
    let now = Moment::at_second(1_000).unwrap();
    let p = Pending::WorkCheck { user: 3, now };
    assert_eq!(
        answered(continue_response(p, DbReply::CanWorkAt(Some(1_007)))),
        ServerResponse::BadWork("You can work again in 7s".to_string())
    );
}

#[test]
fn work_at_due_second_is_paid() {
    let now = Moment::at_second(1_000).unwrap();
    let p = Pending::WorkCheck { user: 3, now };
    let (p, r) = query(continue_response(p, DbReply::CanWorkAt(Some(1_000))));
    assert_eq!(r, DbRequest::ChangeUserMoney(3, 10));
    let (_, r) = query(continue_response(p, DbReply::Written(true)));
    assert_eq!(r, DbRequest::SetUserCanWorkAt(3, 1_010));
}

#[test]
fn unreadable_work_time_counts_as_second_reading() {
    let now = Moment::at_second(1_000).unwrap();
    assert_eq!(
        answered(work_check(3, now, i64::MAX, Moment::at_second(1_005).unwrap())),
        ServerResponse::BadWork("You can work again in 5s".to_string())
    );
    let (_, r) = query(work_check(3, now, i64::MAX, now));
    assert_eq!(r, DbRequest::ChangeUserMoney(3, 10));
}

#[test]
fn unreadable_work_time_is_refused_with_clock() {
    let now = Moment::at_second(1_000).unwrap();
    let p = Pending::WorkCheck { user: 3, now };
    match answered(continue_response(p, DbReply::CanWorkAt(Some(i64::MAX)))) {
        ServerResponse::BadWork(text) => assert!(text.starts_with("You can work again in ")),
        other => panic!("unexpected response {:?}", other),
    }
}

#[test]
fn work_check_in_range_ignores_second_reading() {
    let now = Moment::at_second(1_000).unwrap();
    let later = Moment::at_second(5_000).unwrap();
    assert_eq!(
        answered(work_check(3, now, 1_007, later)),
        ServerResponse::BadWork("You can work again in 7s".to_string())
    );
}

#[test]
fn work_failures() {
    let now = Moment::at_second(1_000).unwrap();
    assert_eq!(failed(continue_response(Pending::WorkCheck { user: 3, now }, DbReply::CanWorkAt(None))), Failure::UserMissing);
    assert_eq!(failed(continue_response(Pending::WorkPay { user: 3, now }, DbReply::Written(false))), Failure::WorkPaymentFailed);
    assert_eq!(failed(continue_response(Pending::WorkSchedule, DbReply::Written(false))), Failure::WorkTimeUpdateFailed);
}

#[test]
fn next_work_time_out_of_range() {
    let end = Moment::at_second(253_402_300_799).unwrap();
    assert_eq!(failed(continue_response(Pending::WorkPay { user: 3, now: end }, DbReply::Written(true))), Failure::WorkTimeOutOfRange);
}

#[test]
fn reply_of_wrong_kind_fails() {
    assert_eq!(failed(continue_response(Pending::Balance, DbReply::Written(true))), Failure::UnexpectedReply);
    assert_eq!(failed(continue_response(Pending::AllItems, DbReply::HasItem(Some(true)))), Failure::UnexpectedReply);
}

#[test]
fn failure_becomes_unknown_error() {
    assert_eq!(response_or_error(Err(Failure::ChargeFailed)), ServerResponse::Error("Unknown error".to_string()));
    assert_eq!(response_or_error(Ok(ServerResponse::Pong)), ServerResponse::Pong);
}

#[test]
fn failure_messages() {
    assert_eq!(Failure::ItemsUnavailable.message(), "Failed to get all items");
    assert_eq!(Failure::BadPassword.message(), "Bad password");
    assert_eq!(Failure::UserMissing.message(), "User doesn't exist");
    assert_eq!(Failure::ChargeFailed.message(), "Failed to take money");
    assert_eq!(Failure::UnexpectedReply.message(), "Unexpected database reply");
}
