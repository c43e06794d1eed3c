use vstd::prelude::*;
use vstd::string::StringExecFns;

use crate::clock::{is_after, moment_after, time_left, time_left_text, timestamp_accepts_seconds, Moment};
use crate::constants::{MONEY_PER_WORK, USERNAME_MAX_LENGTH, WORK_INTERVAL_SECS};
use crate::db::{DbReply, DbRequest};
use crate::messages::{ClientMessage, ItemId, Money, ResponseView, ServerResponse, UserId};
use crate::util::{argon2_accepts, default_phc_form, hash_password, max_password_bytes, utf8_bytes, verify_password};

verus! {

/// Why a request could not be answered normally; the client is then told
/// only that an unknown error occurred.
#[derive(Debug, PartialEq, Eq, Clone, Copy)]
pub enum Failure {
    ItemsUnavailable,
    BadPassword,
    UserMissing,
    WorkPaymentFailed,
    WorkTimeUpdateFailed,
    WorkTimeOutOfRange,
    BalanceUnavailable,
    UserItemsUnavailable,
    ItemAddFailed,
    ChargeFailed,
    OwnershipUnavailable,
    PaymentFailed,
    ItemRemoveFailed,
    UnexpectedReply,
}

/// The text logged for a failure.
pub open spec fn failure_text(f: Failure) -> Seq<char> {
    match f {
        Failure::ItemsUnavailable => "Failed to get all items"@,
        Failure::BadPassword => "Bad password"@,
        Failure::UserMissing => "User doesn't exist"@,
        Failure::WorkPaymentFailed => "Failed to change money to work"@,
        Failure::WorkTimeUpdateFailed => "Failed to update work time"@,
        Failure::WorkTimeOutOfRange => "Next work time is out of range"@,
        Failure::BalanceUnavailable => "Failed to get balance"@,
        Failure::UserItemsUnavailable => "Failed to get user items"@,
        Failure::ItemAddFailed => "Failed to add item"@,
        Failure::ChargeFailed => "Failed to take money"@,
        Failure::OwnershipUnavailable => "Failed to get user item ownership"@,
        Failure::PaymentFailed => "Failed to give money"@,
        Failure::ItemRemoveFailed => "Failed to remove item"@,
        Failure::UnexpectedReply => "Unexpected database reply"@,
    }
}

impl Failure {
    /// The text logged for this failure.
    pub fn message(&self) -> (s: String)
        ensures
            s@ == failure_text(*self),
    {
        match self {
            Failure::ItemsUnavailable => String::from_str("Failed to get all items"),
            Failure::BadPassword => String::from_str("Bad password"),
            Failure::UserMissing => String::from_str("User doesn't exist"),
            Failure::WorkPaymentFailed => String::from_str("Failed to change money to work"),
            Failure::WorkTimeUpdateFailed => String::from_str("Failed to update work time"),
            Failure::WorkTimeOutOfRange => String::from_str("Next work time is out of range"),
            Failure::BalanceUnavailable => String::from_str("Failed to get balance"),
            Failure::UserItemsUnavailable => String::from_str("Failed to get user items"),
            Failure::ItemAddFailed => String::from_str("Failed to add item"),
            Failure::ChargeFailed => String::from_str("Failed to take money"),
            Failure::OwnershipUnavailable => String::from_str("Failed to get user item ownership"),
            Failure::PaymentFailed => String::from_str("Failed to give money"),
            Failure::ItemRemoveFailed => String::from_str("Failed to remove item"),
            Failure::UnexpectedReply => String::from_str("Unexpected database reply"),
        }
    }
}

/// Where a request stands while it waits for the database.
#[derive(Debug, PartialEq, Eq)]
pub enum Pending {
    /// Waiting for the catalogue.
    AllItems,
    /// Waiting for the stored hash and id of `username`.
    Identity { username: String, password: String },
    /// Waiting for the insertion of a new user.
    Register { username: String },
    /// Waiting for the time from which `user` may work; `now` was read first.
    WorkCheck { user: UserId, now: Moment },
    /// Waiting for the work payment to `user`.
    WorkPay { user: UserId, now: Moment },
    /// Waiting for the next work time to be stored.
    WorkSchedule,
    /// Waiting for the balance to report.
    Balance,
    /// Waiting for the items of the user.
    MyItems,
    /// Buying `item`: waiting for its price.
    BuyPrice { user: UserId, item: ItemId },
    /// Buying `item` at `price`: waiting for the buyer's balance.
    BuyBalance { user: UserId, item: ItemId, price: Money },
    /// Buying `item` at `price`: waiting for the ownership record.
    BuyAdd { user: UserId, item: ItemId, price: Money },
    /// Buying `item`: waiting for the charge.
    BuyCharge { item: ItemId },
    /// Selling `item`: waiting for whether `user` owns it.
    SellCheck { user: UserId, item: ItemId },
    /// Selling `item`: waiting for its price.
    SellPrice { user: UserId, item: ItemId },
    /// Selling `item`: waiting for the payment.
    SellPay { user: UserId, item: ItemId },
    /// Selling `item`: waiting for the ownership record to go.
    SellRemove { item: ItemId },
}

/// How a request ended: the response (or why there is none) and, after a
/// successful identification, the user that the connection now acts for.
#[derive(Debug, PartialEq, Eq)]
pub struct Outcome {
    pub response: Result<ServerResponse, Failure>,
    pub login: Option<UserId>,
}

/// The next step of answering a request: ask the database, or finish.
#[derive(Debug, PartialEq, Eq)]
pub enum Step {
    Query(Pending, DbRequest),
    Done(Outcome),
}

/// A step with its response taken by its view.
pub ghost enum StepView {
    Query(Pending, DbRequest),
    Done(Result<ResponseView, Failure>, Option<UserId>),
}

pub open spec fn response_result_view(r: Result<ServerResponse, Failure>) -> Result<ResponseView, Failure> {
    match r {
        Ok(resp) => Ok(resp@),
        Err(f) => Err(f),
    }
}

impl View for Step {
    type V = StepView;

    open spec fn view(&self) -> StepView {
        match self {
            Step::Query(p, r) => StepView::Query(*p, *r),
            Step::Done(o) => StepView::Done(response_result_view(o.response), o.login),
        }
    }
}

/// Finishing with a response and no change of user.
pub open spec fn answer(r: ResponseView) -> StepView {
    StepView::Done(Ok(r), None)
}

/// Finishing with a failure.
pub open spec fn fail(f: Failure) -> StepView {
    StepView::Done(Err(f), None)
}

/// What a purchase adds to the buyer's money: the price negated, with the
/// two's complement wrap-around of `i64` for the one price that has no
/// negation.
pub open spec fn charge_of(price: Money) -> Money {
    if price == i64::MIN {
        i64::MIN
    } else {
        (-price) as i64
    }
}

/// The step that answers a request right away or starts its conversation
/// with the database, for every request but a registration and work, whose
/// starts depend on password hashing and on the clock (see
/// `get_response_post`); for those two the value here is not used.
pub open spec fn start_view(session: Option<UserId>, message: ClientMessage) -> StepView
    recommends
        !(message is Register || message is Work),
{
    match message {
        ClientMessage::Ping => answer(ResponseView::Pong),
        ClientMessage::GetAvailableItems => StepView::Query(Pending::AllItems, DbRequest::GetAllItems),
        ClientMessage::Identity(username, password) => StepView::Query(
            Pending::Identity { username, password },
            DbRequest::GetUserHashAndId(username),
        ),
        ClientMessage::Register(..) => fail(Failure::UnexpectedReply),
        _ => match session {
            None => answer(ResponseView::Unauthorized),
            Some(user) => match message {
                ClientMessage::GetBalance => StepView::Query(Pending::Balance, DbRequest::GetBalance(user)),
                ClientMessage::GetMyItems => StepView::Query(Pending::MyItems, DbRequest::GetUserItems(user)),
                ClientMessage::BuyItem(item) => StepView::Query(
                    Pending::BuyPrice { user, item },
                    DbRequest::GetItemPrice(item),
                ),
                ClientMessage::SellItem(item) => StepView::Query(
                    Pending::SellCheck { user, item },
                    DbRequest::GetUserHasItem(user, item),
                ),
                _ => fail(Failure::UnexpectedReply),
            },
        },
    }
}

/// Whether a registration with a name that is short enough goes on as it
/// should: a password that argon2 can hash (at most `max_password_bytes()`
/// UTF-8 bytes) has the user inserted under that name with a hash that
/// accepts the password; a longer one fails with `BadPassword`.
pub open spec fn register_started(username: String, password: String, step: StepView) -> bool {
    if utf8_bytes(password@).len() <= max_password_bytes() {
        step matches StepView::Query(Pending::Register { username: pending_name }, DbRequest::InsertUser(name, hash))
            && pending_name == username && name == username
            && argon2_accepts(utf8_bytes(password@), hash@)
            && default_phc_form(hash@)
    } else {
        step == fail(Failure::BadPassword)
    }
}

/// Whether a name is too long to register: its length in UTF-8 bytes, as
/// `str::len` gives it, is over `USERNAME_MAX_LENGTH`.
pub open spec fn username_too_long(username: Seq<char>) -> bool {
    (utf8_bytes(username).len() as usize) > USERNAME_MAX_LENGTH
}

/// The first step of answering `message` for a connection that acts for
/// `session`: what `get_response` promises.
pub open spec fn get_response_post(session: Option<UserId>, message: ClientMessage, step: StepView) -> bool {
    match message {
        ClientMessage::Register(username, password) => if username_too_long(username@) {
            step == answer(ResponseView::AuthorizationError("Username too long (30 max)"@))
        } else {
            register_started(username, password, step)
        },
        ClientMessage::Work => match session {
            None => step == answer(ResponseView::Unauthorized),
            Some(user) => step matches StepView::Query(Pending::WorkCheck { user: u, now }, DbRequest::GetUserCanWorkAt(v))
                && u == user && v == user && now.read_from_clock(),
        },
        _ => step == start_view(session, message),
    }
}

/// The step once the stored work time of `user` is known to be `seconds`:
/// `now` is the moment read when the request came in, `later` the moment
/// read again when the stored time came back. A stored time that no
/// timestamp can hold is taken as `later`. Work is refused, with the time
/// left, while the work time lies after `now`; otherwise it is paid.
pub open spec fn work_check_view(user: UserId, now: Moment, seconds: i64, later: Moment) -> StepView {
    let can_work_at = if timestamp_accepts_seconds(seconds as int) {
        Moment::at(seconds as int)
    } else {
        later
    };
    if moment_after(can_work_at, now) {
        answer(ResponseView::BadWork("You can work again in "@ + time_left_text(can_work_at, now)))
    } else {
        StepView::Query(Pending::WorkPay { user, now }, DbRequest::ChangeUserMoney(user, MONEY_PER_WORK))
    }
}

/// The step after the database answered `reply` to the query of `pending`,
/// where `later` is the clock reading taken when a stored work time comes
/// back (the only reply on which the clock is read again).
pub open spec fn resume_view(pending: Pending, reply: DbReply, later: Moment) -> StepView {
    match pending {
        Pending::AllItems => match reply {
            DbReply::AllItems(Some(items)) => answer(ResponseView::ItemList(crate::messages::item_list_view(items@))),
            DbReply::AllItems(None) => fail(Failure::ItemsUnavailable),
            _ => fail(Failure::UnexpectedReply),
        },
        Pending::Identity { username, password } => match reply {
            DbReply::UserHashAndId(Some((hash, id))) => if argon2_accepts(utf8_bytes(password@), hash@) {
                StepView::Done(Ok(ResponseView::Authorized(username@)), Some(id))
            } else {
                answer(ResponseView::AuthorizationError("Invalid password"@))
            },
            DbReply::UserHashAndId(None) => answer(ResponseView::AuthorizationError("Invalid password"@)),
            _ => fail(Failure::UnexpectedReply),
        },
        Pending::Register { username } => match reply {
            DbReply::Written(true) => answer(ResponseView::Registered(username@)),
            DbReply::Written(false) => answer(ResponseView::RegistrationError("Username already taken"@)),
            _ => fail(Failure::UnexpectedReply),
        },
        Pending::WorkCheck { user, now } => match reply {
            DbReply::CanWorkAt(Some(seconds)) => work_check_view(user, now, seconds, later),
            DbReply::CanWorkAt(None) => fail(Failure::UserMissing),
            _ => fail(Failure::UnexpectedReply),
        },
        Pending::WorkPay { user, now } => match reply {
            DbReply::Written(true) => {
                let next = now.secs() + WORK_INTERVAL_SECS;
                if timestamp_accepts_seconds(next) {
                    StepView::Query(Pending::WorkSchedule, DbRequest::SetUserCanWorkAt(user, next as i64))
                } else {
                    fail(Failure::WorkTimeOutOfRange)
                }
            },
            DbReply::Written(false) => fail(Failure::WorkPaymentFailed),
            _ => fail(Failure::UnexpectedReply),
        },
        Pending::WorkSchedule => match reply {
            DbReply::Written(true) => answer(ResponseView::Worked(MONEY_PER_WORK)),
            DbReply::Written(false) => fail(Failure::WorkTimeUpdateFailed),
            _ => fail(Failure::UnexpectedReply),
        },
        Pending::Balance => match reply {
            DbReply::Balance(Some(money)) => answer(ResponseView::Balance(money)),
            DbReply::Balance(None) => fail(Failure::BalanceUnavailable),
            _ => fail(Failure::UnexpectedReply),
        },
        Pending::MyItems => match reply {
            DbReply::UserItems(Some(items)) => answer(ResponseView::YourItems(crate::messages::owned_items_view(items@))),
            DbReply::UserItems(None) => fail(Failure::UserItemsUnavailable),
            _ => fail(Failure::UnexpectedReply),
        },
        Pending::BuyPrice { user, item } => match reply {
            DbReply::ItemPrice(Some(price)) => StepView::Query(
                Pending::BuyBalance { user, item, price },
                DbRequest::GetBalance(user),
            ),
            DbReply::ItemPrice(None) => answer(ResponseView::BadItem),
            _ => fail(Failure::UnexpectedReply),
        },
        Pending::BuyBalance { user, item, price } => match reply {
            DbReply::Balance(Some(money)) => if money < price {
                answer(ResponseView::YouAreTooPoor)
            } else {
                StepView::Query(Pending::BuyAdd { user, item, price }, DbRequest::AddUserItem(user, item))
            },
            DbReply::Balance(None) => fail(Failure::BalanceUnavailable),
            _ => fail(Failure::UnexpectedReply),
        },
        Pending::BuyAdd { user, item, price } => match reply {
            DbReply::Written(true) => StepView::Query(
                Pending::BuyCharge { item },
                DbRequest::ChangeUserMoney(user, charge_of(price)),
            ),
            DbReply::Written(false) => fail(Failure::ItemAddFailed),
            _ => fail(Failure::UnexpectedReply),
        },
        Pending::BuyCharge { item } => match reply {
            DbReply::Written(true) => answer(ResponseView::ItemBought(item)),
            DbReply::Written(false) => fail(Failure::ChargeFailed),
            _ => fail(Failure::UnexpectedReply),
        },
        Pending::SellCheck { user, item } => match reply {
            DbReply::HasItem(Some(true)) => StepView::Query(Pending::SellPrice { user, item }, DbRequest::GetItemPrice(item)),
            DbReply::HasItem(Some(false)) => answer(ResponseView::BadItem),
            DbReply::HasItem(None) => fail(Failure::OwnershipUnavailable),
            _ => fail(Failure::UnexpectedReply),
        },
        Pending::SellPrice { user, item } => match reply {
            DbReply::ItemPrice(Some(price)) => StepView::Query(
                Pending::SellPay { user, item },
                DbRequest::ChangeUserMoney(user, price),
            ),
            DbReply::ItemPrice(None) => answer(ResponseView::BadItem),
            _ => fail(Failure::UnexpectedReply),
        },
        Pending::SellPay { user, item } => match reply {
            DbReply::Written(true) => StepView::Query(Pending::SellRemove { item }, DbRequest::RemoveUserItem(user, item)),
            DbReply::Written(false) => fail(Failure::PaymentFailed),
            _ => fail(Failure::UnexpectedReply),
        },
        Pending::SellRemove { item } => match reply {
            DbReply::Written(true) => answer(ResponseView::ItemSold(item)),
            DbReply::Written(false) => fail(Failure::ItemRemoveFailed),
            _ => fail(Failure::UnexpectedReply),
        },
    }
}

fn respond(response: ServerResponse) -> (step: Step)
    ensures
        step@ == answer(response@),
{
    Step::Done(Outcome { response: Ok(response), login: None })
}

fn failure(f: Failure) -> (step: Step)
    ensures
        step@ == fail(f),
{
    Step::Done(Outcome { response: Err(f), login: None })
}

/// Starts answering `message` for a connection that acts for `session`
/// (`None` before a successful identification).
pub fn get_response(session: Option<UserId>, message: ClientMessage) -> (step: Step)
    ensures
        get_response_post(session, message, step@),
{
    match message {
        ClientMessage::Ping => respond(ServerResponse::Pong),
        ClientMessage::GetAvailableItems => Step::Query(Pending::AllItems, DbRequest::GetAllItems),
        ClientMessage::Identity(username, password) => {
            let name = username.clone();
            Step::Query(Pending::Identity { username, password }, DbRequest::GetUserHashAndId(name))
        },
        ClientMessage::Register(username, password) => {
            if username.as_str().len() > USERNAME_MAX_LENGTH {
                return respond(ServerResponse::AuthorizationError(String::from_str("Username too long (30 max)")));
            }
            match hash_password(password) {
                Ok(hash) => {
                    let name = username.clone();
                    Step::Query(Pending::Register { username }, DbRequest::InsertUser(name, hash))
                },
                Err(_) => failure(Failure::BadPassword),
            }
        },
        ClientMessage::Work => match session {
            None => respond(ServerResponse::Unauthorized),
            Some(user) => {
                let now = Moment::now();
                Step::Query(Pending::WorkCheck { user, now }, DbRequest::GetUserCanWorkAt(user))
            },
        },
        ClientMessage::GetBalance => match session {
            None => respond(ServerResponse::Unauthorized),
            Some(user) => Step::Query(Pending::Balance, DbRequest::GetBalance(user)),
        },
        ClientMessage::GetMyItems => match session {
            None => respond(ServerResponse::Unauthorized),
            Some(user) => Step::Query(Pending::MyItems, DbRequest::GetUserItems(user)),
        },
        ClientMessage::BuyItem(item) => match session {
            None => respond(ServerResponse::Unauthorized),
            Some(user) => Step::Query(Pending::BuyPrice { user, item }, DbRequest::GetItemPrice(item)),
        },
        ClientMessage::SellItem(item) => match session {
            None => respond(ServerResponse::Unauthorized),
            Some(user) => Step::Query(Pending::SellCheck { user, item }, DbRequest::GetUserHasItem(user, item)),
        },
    }
}

/// Decides on work once the stored work time of `user` is known to be
/// `seconds`, with `now` read when the request came in and `later` read when
/// the stored time came back.
pub fn work_check(user: UserId, now: Moment, seconds: i64, later: Moment) -> (step: Step)
    ensures
        step@ == work_check_view(user, now, seconds, later),
{
    let can_work_at = match Moment::at_second(seconds) {
        Some(m) => m,
        None => later,
    };
    if is_after(can_work_at, now) {
        let mut text = String::from_str("You can work again in ");
        let left = time_left(can_work_at, now);
        text.append(left.as_str());
        respond(ServerResponse::BadWork(text))
    } else {
        Step::Query(Pending::WorkPay { user, now }, DbRequest::ChangeUserMoney(user, MONEY_PER_WORK))
    }
}

/// Whether answering `reply` to `pending` reads the clock again: when a
/// stored work time comes back.
pub open spec fn reads_clock_again(pending: Pending, reply: DbReply) -> bool {
    pending is WorkCheck && reply matches DbReply::CanWorkAt(Some(_))
}

/// The clock reading taken on the way matters only where the clock is read
/// again: elsewhere the step is the same whatever the reading.
pub proof fn lemma_clock_read_only_for_work_time(pending: Pending, reply: DbReply, a: Moment, b: Moment)
    requires
        !reads_clock_again(pending, reply),
    ensures
        resume_view(pending, reply, a) == resume_view(pending, reply, b),
{
}

/// Carries a request on after the database answered `reply` to the query
/// that `pending` waits for; a reply of the wrong kind ends the request
/// with `Failure::UnexpectedReply`. Where a stored work time comes back,
/// the clock is read again; the step is the one for that reading.
pub fn continue_response(pending: Pending, reply: DbReply) -> (step: Step)
    ensures
        exists|later: Moment| later.read_from_clock() && #[trigger] resume_view(pending, reply, later) == step@,
{
    let ghost before = pending;
    let ghost answered = reply;
    let ghost mut clock: Moment = Moment::reading_at(0);
    proof {
        crate::clock::lemma_reading_at(0);
    }
    let step = match pending {
        Pending::AllItems => match reply {
            DbReply::AllItems(Some(items)) => respond(ServerResponse::ItemList(items)),
            DbReply::AllItems(None) => failure(Failure::ItemsUnavailable),
            _ => failure(Failure::UnexpectedReply),
        },
        Pending::Identity { username, password } => match reply {
            DbReply::UserHashAndId(Some((hash, id))) => {
                if verify_password(password, hash) {
                    Step::Done(Outcome { response: Ok(ServerResponse::Authorized(username)), login: Some(id) })
                } else {
                    respond(ServerResponse::AuthorizationError(String::from_str("Invalid password")))
                }
            },
            DbReply::UserHashAndId(None) => respond(
                ServerResponse::AuthorizationError(String::from_str("Invalid password")),
            ),
            _ => failure(Failure::UnexpectedReply),
        },
        Pending::Register { username } => match reply {
            DbReply::Written(true) => respond(ServerResponse::Registered(username)),
            DbReply::Written(false) => respond(
                ServerResponse::RegistrationError(String::from_str("Username already taken")),
            ),
            _ => failure(Failure::UnexpectedReply),
        },
        Pending::WorkCheck { user, now } => match reply {
            DbReply::CanWorkAt(Some(seconds)) => {
                let later = Moment::now();
                proof {
                    clock = later;
                }
                work_check(user, now, seconds, later)
            },
            DbReply::CanWorkAt(None) => failure(Failure::UserMissing),
            _ => failure(Failure::UnexpectedReply),
        },
        Pending::WorkPay { user, now } => match reply {
            DbReply::Written(true) => {
                let next: i64 = now.seconds() + WORK_INTERVAL_SECS as i64;
                match Moment::at_second(next) {
                    Some(_) => Step::Query(Pending::WorkSchedule, DbRequest::SetUserCanWorkAt(user, next)),
                    None => failure(Failure::WorkTimeOutOfRange),
                }
            },
            DbReply::Written(false) => failure(Failure::WorkPaymentFailed),
            _ => failure(Failure::UnexpectedReply),
        },
        Pending::WorkSchedule => match reply {
            DbReply::Written(true) => respond(ServerResponse::Worked(MONEY_PER_WORK)),
            DbReply::Written(false) => failure(Failure::WorkTimeUpdateFailed),
            _ => failure(Failure::UnexpectedReply),
        },
        Pending::Balance => match reply {
            DbReply::Balance(Some(money)) => respond(ServerResponse::Balance(money)),
            DbReply::Balance(None) => failure(Failure::BalanceUnavailable),
            _ => failure(Failure::UnexpectedReply),
        },
        Pending::MyItems => match reply {
            DbReply::UserItems(Some(items)) => respond(ServerResponse::YourItems(items)),
            DbReply::UserItems(None) => failure(Failure::UserItemsUnavailable),
            _ => failure(Failure::UnexpectedReply),
        },
        Pending::BuyPrice { user, item } => match reply {
            DbReply::ItemPrice(Some(price)) => Step::Query(
                Pending::BuyBalance { user, item, price },
                DbRequest::GetBalance(user),
            ),
            DbReply::ItemPrice(None) => respond(ServerResponse::BadItem),
            _ => failure(Failure::UnexpectedReply),
        },
        Pending::BuyBalance { user, item, price } => match reply {
            DbReply::Balance(Some(money)) => {
                if money < price {
                    respond(ServerResponse::YouAreTooPoor)
                } else {
                    Step::Query(Pending::BuyAdd { user, item, price }, DbRequest::AddUserItem(user, item))
                }
            },
            DbReply::Balance(None) => failure(Failure::BalanceUnavailable),
            _ => failure(Failure::UnexpectedReply),
        },
        Pending::BuyAdd { user, item, price } => match reply {
            DbReply::Written(true) => {
                let charge: Money = if price == i64::MIN { i64::MIN } else { -price };
                Step::Query(Pending::BuyCharge { item }, DbRequest::ChangeUserMoney(user, charge))
            },
            DbReply::Written(false) => failure(Failure::ItemAddFailed),
            _ => failure(Failure::UnexpectedReply),
        },
        Pending::BuyCharge { item } => match reply {
            DbReply::Written(true) => respond(ServerResponse::ItemBought(item)),
            DbReply::Written(false) => failure(Failure::ChargeFailed),
            _ => failure(Failure::UnexpectedReply),
        },
        Pending::SellCheck { user, item } => match reply {
            DbReply::HasItem(Some(true)) => Step::Query(Pending::SellPrice { user, item }, DbRequest::GetItemPrice(item)),
            DbReply::HasItem(Some(false)) => respond(ServerResponse::BadItem),
            DbReply::HasItem(None) => failure(Failure::OwnershipUnavailable),
            _ => failure(Failure::UnexpectedReply),
        },
        Pending::SellPrice { user, item } => match reply {
            DbReply::ItemPrice(Some(price)) => Step::Query(
                Pending::SellPay { user, item },
                DbRequest::ChangeUserMoney(user, price),
            ),
            DbReply::ItemPrice(None) => respond(ServerResponse::BadItem),
            _ => failure(Failure::UnexpectedReply),
        },
        Pending::SellPay { user, item } => match reply {
            DbReply::Written(true) => Step::Query(Pending::SellRemove { item }, DbRequest::RemoveUserItem(user, item)),
            DbReply::Written(false) => failure(Failure::PaymentFailed),
            _ => failure(Failure::UnexpectedReply),
        },
        Pending::SellRemove { item } => match reply {
            DbReply::Written(true) => respond(ServerResponse::ItemSold(item)),
            DbReply::Written(false) => failure(Failure::ItemRemoveFailed),
            _ => failure(Failure::UnexpectedReply),
        },
    };
    assert(clock.read_from_clock() && resume_view(before, answered, clock) == step@);
    step
}

impl Outcome {
    /// The user that the connection acts for after this outcome: the one
    /// just identified, or else the one it acted for before.
    pub fn session_after(&self, before: Option<UserId>) -> (r: Option<UserId>)
        ensures
            r == (if self.login is Some { self.login } else { before }),
    {
        match self.login {
            Some(user) => Some(user),
            None => before,
        }
    }
}

/// What the client is sent for the result of a request: the response, or
/// a generic error where the request failed.
pub fn response_or_error(response: Result<ServerResponse, Failure>) -> (r: ServerResponse)
    ensures
        response matches Ok(resp) ==> r == resp,
        response is Err ==> r@ == ResponseView::Error("Unknown error"@),
{
    match response {
        Ok(resp) => resp,
        Err(_) => ServerResponse::Error(String::from_str("Unknown error")),
    }
}

} // verus!
