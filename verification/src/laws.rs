use vstd::prelude::*;

use crate::clock::{lemma_moment_at, lemma_moment_seconds_fit, moment_after, time_left_text, timestamp_accepts_seconds, Moment};
use crate::constants::{MONEY_PER_WORK, WORK_INTERVAL_SECS};
use crate::db::{DbReply, DbRequest};
use crate::messages::{ClientMessage, ItemId, Money, ResponseView, UserId};
use crate::server::{
    answer, charge_of, get_response_post, resume_view, start_view, username_too_long, Pending, StepView,
};
use crate::util::{argon2_accepts, max_password_bytes, utf8_bytes};

verus! {

/// The step that a request standing at `step` reaches once the database has
/// given `replies`, in order, to its queries, with `later` the clock reading
/// taken where a stored work time comes back.
pub open spec fn after_replies(step: StepView, replies: Seq<DbReply>, later: Moment) -> StepView
    decreases replies.len(),
{
    if replies.len() == 0 {
        step
    } else {
        match step {
            StepView::Query(pending, _) => after_replies(resume_view(pending, replies[0], later), replies.drop_first(), later),
            StepView::Done(..) => step,
        }
    }
}

/// The queries that a request standing at `step` puts to the database while
/// the database gives `replies`, in order, with `later` as in `after_replies`.
pub open spec fn queries_asked(step: StepView, replies: Seq<DbReply>, later: Moment) -> Seq<DbRequest>
    decreases replies.len(),
{
    match step {
        StepView::Query(pending, request) => if replies.len() == 0 {
            seq![request]
        } else {
            seq![request] + queries_asked(resume_view(pending, replies[0], later), replies.drop_first(), later)
        },
        StepView::Done(..) => Seq::empty(),
    }
}

/// A ping is answered with a pong, whoever the connection acts for.
pub proof fn law_ping_answers_pong(session: Option<UserId>, step: StepView)
    requires
        get_response_post(session, ClientMessage::Ping, step),
    ensures
        step == answer(ResponseView::Pong),
{
}

/// Before a successful identification, every request but a ping, the
/// catalogue, a registration or an identification is answered `Unauthorized`
/// and asks the database nothing.
pub proof fn law_sign_in_required(message: ClientMessage, step: StepView)
    requires
        get_response_post(None, message, step),
        !(message is Ping || message is GetAvailableItems || message is Identity || message is Register),
    ensures
        step == answer(ResponseView::Unauthorized),
{
}

/// A password given at registration opens the account: a registration
/// under a name that is short enough, with a password that argon2 can hash,
/// asks for the user to be inserted; once the database hands back the hash
/// so stored, an identification with the same password is authorized and
/// the connection acts for that user from then on.
pub proof fn law_registered_password_signs_in(
    session: Option<UserId>,
    username: String,
    password: String,
    step: StepView,
    name: String,
    same_password: String,
    id: UserId,
    later: Moment,
)
    requires
        get_response_post(session, ClientMessage::Register(username, password), step),
        !username_too_long(username@),
        utf8_bytes(password@).len() <= max_password_bytes(),
        same_password@ == password@,
    ensures
        step matches StepView::Query(Pending::Register { username: pending_name }, DbRequest::InsertUser(stored_name, hash))
            && pending_name == username && stored_name == username
            && resume_view(
            Pending::Identity { username: name, password: same_password },
            DbReply::UserHashAndId(Some((hash, id))),
            later,
        ) == StepView::Done(Ok(ResponseView::Authorized(name@)), Some(id)),
{
}

/// An identification is authorized exactly when the user exists and the
/// stored hash accepts the password; otherwise the answer is the same
/// "Invalid password" whether the user or the password was wrong.
pub proof fn law_identification(username: String, password: String, reply: DbReply, later: Moment)
    requires
        reply is UserHashAndId,
    ensures
        ({
            let step = resume_view(Pending::Identity { username, password }, reply, later);
            match reply {
                DbReply::UserHashAndId(Some((hash, id))) => if argon2_accepts(utf8_bytes(password@), hash@) {
                    step == StepView::Done(Ok(ResponseView::Authorized(username@)), Some(id))
                } else {
                    step == answer(ResponseView::AuthorizationError("Invalid password"@))
                },
                _ => step == answer(ResponseView::AuthorizationError("Invalid password"@)),
            }
        }),
{
}

/// Only an identification changes the user that a connection acts for.
pub proof fn law_only_identification_signs_in(
    session: Option<UserId>,
    message: ClientMessage,
    first: StepView,
    pending: Pending,
    reply: DbReply,
    later: Moment,
)
    requires
        get_response_post(session, message, first),
    ensures
        first matches StepView::Done(_, login) ==> login is None,
        resume_view(pending, reply, later) matches StepView::Done(_, Some(id)) ==> (pending is Identity
            && (reply matches DbReply::UserHashAndId(Some((_, found))) && found == id)),
{
}

/// A purchase that the buyer can afford records the item, takes exactly
/// its price from the buyer's money and reports the item bought, in that
/// order.
pub proof fn law_purchase(user: UserId, item: ItemId, price: Money, money: Money, later: Moment)
    requires
        money >= price,
    ensures
        ({
            let start = start_view(Some(user), ClientMessage::BuyItem(item));
            let replies = seq![
                DbReply::ItemPrice(Some(price)),
                DbReply::Balance(Some(money)),
                DbReply::Written(true),
                DbReply::Written(true),
            ];
            &&& after_replies(start, replies, later) == answer(ResponseView::ItemBought(item))
            &&& queries_asked(start, replies, later) == seq![
                DbRequest::GetItemPrice(item),
                DbRequest::GetBalance(user),
                DbRequest::AddUserItem(user, item),
                DbRequest::ChangeUserMoney(user, charge_of(price)),
            ]
        }),
        price > i64::MIN ==> charge_of(price) == -price,
{
    reveal_with_fuel(after_replies, 5);
    reveal_with_fuel(queries_asked, 5);
    let start = start_view(Some(user), ClientMessage::BuyItem(item));
    let replies = seq![
        DbReply::ItemPrice(Some(price)),
        DbReply::Balance(Some(money)),
        DbReply::Written(true),
        DbReply::Written(true),
    ];
    assert(replies.drop_first() =~= seq![DbReply::Balance(Some(money)), DbReply::Written(true), DbReply::Written(true)]);
    assert(replies.drop_first().drop_first() =~= seq![DbReply::Written(true), DbReply::Written(true)]);
    assert(replies.drop_first().drop_first().drop_first() =~= seq![DbReply::Written(true)]);
    assert(replies.drop_first().drop_first().drop_first().drop_first() =~= Seq::<DbReply>::empty());
    assert(queries_asked(start, replies, later) =~= seq![
        DbRequest::GetItemPrice(item),
        DbRequest::GetBalance(user),
        DbRequest::AddUserItem(user, item),
        DbRequest::ChangeUserMoney(user, charge_of(price)),
    ]);
}

/// A buyer who cannot afford the item is told so, and the database is
/// only read, never written.
pub proof fn law_too_poor_changes_nothing(user: UserId, item: ItemId, price: Money, money: Money, later: Moment)
    requires
        money < price,
    ensures
        ({
            let start = start_view(Some(user), ClientMessage::BuyItem(item));
            let replies = seq![DbReply::ItemPrice(Some(price)), DbReply::Balance(Some(money))];
            &&& after_replies(start, replies, later) == answer(ResponseView::YouAreTooPoor)
            &&& queries_asked(start, replies, later) == seq![DbRequest::GetItemPrice(item), DbRequest::GetBalance(user)]
        }),
{
    reveal_with_fuel(after_replies, 3);
    reveal_with_fuel(queries_asked, 3);
    let start = start_view(Some(user), ClientMessage::BuyItem(item));
    let replies = seq![DbReply::ItemPrice(Some(price)), DbReply::Balance(Some(money))];
    assert(replies.drop_first() =~= seq![DbReply::Balance(Some(money))]);
    assert(replies.drop_first().drop_first() =~= Seq::<DbReply>::empty());
    assert(queries_asked(start, replies, later) =~= seq![DbRequest::GetItemPrice(item), DbRequest::GetBalance(user)]);
}

/// Buying an item that has no price row is answered `BadItem` after one
/// read.
pub proof fn law_unknown_item_not_sold(user: UserId, item: ItemId, later: Moment)
    ensures
        ({
            let start = start_view(Some(user), ClientMessage::BuyItem(item));
            let replies = seq![DbReply::ItemPrice(None)];
            &&& after_replies(start, replies, later) == answer(ResponseView::BadItem)
            &&& queries_asked(start, replies, later) == seq![DbRequest::GetItemPrice(item)]
        }),
{
    reveal_with_fuel(after_replies, 2);
    reveal_with_fuel(queries_asked, 2);
    let start = start_view(Some(user), ClientMessage::BuyItem(item));
    let replies = seq![DbReply::ItemPrice(None)];
    assert(replies.drop_first() =~= Seq::<DbReply>::empty());
    assert(queries_asked(start, replies, later) =~= seq![DbRequest::GetItemPrice(item)]);
}

/// Selling an owned item pays exactly its price, then removes one ownership
/// record, and reports the item sold.
pub proof fn law_sale(user: UserId, item: ItemId, price: Money, later: Moment)
    ensures
        ({
            let start = start_view(Some(user), ClientMessage::SellItem(item));
            let replies = seq![
                DbReply::HasItem(Some(true)),
                DbReply::ItemPrice(Some(price)),
                DbReply::Written(true),
                DbReply::Written(true),
            ];
            &&& after_replies(start, replies, later) == answer(ResponseView::ItemSold(item))
            &&& queries_asked(start, replies, later) == seq![
                DbRequest::GetUserHasItem(user, item),
                DbRequest::GetItemPrice(item),
                DbRequest::ChangeUserMoney(user, price),
                DbRequest::RemoveUserItem(user, item),
            ]
        }),
{
    reveal_with_fuel(after_replies, 5);
    reveal_with_fuel(queries_asked, 5);
    let start = start_view(Some(user), ClientMessage::SellItem(item));
    let replies = seq![
        DbReply::HasItem(Some(true)),
        DbReply::ItemPrice(Some(price)),
        DbReply::Written(true),
        DbReply::Written(true),
    ];
    assert(replies.drop_first() =~= seq![DbReply::ItemPrice(Some(price)), DbReply::Written(true), DbReply::Written(true)]);
    assert(replies.drop_first().drop_first() =~= seq![DbReply::Written(true), DbReply::Written(true)]);
    assert(replies.drop_first().drop_first().drop_first() =~= seq![DbReply::Written(true)]);
    assert(replies.drop_first().drop_first().drop_first().drop_first() =~= Seq::<DbReply>::empty());
    assert(queries_asked(start, replies, later) =~= seq![
        DbRequest::GetUserHasItem(user, item),
        DbRequest::GetItemPrice(item),
        DbRequest::ChangeUserMoney(user, price),
        DbRequest::RemoveUserItem(user, item),
    ]);
}

/// Selling an item that the user does not own is answered `BadItem` and
/// writes nothing.
pub proof fn law_unowned_item_not_bought_back(user: UserId, item: ItemId, later: Moment)
    ensures
        ({
            let start = start_view(Some(user), ClientMessage::SellItem(item));
            let replies = seq![DbReply::HasItem(Some(false))];
            &&& after_replies(start, replies, later) == answer(ResponseView::BadItem)
            &&& queries_asked(start, replies, later) == seq![DbRequest::GetUserHasItem(user, item)]
        }),
{
    reveal_with_fuel(after_replies, 2);
    reveal_with_fuel(queries_asked, 2);
    let start = start_view(Some(user), ClientMessage::SellItem(item));
    let replies = seq![DbReply::HasItem(Some(false))];
    assert(replies.drop_first() =~= Seq::<DbReply>::empty());
    assert(queries_asked(start, replies, later) =~= seq![DbRequest::GetUserHasItem(user, item)]);
}

/// Work that is due pays `MONEY_PER_WORK` and sets the next work time to
/// `WORK_INTERVAL_SECS` after the moment the request was read.
pub proof fn law_work_pays(user: UserId, now: Moment, can_work_at: i64, later: Moment)
    requires
        timestamp_accepts_seconds(can_work_at as int),
        can_work_at <= now.secs(),
        timestamp_accepts_seconds(now.secs() + WORK_INTERVAL_SECS),
        now.secs() + WORK_INTERVAL_SECS <= i64::MAX,
    ensures
        ({
            let start = StepView::Query(Pending::WorkCheck { user, now }, DbRequest::GetUserCanWorkAt(user));
            let replies = seq![DbReply::CanWorkAt(Some(can_work_at)), DbReply::Written(true), DbReply::Written(true)];
            &&& after_replies(start, replies, later) == answer(ResponseView::Worked(MONEY_PER_WORK))
            &&& queries_asked(start, replies, later) == seq![
                DbRequest::GetUserCanWorkAt(user),
                DbRequest::ChangeUserMoney(user, MONEY_PER_WORK),
                DbRequest::SetUserCanWorkAt(user, (now.secs() + WORK_INTERVAL_SECS) as i64),
            ]
        }),
{
    lemma_moment_at(can_work_at as int);
    reveal_with_fuel(after_replies, 4);
    reveal_with_fuel(queries_asked, 4);
    let start = StepView::Query(Pending::WorkCheck { user, now }, DbRequest::GetUserCanWorkAt(user));
    let replies = seq![DbReply::CanWorkAt(Some(can_work_at)), DbReply::Written(true), DbReply::Written(true)];
    assert(!moment_after(Moment::at(can_work_at as int), now));
    assert(replies.drop_first() =~= seq![DbReply::Written(true), DbReply::Written(true)]);
    assert(replies.drop_first().drop_first() =~= seq![DbReply::Written(true)]);
    assert(replies.drop_first().drop_first().drop_first() =~= Seq::<DbReply>::empty());
    assert(queries_asked(start, replies, later) =~= seq![
        DbRequest::GetUserCanWorkAt(user),
        DbRequest::ChangeUserMoney(user, MONEY_PER_WORK),
        DbRequest::SetUserCanWorkAt(user, (now.secs() + WORK_INTERVAL_SECS) as i64),
    ]);
}

/// After work at `earlier`, work is refused, with the time left, at any
/// moment `later` before the interval has passed, and it is paid again
/// once the interval has passed.
pub proof fn law_work_cooldown(user: UserId, earlier: Moment, later: Moment, clock: Moment)
    requires
        timestamp_accepts_seconds(earlier.secs() + WORK_INTERVAL_SECS),
        earlier.secs() + WORK_INTERVAL_SECS <= i64::MAX,
    ensures
        ({
            let next = earlier.secs() + WORK_INTERVAL_SECS;
            let step = resume_view(
                Pending::WorkCheck { user, now: later },
                DbReply::CanWorkAt(Some(next as i64)),
                clock,
            );
            &&& later.secs() < next ==> step == answer(
                ResponseView::BadWork("You can work again in "@ + time_left_text(Moment::at(next), later)),
            )
            &&& later.secs() >= next ==> step == StepView::Query(
                Pending::WorkPay { user, now: later },
                DbRequest::ChangeUserMoney(user, MONEY_PER_WORK),
            )
        }),
{
    lemma_moment_seconds_fit(earlier);
    lemma_moment_at(earlier.secs() + WORK_INTERVAL_SECS);
}

/// A stored work time that no timestamp can hold counts as the moment the
/// clock is read again when it comes back: work is refused while that
/// reading lies after the moment the request came in.
pub proof fn law_unreadable_work_time(user: UserId, now: Moment, seconds: i64, later: Moment)
    requires
        !timestamp_accepts_seconds(seconds as int),
    ensures
        moment_after(later, now) ==> resume_view(
            Pending::WorkCheck { user, now },
            DbReply::CanWorkAt(Some(seconds)),
            later,
        ) == answer(ResponseView::BadWork("You can work again in "@ + time_left_text(later, now))),
        !moment_after(later, now) ==> resume_view(
            Pending::WorkCheck { user, now },
            DbReply::CanWorkAt(Some(seconds)),
            later,
        ) == StepView::Query(Pending::WorkPay { user, now }, DbRequest::ChangeUserMoney(user, MONEY_PER_WORK)),
{
}

/// A work request is timed from its arrival: the step that `get_response`
/// takes for a logged-in user holds a clock reading `now`, and any stored
/// work time at or before `now` is paid, whatever the second clock reading.
pub proof fn law_work_timed_from_arrival(user: UserId, step: StepView)
    requires
        get_response_post(Some(user), ClientMessage::Work, step),
    ensures
        step matches StepView::Query(Pending::WorkCheck { user: u, now }, DbRequest::GetUserCanWorkAt(v))
            && u == user && v == user && now.read_from_clock()
            && forall|seconds: i64, later: Moment|
            #![trigger resume_view(Pending::WorkCheck { user, now }, DbReply::CanWorkAt(Some(seconds)), later)]
            timestamp_accepts_seconds(seconds as int) && seconds <= now.secs() ==> resume_view(
                Pending::WorkCheck { user, now },
                DbReply::CanWorkAt(Some(seconds)),
                later,
            ) == StepView::Query(Pending::WorkPay { user, now }, DbRequest::ChangeUserMoney(user, MONEY_PER_WORK)),
{
    if let StepView::Query(Pending::WorkCheck { user: u, now }, _) = step {
        assert forall|seconds: i64, later: Moment|
            timestamp_accepts_seconds(seconds as int) && seconds <= now.secs() implies #[trigger] resume_view(
                Pending::WorkCheck { user, now },
                DbReply::CanWorkAt(Some(seconds)),
                later,
            ) == StepView::Query(Pending::WorkPay { user, now }, DbRequest::ChangeUserMoney(user, MONEY_PER_WORK)) by {
            lemma_moment_at(seconds as int);
        }
    }
}

/// A balance request reports exactly the money that the database holds.
pub proof fn law_balance_reported(money: Money, later: Moment)
    ensures
        resume_view(Pending::Balance, DbReply::Balance(Some(money)), later) == answer(ResponseView::Balance(money)),
{
}

/// The owned items are listed in full and in order: one entry per row that
/// the database returned, each with that row's name and description.
pub proof fn law_owned_items_listed(rows: Vec<(String, String)>, later: Moment)
    ensures
        resume_view(Pending::MyItems, DbReply::UserItems(Some(rows)), later) matches StepView::Done(
            Ok(ResponseView::YourItems(listed)),
            None,
        ) && listed.len() == rows@.len() && forall|j: int|
            0 <= j < rows@.len() ==> #[trigger] listed[j] == (rows@[j].0@, rows@[j].1@),
{
}

/// The catalogue is listed unchanged: one entry per row that the database
/// returned, in order, each with that row's id, name and price.
pub proof fn law_catalogue_listed(rows: Vec<(ItemId, String, Money)>, later: Moment)
    ensures
        resume_view(Pending::AllItems, DbReply::AllItems(Some(rows)), later) matches StepView::Done(
            Ok(ResponseView::ItemList(listed)),
            None,
        ) && listed.len() == rows@.len() && forall|j: int|
            0 <= j < rows@.len() ==> #[trigger] listed[j] == (rows@[j].0, rows@[j].1@, rows@[j].2),
{
}

} // verus!
