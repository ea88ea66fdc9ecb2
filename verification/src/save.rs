//! Storing an order, as a state machine: the caller performs each action
//! on the database and hands back what came of it.
use vstd::prelude::*;

use crate::error::Error;
use crate::model::{WBmodel, WBmodelView};
use crate::orders::{
    insert_delivery, insert_order, insert_payment, item_statements, order_exists,
    spec_insert_delivery, spec_insert_order, spec_insert_payment, spec_item_statements,
    spec_order_exists,
};
use crate::sql::{statement_views, SqlParamView, SqlStatement, SqlStatementView, CHECK_ORDER_EXISTS};

verus! {

/// Where a save stands: what it is waiting for.
#[derive(Debug, Clone, Copy, PartialEq, Eq, Structural)]
pub enum SaveState {
    /// Waiting to learn whether the order is stored already.
    CheckingExists,
    /// Waiting for the transaction that stores the order.
    BeginningOrder,
    /// Waiting for the id of the stored delivery.
    InsertingDelivery,
    /// Waiting for the payment to be stored; the delivery has `delivery_id`.
    InsertingPayment { delivery_id: i64 },
    /// Waiting for the row of the order to be stored.
    InsertingOrder,
    /// Waiting for the order's transaction to commit.
    CommittingOrder,
    /// Waiting for the transaction that stores the items.
    BeginningItems,
    /// Waiting for item statement `sent - 1`; `sent` of them were sent.
    InsertingItems { sent: usize },
    /// Waiting for the items' transaction to commit.
    CommittingItems,
    /// The save is over.
    Done,
}

/// What came of the last action.
#[derive(Debug, Clone, Copy, PartialEq, Eq, Structural)]
pub enum SaveEvent {
    /// The existence check found the order (`true`) or not (`false`).
    Exists(bool),
    /// A transaction began.
    Began,
    /// The delivery was stored under this id.
    Returned(i64),
    /// A statement ran.
    Executed,
    /// The transaction committed.
    Committed,
    /// The action failed.
    Failed,
}

/// What the caller is to do next.
#[derive(Debug, PartialEq, Eq)]
pub enum SaveAction {
    /// Run the statement outside any transaction and report whether it
    /// gave a row.
    CheckExists(SqlStatement),
    /// Begin a transaction.
    Begin,
    /// Run the statement in the transaction and report the 64-bit integer
    /// in the first column of the row that it returns.
    InsertReturningId(SqlStatement),
    /// Run the statement in the transaction.
    Execute(SqlStatement),
    /// Commit the transaction.
    Commit,
    /// The save is over, with this outcome; an open transaction is
    /// abandoned, which rolls it back.
    Finish(Result<(), Error>),
}

/// The mathematical value of a [`SaveAction`].
pub enum SaveActionView {
    CheckExists(SqlStatementView),
    Begin,
    InsertReturningId(SqlStatementView),
    Execute(SqlStatementView),
    Commit,
    Finish(Result<(), Error>),
}

impl View for SaveAction {
    type V = SaveActionView;

    open spec fn view(&self) -> SaveActionView {
        match self {
            SaveAction::CheckExists(s) => SaveActionView::CheckExists(s@),
            SaveAction::Begin => SaveActionView::Begin,
            SaveAction::InsertReturningId(s) => SaveActionView::InsertReturningId(s@),
            SaveAction::Execute(s) => SaveActionView::Execute(s@),
            SaveAction::Commit => SaveActionView::Commit,
            SaveAction::Finish(r) => SaveActionView::Finish(*r),
        }
    }
}

/// How a save ends when an action fails or is answered out of turn.
pub open spec fn save_failed() -> (SaveState, SaveActionView) {
    (SaveState::Done, SaveActionView::Finish(Err(Error::DBInsertError)))
}

/// The action that starts the save of `o`.
pub open spec fn spec_save_start(o: WBmodelView) -> (SaveState, SaveActionView) {
    (SaveState::CheckingExists, SaveActionView::CheckExists(spec_order_exists(o.order_uid)))
}

/// One step of the save of `o`: from the state `s` and what came of the
/// last action, the next state and action.
///
/// An order that is stored already is not stored again, and the save
/// succeeds. Otherwise the delivery, the payment and the row of the order
/// are stored in one transaction, and then the items, each followed by its
/// link to the order, in a second one. A failure, or an answer that does
/// not fit what was asked, ends the save with `DBInsertError`.
pub open spec fn spec_save_step(o: WBmodelView, s: SaveState, e: SaveEvent) -> (
    SaveState,
    SaveActionView,
) {
    let items = spec_item_statements(o.order_uid, o.items);
    match (s, e) {
        (SaveState::CheckingExists, SaveEvent::Exists(found)) => if found {
            (SaveState::Done, SaveActionView::Finish(Ok(())))
        } else {
            (SaveState::BeginningOrder, SaveActionView::Begin)
        },
        (SaveState::BeginningOrder, SaveEvent::Began) => (
            SaveState::InsertingDelivery,
            SaveActionView::InsertReturningId(spec_insert_delivery(o.delivery)),
        ),
        (SaveState::InsertingDelivery, SaveEvent::Returned(delivery_id)) => (
            SaveState::InsertingPayment { delivery_id },
            SaveActionView::Execute(spec_insert_payment(o.payment)),
        ),
        (SaveState::InsertingPayment { delivery_id }, SaveEvent::Executed) => (
            SaveState::InsertingOrder,
            SaveActionView::Execute(spec_insert_order(o, delivery_id)),
        ),
        (SaveState::InsertingOrder, SaveEvent::Executed) => (
            SaveState::CommittingOrder,
            SaveActionView::Commit,
        ),
        (SaveState::CommittingOrder, SaveEvent::Committed) => (
            SaveState::BeginningItems,
            SaveActionView::Begin,
        ),
        (SaveState::BeginningItems, SaveEvent::Began) => if items.len() == 0 {
            (SaveState::CommittingItems, SaveActionView::Commit)
        } else {
            (SaveState::InsertingItems { sent: 1 }, SaveActionView::Execute(items[0]))
        },
        (SaveState::InsertingItems { sent }, SaveEvent::Executed) => if sent < items.len() {
            (
                SaveState::InsertingItems { sent: (sent + 1) as usize },
                SaveActionView::Execute(items[sent as int]),
            )
        } else {
            (SaveState::CommittingItems, SaveActionView::Commit)
        },
        (SaveState::CommittingItems, SaveEvent::Committed) => (
            SaveState::Done,
            SaveActionView::Finish(Ok(())),
        ),
        _ => save_failed(),
    }
}

/// The save of one order.
pub struct OrderSaver {
    order: WBmodel,
    items: Vec<SqlStatement>,
    state: SaveState,
}

/// The mathematical value of an [`OrderSaver`]: the order and where its
/// save stands.
pub struct OrderSaverView {
    pub order: WBmodelView,
    pub state: SaveState,
}

impl View for OrderSaver {
    type V = OrderSaverView;

    closed spec fn view(&self) -> OrderSaverView {
        OrderSaverView { order: self.order@, state: self.state }
    }
}

impl OrderSaver {
    #[verifier::type_invariant]
    spec fn items_match_order(self) -> bool {
        statement_views(self.items@) == spec_item_statements(self.order@.order_uid, self.order@.items)
    }

    /// Starts the save of `order`: the first action checks whether it is
    /// stored already.
    pub fn new(order: WBmodel) -> (r: (OrderSaver, SaveAction))
        ensures
            r.0@.order == order@,
            (r.0@.state, r.1@) == spec_save_start(order@),
    {
        let items = item_statements(&order.order_uid, &order.items);
        let check = order_exists(&order.order_uid);
        (OrderSaver { order, items, state: SaveState::CheckingExists }, SaveAction::CheckExists(check))
    }

    /// Where the save stands.
    pub fn state(&self) -> (s: SaveState)
        ensures
            s == self@.state,
    {
        self.state
    }

    /// Takes what came of the last action and gives the next one.
    pub fn step(&mut self, event: SaveEvent) -> (a: SaveAction)
        ensures
            final(self)@.order == old(self)@.order,
            (final(self)@.state, a@) == spec_save_step(old(self)@.order, old(self)@.state, event),
    {
        proof {
            use_type_invariant(&*self);
        }
        assert(statement_views(self.items@).len() == self.items@.len());
        match (self.state, event) {
            (SaveState::CheckingExists, SaveEvent::Exists(found)) => {
                if found {
                    self.state = SaveState::Done;
                    SaveAction::Finish(Ok(()))
                } else {
                    self.state = SaveState::BeginningOrder;
                    SaveAction::Begin
                }
            },
            (SaveState::BeginningOrder, SaveEvent::Began) => {
                self.state = SaveState::InsertingDelivery;
                SaveAction::InsertReturningId(insert_delivery(&self.order.delivery))
            },
            (SaveState::InsertingDelivery, SaveEvent::Returned(delivery_id)) => {
                self.state = SaveState::InsertingPayment { delivery_id };
                SaveAction::Execute(insert_payment(&self.order.payment))
            },
            (SaveState::InsertingPayment { delivery_id }, SaveEvent::Executed) => {
                self.state = SaveState::InsertingOrder;
                SaveAction::Execute(insert_order(&self.order, delivery_id))
            },
            (SaveState::InsertingOrder, SaveEvent::Executed) => {
                self.state = SaveState::CommittingOrder;
                SaveAction::Commit
            },
            (SaveState::CommittingOrder, SaveEvent::Committed) => {
                self.state = SaveState::BeginningItems;
                SaveAction::Begin
            },
            (SaveState::BeginningItems, SaveEvent::Began) => {
                if self.items.len() == 0 {
                    self.state = SaveState::CommittingItems;
                    SaveAction::Commit
                } else {
                    self.state = SaveState::InsertingItems { sent: 1 };
                    assert(statement_views(self.items@)[0] == self.items@[0]@);
                    SaveAction::Execute(self.items[0].duplicate())
                }
            },
            (SaveState::InsertingItems { sent }, SaveEvent::Executed) => {
                if sent < self.items.len() {
                    self.state = SaveState::InsertingItems { sent: sent + 1 };
                    assert(statement_views(self.items@)[sent as int] == self.items@[sent as int]@);
                    SaveAction::Execute(self.items[sent].duplicate())
                } else {
                    self.state = SaveState::CommittingItems;
                    SaveAction::Commit
                }
            },
            (SaveState::CommittingItems, SaveEvent::Committed) => {
                self.state = SaveState::Done;
                SaveAction::Finish(Ok(()))
            },
            _ => {
                self.state = SaveState::Done;
                SaveAction::Finish(Err(Error::DBInsertError))
            },
        }
    }
}

// ---------------------------------------------------------------------------
// Laws.
// ---------------------------------------------------------------------------

/// The actions that a save of `o` takes from the state `s` when its
/// actions come to `events`, one after the other.
pub open spec fn spec_save_run(o: WBmodelView, s: SaveState, events: Seq<SaveEvent>) -> Seq<
    SaveActionView,
>
    decreases events.len(),
{
    if events.len() == 0 {
        Seq::empty()
    } else {
        let (next, action) = spec_save_step(o, s, events[0]);
        seq![action] + spec_save_run(o, next, events.drop_first())
    }
}

/// What happens to the save of a new order when every action succeeds and
/// the database gives the delivery the id `delivery_id`.
pub open spec fn spec_new_order_events(o: WBmodelView, delivery_id: i64) -> Seq<SaveEvent> {
    seq![
        SaveEvent::Exists(false),
        SaveEvent::Began,
        SaveEvent::Returned(delivery_id),
        SaveEvent::Executed,
        SaveEvent::Executed,
        SaveEvent::Committed,
        SaveEvent::Began,
    ] + Seq::new(spec_item_statements(o.order_uid, o.items).len(), |i: int| SaveEvent::Executed)
        + seq![SaveEvent::Committed]
}

/// Each statement of `statements`, run in the open transaction.
pub open spec fn spec_execute_all(statements: Seq<SqlStatementView>) -> Seq<SaveActionView> {
    statements.map_values(|st: SqlStatementView| SaveActionView::Execute(st))
}

/// The actions that store a new order, after the existence check: in one
/// transaction the delivery, the payment and the row of the order; then,
/// in another, the items with their links.
pub open spec fn spec_new_order_plan(o: WBmodelView, delivery_id: i64) -> Seq<SaveActionView> {
    seq![
        SaveActionView::Begin,
        SaveActionView::InsertReturningId(spec_insert_delivery(o.delivery)),
        SaveActionView::Execute(spec_insert_payment(o.payment)),
        SaveActionView::Execute(spec_insert_order(o, delivery_id)),
        SaveActionView::Commit,
        SaveActionView::Begin,
    ] + spec_execute_all(spec_item_statements(o.order_uid, o.items)) + seq![
        SaveActionView::Commit,
        SaveActionView::Finish(Ok(())),
    ]
}

proof fn lemma_run_cons(o: WBmodelView, s: SaveState, e: SaveEvent, rest: Seq<SaveEvent>)
    ensures
        spec_save_run(o, s, seq![e] + rest) == seq![spec_save_step(o, s, e).1] + spec_save_run(
            o,
            spec_save_step(o, s, e).0,
            rest,
        ),
{
    assert((seq![e] + rest).drop_first() =~= rest);
    assert((seq![e] + rest)[0] == e);
}

/// From item statement `sent` on, a run of successes sends the remaining
/// item statements, commits, and finishes.
proof fn lemma_items_run(o: WBmodelView, sent: usize)
    requires
        1 <= sent <= spec_item_statements(o.order_uid, o.items).len(),
        spec_item_statements(o.order_uid, o.items).len() <= usize::MAX,
    ensures
        ({
            let items = spec_item_statements(o.order_uid, o.items);
            spec_save_run(
                o,
                SaveState::InsertingItems { sent },
                Seq::new((items.len() - sent + 1) as nat, |i: int| SaveEvent::Executed) + seq![
                    SaveEvent::Committed,
                ],
            ) == spec_execute_all(items.subrange(sent as int, items.len() as int)) + seq![
                SaveActionView::Commit,
                SaveActionView::Finish(Ok(())),
            ]
        }),
    decreases spec_item_statements(o.order_uid, o.items).len() - sent,
{
    let items = spec_item_statements(o.order_uid, o.items);
    let events = Seq::new((items.len() - sent + 1) as nat, |i: int| SaveEvent::Executed) + seq![
        SaveEvent::Committed,
    ];
    let rest = Seq::new((items.len() - sent) as nat, |i: int| SaveEvent::Executed) + seq![
        SaveEvent::Committed,
    ];
    assert(events =~= seq![SaveEvent::Executed] + rest);
    lemma_run_cons(o, SaveState::InsertingItems { sent }, SaveEvent::Executed, rest);
    if sent < items.len() {
        lemma_items_run(o, (sent + 1) as usize);
        assert(spec_execute_all(items.subrange(sent as int, items.len() as int)) =~= seq![
            SaveActionView::Execute(items[sent as int]),
        ] + spec_execute_all(items.subrange(sent + 1, items.len() as int)));
    } else {
        assert(rest =~= seq![SaveEvent::Committed] + Seq::<SaveEvent>::empty());
        lemma_run_cons(o, SaveState::CommittingItems, SaveEvent::Committed, Seq::empty());
        assert(spec_execute_all(items.subrange(sent as int, items.len() as int)) =~= Seq::empty());
    }
}

/// Storing a new order: after the check finds no order with its uid, and
/// when every action succeeds, the save stores the delivery, the payment
/// and the row of the order (bound to the delivery's new id) in one
/// transaction, then every item followed by its link in a second one, and
/// succeeds.
pub proof fn law_new_order_is_stored(o: WBmodelView, delivery_id: i64)
    requires
        spec_item_statements(o.order_uid, o.items).len() <= usize::MAX,
    ensures
        spec_save_run(o, spec_save_start(o).0, spec_new_order_events(o, delivery_id))
            == spec_new_order_plan(o, delivery_id),
{
    let items = spec_item_statements(o.order_uid, o.items);
    let n = items.len();
    let tail = Seq::new(n, |i: int| SaveEvent::Executed) + seq![SaveEvent::Committed];
    let e6 = seq![SaveEvent::Began] + tail;
    let e5 = seq![SaveEvent::Committed] + e6;
    let e4 = seq![SaveEvent::Executed] + e5;
    let e3 = seq![SaveEvent::Executed] + e4;
    let e2 = seq![SaveEvent::Returned(delivery_id)] + e3;
    let e1 = seq![SaveEvent::Began] + e2;
    let e0 = seq![SaveEvent::Exists(false)] + e1;
    assert(spec_new_order_events(o, delivery_id) =~= e0);
    lemma_run_cons(o, SaveState::CheckingExists, SaveEvent::Exists(false), e1);
    lemma_run_cons(o, SaveState::BeginningOrder, SaveEvent::Began, e2);
    lemma_run_cons(o, SaveState::InsertingDelivery, SaveEvent::Returned(delivery_id), e3);
    lemma_run_cons(o, SaveState::InsertingPayment { delivery_id }, SaveEvent::Executed, e4);
    lemma_run_cons(o, SaveState::InsertingOrder, SaveEvent::Executed, e5);
    lemma_run_cons(o, SaveState::CommittingOrder, SaveEvent::Committed, e6);
    lemma_run_cons(o, SaveState::BeginningItems, SaveEvent::Began, tail);
    let finish = seq![SaveActionView::Commit, SaveActionView::Finish(Ok(()))];
    if n == 0 {
        assert(tail =~= seq![SaveEvent::Committed] + Seq::<SaveEvent>::empty());
        lemma_run_cons(o, SaveState::CommittingItems, SaveEvent::Committed, Seq::empty());
        assert(spec_execute_all(items) =~= Seq::empty());
        assert(spec_save_run(o, SaveState::BeginningItems, e6) =~= finish);
    } else {
        let rest = Seq::new((n - 1) as nat, |i: int| SaveEvent::Executed) + seq![SaveEvent::Committed];
        assert(tail =~= seq![SaveEvent::Executed] + rest);
        lemma_run_cons(o, SaveState::InsertingItems { sent: 1 }, SaveEvent::Executed, rest);
        lemma_items_run(o, 1);
        assert(Seq::new((n - 1 + 1) as nat, |i: int| SaveEvent::Executed) + seq![SaveEvent::Committed]
            =~= tail);
        assert(spec_execute_all(items) =~= seq![SaveActionView::Execute(items[0])]
            + spec_execute_all(items.subrange(1, n as int)));
        assert(spec_save_run(o, SaveState::BeginningItems, e6) =~= spec_execute_all(items) + finish);
    }
    assert(spec_save_run(o, spec_save_start(o).0, spec_new_order_events(o, delivery_id))
        =~= spec_new_order_plan(o, delivery_id));
}

/// An order whose uid is stored already is not stored again: the save
/// writes nothing and succeeds.
pub proof fn law_stored_order_is_not_stored_again(o: WBmodelView)
    ensures
        spec_save_step(o, spec_save_start(o).0, SaveEvent::Exists(true)) == (
            SaveState::Done,
            SaveActionView::Finish(Ok(())),
        ),
{
}

/// A failed action ends the save, whatever stage it is at, with
/// `DBInsertError` and without another statement; and a save that is over
/// stays over, whatever it is told.
pub proof fn law_failure_ends_save(o: WBmodelView, s: SaveState, e: SaveEvent)
    ensures
        spec_save_step(o, s, SaveEvent::Failed) == save_failed(),
        spec_save_step(o, SaveState::Done, e) == save_failed(),
{
}

/// A save first asks whether the order's own uid is stored, and nothing
/// else: the check binds exactly the order uid, which is the key that the
/// insert of the order's row binds first (the orders table's key), whatever
/// id the delivery is given.
pub proof fn law_save_checks_the_order_uid(o: WBmodelView, delivery_id: i64)
    ensures
        spec_save_start(o).0 == SaveState::CheckingExists,
        spec_save_start(o).1 == SaveActionView::CheckExists(
            SqlStatementView { sql: CHECK_ORDER_EXISTS@, params: seq![SqlParamView::Text(o.order_uid)] },
        ),
        spec_save_start(o).1 == SaveActionView::CheckExists(
            SqlStatementView {
                sql: CHECK_ORDER_EXISTS@,
                params: seq![spec_insert_order(o, delivery_id).params[0]],
            },
        ),
{
    assert(spec_order_exists(o.order_uid).params =~= seq![SqlParamView::Text(o.order_uid)]);
    assert(spec_insert_order(o, delivery_id).params[0] == SqlParamView::Text(o.order_uid));
}

} // verus!
