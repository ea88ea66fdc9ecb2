//! Loading an order, as a state machine: the caller runs each query and
//! hands back what it gave.
use vstd::prelude::*;

use crate::error::Error;
use crate::model::{item_views, Delivery, DeliveryView, Item, ItemView, Payment, PaymentView, WBmodel, WBmodelView};
use crate::orders::{
    assemble_order, select_delivery, select_items_of_order, select_order, select_payment,
    spec_assemble_order, spec_select_delivery, spec_select_items_of_order, spec_select_order,
    spec_select_payment, OrderRow, OrderRowView, spec_stored_order_row, spec_insert_order,
    law_written_order_reads_back,
};
use crate::sql::{SqlStatement, SqlStatementView};

verus! {

/// Where a load stands: what it is waiting for, and what it has so far.
#[derive(Debug, PartialEq, Eq)]
pub enum LoadState {
    /// Waiting for the row of the order.
    LoadingRow,
    /// Waiting for the delivery of the order in `row`.
    LoadingDelivery { row: OrderRow },
    /// Waiting for the payment.
    LoadingPayment { row: OrderRow, delivery: Delivery },
    /// Waiting for the items.
    LoadingItems { row: OrderRow, delivery: Delivery, payment: Payment },
    /// The load is over.
    Done,
}

/// The mathematical value of a [`LoadState`].
pub enum LoadStateView {
    LoadingRow,
    LoadingDelivery { row: OrderRowView },
    LoadingPayment { row: OrderRowView, delivery: DeliveryView },
    LoadingItems { row: OrderRowView, delivery: DeliveryView, payment: PaymentView },
    Done,
}

impl View for LoadState {
    type V = LoadStateView;

    open spec fn view(&self) -> LoadStateView {
        match self {
            LoadState::LoadingRow => LoadStateView::LoadingRow,
            LoadState::LoadingDelivery { row } => LoadStateView::LoadingDelivery { row: row@ },
            LoadState::LoadingPayment { row, delivery } => LoadStateView::LoadingPayment {
                row: row@,
                delivery: delivery@,
            },
            LoadState::LoadingItems { row, delivery, payment } => LoadStateView::LoadingItems {
                row: row@,
                delivery: delivery@,
                payment: payment@,
            },
            LoadState::Done => LoadStateView::Done,
        }
    }
}

/// What the last query gave.
#[derive(Debug, PartialEq, Eq)]
pub enum LoadEvent {
    /// The row of the order.
    Row(OrderRow),
    /// The delivery.
    Delivery(Delivery),
    /// The payment.
    Payment(Payment),
    /// The items.
    Items(Vec<Item>),
    /// The query failed, or found no row where one was asked for.
    Failed,
}

/// The mathematical value of a [`LoadEvent`].
pub enum LoadEventView {
    Row(OrderRowView),
    Delivery(DeliveryView),
    Payment(PaymentView),
    Items(Seq<ItemView>),
    Failed,
}

impl View for LoadEvent {
    type V = LoadEventView;

    open spec fn view(&self) -> LoadEventView {
        match self {
            LoadEvent::Row(r) => LoadEventView::Row(r@),
            LoadEvent::Delivery(d) => LoadEventView::Delivery(d@),
            LoadEvent::Payment(p) => LoadEventView::Payment(p@),
            LoadEvent::Items(items) => LoadEventView::Items(item_views(items@)),
            LoadEvent::Failed => LoadEventView::Failed,
        }
    }
}

/// What the caller is to do next.
#[derive(Debug, PartialEq, Eq)]
pub enum LoadAction {
    /// Run the statement for exactly one row of the orders table.
    FetchRow(SqlStatement),
    /// Run the statement for exactly one delivery.
    FetchDelivery(SqlStatement),
    /// Run the statement for exactly one payment.
    FetchPayment(SqlStatement),
    /// Run the statement for all the items that it gives.
    FetchItems(SqlStatement),
    /// The load is over, with this outcome.
    Finish(Result<WBmodel, Error>),
}

/// The mathematical value of a [`LoadAction`].
pub enum LoadActionView {
    FetchRow(SqlStatementView),
    FetchDelivery(SqlStatementView),
    FetchPayment(SqlStatementView),
    FetchItems(SqlStatementView),
    Finish(Result<WBmodelView, Error>),
}

impl View for LoadAction {
    type V = LoadActionView;

    open spec fn view(&self) -> LoadActionView {
        match self {
            LoadAction::FetchRow(s) => LoadActionView::FetchRow(s@),
            LoadAction::FetchDelivery(s) => LoadActionView::FetchDelivery(s@),
            LoadAction::FetchPayment(s) => LoadActionView::FetchPayment(s@),
            LoadAction::FetchItems(s) => LoadActionView::FetchItems(s@),
            LoadAction::Finish(Ok(o)) => LoadActionView::Finish(Ok(o@)),
            LoadAction::Finish(Err(e)) => LoadActionView::Finish(Err(*e)),
        }
    }
}

/// How a load ends when a query fails or is answered out of turn.
pub open spec fn load_failed() -> (LoadStateView, LoadActionView) {
    (LoadStateView::Done, LoadActionView::Finish(Err(Error::DBSelectError)))
}

/// The action that starts the load of the order `order_uid`.
pub open spec fn spec_load_start(order_uid: Seq<char>) -> (LoadStateView, LoadActionView) {
    (LoadStateView::LoadingRow, LoadActionView::FetchRow(spec_select_order(order_uid)))
}

/// One step of a load: from the state `s` and what the last query gave,
/// the next state and action.
///
/// The row of the order comes first; then its delivery, by the row's
/// delivery id; its payment, by the row's payment id; and its items, by
/// the row's order uid. Together they make up the order. A failure, or an
/// answer that does not fit what was asked, ends the load with
/// `DBSelectError`.
pub open spec fn spec_load_step(s: LoadStateView, e: LoadEventView) -> (
    LoadStateView,
    LoadActionView,
) {
    match (s, e) {
        (LoadStateView::LoadingRow, LoadEventView::Row(row)) => (
            LoadStateView::LoadingDelivery { row },
            LoadActionView::FetchDelivery(spec_select_delivery(row.delivery_id)),
        ),
        (LoadStateView::LoadingDelivery { row }, LoadEventView::Delivery(delivery)) => (
            LoadStateView::LoadingPayment { row, delivery },
            LoadActionView::FetchPayment(spec_select_payment(row.payment_id)),
        ),
        (LoadStateView::LoadingPayment { row, delivery }, LoadEventView::Payment(payment)) => (
            LoadStateView::LoadingItems { row, delivery, payment },
            LoadActionView::FetchItems(spec_select_items_of_order(row.order_uid)),
        ),
        (
            LoadStateView::LoadingItems { row, delivery, payment },
            LoadEventView::Items(items),
        ) => (
            LoadStateView::Done,
            LoadActionView::Finish(Ok(spec_assemble_order(row, delivery, payment, items))),
        ),
        _ => load_failed(),
    }
}

/// Starts the load of the order `order_uid`: the first action fetches its row.
pub fn load_start(order_uid: &String) -> (r: (LoadState, LoadAction))
    ensures
        (r.0@, r.1@) == spec_load_start(order_uid@),
{
    (LoadState::LoadingRow, LoadAction::FetchRow(select_order(order_uid)))
}

/// Takes what the last query gave and gives the next state and action.
pub fn load_step(state: LoadState, event: LoadEvent) -> (r: (LoadState, LoadAction))
    ensures
        (r.0@, r.1@) == spec_load_step(state@, event@),
{
    match (state, event) {
        (LoadState::LoadingRow, LoadEvent::Row(row)) => {
            let query = select_delivery(row.delivery_id);
            (LoadState::LoadingDelivery { row }, LoadAction::FetchDelivery(query))
        },
        (LoadState::LoadingDelivery { row }, LoadEvent::Delivery(delivery)) => {
            let query = select_payment(&row.payment_id);
            (LoadState::LoadingPayment { row, delivery }, LoadAction::FetchPayment(query))
        },
        (LoadState::LoadingPayment { row, delivery }, LoadEvent::Payment(payment)) => {
            let query = select_items_of_order(&row.order_uid);
            (LoadState::LoadingItems { row, delivery, payment }, LoadAction::FetchItems(query))
        },
        (LoadState::LoadingItems { row, delivery, payment }, LoadEvent::Items(items)) => {
            (LoadState::Done, LoadAction::Finish(Ok(assemble_order(row, delivery, payment, items))))
        },
        _ => (LoadState::Done, LoadAction::Finish(Err(Error::DBSelectError))),
    }
}

// ---------------------------------------------------------------------------
// Laws.
// ---------------------------------------------------------------------------

/// The actions that a load takes from the state `s` when its queries give
/// `events`, one after the other.
pub open spec fn spec_load_run(s: LoadStateView, events: Seq<LoadEventView>) -> Seq<LoadActionView>
    decreases events.len(),
{
    if events.len() == 0 {
        Seq::empty()
    } else {
        let (next, action) = spec_load_step(s, events[0]);
        seq![action] + spec_load_run(next, events.drop_first())
    }
}

/// What the queries of a load give when the database holds the row `row`,
/// the delivery `d`, the payment `p` and the items `items`.
pub open spec fn spec_found_events(
    row: OrderRowView,
    d: DeliveryView,
    p: PaymentView,
    items: Seq<ItemView>,
) -> Seq<LoadEventView> {
    seq![
        LoadEventView::Row(row),
        LoadEventView::Delivery(d),
        LoadEventView::Payment(p),
        LoadEventView::Items(items),
    ]
}

/// Loading an order: once its row is found, the load asks for its delivery
/// by the row's delivery id, its payment by the row's payment id and its
/// items by the row's order uid, and answers with the order that they make
/// up.
pub proof fn law_load_assembles_order(
    order_uid: Seq<char>,
    row: OrderRowView,
    d: DeliveryView,
    p: PaymentView,
    items: Seq<ItemView>,
)
    ensures
        spec_load_run(spec_load_start(order_uid).0, spec_found_events(row, d, p, items)) == seq![
            LoadActionView::FetchDelivery(spec_select_delivery(row.delivery_id)),
            LoadActionView::FetchPayment(spec_select_payment(row.payment_id)),
            LoadActionView::FetchItems(spec_select_items_of_order(row.order_uid)),
            LoadActionView::Finish(Ok(spec_assemble_order(row, d, p, items))),
        ],
{
    let events = spec_found_events(row, d, p, items);
    let s0 = LoadStateView::LoadingRow;
    let s1 = LoadStateView::LoadingDelivery { row };
    let s2 = LoadStateView::LoadingPayment { row, delivery: d };
    let s3 = LoadStateView::LoadingItems { row, delivery: d, payment: p };
    assert(events.drop_first() =~= seq![
        LoadEventView::Delivery(d),
        LoadEventView::Payment(p),
        LoadEventView::Items(items),
    ]);
    assert(events.drop_first().drop_first() =~= seq![
        LoadEventView::Payment(p),
        LoadEventView::Items(items),
    ]);
    assert(events.drop_first().drop_first().drop_first() =~= seq![LoadEventView::Items(items)]);
    assert(events.drop_first().drop_first().drop_first().drop_first() =~= Seq::<LoadEventView>::empty());
    assert(spec_load_run(LoadStateView::Done, Seq::empty()) =~= Seq::empty());
    assert(spec_load_run(s3, events.drop_first().drop_first().drop_first()) =~= seq![
        LoadActionView::Finish(Ok(spec_assemble_order(row, d, p, items))),
    ]);
    assert(spec_load_run(s2, events.drop_first().drop_first()) =~= seq![
        LoadActionView::FetchItems(spec_select_items_of_order(row.order_uid)),
        LoadActionView::Finish(Ok(spec_assemble_order(row, d, p, items))),
    ]);
    assert(spec_load_run(s1, events.drop_first()) =~= seq![
        LoadActionView::FetchPayment(spec_select_payment(row.payment_id)),
        LoadActionView::FetchItems(spec_select_items_of_order(row.order_uid)),
        LoadActionView::Finish(Ok(spec_assemble_order(row, d, p, items))),
    ]);
    assert(spec_load_run(s0, events) =~= seq![
        LoadActionView::FetchDelivery(spec_select_delivery(row.delivery_id)),
        LoadActionView::FetchPayment(spec_select_payment(row.payment_id)),
        LoadActionView::FetchItems(spec_select_items_of_order(row.order_uid)),
        LoadActionView::Finish(Ok(spec_assemble_order(row, d, p, items))),
    ]);
}

/// A query that fails, or that finds no row where one was asked for, ends
/// the load with `DBSelectError`; and a load that is over stays over.
pub proof fn law_failure_ends_load(s: LoadStateView, e: LoadEventView)
    ensures
        spec_load_step(s, LoadEventView::Failed) == load_failed(),
        spec_load_step(LoadStateView::Done, e) == load_failed(),
{
}

/// The order `o` with its items replaced by `items`.
pub open spec fn with_items(o: WBmodelView, items: Seq<ItemView>) -> WBmodelView {
    WBmodelView { items, ..o }
}

/// What a read gives back of a write: when the database holds what the
/// save of `o` wrote, and gave its delivery an id that fits the `INT`
/// column of the orders table, the load of `o`'s uid first asks for the
/// row that the save wrote under that uid, and answers with `o` in every
/// field, its items being those that the items query gives: any reordering
/// `found` of the items written (the same multiset of items) comes back as
/// `o` with its items in that order, and the items in the order written
/// give back `o` itself.
pub proof fn law_saved_order_loads_back(o: WBmodelView, delivery_id: i64, found: Seq<ItemView>)
    requires
        i32::MIN <= delivery_id <= i32::MAX,
        found.to_multiset() == o.items.to_multiset(),
    ensures
        spec_load_start(o.order_uid).1 == LoadActionView::FetchRow(spec_select_order(o.order_uid)),
        spec_select_order(o.order_uid).params[0] == spec_insert_order(o, delivery_id).params[0],
        spec_load_run(
            spec_load_start(o.order_uid).0,
            spec_found_events(
                spec_stored_order_row(o, delivery_id as i32),
                o.delivery,
                o.payment,
                found,
            ),
        ).last() == LoadActionView::Finish(Ok(with_items(o, found))),
        with_items(o, found).items.to_multiset() == o.items.to_multiset(),
        with_items(o, o.items) == o,
{
    let row = spec_stored_order_row(o, delivery_id as i32);
    law_written_order_reads_back(o, delivery_id);
    law_load_assembles_order(o.order_uid, row, o.delivery, o.payment, found);
    assert(spec_assemble_order(row, o.delivery, o.payment, found) == with_items(o, found));
}

} // verus!
