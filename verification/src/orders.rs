use vstd::prelude::*;

use crate::model::{Delivery, DeliveryView, Item, ItemView, Payment, PaymentView, WBmodel, WBmodelView, item_views};
use crate::sql::{
    SqlParam, SqlParamView, SqlStatement, SqlStatementView, text_param, statement_views, CHECK_ORDER_EXISTS,
    SELECT_ORDER, SELECT_DELIVERY, SELECT_PAYMENT, SELECT_ITEM, SELECT_ITEMS_OF_ORDER, INSERT_DELIVERY,
    INSERT_PAYMENT, INSERT_ORDER, INSERT_ITEM, INSERT_ITEM_MAPPING, CREATE_DELIVERY_TABLE,
    CREATE_PAYMENT_TABLE, CREATE_ITEMS_TABLE, CREATE_ORDERS_TABLE, CREATE_MAP_ITEMS_TABLE,
};

verus! {

/// The row of the `orders` table that holds an order, as it is read back:
/// the order's own columns, the id of its delivery and the transaction of
/// its payment.
#[derive(Debug, Clone, PartialEq, Eq)]
pub struct OrderRow {
    pub order_uid: String,
    pub track_number: String,
    pub entry: String,
    pub delivery_id: i32,
    pub payment_id: String,
    pub locale: String,
    pub internal_signature: String,
    pub customer_id: String,
    pub delivery_service: String,
    pub shardkey: String,
    pub sm_id: i64,
    pub date_created: String,
    pub oof_shard: String,
}

/// The mathematical value of an [`OrderRow`].
pub struct OrderRowView {
    pub order_uid: Seq<char>,
    pub track_number: Seq<char>,
    pub entry: Seq<char>,
    pub delivery_id: i32,
    pub payment_id: Seq<char>,
    pub locale: Seq<char>,
    pub internal_signature: Seq<char>,
    pub customer_id: Seq<char>,
    pub delivery_service: Seq<char>,
    pub shardkey: Seq<char>,
    pub sm_id: i64,
    pub date_created: Seq<char>,
    pub oof_shard: Seq<char>,
}

impl View for OrderRow {
    type V = OrderRowView;

    open spec fn view(&self) -> OrderRowView {
        OrderRowView {
            order_uid: self.order_uid@,
            track_number: self.track_number@,
            entry: self.entry@,
            delivery_id: self.delivery_id,
            payment_id: self.payment_id@,
            locale: self.locale@,
            internal_signature: self.internal_signature@,
            customer_id: self.customer_id@,
            delivery_service: self.delivery_service@,
            shardkey: self.shardkey@,
            sm_id: self.sm_id,
            date_created: self.date_created@,
            oof_shard: self.oof_shard@,
        }
    }
}

// ---------------------------------------------------------------------------
// What each statement binds.
// ---------------------------------------------------------------------------

pub open spec fn spec_order_exists(order_uid: Seq<char>) -> SqlStatementView {
    SqlStatementView { sql: CHECK_ORDER_EXISTS@, params: seq![SqlParamView::Text(order_uid)] }
}

pub open spec fn spec_select_order(order_uid: Seq<char>) -> SqlStatementView {
    SqlStatementView { sql: SELECT_ORDER@, params: seq![SqlParamView::Text(order_uid)] }
}

pub open spec fn spec_select_delivery(delivery_id: i32) -> SqlStatementView {
    SqlStatementView { sql: SELECT_DELIVERY@, params: seq![SqlParamView::Int(delivery_id)] }
}

pub open spec fn spec_select_payment(transaction: Seq<char>) -> SqlStatementView {
    SqlStatementView { sql: SELECT_PAYMENT@, params: seq![SqlParamView::Text(transaction)] }
}

pub open spec fn spec_select_item(chrt_id: i64) -> SqlStatementView {
    SqlStatementView { sql: SELECT_ITEM@, params: seq![SqlParamView::BigInt(chrt_id)] }
}

pub open spec fn spec_select_items_of_order(order_uid: Seq<char>) -> SqlStatementView {
    SqlStatementView { sql: SELECT_ITEMS_OF_ORDER@, params: seq![SqlParamView::Text(order_uid)] }
}

pub open spec fn spec_insert_delivery(d: DeliveryView) -> SqlStatementView {
    SqlStatementView {
        sql: INSERT_DELIVERY@,
        params: seq![
            SqlParamView::Text(d.name),
            SqlParamView::Text(d.phone),
            SqlParamView::Text(d.zip),
            SqlParamView::Text(d.city),
            SqlParamView::Text(d.address),
            SqlParamView::Text(d.region),
            SqlParamView::Text(d.email),
        ],
    }
}

pub open spec fn spec_insert_payment(p: PaymentView) -> SqlStatementView {
    SqlStatementView {
        sql: INSERT_PAYMENT@,
        params: seq![
            SqlParamView::Text(p.transaction),
            SqlParamView::Text(p.request_id),
            SqlParamView::Text(p.currency),
            SqlParamView::Text(p.provider),
            SqlParamView::BigInt(p.amount),
            SqlParamView::BigInt(p.payment_dt),
            SqlParamView::Text(p.bank),
            SqlParamView::BigInt(p.delivery_cost),
            SqlParamView::BigInt(p.goods_total),
            SqlParamView::BigInt(p.custom_fee),
        ],
    }
}

pub open spec fn spec_insert_order(o: WBmodelView, delivery_id: i64) -> SqlStatementView {
    SqlStatementView {
        sql: INSERT_ORDER@,
        params: seq![
            SqlParamView::Text(o.order_uid),
            SqlParamView::Text(o.track_number),
            SqlParamView::Text(o.entry),
            SqlParamView::BigInt(delivery_id),
            SqlParamView::Text(o.payment.transaction),
            SqlParamView::Text(o.locale),
            SqlParamView::Text(o.internal_signature),
            SqlParamView::Text(o.customer_id),
            SqlParamView::Text(o.delivery_service),
            SqlParamView::Text(o.shardkey),
            SqlParamView::BigInt(o.sm_id),
            SqlParamView::Text(o.date_created),
            SqlParamView::Text(o.oof_shard),
        ],
    }
}

pub open spec fn spec_insert_item(i: ItemView) -> SqlStatementView {
    SqlStatementView {
        sql: INSERT_ITEM@,
        params: seq![
            SqlParamView::BigInt(i.chrt_id),
            SqlParamView::Text(i.track_number),
            SqlParamView::BigInt(i.price),
            SqlParamView::Text(i.rid),
            SqlParamView::Text(i.name),
            SqlParamView::BigInt(i.sale),
            SqlParamView::Text(i.size),
            SqlParamView::BigInt(i.total_price),
            SqlParamView::BigInt(i.nm_id),
            SqlParamView::Text(i.brand),
            SqlParamView::BigInt(i.status),
        ],
    }
}

pub open spec fn spec_insert_item_mapping(order_uid: Seq<char>, chrt_id: i64) -> SqlStatementView {
    SqlStatementView {
        sql: INSERT_ITEM_MAPPING@,
        params: seq![SqlParamView::Text(order_uid), SqlParamView::BigInt(chrt_id)],
    }
}

/// The statements that store the items of an order: for each item, in
/// order, the item itself and then its link to the order.
pub open spec fn spec_item_statements(order_uid: Seq<char>, items: Seq<ItemView>) -> Seq<
    SqlStatementView,
>
    decreases items.len(),
{
    if items.len() == 0 {
        Seq::empty()
    } else {
        spec_item_statements(order_uid, items.drop_last()) + seq![
            spec_insert_item(items.last()),
            spec_insert_item_mapping(order_uid, items.last().chrt_id),
        ]
    }
}

/// A statement without parameters.
pub open spec fn spec_plain(sql: &'static str) -> SqlStatementView {
    SqlStatementView { sql: sql@, params: Seq::empty() }
}

/// The statements that create the tables, in the order in which they must run.
pub open spec fn spec_schema() -> Seq<SqlStatementView> {
    seq![
        spec_plain(CREATE_DELIVERY_TABLE),
        spec_plain(CREATE_PAYMENT_TABLE),
        spec_plain(CREATE_ITEMS_TABLE),
        spec_plain(CREATE_ORDERS_TABLE),
        spec_plain(CREATE_MAP_ITEMS_TABLE),
    ]
}

/// The order that a stored row, its delivery, its payment and its items make up.
pub open spec fn spec_assemble_order(
    row: OrderRowView,
    delivery: DeliveryView,
    payment: PaymentView,
    items: Seq<ItemView>,
) -> WBmodelView {
    WBmodelView {
        order_uid: row.order_uid,
        track_number: row.track_number,
        entry: row.entry,
        delivery,
        payment,
        items,
        locale: row.locale,
        internal_signature: row.internal_signature,
        customer_id: row.customer_id,
        delivery_service: row.delivery_service,
        shardkey: row.shardkey,
        sm_id: row.sm_id,
        date_created: row.date_created,
        oof_shard: row.oof_shard,
    }
}

/// The row that [`insert_order`] writes for `o`, read back: each column
/// holds the value bound to it, and the `INT` column `delivery_id` holds
/// the id that the delivery insert returned.
pub open spec fn spec_stored_order_row(o: WBmodelView, delivery_id: i32) -> OrderRowView {
    OrderRowView {
        order_uid: o.order_uid,
        track_number: o.track_number,
        entry: o.entry,
        delivery_id,
        payment_id: o.payment.transaction,
        locale: o.locale,
        internal_signature: o.internal_signature,
        customer_id: o.customer_id,
        delivery_service: o.delivery_service,
        shardkey: o.shardkey,
        sm_id: o.sm_id,
        date_created: o.date_created,
        oof_shard: o.oof_shard,
    }
}

// ---------------------------------------------------------------------------
// The statements.
// ---------------------------------------------------------------------------

/// The statement that tells whether `order_uid` is stored already.
pub fn order_exists(order_uid: &String) -> (s: SqlStatement)
    ensures
        s@ == spec_order_exists(order_uid@),
{
    let s = SqlStatement { sql: CHECK_ORDER_EXISTS, params: vec![text_param(order_uid)] };
    assert(s@.params =~= spec_order_exists(order_uid@).params);
    s
}

/// The statement that loads the row of the order `order_uid`.
pub fn select_order(order_uid: &String) -> (s: SqlStatement)
    ensures
        s@ == spec_select_order(order_uid@),
{
    let s = SqlStatement { sql: SELECT_ORDER, params: vec![text_param(order_uid)] };
    assert(s@.params =~= spec_select_order(order_uid@).params);
    s
}

/// The statement that loads the delivery `delivery_id`.
pub fn select_delivery(delivery_id: i32) -> (s: SqlStatement)
    ensures
        s@ == spec_select_delivery(delivery_id),
{
    let s = SqlStatement { sql: SELECT_DELIVERY, params: vec![SqlParam::Int(delivery_id)] };
    assert(s@.params =~= spec_select_delivery(delivery_id).params);
    s
}

/// The statement that loads the payment of `transaction`.
pub fn select_payment(transaction: &String) -> (s: SqlStatement)
    ensures
        s@ == spec_select_payment(transaction@),
{
    let s = SqlStatement { sql: SELECT_PAYMENT, params: vec![text_param(transaction)] };
    assert(s@.params =~= spec_select_payment(transaction@).params);
    s
}

/// The statement that loads the item `chrt_id`.
pub fn select_item(chrt_id: i64) -> (s: SqlStatement)
    ensures
        s@ == spec_select_item(chrt_id),
{
    let s = SqlStatement { sql: SELECT_ITEM, params: vec![SqlParam::BigInt(chrt_id)] };
    assert(s@.params =~= spec_select_item(chrt_id).params);
    s
}

/// The statement that loads the items linked to the order `order_uid`.
pub fn select_items_of_order(order_uid: &String) -> (s: SqlStatement)
    ensures
        s@ == spec_select_items_of_order(order_uid@),
{
    let s = SqlStatement { sql: SELECT_ITEMS_OF_ORDER, params: vec![text_param(order_uid)] };
    assert(s@.params =~= spec_select_items_of_order(order_uid@).params);
    s
}

/// The statement that stores the delivery `d`; the database answers with
/// the id that it gave the new row.
pub fn insert_delivery(d: &Delivery) -> (s: SqlStatement)
    ensures
        s@ == spec_insert_delivery(d@),
{
    let s = SqlStatement {
        sql: INSERT_DELIVERY,
        params: vec![
            text_param(&d.name),
            text_param(&d.phone),
            text_param(&d.zip),
            text_param(&d.city),
            text_param(&d.address),
            text_param(&d.region),
            text_param(&d.email),
        ],
    };
    assert(s@.params =~= spec_insert_delivery(d@).params);
    s
}

/// The statement that stores the payment `p`.
pub fn insert_payment(p: &Payment) -> (s: SqlStatement)
    ensures
        s@ == spec_insert_payment(p@),
{
    let s = SqlStatement {
        sql: INSERT_PAYMENT,
        params: vec![
            text_param(&p.transaction),
            text_param(&p.request_id),
            text_param(&p.currency),
            text_param(&p.provider),
            SqlParam::BigInt(p.amount),
            SqlParam::BigInt(p.payment_dt),
            text_param(&p.bank),
            SqlParam::BigInt(p.delivery_cost),
            SqlParam::BigInt(p.goods_total),
            SqlParam::BigInt(p.custom_fee),
        ],
    };
    assert(s@.params =~= spec_insert_payment(p@).params);
    s
}

/// The statement that stores the row of the order `o`, whose delivery was
/// stored under `delivery_id`; the row refers to the payment by its
/// transaction.
pub fn insert_order(o: &WBmodel, delivery_id: i64) -> (s: SqlStatement)
    ensures
        s@ == spec_insert_order(o@, delivery_id),
{
    let s = SqlStatement {
        sql: INSERT_ORDER,
        params: vec![
            text_param(&o.order_uid),
            text_param(&o.track_number),
            text_param(&o.entry),
            SqlParam::BigInt(delivery_id),
            text_param(&o.payment.transaction),
            text_param(&o.locale),
            text_param(&o.internal_signature),
            text_param(&o.customer_id),
            text_param(&o.delivery_service),
            text_param(&o.shardkey),
            SqlParam::BigInt(o.sm_id),
            text_param(&o.date_created),
            text_param(&o.oof_shard),
        ],
    };
    assert(s@.params =~= spec_insert_order(o@, delivery_id).params);
    s
}

/// The statement that stores the item `i`.
pub fn insert_item(i: &Item) -> (s: SqlStatement)
    ensures
        s@ == spec_insert_item(i@),
{
    let s = SqlStatement {
        sql: INSERT_ITEM,
        params: vec![
            SqlParam::BigInt(i.chrt_id),
            text_param(&i.track_number),
            SqlParam::BigInt(i.price),
            text_param(&i.rid),
            text_param(&i.name),
            SqlParam::BigInt(i.sale),
            text_param(&i.size),
            SqlParam::BigInt(i.total_price),
            SqlParam::BigInt(i.nm_id),
            text_param(&i.brand),
            SqlParam::BigInt(i.status),
        ],
    };
    assert(s@.params =~= spec_insert_item(i@).params);
    s
}

/// The statement that links the item `chrt_id` to the order `order_uid`.
pub fn insert_item_mapping(order_uid: &String, chrt_id: i64) -> (s: SqlStatement)
    ensures
        s@ == spec_insert_item_mapping(order_uid@, chrt_id),
{
    let s = SqlStatement {
        sql: INSERT_ITEM_MAPPING,
        params: vec![text_param(order_uid), SqlParam::BigInt(chrt_id)],
    };
    assert(s@.params =~= spec_insert_item_mapping(order_uid@, chrt_id).params);
    s
}

/// The statements that store the items of the order `order_uid`: for each
/// item, in order, the item and then its link to the order.
pub fn item_statements(order_uid: &String, items: &Vec<Item>) -> (r: Vec<SqlStatement>)
    ensures
        statement_views(r@) == spec_item_statements(order_uid@, item_views(items@)),
        r@.len() == 2 * items@.len(),
{
    let mut r: Vec<SqlStatement> = Vec::new();
    let n = items.len();
    for k in 0..n
        invariant
            n == items@.len(),
            statement_views(r@) == spec_item_statements(order_uid@, item_views(items@.take(k as int))),
            r@.len() == 2 * k,
    {
        let item = &items[k];
        r.push(insert_item(item));
        r.push(insert_item_mapping(order_uid, item.chrt_id));
        proof {
            let prefix = item_views(items@.take(k + 1));
            assert(prefix.drop_last() =~= item_views(items@.take(k as int)));
            assert(prefix.last() == items@[k as int]@);
            assert(statement_views(r@) =~= spec_item_statements(order_uid@, prefix));
        }
    }
    assert(items@.take(n as int) =~= items@);
    r
}

/// The statement `sql`, which binds nothing.
fn plain(sql: &'static str) -> (s: SqlStatement)
    ensures
        s@ == spec_plain(sql),
{
    let s = SqlStatement { sql, params: Vec::new() };
    assert(s@.params =~= Seq::<SqlParamView>::empty());
    s
}

/// The statements that create the tables that are missing: deliveries,
/// payments, items, orders, and the links of items to orders, in that order.
pub fn schema_statements() -> (r: Vec<SqlStatement>)
    ensures
        statement_views(r@) == spec_schema(),
{
    let mut r: Vec<SqlStatement> = Vec::new();
    r.push(plain(CREATE_DELIVERY_TABLE));
    r.push(plain(CREATE_PAYMENT_TABLE));
    r.push(plain(CREATE_ITEMS_TABLE));
    r.push(plain(CREATE_ORDERS_TABLE));
    r.push(plain(CREATE_MAP_ITEMS_TABLE));
    assert(statement_views(r@) =~= spec_schema());
    r
}

/// The order that the stored `row` makes up together with its delivery,
/// its payment and its items.
pub fn assemble_order(row: OrderRow, delivery: Delivery, payment: Payment, items: Vec<Item>) -> (o:
    WBmodel)
    ensures
        o@ == spec_assemble_order(row@, delivery@, payment@, item_views(items@)),
{
    WBmodel {
        order_uid: row.order_uid,
        track_number: row.track_number,
        entry: row.entry,
        delivery,
        payment,
        items,
        locale: row.locale,
        internal_signature: row.internal_signature,
        customer_id: row.customer_id,
        delivery_service: row.delivery_service,
        shardkey: row.shardkey,
        sm_id: row.sm_id,
        date_created: row.date_created,
        oof_shard: row.oof_shard,
    }
}

// ---------------------------------------------------------------------------
// Laws.
// ---------------------------------------------------------------------------

/// The statements that store `n` items are `2 * n`: statement `2 * j`
/// stores item `j`, and statement `2 * j + 1` links item `j`, by its
/// `chrt_id`, to the order `order_uid`.
pub proof fn law_item_statements_layout(order_uid: Seq<char>, items: Seq<ItemView>)
    ensures
        spec_item_statements(order_uid, items).len() == 2 * items.len(),
        forall|j: int|
            #![trigger items[j]]
            0 <= j < items.len() ==> {
                &&& spec_item_statements(order_uid, items)[2 * j] == spec_insert_item(items[j])
                &&& spec_item_statements(order_uid, items)[2 * j + 1] == spec_insert_item_mapping(
                    order_uid,
                    items[j].chrt_id,
                )
            },
    decreases items.len(),
{
    if items.len() > 0 {
        let prefix = items.drop_last();
        law_item_statements_layout(order_uid, prefix);
        let all = spec_item_statements(order_uid, items);
        let before = spec_item_statements(order_uid, prefix);
        assert forall|j: int| #![trigger items[j]] 0 <= j < items.len() implies {
            &&& all[2 * j] == spec_insert_item(items[j])
            &&& all[2 * j + 1] == spec_insert_item_mapping(order_uid, items[j].chrt_id)
        } by {
            assert(all == before + seq![
                spec_insert_item(items.last()),
                spec_insert_item_mapping(order_uid, items.last().chrt_id),
            ]);
            if j < prefix.len() {
                assert(all[2 * j] == before[2 * j]);
                assert(all[2 * j + 1] == before[2 * j + 1]);
                assert(prefix[j] == items[j]);
            }
        }
    }
}

/// The parameters that store a row of the orders table, column by column;
/// the delivery id is bound as a 64-bit integer.
pub open spec fn spec_order_row_params(row: OrderRowView) -> Seq<SqlParamView> {
    seq![
        SqlParamView::Text(row.order_uid),
        SqlParamView::Text(row.track_number),
        SqlParamView::Text(row.entry),
        SqlParamView::BigInt(row.delivery_id as i64),
        SqlParamView::Text(row.payment_id),
        SqlParamView::Text(row.locale),
        SqlParamView::Text(row.internal_signature),
        SqlParamView::Text(row.customer_id),
        SqlParamView::Text(row.delivery_service),
        SqlParamView::Text(row.shardkey),
        SqlParamView::BigInt(row.sm_id),
        SqlParamView::Text(row.date_created),
        SqlParamView::Text(row.oof_shard),
    ]
}

/// What is written for an order is what reads it back. Where the id that
/// the database gave the delivery fits the `INT` column of the orders
/// table: the order's row binds, column by column, the row that is read
/// back; that row, with the delivery, the payment and the items written,
/// makes up the order again; the row finds the payment by the key under
/// which it was written, the delivery by the id it was given, and the
/// items by the order uid, which is what each item was linked to (see
/// [`law_item_statements_layout`]).
pub proof fn law_written_order_reads_back(o: WBmodelView, delivery_id: i64)
    requires
        i32::MIN <= delivery_id <= i32::MAX,
    ensures
        ({
            let row = spec_stored_order_row(o, delivery_id as i32);
            &&& spec_insert_order(o, delivery_id).params == spec_order_row_params(row)
            &&& spec_assemble_order(row, o.delivery, o.payment, o.items) == o
            &&& spec_select_payment(row.payment_id).params == seq![
                spec_insert_payment(o.payment).params[0],
            ]
            &&& spec_select_delivery(row.delivery_id).params == seq![
                SqlParamView::Int(delivery_id as i32),
            ]
            &&& row.delivery_id == delivery_id
            &&& spec_select_items_of_order(row.order_uid).params == seq![
                SqlParamView::Text(o.order_uid),
            ]
        }),
{
    let row = spec_stored_order_row(o, delivery_id as i32);
    assert(row.delivery_id == delivery_id);
    assert(spec_assemble_order(row, o.delivery, o.payment, o.items) == o);
    assert(spec_insert_order(o, delivery_id).params =~= spec_order_row_params(row));
    assert(spec_select_payment(row.payment_id).params =~= seq![
        spec_insert_payment(o.payment).params[0],
    ]);
    assert(spec_select_delivery(row.delivery_id).params =~= seq![SqlParamView::Int(delivery_id as i32)]);
    assert(spec_select_items_of_order(row.order_uid).params =~= seq![SqlParamView::Text(o.order_uid)]);
}


// ---------------------------------------------------------------------------
// Reading back what a statement writes.
// ---------------------------------------------------------------------------

/// The text that a column holds when it was written from `row[k]`, if
/// `row[k]` is text.
pub open spec fn text_at(row: Seq<SqlParamView>, k: int) -> Option<Seq<char>> {
    match row[k] {
        SqlParamView::Text(s) => Some(s),
        _ => None,
    }
}

/// The integer that a column holds when it was written from `row[k]`, if
/// `row[k]` is a 64-bit integer.
pub open spec fn bigint_at(row: Seq<SqlParamView>, k: int) -> Option<i64> {
    match row[k] {
        SqlParamView::BigInt(v) => Some(v),
        _ => None,
    }
}

/// The delivery read back from the row that an insert into the delivery
/// table writes from `row`: its columns, in the order that the statement
/// lists them (name, phone, zip, city, address, region, email), hold the
/// parameters in turn.
pub open spec fn spec_read_delivery(row: Seq<SqlParamView>) -> Option<DeliveryView> {
    if row.len() == 7
        && text_at(row, 0) is Some
        && text_at(row, 1) is Some
        && text_at(row, 2) is Some
        && text_at(row, 3) is Some
        && text_at(row, 4) is Some
        && text_at(row, 5) is Some
        && text_at(row, 6) is Some {
        Some(DeliveryView {
            name: text_at(row, 0)->0,
            phone: text_at(row, 1)->0,
            zip: text_at(row, 2)->0,
            city: text_at(row, 3)->0,
            address: text_at(row, 4)->0,
            region: text_at(row, 5)->0,
            email: text_at(row, 6)->0,
        })
    } else {
        None
    }
}

/// The payment read back from the row that an insert into the payment
/// table writes from `row`: its columns, in the order that the statement
/// lists them (transaction, request_id, currency, provider, amount,
/// payment_dt, bank, delivery_cost, goods_total, custom_fee), hold the
/// parameters in turn.
pub open spec fn spec_read_payment(row: Seq<SqlParamView>) -> Option<PaymentView> {
    if row.len() == 10
        && text_at(row, 0) is Some
        && text_at(row, 1) is Some
        && text_at(row, 2) is Some
        && text_at(row, 3) is Some
        && bigint_at(row, 4) is Some
        && bigint_at(row, 5) is Some
        && text_at(row, 6) is Some
        && bigint_at(row, 7) is Some
        && bigint_at(row, 8) is Some
        && bigint_at(row, 9) is Some {
        Some(PaymentView {
            transaction: text_at(row, 0)->0,
            request_id: text_at(row, 1)->0,
            currency: text_at(row, 2)->0,
            provider: text_at(row, 3)->0,
            amount: bigint_at(row, 4)->0,
            payment_dt: bigint_at(row, 5)->0,
            bank: text_at(row, 6)->0,
            delivery_cost: bigint_at(row, 7)->0,
            goods_total: bigint_at(row, 8)->0,
            custom_fee: bigint_at(row, 9)->0,
        })
    } else {
        None
    }
}

/// The item read back from the row that an insert into the items table
/// writes from `row`: its columns, in the order that the statement lists
/// them (chrt_id, track_number, price, rid, name, sale, size, total_price,
/// nm_id, brand, status), hold the parameters in turn.
pub open spec fn spec_read_item(row: Seq<SqlParamView>) -> Option<ItemView> {
    if row.len() == 11
        && bigint_at(row, 0) is Some
        && text_at(row, 1) is Some
        && bigint_at(row, 2) is Some
        && text_at(row, 3) is Some
        && text_at(row, 4) is Some
        && bigint_at(row, 5) is Some
        && text_at(row, 6) is Some
        && bigint_at(row, 7) is Some
        && bigint_at(row, 8) is Some
        && text_at(row, 9) is Some
        && bigint_at(row, 10) is Some {
        Some(ItemView {
            chrt_id: bigint_at(row, 0)->0,
            track_number: text_at(row, 1)->0,
            price: bigint_at(row, 2)->0,
            rid: text_at(row, 3)->0,
            name: text_at(row, 4)->0,
            sale: bigint_at(row, 5)->0,
            size: text_at(row, 6)->0,
            total_price: bigint_at(row, 7)->0,
            nm_id: bigint_at(row, 8)->0,
            brand: text_at(row, 9)->0,
            status: bigint_at(row, 10)->0,
        })
    } else {
        None
    }
}

/// The row of the orders table read back from the row that an insert into
/// it writes from `row`: its columns, in the order that the statement lists
/// them (order_uid, track_number, entry, delivery_id, payment_id, locale,
/// internal_signature, customer_id, delivery_service, shardkey, sm_id,
/// date_created, oof_shard), hold the parameters in turn; the `INT` column
/// `delivery_id` holds a 64-bit parameter only where it fits in 32 bits.
pub open spec fn spec_read_order_row(row: Seq<SqlParamView>) -> Option<OrderRowView> {
    if row.len() == 13
        && text_at(row, 0) is Some
        && text_at(row, 1) is Some
        && text_at(row, 2) is Some
        && bigint_at(row, 3) is Some
        && i32::MIN <= bigint_at(row, 3)->0 <= i32::MAX
        && text_at(row, 4) is Some
        && text_at(row, 5) is Some
        && text_at(row, 6) is Some
        && text_at(row, 7) is Some
        && text_at(row, 8) is Some
        && text_at(row, 9) is Some
        && bigint_at(row, 10) is Some
        && text_at(row, 11) is Some
        && text_at(row, 12) is Some {
        Some(OrderRowView {
            order_uid: text_at(row, 0)->0,
            track_number: text_at(row, 1)->0,
            entry: text_at(row, 2)->0,
            delivery_id: (bigint_at(row, 3)->0) as i32,
            payment_id: text_at(row, 4)->0,
            locale: text_at(row, 5)->0,
            internal_signature: text_at(row, 6)->0,
            customer_id: text_at(row, 7)->0,
            delivery_service: text_at(row, 8)->0,
            shardkey: text_at(row, 9)->0,
            sm_id: bigint_at(row, 10)->0,
            date_created: text_at(row, 11)->0,
            oof_shard: text_at(row, 12)->0,
        })
    } else {
        None
    }
}

/// The link read back from the row that an insert into the map table
/// writes from `row`: the order uid and the `chrt_id` of the item.
pub open spec fn spec_read_item_link(row: Seq<SqlParamView>) -> Option<(Seq<char>, i64)> {
    if row.len() == 2 && text_at(row, 0) is Some && bigint_at(row, 1) is Some {
        Some((text_at(row, 0)->0, bigint_at(row, 1)->0))
    } else {
        None
    }
}

/// Every column of a stored delivery holds that delivery's field for it:
/// the row that [`insert_delivery`] writes for `d` reads back as `d`.
pub proof fn law_delivery_row_reads_back(d: DeliveryView)
    ensures
        spec_insert_delivery(d).sql == INSERT_DELIVERY@,
        spec_read_delivery(spec_insert_delivery(d).params) == Some(d),
{
}

/// Every column of a stored payment holds that payment's field for it:
/// the row that [`insert_payment`] writes for `p` reads back as `p`.
pub proof fn law_payment_row_reads_back(p: PaymentView)
    ensures
        spec_insert_payment(p).sql == INSERT_PAYMENT@,
        spec_read_payment(spec_insert_payment(p).params) == Some(p),
{
}

/// Every column of a stored item holds that item's field for it: the row
/// that [`insert_item`] writes for `i` reads back as `i`.
pub proof fn law_item_row_reads_back(i: ItemView)
    ensures
        spec_insert_item(i).sql == INSERT_ITEM@,
        spec_read_item(spec_insert_item(i).params) == Some(i),
{
}

/// The link that [`insert_item_mapping`] writes reads back as the order
/// uid and the `chrt_id` it was given.
pub proof fn law_item_link_reads_back(order_uid: Seq<char>, chrt_id: i64)
    ensures
        spec_insert_item_mapping(order_uid, chrt_id).sql == INSERT_ITEM_MAPPING@,
        spec_read_item_link(spec_insert_item_mapping(order_uid, chrt_id).params) == Some(
            (order_uid, chrt_id),
        ),
{
}

/// The row of the orders table that [`insert_order`] writes for `o`
/// reads back, where the delivery id fits the `INT` column, as the order's
/// own fields, that id and the payment's transaction; where the id does
/// not fit, the row cannot be stored.
pub proof fn law_order_row_reads_back(o: WBmodelView, delivery_id: i64)
    ensures
        spec_insert_order(o, delivery_id).sql == INSERT_ORDER@,
        i32::MIN <= delivery_id <= i32::MAX ==> spec_read_order_row(
            spec_insert_order(o, delivery_id).params,
        ) == Some(
            OrderRowView {
                order_uid: o.order_uid,
                track_number: o.track_number,
                entry: o.entry,
                delivery_id: delivery_id as i32,
                payment_id: o.payment.transaction,
                locale: o.locale,
                internal_signature: o.internal_signature,
                customer_id: o.customer_id,
                delivery_service: o.delivery_service,
                shardkey: o.shardkey,
                sm_id: o.sm_id,
                date_created: o.date_created,
                oof_shard: o.oof_shard,
            },
        ),
        !(i32::MIN <= delivery_id <= i32::MAX) ==> spec_read_order_row(
            spec_insert_order(o, delivery_id).params,
        ) is None,
{
}

/// Each lookup binds exactly one parameter, the key under which what it
/// looks for was written: the order's row (and the check whether it is
/// stored) by the first parameter of the order's insert, the orders
/// table's key; the payment by the first parameter of its insert, the
/// payment table's key; an item by the first parameter of its insert; the
/// items of an order by the order uid that each item's link binds first;
/// and a delivery by its id.
pub proof fn law_lookups_bind_exactly_their_key(
    o: WBmodelView,
    delivery_id: i64,
    i: ItemView,
    id: i32,
)
    ensures
        spec_order_exists(o.order_uid) == (SqlStatementView {
            sql: CHECK_ORDER_EXISTS@,
            params: seq![spec_insert_order(o, delivery_id).params[0]],
        }),
        spec_select_order(o.order_uid) == (SqlStatementView {
            sql: SELECT_ORDER@,
            params: seq![spec_insert_order(o, delivery_id).params[0]],
        }),
        spec_select_payment(o.payment.transaction) == (SqlStatementView {
            sql: SELECT_PAYMENT@,
            params: seq![spec_insert_payment(o.payment).params[0]],
        }),
        spec_select_item(i.chrt_id) == (SqlStatementView {
            sql: SELECT_ITEM@,
            params: seq![spec_insert_item(i).params[0]],
        }),
        spec_select_items_of_order(o.order_uid) == (SqlStatementView {
            sql: SELECT_ITEMS_OF_ORDER@,
            params: seq![spec_insert_item_mapping(o.order_uid, i.chrt_id).params[0]],
        }),
        spec_select_delivery(id) == (SqlStatementView {
            sql: SELECT_DELIVERY@,
            params: seq![SqlParamView::Int(id)],
        }),
        spec_insert_order(o, delivery_id).params[0] == SqlParamView::Text(o.order_uid),
        spec_insert_payment(o.payment).params[0] == SqlParamView::Text(o.payment.transaction),
        spec_insert_item(i).params[0] == SqlParamView::BigInt(i.chrt_id),
{
    assert(spec_order_exists(o.order_uid).params =~= seq![spec_insert_order(o, delivery_id).params[0]]);
    assert(spec_select_order(o.order_uid).params =~= seq![spec_insert_order(o, delivery_id).params[0]]);
    assert(spec_select_payment(o.payment.transaction).params =~= seq![
        spec_insert_payment(o.payment).params[0],
    ]);
    assert(spec_select_item(i.chrt_id).params =~= seq![spec_insert_item(i).params[0]]);
    assert(spec_select_items_of_order(o.order_uid).params =~= seq![
        spec_insert_item_mapping(o.order_uid, i.chrt_id).params[0],
    ]);
}

/// The schema creates five tables, binding nothing, each before the tables
/// that refer to it: the delivery and payment tables before the orders
/// table, and the orders and items tables before the table that links
/// items to orders.
pub proof fn law_schema_creates_referenced_tables_first()
    ensures
        spec_schema().len() == 5,
        forall|i: int| 0 <= i < 5 ==> (#[trigger] spec_schema()[i]).params.len() == 0,
        spec_schema()[0].sql == CREATE_DELIVERY_TABLE@,
        spec_schema()[1].sql == CREATE_PAYMENT_TABLE@,
        spec_schema()[2].sql == CREATE_ITEMS_TABLE@,
        spec_schema()[3].sql == CREATE_ORDERS_TABLE@,
        spec_schema()[4].sql == CREATE_MAP_ITEMS_TABLE@,
{
}

} // verus!
