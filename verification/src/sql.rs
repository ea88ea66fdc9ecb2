use vstd::prelude::*;

verus! {

/// A value bound to a placeholder (`$1`, `$2`, ...) of a statement.
#[derive(Debug, Clone, PartialEq, Eq)]
pub enum SqlParam {
    /// A text value.
    Text(String),
    /// A 32-bit integer value.
    Int(i32),
    /// A 64-bit integer value.
    BigInt(i64),
}

/// The mathematical value of a [`SqlParam`].
pub enum SqlParamView {
    Text(Seq<char>),
    Int(i32),
    BigInt(i64),
}

impl View for SqlParam {
    type V = SqlParamView;

    open spec fn view(&self) -> SqlParamView {
        match self {
            SqlParam::Text(s) => SqlParamView::Text(s@),
            SqlParam::Int(v) => SqlParamView::Int(*v),
            SqlParam::BigInt(v) => SqlParamView::BigInt(*v),
        }
    }
}

/// A statement for the database: its text and the values of its
/// placeholders, `params[0]` for `$1` and so on.
#[derive(Debug, Clone, PartialEq, Eq)]
pub struct SqlStatement {
    pub sql: &'static str,
    pub params: Vec<SqlParam>,
}

/// The mathematical value of a [`SqlStatement`].
pub struct SqlStatementView {
    pub sql: Seq<char>,
    pub params: Seq<SqlParamView>,
}

/// The views of a list of parameters, in order.
pub open spec fn param_views(params: Seq<SqlParam>) -> Seq<SqlParamView> {
    params.map_values(|p: SqlParam| p@)
}

impl View for SqlStatement {
    type V = SqlStatementView;

    open spec fn view(&self) -> SqlStatementView {
        SqlStatementView { sql: self.sql@, params: param_views(self.params@) }
    }
}

/// The views of a list of statements, in order.
pub open spec fn statement_views(statements: Seq<SqlStatement>) -> Seq<SqlStatementView> {
    statements.map_values(|s: SqlStatement| s@)
}

impl SqlParam {
    /// A copy of this parameter.
    pub fn duplicate(&self) -> (r: SqlParam)
        ensures
            r@ == self@,
    {
        match self {
            SqlParam::Text(s) => SqlParam::Text(s.clone()),
            SqlParam::Int(v) => SqlParam::Int(*v),
            SqlParam::BigInt(v) => SqlParam::BigInt(*v),
        }
    }
}

impl SqlStatement {
    /// A copy of this statement.
    pub fn duplicate(&self) -> (r: SqlStatement)
        ensures
            r@ == self@,
    {
        let mut params: Vec<SqlParam> = Vec::new();
        let n = self.params.len();
        for k in 0..n
            invariant
                n == self.params@.len(),
                params@.len() == k,
                param_views(params@) =~= param_views(self.params@.take(k as int)),
        {
            let ghost before = params@;
            params.push(self.params[k].duplicate());
            proof {
                assert forall|i: int| 0 <= i < k implies #[trigger] params@[i]@ == self.params@[i]@ by {
                    assert(params@[i] == before[i]);
                    assert(param_views(before)[i] == param_views(self.params@.take(k as int))[i]);
                }
                assert(param_views(params@) =~= param_views(self.params@.take(k + 1)));
            }
        }
        assert(self.params@.take(n as int) =~= self.params@);
        SqlStatement { sql: self.sql, params }
    }
}

/// A text parameter holding a copy of `s`.
pub fn text_param(s: &String) -> (p: SqlParam)
    ensures
        p@ == SqlParamView::Text(s@),
{
    SqlParam::Text(s.clone())
}

/// Loads the stored row of an order by its uid.
pub const SELECT_ORDER: &'static str = "SELECT * FROM orders WHERE order_uid = $1";

/// Loads a delivery by its id.
pub const SELECT_DELIVERY: &'static str = "\n            SELECT * FROM delivery WHERE delivery_id = $1;\n        ";

/// Loads a payment by its transaction.
pub const SELECT_PAYMENT: &'static str = "\n            SELECT * FROM payment WHERE transaction = $1;\n        ";

/// Loads one item by its `chrt_id`.
pub const SELECT_ITEM: &'static str = "\n            SELECT * FROM items WHERE chrt_id = $1;\n        ";

/// Loads the items that the map table links to an order uid.
pub const SELECT_ITEMS_OF_ORDER: &'static str = "\n            SELECT * FROM items \n            WHERE chrt_id in \n                (SELECT map_chrt_id FROM map_items WHERE map_order_uid = $1);\n        ";

/// Stores a delivery and returns the id that the database gave it.
pub const INSERT_DELIVERY: &'static str = "\n            INSERT INTO delivery (name, phone, zip, city, address, region, email) \n                VALUES ($1, $2, $3, $4, $5, $6, $7)\n            RETURNING delivery_id;\n        ";

/// Stores a payment.
pub const INSERT_PAYMENT: &'static str = "\n        INSERT INTO payment (transaction, request_id, currency, provider, amount, payment_dt, bank, delivery_cost, goods_total, custom_fee)\n            VALUES ($1, $2, $3, $4, $5, $6, $7, $8, $9, $10)\n        ";

/// Stores the row of an order.
pub const INSERT_ORDER: &'static str = "\n        INSERT INTO orders (order_uid, track_number, entry, delivery_id, payment_id, locale, internal_signature, customer_id, delivery_service, shardkey, sm_id, date_created, oof_shard)\n            VALUES ($1, $2, $3, $4, $5, $6, $7, $8, $9, $10, $11, $12, $13)\n        ";

/// Stores an item.
pub const INSERT_ITEM: &'static str = "\n            INSERT INTO items (chrt_id, track_number, price, rid, name, sale, size, total_price, nm_id, brand, status)\n                VALUES ($1, $2, $3, $4, $5, $6, $7, $8, $9, $10, $11);\n        ";

/// Links an item to an order.
pub const INSERT_ITEM_MAPPING: &'static str = "\n        INSERT INTO map_items (map_order_uid, map_chrt_id)\n            VALUES ($1, $2);\n        ";

/// Tells whether an order uid is stored already.
pub const CHECK_ORDER_EXISTS: &'static str = "\n            SELECT order_uid FROM orders WHERE order_uid = $1;\n        ";

/// Creates the delivery table where it is missing.
pub const CREATE_DELIVERY_TABLE: &'static str = "\n        CREATE TABLE IF NOT EXISTS delivery (\n            delivery_id BIGSERIAL PRIMARY KEY,\n            name VARCHAR(255),\n            phone VARCHAR(255),\n            zip VARCHAR(255),\n            city VARCHAR(255),\n            address VARCHAR(255),\n            region VARCHAR(255),\n            email VARCHAR(255)\n        );\n        ";

/// Creates the payment table where it is missing.
pub const CREATE_PAYMENT_TABLE: &'static str = "\n        CREATE TABLE IF NOT EXISTS payment (\n            transaction VARCHAR(255) PRIMARY KEY,\n            request_id VARCHAR(255),\n            currency VARCHAR(255),\n            provider VARCHAR(255),\n            amount INTEGER,\n            payment_dt BIGINT,\n            bank VARCHAR(255),\n            delivery_cost INTEGER,\n            goods_total INTEGER,\n            custom_fee INTEGER\n        );\n        ";

/// Creates the items table where it is missing.
pub const CREATE_ITEMS_TABLE: &'static str = "\n        CREATE TABLE IF NOT EXISTS items (\n            chrt_id BIGINT PRIMARY KEY,\n            track_number VARCHAR(255),\n            price INTEGER,\n            rid VARCHAR(255),\n            name VARCHAR(255),\n            sale INTEGER,\n            size VARCHAR(255),\n            total_price INTEGER,\n            nm_id BIGINT,\n            brand VARCHAR(255),\n            status INTEGER\n        );\n        ";

/// Creates the orders table where it is missing.
pub const CREATE_ORDERS_TABLE: &'static str = "\n        CREATE TABLE IF NOT EXISTS orders (\n            order_uid VARCHAR(255) PRIMARY KEY,\n            track_number VARCHAR(255),\n            entry VARCHAR(255),\n            delivery_id INT REFERENCES delivery ON DELETE SET NULL,\n            payment_id VARCHAR(255) REFERENCES payment ON DELETE SET NULL,\n            locale VARCHAR(255),\n            internal_signature VARCHAR(255),\n            customer_id VARCHAR(255),\n            delivery_service VARCHAR(255),\n            shardkey VARCHAR(255),\n            sm_id BIGINT,\n            date_created VARCHAR(255),\n            oof_shard VARCHAR(255)\n        );\n        ";

/// Creates the table that links items to orders where it is missing.
pub const CREATE_MAP_ITEMS_TABLE: &'static str = "\n        CREATE TABLE IF NOT EXISTS map_items (\n            map_order_uid VARCHAR(255) REFERENCES orders ON DELETE CASCADE,\n            map_chrt_id BIGINT REFERENCES items ON DELETE CASCADE,\n            PRIMARY KEY(map_order_uid, map_chrt_id)\n        );\n        ";

} // verus!
