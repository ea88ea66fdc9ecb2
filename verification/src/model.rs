use vstd::prelude::*;

verus! {

/// Where an order is delivered to.
#[derive(Debug, Clone, PartialEq, Eq)]
pub struct Delivery {
    pub name: String,
    pub phone: String,
    pub zip: String,
    pub city: String,
    pub address: String,
    pub region: String,
    pub email: String,
}

/// The mathematical value of a [`Delivery`].
pub struct DeliveryView {
    pub name: Seq<char>,
    pub phone: Seq<char>,
    pub zip: Seq<char>,
    pub city: Seq<char>,
    pub address: Seq<char>,
    pub region: Seq<char>,
    pub email: Seq<char>,
}

impl View for Delivery {
    type V = DeliveryView;

    open spec fn view(&self) -> DeliveryView {
        DeliveryView {
            name: self.name@,
            phone: self.phone@,
            zip: self.zip@,
            city: self.city@,
            address: self.address@,
            region: self.region@,
            email: self.email@,
        }
    }
}

/// How an order was paid.
#[derive(Debug, Clone, PartialEq, Eq)]
pub struct Payment {
    pub transaction: String,
    pub request_id: String,
    pub currency: String,
    pub provider: String,
    pub amount: i64,
    pub payment_dt: i64,
    pub bank: String,
    pub delivery_cost: i64,
    pub goods_total: i64,
    pub custom_fee: i64,
}

/// The mathematical value of a [`Payment`].
pub struct PaymentView {
    pub transaction: Seq<char>,
    pub request_id: Seq<char>,
    pub currency: Seq<char>,
    pub provider: Seq<char>,
    pub amount: i64,
    pub payment_dt: i64,
    pub bank: Seq<char>,
    pub delivery_cost: i64,
    pub goods_total: i64,
    pub custom_fee: i64,
}

impl View for Payment {
    type V = PaymentView;

    open spec fn view(&self) -> PaymentView {
        PaymentView {
            transaction: self.transaction@,
            request_id: self.request_id@,
            currency: self.currency@,
            provider: self.provider@,
            amount: self.amount,
            payment_dt: self.payment_dt,
            bank: self.bank@,
            delivery_cost: self.delivery_cost,
            goods_total: self.goods_total,
            custom_fee: self.custom_fee,
        }
    }
}

/// One position of an order.
#[derive(Debug, Clone, PartialEq, Eq)]
pub struct Item {
    pub chrt_id: i64,
    pub track_number: String,
    pub price: i64,
    pub rid: String,
    pub name: String,
    pub sale: i64,
    pub size: String,
    pub total_price: i64,
    pub nm_id: i64,
    pub brand: String,
    pub status: i64,
}

/// The mathematical value of an [`Item`].
pub struct ItemView {
    pub chrt_id: i64,
    pub track_number: Seq<char>,
    pub price: i64,
    pub rid: Seq<char>,
    pub name: Seq<char>,
    pub sale: i64,
    pub size: Seq<char>,
    pub total_price: i64,
    pub nm_id: i64,
    pub brand: Seq<char>,
    pub status: i64,
}

impl View for Item {
    type V = ItemView;

    open spec fn view(&self) -> ItemView {
        ItemView {
            chrt_id: self.chrt_id,
            track_number: self.track_number@,
            price: self.price,
            rid: self.rid@,
            name: self.name@,
            sale: self.sale,
            size: self.size@,
            total_price: self.total_price,
            nm_id: self.nm_id,
            brand: self.brand@,
            status: self.status,
        }
    }
}

/// The views of a list of items, in order.
pub open spec fn item_views(items: Seq<Item>) -> Seq<ItemView> {
    items.map_values(|i: Item| i@)
}

/// A whole order as the service receives and returns it.
#[derive(Debug, Clone, PartialEq, Eq)]
pub struct WBmodel {
    pub order_uid: String,
    pub track_number: String,
    pub entry: String,
    pub delivery: Delivery,
    pub payment: Payment,
    pub items: Vec<Item>,
    pub locale: String,
    pub internal_signature: String,
    pub customer_id: String,
    pub delivery_service: String,
    pub shardkey: String,
    pub sm_id: i64,
    pub date_created: String,
    pub oof_shard: String,
}

/// The mathematical value of a [`WBmodel`].
pub struct WBmodelView {
    pub order_uid: Seq<char>,
    pub track_number: Seq<char>,
    pub entry: Seq<char>,
    pub delivery: DeliveryView,
    pub payment: PaymentView,
    pub items: Seq<ItemView>,
    pub locale: Seq<char>,
    pub internal_signature: Seq<char>,
    pub customer_id: Seq<char>,
    pub delivery_service: Seq<char>,
    pub shardkey: Seq<char>,
    pub sm_id: i64,
    pub date_created: Seq<char>,
    pub oof_shard: Seq<char>,
}

impl View for WBmodel {
    type V = WBmodelView;

    open spec fn view(&self) -> WBmodelView {
        WBmodelView {
            order_uid: self.order_uid@,
            track_number: self.track_number@,
            entry: self.entry@,
            delivery: self.delivery@,
            payment: self.payment@,
            items: item_views(self.items@),
            locale: self.locale@,
            internal_signature: self.internal_signature@,
            customer_id: self.customer_id@,
            delivery_service: self.delivery_service@,
            shardkey: self.shardkey@,
            sm_id: self.sm_id,
            date_created: self.date_created@,
            oof_shard: self.oof_shard@,
        }
    }
}

} // verus!
