//! The description of a market in the common schema.

use vstd::prelude::*;
use crate::decimal::Decimal;
use crate::json::{json_of, Json};
use crate::message::MarketType;

verus! {

/// Trading fees as fractions of the traded amount.
#[derive(Clone, Copy, Debug, PartialEq, Eq, Structural)]
pub struct Fees {
    pub maker: Decimal,
    pub taker: Decimal,
}

/// How many fractional digits prices and quantities carry.
#[derive(Clone, Copy, Debug, PartialEq, Eq, Structural)]
pub struct Precision {
    pub price: i64,
    pub base: i64,
    pub quote: Option<i64>,
}

/// The smallest order, in base and in quote currency.
#[derive(Clone, Copy, Debug, PartialEq, Eq, Structural)]
pub struct MinQuantity {
    pub base: Option<Decimal>,
    pub quote: Option<Decimal>,
}

/// A market in the common schema. `info` is the exchange's own description.
pub struct Market {
    pub exchange: String,
    pub market_type: MarketType,
    pub symbol: String,
    pub pair: String,
    pub base: String,
    pub quote: String,
    pub settle: String,
    pub base_id: String,
    pub quote_id: String,
    pub active: bool,
    pub margin: bool,
    pub fees: Fees,
    pub precision: Precision,
    pub min_quantity: MinQuantity,
    pub contract_value: Option<Decimal>,
    pub delivery_date: Option<u64>,
    pub info: serde_json::Value,
}

/// What a `Market` holds.
pub struct MarketView {
    pub exchange: Seq<char>,
    pub market_type: MarketType,
    pub symbol: Seq<char>,
    pub pair: Seq<char>,
    pub base: Seq<char>,
    pub quote: Seq<char>,
    pub settle: Seq<char>,
    pub base_id: Seq<char>,
    pub quote_id: Seq<char>,
    pub active: bool,
    pub margin: bool,
    pub fees: Fees,
    pub precision: Precision,
    pub min_quantity: MinQuantity,
    pub contract_value: Option<Decimal>,
    pub delivery_date: Option<u64>,
    pub info: Json,
}

impl View for Market {
    type V = MarketView;

    open spec fn view(&self) -> MarketView {
        MarketView {
            exchange: self.exchange@,
            market_type: self.market_type,
            symbol: self.symbol@,
            pair: self.pair@,
            base: self.base@,
            quote: self.quote@,
            settle: self.settle@,
            base_id: self.base_id@,
            quote_id: self.quote_id@,
            active: self.active,
            margin: self.margin,
            fees: self.fees,
            precision: self.precision,
            min_quantity: self.min_quantity,
            contract_value: self.contract_value,
            delivery_date: self.delivery_date,
            info: json_of(self.info),
        }
    }
}

/// The views of a list of markets.
pub open spec fn market_views(markets: Seq<Market>) -> Seq<MarketView> {
    Seq::new(markets.len(), |i: int| markets[i]@)
}

/// The number of fractional digits that are left of `mantissa / 10^scale`
/// once trailing zeros are dropped.
pub open spec fn precision_of(mantissa: nat, scale: nat) -> nat
    decreases scale,
{
    if scale > 0 && mantissa % 10 == 0 {
        precision_of(mantissa / 10, (scale - 1) as nat)
    } else {
        scale
    }
}

/// The magnitude of an integer.
pub open spec fn magnitude(n: int) -> nat {
    if n < 0 {
        (-n) as nat
    } else {
        n as nat
    }
}

/// The number of fractional digits that a step size asks for: those of the
/// number without its trailing zeros.
pub fn calc_precision(step: Decimal) -> (r: i64)
    requires
        step.is_wire(),
    ensures
        r == precision_of(magnitude(step.mantissa as int), step.scale as nat),
        0 <= r <= step.scale,
{
    let mut m: u128 = if step.mantissa < 0 {
        (-step.mantissa) as u128
    } else {
        step.mantissa as u128
    };
    let mut scale: u32 = step.scale;
    while scale > 0 && m % 10 == 0
        invariant
            scale <= step.scale,
            precision_of(m as nat, scale as nat) == precision_of(
                magnitude(step.mantissa as int),
                step.scale as nat,
            ),
        decreases scale,
    {
        m = m / 10;
        scale = scale - 1;
    }
    scale as i64
}

} // verus!
