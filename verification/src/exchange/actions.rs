//! The actions a client can ask of the exchange, and the rules an action
//! must meet before it is signed.

use crate::errors::SigningError;
use vstd::prelude::*;

verus! {

/// How long an order stays in the book.
#[derive(Debug, Clone, Copy, PartialEq, Eq, Structural)]
pub enum TimeInForce {
    /// Add liquidity only.
    Alo,
    /// Immediate or cancel.
    Ioc,
    /// Good till cancelled.
    Gtc,
}

/// A limit order.
#[derive(Debug, Clone, PartialEq, Eq)]
pub struct OrderRequest {
    /// The asset's id.
    pub asset: Option<u32>,
    /// Whether the order buys.
    pub is_buy: bool,
    /// The limit price, as a decimal numeral.
    pub limit_px: String,
    /// The size, as a decimal numeral.
    pub sz: String,
    /// Whether the order may only reduce a position.
    pub reduce_only: bool,
    pub tif: TimeInForce,
    /// The id that the client gives the order.
    pub cloid: Option<u128>,
}

/// The cancellation of one order.
#[derive(Debug, Clone, Copy, PartialEq, Eq)]
pub struct CancelRequest {
    /// The asset's id.
    pub asset: Option<u32>,
    /// The id that the exchange gave the order.
    pub oid: u64,
}

/// The replacement of one order by another.
#[derive(Debug, Clone, PartialEq, Eq)]
pub struct ModifyRequest {
    /// The id that the exchange gave the order to replace.
    pub oid: u64,
    /// The order that takes its place.
    pub order: OrderRequest,
}

/// A change of leverage on one asset.
#[derive(Debug, Clone, Copy, PartialEq, Eq)]
pub struct UpdateLeverage {
    /// The asset's id.
    pub asset: Option<u32>,
    /// Whether the margin is shared across positions.
    pub is_cross: bool,
    pub leverage: u32,
}

/// The purchase of additional request weight.
#[derive(Debug, Clone, Copy, PartialEq, Eq)]
pub struct ReserveRequestWeight {
    pub weight: u64,
}

/// An action. Once made, an action is not changed: it is signed and sent as
/// it is.
#[derive(Debug, Clone, PartialEq, Eq)]
pub enum Action {
    PlaceOrder(OrderRequest),
    CancelOrder(CancelRequest),
    ModifyOrder(ModifyRequest),
    UpdateLeverage(UpdateLeverage),
    ReserveRequestWeight(ReserveRequestWeight),
}

/// An order as the contracts see it.
pub struct OrderFields {
    pub asset: Option<u32>,
    pub is_buy: bool,
    pub limit_px: Seq<char>,
    pub sz: Seq<char>,
    pub reduce_only: bool,
    pub tif: TimeInForce,
    pub cloid: Option<u128>,
}

/// An action as the contracts see it: every field by its value.
pub enum ActionFields {
    PlaceOrder { order: OrderFields },
    CancelOrder { asset: Option<u32>, oid: u64 },
    ModifyOrder { oid: u64, order: OrderFields },
    UpdateLeverage { asset: Option<u32>, is_cross: bool, leverage: u32 },
    ReserveRequestWeight { weight: u64 },
}

impl View for OrderRequest {
    type V = OrderFields;

    open spec fn view(&self) -> OrderFields {
        OrderFields {
            asset: self.asset,
            is_buy: self.is_buy,
            limit_px: self.limit_px@,
            sz: self.sz@,
            reduce_only: self.reduce_only,
            tif: self.tif,
            cloid: self.cloid,
        }
    }
}

impl View for Action {
    type V = ActionFields;

    open spec fn view(&self) -> ActionFields {
        match *self {
            Action::PlaceOrder(order) => ActionFields::PlaceOrder { order: order@ },
            Action::CancelOrder(cancel) => ActionFields::CancelOrder {
                asset: cancel.asset,
                oid: cancel.oid,
            },
            Action::ModifyOrder(modify) => ActionFields::ModifyOrder {
                oid: modify.oid,
                order: modify.order@,
            },
            Action::UpdateLeverage(update) => ActionFields::UpdateLeverage {
                asset: update.asset,
                is_cross: update.is_cross,
                leverage: update.leverage,
            },
            Action::ReserveRequestWeight(reserve) => ActionFields::ReserveRequestWeight {
                weight: reserve.weight,
            },
        }
    }
}

/// The byte of the decimal point.
pub const POINT: u8 = 0x2e;

/// Longest numeral that an order may carry, in bytes.
pub const MAX_NUMERAL_LEN: usize = 255;

/// Whether the byte is a decimal digit.
pub open spec fn is_digit(byte: u8) -> bool {
    0x30 <= byte <= 0x39
}

/// Whether the bytes spell a decimal numeral: digits with at most one
/// decimal point among them, a digit first and a digit last, and no more
/// than 255 bytes in all.
pub open spec fn is_numeral(text: Seq<u8>) -> bool {
    &&& 0 < text.len() <= MAX_NUMERAL_LEN
    &&& forall|i: int| 0 <= i < text.len() ==> is_digit(#[trigger] text[i]) || text[i] == POINT
    &&& is_digit(text[0])
    &&& is_digit(text[text.len() - 1])
    &&& forall|i: int, j: int|
        0 <= i < j < text.len() ==> !(#[trigger] text[i] == POINT && #[trigger] text[j] == POINT)
}

/// The bytes of a text.
pub open spec fn bytes_of(text: Seq<char>) -> Seq<u8> {
    vstd::utf8::encode_utf8(text)
}

/// What is wrong with an order, if anything: the first of a missing asset,
/// a price that is no numeral, a size that is no numeral.
pub open spec fn order_fault(order: OrderFields) -> Option<SigningError> {
    if order.asset.is_none() {
        Some(SigningError::MissingAsset)
    } else if !is_numeral(bytes_of(order.limit_px)) {
        Some(SigningError::InvalidPrice)
    } else if !is_numeral(bytes_of(order.sz)) {
        Some(SigningError::InvalidSize)
    } else {
        None
    }
}

/// What is wrong with an action, if anything. An order must name its asset
/// and give price and size as numerals; a cancellation must name its asset;
/// a change of leverage must name its asset and a leverage of at least one;
/// a reservation must ask for a weight of at least one.
pub open spec fn schema_fault(action: ActionFields) -> Option<SigningError> {
    match action {
        ActionFields::PlaceOrder { order } => order_fault(order),
        ActionFields::CancelOrder { asset, oid } => if asset.is_none() {
            Some(SigningError::MissingAsset)
        } else {
            None
        },
        ActionFields::ModifyOrder { oid, order } => order_fault(order),
        ActionFields::UpdateLeverage { asset, is_cross, leverage } => if asset.is_none() {
            Some(SigningError::MissingAsset)
        } else if leverage == 0 {
            Some(SigningError::InvalidLeverage)
        } else {
            None
        },
        ActionFields::ReserveRequestWeight { weight } => if weight == 0 {
            Some(SigningError::InvalidWeight)
        } else {
            None
        },
    }
}

/// Whether the text spells a decimal numeral.
pub fn check_numeral(text: &str) -> (ok: bool)
    ensures
        ok == is_numeral(bytes_of(text@)),
{
    let bytes: &[u8] = text.as_bytes();
    let n: usize = bytes.len();
    if n == 0 || n > MAX_NUMERAL_LEN {
        return false;
    }
    if !(bytes[0] >= 0x30 && bytes[0] <= 0x39) {
        return false;
    }
    if !(bytes[n - 1] >= 0x30 && bytes[n - 1] <= 0x39) {
        return false;
    }
    let mut seen_point: bool = false;
    let ghost mut point_at: int = 0;
    let mut i: usize = 0;
    while i < n
        invariant
            i <= n,
            n == bytes@.len(),
            bytes@ == bytes_of(text@),
            forall|k: int| 0 <= k < i ==> is_digit(#[trigger] bytes@[k]) || bytes@[k] == POINT,
            seen_point ==> 0 <= point_at < i && bytes@[point_at] == POINT,
            !seen_point ==> forall|k: int| 0 <= k < i ==> #[trigger] bytes@[k] != POINT,
            forall|a: int, b: int|
                0 <= a < b < i ==> !(#[trigger] bytes@[a] == POINT && #[trigger] bytes@[b]
                    == POINT),
        decreases n - i,
    {
        let byte: u8 = bytes[i];
        if byte == POINT {
            if seen_point {
                assert(bytes@[point_at] == POINT && bytes@[i as int] == POINT);
                return false;
            }
            seen_point = true;
            proof {
                point_at = i as int;
            }
        } else if !(byte >= 0x30 && byte <= 0x39) {
            assert(!(is_digit(bytes@[i as int]) || bytes@[i as int] == POINT));
            return false;
        }
        i += 1;
    }
    true
}

impl OrderRequest {
    /// Checks the order against the rules for orders.
    pub fn validate(&self) -> (outcome: Result<(), SigningError>)
        ensures
            outcome == match order_fault(self@) {
                Some(fault) => Err::<(), SigningError>(fault),
                None => Ok::<(), SigningError>(()),
            },
    {
        if self.asset.is_none() {
            Err(SigningError::MissingAsset)
        } else if !check_numeral(self.limit_px.as_str()) {
            Err(SigningError::InvalidPrice)
        } else if !check_numeral(self.sz.as_str()) {
            Err(SigningError::InvalidSize)
        } else {
            Ok(())
        }
    }
}

impl Action {
    /// Checks the action against the rules for its kind.
    pub fn validate(&self) -> (outcome: Result<(), SigningError>)
        ensures
            outcome == match schema_fault(self@) {
                Some(fault) => Err::<(), SigningError>(fault),
                None => Ok::<(), SigningError>(()),
            },
    {
        match self {
            Action::PlaceOrder(order) => order.validate(),
            Action::CancelOrder(cancel) => if cancel.asset.is_none() {
                Err(SigningError::MissingAsset)
            } else {
                Ok(())
            },
            Action::ModifyOrder(modify) => modify.order.validate(),
            Action::UpdateLeverage(update) => if update.asset.is_none() {
                Err(SigningError::MissingAsset)
            } else if update.leverage == 0 {
                Err(SigningError::InvalidLeverage)
            } else {
                Ok(())
            },
            Action::ReserveRequestWeight(reserve) => if reserve.weight == 0 {
                Err(SigningError::InvalidWeight)
            } else {
                Ok(())
            },
        }
    }
}

} // verus!
