//! Placing an order: read and size it, authenticate, build it, sign it,
//! post it. Inputs that do not read end the attempt before anything is
//! asked of the matching engine. Each later step needs the one before it,
//! and the first failure ends the attempt, so that no half-built or
//! unsigned order is ever posted.
//!
//! As with approvals, the pipeline only decides. The caller talks to the
//! matching engine and reports back.

use crate::amount::{
    compute_order_amount, normalized, parse_side, side_of, OrderAmount, OrderAmountModel,
    OrderError, Side,
};
use crate::decimal::{parsed_decimal, Decimal, DecimalModel};
use crate::text::text_of;
use vstd::prelude::*;

verus! {

/// How long an order may rest.
#[derive(Clone, Copy, Debug, PartialEq, Eq, Structural)]
pub enum OrderType {
    /// Filled at once and in full, or not at all.
    FillOrKill,
    /// Immediate or cancel: filled at once as far as possible, the rest
    /// dropped.
    FillAndKill,
    GoodTilCancelled,
    GoodTilDate,
}

/// How the matching engine is to read the signer's signatures.
#[derive(Clone, Copy, Debug, PartialEq, Eq, Structural)]
pub enum SignatureScheme {
    Eoa,
    Proxy,
    Safe,
}

/// A sized market order, ready to be built.
#[derive(Clone, Debug)]
pub struct OrderRequest {
    pub token_id: String,
    pub side: Side,
    pub amount: OrderAmount,
    pub order_type: OrderType,
}

pub struct OrderRequestModel {
    pub token_id: Seq<char>,
    pub side: Side,
    pub amount: OrderAmountModel,
    pub order_type: OrderType,
}

impl View for OrderRequest {
    type V = OrderRequestModel;

    open spec fn view(&self) -> OrderRequestModel {
        OrderRequestModel {
            token_id: self.token_id@,
            side: self.side,
            amount: self.amount@,
            order_type: self.order_type,
        }
    }
}

/// The price that comes with an order: none, a number, or text that is no
/// number.
pub open spec fn priced(price: Option<Seq<char>>) -> Result<Option<DecimalModel>, OrderError> {
    match price {
        None => Ok(None),
        Some(text) => match parsed_decimal(text) {
            Some(p) => Ok(Some(p)),
            None => Err(OrderError::InvalidPrice),
        },
    }
}

/// The order that the four inputs ask for. The side is read first, then the
/// amount, then the price, and the first that fails decides the error. Every
/// order is an immediate-or-cancel market order; a price only bears on its
/// amount.
pub open spec fn prepared(
    token_id: Seq<char>,
    side: Seq<char>,
    amount: Seq<char>,
    price: Option<Seq<char>>,
) -> Result<OrderRequestModel, OrderError> {
    match side_of(side) {
        Err(e) => Err(e),
        Ok(s) => match parsed_decimal(amount) {
            None => Err(OrderError::InvalidAmount),
            Some(a) => match priced(price) {
                Err(e) => Err(e),
                Ok(p) => match normalized(s, a, p) {
                    Err(e) => Err(e),
                    Ok(sized) => Ok(
                        OrderRequestModel {
                            token_id,
                            side: s,
                            amount: sized,
                            order_type: OrderType::FillAndKill,
                        },
                    ),
                },
            },
        },
    }
}

pub open spec fn request_of(r: Result<OrderRequest, OrderError>) -> Result<
    OrderRequestModel,
    OrderError,
> {
    match r {
        Ok(q) => Ok(q@),
        Err(e) => Err(e),
    }
}

/// Reads the inputs of an order and sizes it.
pub fn prepare_order(token_id: String, side: &str, amount: &str, price: Option<String>) -> (r:
    Result<OrderRequest, OrderError>)
    ensures
        request_of(r) == prepared(token_id@, side@, amount@, text_of(price)),
{
    let side = match parse_side(side) {
        Ok(s) => s,
        Err(e) => {
            return Err(e);
        },
    };
    let amount = match Decimal::parse(amount) {
        Some(a) => a,
        None => {
            return Err(OrderError::InvalidAmount);
        },
    };
    let price = match price {
        None => None,
        Some(text) => match Decimal::parse(text.as_str()) {
            Some(p) => Some(p),
            None => {
                return Err(OrderError::InvalidPrice);
            },
        },
    };
    match compute_order_amount(side, amount, price) {
        Ok(sized) => Ok(
            OrderRequest { token_id, side, amount: sized, order_type: OrderType::FillAndKill },
        ),
        Err(e) => Err(e),
    }
}

/// What the caller is to do next for an order.
#[derive(Clone, Copy, Debug, PartialEq, Eq, Structural)]
pub enum OrderAction {
    /// Authenticate the signer with the matching engine.
    Authenticate(SignatureScheme),
    /// Build the market order that the pipeline holds.
    BuildMarketOrder,
    /// Sign the built order.
    Sign,
    /// Post the signed order.
    Post,
}

/// What came of an order action.
#[derive(Debug, PartialEq, Eq)]
pub enum OrderEvent {
    Authenticated,
    Built,
    Signed,
    /// The engine took the order and answered with this receipt.
    Posted(String),
    /// The action failed, with this detail.
    Refused(String),
}

pub enum OrderEventModel {
    Authenticated,
    Built,
    Signed,
    Posted(Seq<char>),
    Refused(Seq<char>),
}

impl View for OrderEvent {
    type V = OrderEventModel;

    open spec fn view(&self) -> OrderEventModel {
        match *self {
            OrderEvent::Authenticated => OrderEventModel::Authenticated,
            OrderEvent::Built => OrderEventModel::Built,
            OrderEvent::Signed => OrderEventModel::Signed,
            OrderEvent::Posted(receipt) => OrderEventModel::Posted(receipt@),
            OrderEvent::Refused(detail) => OrderEventModel::Refused(detail@),
        }
    }
}

/// Where the placing of an order stands.
#[derive(Debug)]
pub enum OrderState {
    /// The order is read and sized, and the signer is being authenticated.
    Authenticating { request: OrderRequest },
    /// The order is being built.
    Building { request: OrderRequest },
    /// The built order is being signed.
    Signing,
    /// The signed order is being posted.
    Submitting,
    /// The engine took the order; this is its answer, word for word.
    Done { receipt: String },
    /// The attempt ended with this error.
    Failed { error: OrderError },
}

pub enum OrderStateModel {
    Authenticating { request: OrderRequestModel },
    Building { request: OrderRequestModel },
    Signing,
    Submitting,
    Done { receipt: Seq<char> },
    Failed { error: OrderError },
}

impl View for OrderState {
    type V = OrderStateModel;

    open spec fn view(&self) -> OrderStateModel {
        match *self {
            OrderState::Authenticating { request } => OrderStateModel::Authenticating {
                request: request@,
            },
            OrderState::Building { request } => OrderStateModel::Building { request: request@ },
            OrderState::Signing => OrderStateModel::Signing,
            OrderState::Submitting => OrderStateModel::Submitting,
            OrderState::Done { receipt } => OrderStateModel::Done { receipt: receipt@ },
            OrderState::Failed { error } => OrderStateModel::Failed { error },
        }
    }
}

impl OrderStateModel {
    /// Where the placing of an order begins. The inputs are read and the
    /// order is sized at once: where that fails the attempt is over before
    /// any action is due, and only an order in good form asks for the signer
    /// to be authenticated.
    pub open spec fn begin(
        token_id: Seq<char>,
        side: Seq<char>,
        amount: Seq<char>,
        price: Option<Seq<char>>,
    ) -> OrderStateModel {
        match prepared(token_id, side, amount, price) {
            Ok(request) => OrderStateModel::Authenticating { request },
            Err(error) => OrderStateModel::Failed { error },
        }
    }

    /// The attempt is over, one way or the other.
    pub open spec fn ended(self) -> bool {
        self is Done || self is Failed
    }

    /// The action that is due.
    pub open spec fn action(self) -> Option<OrderAction> {
        match self {
            OrderStateModel::Authenticating { .. } => Some(
                OrderAction::Authenticate(SignatureScheme::Proxy),
            ),
            OrderStateModel::Building { .. } => Some(OrderAction::BuildMarketOrder),
            OrderStateModel::Signing => Some(OrderAction::Sign),
            OrderStateModel::Submitting => Some(OrderAction::Post),
            OrderStateModel::Done { .. } => None,
            OrderStateModel::Failed { .. } => None,
        }
    }

    /// The state after an event. The event that reports the success of the
    /// action due moves the attempt on; a refusal ends it with the error of
    /// the step that failed; any other event changes nothing.
    pub open spec fn after(self, event: OrderEventModel) -> OrderStateModel {
        match self {
            OrderStateModel::Authenticating { request } => match event {
                OrderEventModel::Authenticated => OrderStateModel::Building { request },
                OrderEventModel::Refused(_) => OrderStateModel::Failed {
                    error: OrderError::AuthenticationError,
                },
                _ => self,
            },
            OrderStateModel::Building { .. } => match event {
                OrderEventModel::Built => OrderStateModel::Signing,
                OrderEventModel::Refused(_) => OrderStateModel::Failed {
                    error: OrderError::OrderBuildError,
                },
                _ => self,
            },
            OrderStateModel::Signing => match event {
                OrderEventModel::Signed => OrderStateModel::Submitting,
                OrderEventModel::Refused(_) => OrderStateModel::Failed {
                    error: OrderError::OrderBuildError,
                },
                _ => self,
            },
            OrderStateModel::Submitting => match event {
                OrderEventModel::Posted(receipt) => OrderStateModel::Done { receipt },
                OrderEventModel::Refused(_) => OrderStateModel::Failed {
                    error: OrderError::SubmissionError,
                },
                _ => self,
            },
            OrderStateModel::Done { .. } => self,
            OrderStateModel::Failed { .. } => self,
        }
    }
}

impl OrderState {
    /// Begins the placing of an order from its four inputs as the user gave
    /// them. Inputs that do not read, or that size to no valid amount, fail
    /// here, with nothing asked of anyone.
    pub fn start(token_id: String, side: String, amount: String, price: Option<String>) -> (r:
        OrderState)
        ensures
            r@ == OrderStateModel::begin(token_id@, side@, amount@, text_of(price)),
    {
        match prepare_order(token_id, side.as_str(), amount.as_str(), price) {
            Ok(request) => OrderState::Authenticating { request },
            Err(error) => OrderState::Failed { error },
        }
    }

    /// The action that the caller is to perform now, or `None` when the
    /// attempt is over.
    pub fn next_action(&self) -> (r: Option<OrderAction>)
        ensures
            r == self@.action(),
            r is None <==> self@.ended(),
    {
        match self {
            OrderState::Authenticating { .. } => Some(
                OrderAction::Authenticate(SignatureScheme::Proxy),
            ),
            OrderState::Building { .. } => Some(OrderAction::BuildMarketOrder),
            OrderState::Signing => Some(OrderAction::Sign),
            OrderState::Submitting => Some(OrderAction::Post),
            OrderState::Done { .. } => None,
            OrderState::Failed { .. } => None,
        }
    }

    /// The order to build, from the time it is sized until it is built.
    pub fn request(&self) -> (r: Option<&OrderRequest>)
        ensures
            match r {
                Some(q) => self@ == (OrderStateModel::Authenticating { request: q@ }) || self@
                    == (OrderStateModel::Building { request: q@ }),
                None => self@ !is Authenticating && self@ !is Building,
            },
    {
        match self {
            OrderState::Authenticating { request } => Some(request),
            OrderState::Building { request } => Some(request),
            _ => None,
        }
    }

    /// The engine's answer, once the order is placed.
    pub fn receipt(&self) -> (r: Option<&String>)
        ensures
            match r {
                Some(text) => self@ == (OrderStateModel::Done { receipt: text@ }),
                None => self@ !is Done,
            },
    {
        match self {
            OrderState::Done { receipt } => Some(receipt),
            _ => None,
        }
    }

    /// The error, once the attempt has failed.
    pub fn error(&self) -> (r: Option<OrderError>)
        ensures
            match r {
                Some(error) => self@ == (OrderStateModel::Failed { error }),
                None => self@ !is Failed,
            },
    {
        match self {
            OrderState::Failed { error } => Some(*error),
            _ => None,
        }
    }

    /// Takes in what came of the action that was due.
    pub fn step(self, event: OrderEvent) -> (r: OrderState)
        ensures
            r@ == self@.after(event@),
    {
        match self {
            OrderState::Authenticating { request } => match event {
                OrderEvent::Authenticated => OrderState::Building { request },
                OrderEvent::Refused(_) => OrderState::Failed {
                    error: OrderError::AuthenticationError,
                },
                _ => OrderState::Authenticating { request },
            },
            OrderState::Building { request } => match event {
                OrderEvent::Built => OrderState::Signing,
                OrderEvent::Refused(_) => OrderState::Failed { error: OrderError::OrderBuildError },
                _ => OrderState::Building { request },
            },
            OrderState::Signing => match event {
                OrderEvent::Signed => OrderState::Submitting,
                OrderEvent::Refused(_) => OrderState::Failed { error: OrderError::OrderBuildError },
                _ => OrderState::Signing,
            },
            OrderState::Submitting => match event {
                OrderEvent::Posted(receipt) => OrderState::Done { receipt },
                OrderEvent::Refused(_) => OrderState::Failed { error: OrderError::SubmissionError },
                _ => OrderState::Submitting,
            },
            OrderState::Done { receipt } => OrderState::Done { receipt },
            OrderState::Failed { error } => OrderState::Failed { error },
        }
    }
}

/// Inputs that do not read are reported at once: the attempt is over
/// where it begins, with the error of the first input that fails, and no
/// action is due. The signer is authenticated only for an order in good
/// form.
pub proof fn bad_inputs_ask_nothing(
    token_id: Seq<char>,
    side: Seq<char>,
    amount: Seq<char>,
    price: Option<Seq<char>>,
)
    ensures
        ({
            let state = OrderStateModel::begin(token_id, side, amount, price);
            &&& side_of(side) is Err ==> state == (OrderStateModel::Failed {
                error: OrderError::InvalidSide,
            })
            &&& side_of(side) is Ok && parsed_decimal(amount) is None ==> state
                == (OrderStateModel::Failed { error: OrderError::InvalidAmount })
            &&& side_of(side) is Ok && parsed_decimal(amount) is Some && priced(price) is Err
                ==> state == (OrderStateModel::Failed { error: OrderError::InvalidPrice })
            &&& prepared(token_id, side, amount, price) is Err <==> state is Failed
            &&& state is Failed ==> state.action() is None
            &&& state.action() == Some(OrderAction::Authenticate(SignatureScheme::Proxy))
                <==> prepared(token_id, side, amount, price) is Ok
            &&& state is Failed || state is Authenticating
        }),
{
}

/// An order is posted only after it was signed, signed only after it was
/// built, and built only after the signer was authenticated.
pub proof fn no_step_is_skipped(state: OrderStateModel, event: OrderEventModel)
    ensures
        state.after(event) is Submitting ==> state is Submitting || (state is Signing
            && event is Signed),
        state.after(event) is Signing ==> state is Signing || (state is Building && event is Built),
        state.after(event) is Building ==> state is Building || (state is Authenticating && event
            is Authenticated),
        state.after(event) is Authenticating ==> state is Authenticating,
        state.after(event) is Done ==> state is Done || (state is Submitting && event is Posted),
        state matches OrderStateModel::Authenticating { request } ==> (state.after(event)
            matches OrderStateModel::Building { request: built } ==> built == request),
{
}

/// A refusal ends the attempt at once, with the error of the step that was
/// refused, and an attempt that is over stays as it is.
pub proof fn first_failure_ends_the_attempt(
    state: OrderStateModel,
    detail: Seq<char>,
    later: OrderEventModel,
)
    ensures
        !state.ended() ==> state.after(OrderEventModel::Refused(detail)) is Failed,
        state.ended() ==> state.after(later) == state,
        state.after(OrderEventModel::Refused(detail)).after(later) == state.after(
            OrderEventModel::Refused(detail),
        ),
        state is Authenticating ==> state.after(OrderEventModel::Refused(detail))
            == (OrderStateModel::Failed { error: OrderError::AuthenticationError }),
        state is Building || state is Signing ==> state.after(OrderEventModel::Refused(detail))
            == (OrderStateModel::Failed { error: OrderError::OrderBuildError }),
        state is Submitting ==> state.after(OrderEventModel::Refused(detail))
            == (OrderStateModel::Failed { error: OrderError::SubmissionError }),
{
}

/// Every order is an immediate-or-cancel market order on the side that was
/// asked for, price or no price, and the receipt is the engine's answer
/// unchanged.
pub proof fn orders_are_immediate_or_cancel(
    token_id: Seq<char>,
    side: Seq<char>,
    amount: Seq<char>,
    price: Option<Seq<char>>,
    receipt: Seq<char>,
)
    ensures
        prepared(token_id, side, amount, price) matches Ok(request) ==> request.order_type
            == OrderType::FillAndKill && request.token_id == token_id && side_of(side) == Ok::<
            Side,
            OrderError,
        >(request.side),
        OrderStateModel::Submitting.after(OrderEventModel::Posted(receipt))
            == (OrderStateModel::Done { receipt }),
{
}

} // verus!
