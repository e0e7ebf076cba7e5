//! What a command hands back: attributes that describe it, and the transfer
//! instructions that another ledger is to carry out.

use vstd::prelude::*;

verus! {

/// The currency unit of every transfer instruction.
pub const DENOM: &'static str = "uusd";

/// A key and a value that describe the command that ran.
#[derive(Debug, Clone, PartialEq, Eq)]
pub struct Attribute {
    pub key: String,
    pub value: String,
}

/// What an [`Attribute`] holds, as mathematical values.
pub struct AttributeView {
    pub key: Seq<char>,
    pub value: Seq<char>,
}

impl DeepView for Attribute {
    type V = AttributeView;

    open spec fn deep_view(&self) -> AttributeView {
        AttributeView { key: self.key@, value: self.value@ }
    }
}

/// An amount of one currency unit.
#[derive(Debug, Clone, PartialEq, Eq)]
pub struct Coin {
    pub denom: String,
    pub amount: u128,
}

/// What a [`Coin`] holds, as mathematical values.
pub struct CoinView {
    pub denom: Seq<char>,
    pub amount: u128,
}

impl DeepView for Coin {
    type V = CoinView;

    open spec fn deep_view(&self) -> CoinView {
        CoinView { denom: self.denom@, amount: self.amount }
    }
}

/// An order to move funds to an address. This library only writes the order;
/// the ledger that receives it moves the funds.
#[derive(Debug, Clone, PartialEq, Eq)]
pub struct TransferInstruction {
    pub to: String,
    pub funds: Vec<Coin>,
}

/// What a [`TransferInstruction`] holds, as mathematical values.
pub struct TransferView {
    pub to: Seq<char>,
    pub funds: Seq<CoinView>,
}

impl DeepView for TransferInstruction {
    type V = TransferView;

    open spec fn deep_view(&self) -> TransferView {
        TransferView { to: self.to@, funds: self.funds.deep_view() }
    }
}

/// The order to move `amount` units of [`DENOM`] to `destination`.
pub open spec fn transfer_of(destination: Seq<char>, amount: u128) -> TransferView {
    TransferView { to: destination, funds: seq![CoinView { denom: DENOM@, amount }] }
}

impl TransferInstruction {
    /// Writes the order to move `amount` units of [`DENOM`] to `destination`.
    pub fn new(destination: String, amount: u128) -> (order: TransferInstruction)
        ensures
            order.deep_view() == transfer_of(destination@, amount),
    {
        let mut funds: Vec<Coin> = Vec::new();
        funds.push(Coin { denom: DENOM.to_owned(), amount });
        let order = TransferInstruction { to: destination, funds };
        assert(order.funds.deep_view() =~= seq![CoinView { denom: DENOM@, amount }]);
        order
    }
}

/// The answer to a command that succeeded.
#[derive(Debug, Clone, PartialEq, Eq)]
pub struct Response {
    /// The attributes, in the order in which they were added.
    pub attributes: Vec<Attribute>,
    /// The transfer instructions, in the order in which they were added.
    pub messages: Vec<TransferInstruction>,
}

/// What a [`Response`] holds, as mathematical values.
pub struct ResponseView {
    pub attributes: Seq<AttributeView>,
    pub messages: Seq<TransferView>,
}

impl View for Response {
    type V = ResponseView;

    open spec fn view(&self) -> ResponseView {
        ResponseView {
            attributes: self.attributes.deep_view(),
            messages: self.messages.deep_view(),
        }
    }
}

impl ResponseView {
    /// The answer without attributes and without instructions.
    pub open spec fn empty() -> ResponseView {
        ResponseView { attributes: Seq::empty(), messages: Seq::empty() }
    }

    /// The answer with one more attribute at the end.
    pub open spec fn attribute(self, key: Seq<char>, value: Seq<char>) -> ResponseView {
        ResponseView { attributes: self.attributes.push(AttributeView { key, value }), ..self }
    }

    /// The answer with one more instruction at the end.
    pub open spec fn message(self, order: TransferView) -> ResponseView {
        ResponseView { messages: self.messages.push(order), ..self }
    }
}

impl Response {
    /// An answer without attributes and without instructions.
    pub fn new() -> (response: Response)
        ensures
            response@ == ResponseView::empty(),
    {
        let response = Response { attributes: Vec::new(), messages: Vec::new() };
        assert(response.attributes.deep_view() =~= Seq::empty());
        assert(response.messages.deep_view() =~= Seq::empty());
        response
    }

    /// Adds an attribute after those that are there.
    pub fn add_attribute(self, key: &str, value: String) -> (response: Response)
        ensures
            response@ == self@.attribute(key@, value@),
    {
        let mut response = self;
        response.attributes.push(Attribute { key: key.to_owned(), value });
        assert(response.attributes.deep_view() =~= self.attributes.deep_view().push(
            AttributeView { key: key@, value: value@ },
        ));
        response
    }

    /// Adds a transfer instruction after those that are there.
    pub fn add_message(self, order: TransferInstruction) -> (response: Response)
        ensures
            response@ == self@.message(order.deep_view()),
    {
        let mut response = self;
        response.messages.push(order);
        assert(response.messages.deep_view() =~= self.messages.deep_view().push(
            order.deep_view(),
        ));
        response
    }
}

impl Default for Response {
    /// The answer without attributes and without instructions.
    fn default() -> (response: Response)
        ensures
            response@ == ResponseView::empty(),
    {
        Response::new()
    }
}

} // verus!
