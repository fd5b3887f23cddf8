use vstd::prelude::*;
use crate::msg::Coin;

verus! {

/// A key/value pair reported with a response.
#[derive(Clone, Debug, PartialEq, Eq)]
pub struct Attribute {
    pub key: String,
    pub value: String,
}

impl Attribute {
    pub fn new(key: &str, value: String) -> (r: Attribute)
        ensures
            r.key@ == key@,
            r.value == value,
    {
        Attribute { key: String::from_str(key), value }
    }

    pub open spec fn is(&self, key: Seq<char>, value: Seq<char>) -> bool {
        self.key@ == key && self.value@ == value
    }
}

/// An outgoing instruction, dispatched by the host after the call commits.
#[derive(Clone, Debug, PartialEq, Eq)]
pub enum Message {
    /// A plain transfer of coins.
    BankSend { to_address: String, amount: Vec<Coin> },
    /// A `Donate` call on another contract carrying `funds`.
    Donate { contract_addr: String, funds: Vec<Coin> },
}

#[derive(Clone, Debug, PartialEq, Eq)]
pub struct Response {
    pub messages: Vec<Message>,
    pub attributes: Vec<Attribute>,
}

impl Response {
    pub fn new() -> (r: Response)
        ensures
            r.is_empty(),
    {
        Response { messages: Vec::new(), attributes: Vec::new() }
    }

    pub open spec fn is_empty(&self) -> bool {
        self.messages@.len() == 0 && self.attributes@.len() == 0
    }
}

} // verus!
