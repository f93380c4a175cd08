use crate::document::{list_view, lookup, Json, JsonView};
use crate::encoding::{address_from_str, address_key};
use crate::error::{Error, ErrorView};
use crate::to_my_algo_transaction::{mapping, result_view, to_my_algo_transaction_value};
use crate::transaction::{addresses_view, Address, Transaction};
use vstd::prelude::*;

verus! {

/// The decisions of a session with the wallet. The caller carries each
/// request to the wallet and brings its answer back.
pub struct MyAlgo {}

/// A transaction as the wallet hands it back, signed.
#[derive(Debug, Clone, Eq, PartialEq)]
pub struct MyAlgoSignedTransaction {
    pub tx_id: String,
    pub blob: Vec<u8>,
}

/// The mathematical value of a [`MyAlgoSignedTransaction`].
pub ghost struct SignedTransactionView {
    pub tx_id: Seq<char>,
    pub blob: Seq<u8>,
}

impl View for MyAlgoSignedTransaction {
    type V = SignedTransactionView;

    open spec fn view(&self) -> SignedTransactionView {
        SignedTransactionView { tx_id: self.tx_id@, blob: self.blob@ }
    }
}

/// Whether a value is a number that fits in a byte.
pub open spec fn is_byte(value: JsonView) -> bool {
    value is Number && value->Number_0 <= 255
}

/// The bytes that a list of numbers stands for, if each of them is a byte.
pub open spec fn decoded_bytes(value: JsonView) -> Option<Seq<u8>> {
    match value {
        JsonView::List(items) => if forall|i: int| 0 <= i < items.len() ==> is_byte(#[trigger] items[i]) {
            Some(Seq::new(items.len(), |i: int| items[i]->Number_0 as u8))
        } else {
            None
        },
        _ => None,
    }
}

/// The signed transaction that an envelope of the wallet holds: its `txID`
/// is a text and its `blob` is a list of bytes. An envelope of another form
/// holds none.
pub open spec fn decoded_signed(envelope: JsonView) -> Option<SignedTransactionView> {
    match envelope {
        JsonView::Object(entries) => match lookup(entries, "txID"@) {
            Some(JsonView::Text(tx_id)) => match lookup(entries, "blob"@) {
                Some(blob) => match decoded_bytes(blob) {
                    Some(bytes) => Some(SignedTransactionView { tx_id, blob: bytes }),
                    None => None,
                },
                None => None,
            },
            _ => None,
        },
        _ => None,
    }
}

/// Whether a value is a text that is a valid address.
pub open spec fn is_address(value: JsonView) -> bool {
    value is Text && address_key(value->Text_0) is Some
}

/// The account keys that the wallet's list of address texts stands for, in
/// the same order; none if the answer is no list or one item is no valid
/// address.
pub open spec fn decoded_addresses(answer: JsonView) -> Option<Seq<Seq<u8>>> {
    match answer {
        JsonView::List(items) => if forall|i: int| 0 <= i < items.len() ==> is_address(#[trigger] items[i]) {
            Some(Seq::new(items.len(), |i: int| address_key(items[i]->Text_0)->0))
        } else {
            None
        },
        _ => None,
    }
}

/// What the wallet answered, as the decisions read it.
pub open spec fn reply_view(reply: Result<Json, String>) -> Result<JsonView, Seq<char>> {
    match reply {
        Ok(answer) => Ok(answer@),
        Err(diagnostic) => Err(diagnostic@),
    }
}

/// What the answer to a sign request comes to.
pub open spec fn sign_outcome(reply: Result<JsonView, Seq<char>>) -> Result<
    SignedTransactionView,
    ErrorView,
> {
    match reply {
        Err(diagnostic) => Err(ErrorView::ExternalSigning(diagnostic)),
        Ok(envelope) => match decoded_signed(envelope) {
            Some(signed) => Ok(signed),
            None => Err(ErrorView::Decode),
        },
    }
}

/// What the answer to a connect request comes to.
pub open spec fn connect_outcome(reply: Result<JsonView, Seq<char>>) -> Result<
    Seq<Seq<u8>>,
    ErrorView,
> {
    match reply {
        Err(diagnostic) => Err(ErrorView::ExternalConnection(diagnostic)),
        Ok(answer) => match decoded_addresses(answer) {
            Some(keys) => Ok(keys),
            None => Err(ErrorView::Decode),
        },
    }
}

/// Reads a list of bytes.
pub fn decode_bytes(value: &Json) -> (r: Option<Vec<u8>>)
    ensures
        match r {
            Some(bytes) => decoded_bytes(value@) == Some(bytes@),
            None => decoded_bytes(value@) is None,
        },
{
    match value {
        Json::List(items) => {
            let mut bytes: Vec<u8> = Vec::new();
            let mut i: usize = 0;
            while i < items.len()
                invariant
                    i <= items.len(),
                    value@ == JsonView::List(list_view(items@)),
                    bytes@.len() == i,
                    forall|j: int| 0 <= j < i ==> is_byte(#[trigger] list_view(items@)[j]),
                    forall|j: int|
                        0 <= j < i ==> #[trigger] bytes@[j] == list_view(
                            items@,
                        )[j]->Number_0 as u8,
                decreases items.len() - i,
            {
                match &items[i] {
                    Json::Number(n) => {
                        if *n > 255 {
                            assert(!is_byte(list_view(items@)[i as int]));
                            return None;
                        }
                        bytes.push(*n as u8);
                    },
                    _ => {
                        assert(!is_byte(list_view(items@)[i as int]));
                        return None;
                    },
                }
                i += 1;
            }
            assert(bytes@ =~= decoded_bytes(value@)->0);
            Some(bytes)
        },
        _ => None,
    }
}

/// Reads the envelope that the wallet returns for a signed transaction.
pub fn decode_signed_transaction(envelope: &Json) -> (r: Option<MyAlgoSignedTransaction>)
    ensures
        match r {
            Some(signed) => decoded_signed(envelope@) == Some(signed@),
            None => decoded_signed(envelope@) is None,
        },
{
    let tx_id = match envelope.get(&"txID".to_owned()) {
        Some(Json::Text(tx_id)) => tx_id.clone(),
        _ => {
            return None;
        },
    };
    let blob = match envelope.get(&"blob".to_owned()) {
        Some(blob) => match decode_bytes(blob) {
            Some(bytes) => bytes,
            None => {
                return None;
            },
        },
        None => {
            return None;
        },
    };
    Some(MyAlgoSignedTransaction { tx_id, blob })
}

/// Reads the list of addresses that the wallet returns for a connection.
pub fn decode_addresses(answer: &Json) -> (r: Option<Vec<Address>>)
    ensures
        match r {
            Some(addresses) => decoded_addresses(answer@) == Some(addresses_view(addresses@)),
            None => decoded_addresses(answer@) is None,
        },
{
    match answer {
        Json::List(items) => {
            let mut addresses: Vec<Address> = Vec::new();
            let mut i: usize = 0;
            while i < items.len()
                invariant
                    i <= items.len(),
                    answer@ == JsonView::List(list_view(items@)),
                    addresses@.len() == i,
                    forall|j: int| 0 <= j < i ==> is_address(#[trigger] list_view(items@)[j]),
                    forall|j: int|
                        0 <= j < i ==> (#[trigger] addresses@[j]).0@ == address_key(
                            list_view(items@)[j]->Text_0,
                        )->0,
                decreases items.len() - i,
            {
                match &items[i] {
                    Json::Text(text) => {
                        match address_from_str(text.as_str()) {
                            Some(key) => {
                                addresses.push(Address(key));
                            },
                            None => {
                                assert(!is_address(list_view(items@)[i as int]));
                                return None;
                            },
                        }
                    },
                    _ => {
                        assert(!is_address(list_view(items@)[i as int]));
                        return None;
                    },
                }
                i += 1;
            }
            assert(addresses_view(addresses@) =~= decoded_addresses(answer@)->0);
            Some(addresses)
        },
        _ => None,
    }
}

/// The mathematical value of a signing's result.
pub open spec fn signed_view(r: Result<MyAlgoSignedTransaction, Error>) -> Result<
    SignedTransactionView,
    ErrorView,
> {
    match r {
        Ok(signed) => Ok(signed@),
        Err(e) => Err(e@),
    }
}

/// The mathematical value of a connection's result.
pub open spec fn connected_view(r: Result<Vec<Address>, Error>) -> Result<
    Seq<Seq<u8>>,
    ErrorView,
> {
    match r {
        Ok(addresses) => Ok(addresses_view(addresses@)),
        Err(e) => Err(e@),
    }
}

impl MyAlgo {
    /// What a connection comes to once the wallet has answered: the selected
    /// accounts in the wallet's order, or the error.
    pub fn connect_response(&self, reply: Result<Json, String>) -> (r: Result<Vec<Address>, Error>)
        ensures
            connected_view(r) == connect_outcome(reply_view(reply)),
    {
        match reply {
            Err(diagnostic) => Err(Error::ExternalConnection(diagnostic)),
            Ok(answer) => match decode_addresses(&answer) {
                Some(addresses) => Ok(addresses),
                None => Err(Error::Decode),
            },
        }
    }

    /// The document to hand to the wallet for signing a transaction.
    pub fn sign_request(&self, transaction: &Transaction) -> (r: Result<Json, Error>)
        ensures
            result_view(r) == mapping(transaction@),
    {
        to_my_algo_transaction_value(transaction)
    }

    /// What signing comes to once the wallet has answered: the signed
    /// transaction, or the error.
    pub fn sign_response(&self, reply: Result<Json, String>) -> (r: Result<
        MyAlgoSignedTransaction,
        Error,
    >)
        ensures
            signed_view(r) == sign_outcome(reply_view(reply)),
    {
        match reply {
            Err(diagnostic) => Err(Error::ExternalSigning(diagnostic)),
            Ok(envelope) => match decode_signed_transaction(&envelope) {
                Some(signed) => Ok(signed),
                None => Err(Error::Decode),
            },
        }
    }
}

} // verus!
