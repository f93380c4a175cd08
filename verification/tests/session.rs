use my_algo::document::Json;
use my_algo::error::Error;
use my_algo::my_algo::{
    decode_addresses, decode_bytes, decode_signed_transaction, MyAlgo, MyAlgoSignedTransaction,
};
use my_algo::transaction::Address;

const ZERO_ADDRESS: &str = "AAAAAAAAAAAAAAAAAAAAAAAAAAAAAAAAAAAAAAAAAAAAAAAAAAAAY5HFKQ";

fn text(s: &str) -> Json {
    Json::Text(s.to_string())
}

fn object(entries: Vec<(&str, Json)>) -> Json {
    Json::Object(entries.into_iter().map(|(k, v)| (k.to_string(), v)).collect())
}

fn key(seed: u8) -> [u8; 32] {
    let mut k = [0u8; 32];
    for (i, b) in k.iter_mut().enumerate() {
        *b = seed.wrapping_add(i as u8);
    }
    k
}

#[test]
fn connect_returns_the_addresses_in_order() {
    let second = algonaut::core::Address(key(9)).to_string();
    let reply = Json::List(vec![text(ZERO_ADDRESS), text(&second)]);
    let r = MyAlgo {}.connect_response(Ok(reply));
    assert_eq!(r, Ok(vec![Address([0u8; 32]), Address(key(9))]));
}

#[test]
fn connect_with_one_malformed_address_fails() {
    let reply = Json::List(vec![text(ZERO_ADDRESS), text("not an address")]);
    assert_eq!(MyAlgo {}.connect_response(Ok(reply)), Err(Error::Decode));
    let bad_checksum = Json::List(vec![text(
        "AAAAAAAAAAAAAAAAAAAAAAAAAAAAAAAAAAAAAAAAAAAAAAAAAAAAY5HFKA",
    )]);
    assert_eq!(MyAlgo {}.connect_response(Ok(bad_checksum)), Err(Error::Decode));
}

#[test]
fn connect_with_an_empty_list_gives_no_address() {
    assert_eq!(MyAlgo {}.connect_response(Ok(Json::List(vec![]))), Ok(vec![]));
}

#[test]
fn connect_with_another_form_of_answer_fails() {
    assert_eq!(MyAlgo {}.connect_response(Ok(text(ZERO_ADDRESS))), Err(Error::Decode));
    assert_eq!(
        MyAlgo {}.connect_response(Ok(Json::List(vec![Json::Number(1)]))),
        Err(Error::Decode)
    );
    assert_eq!(MyAlgo {}.connect_response(Ok(Json::Null)), Err(Error::Decode));
}

#[test]
fn connect_passes_the_wallet_error_on() {
    assert_eq!(
        MyAlgo {}.connect_response(Err("user closed the window".to_string())),
        Err(Error::ExternalConnection("user closed the window".to_string()))
    );
}

#[test]
fn decode_addresses_reads_valid_texts() {
    assert_eq!(
        decode_addresses(&Json::List(vec![text(ZERO_ADDRESS)])),
        Some(vec![Address([0u8; 32])])
    );
    assert_eq!(decode_addresses(&Json::List(vec![text("")])), None);
}

#[test]
fn sign_response_reads_the_envelope() {
    let envelope = object(vec![
        ("blob", Json::List(vec![Json::Number(0), Json::Number(130), Json::Number(255)])),
        ("txID", text("TX123")),
        ("other", Json::Null),
    ]);
    assert_eq!(
        MyAlgo {}.sign_response(Ok(envelope)),
        Ok(MyAlgoSignedTransaction { tx_id: "TX123".to_string(), blob: vec![0, 130, 255] })
    );
}

#[test]
fn sign_response_without_a_field_fails() {
    let no_blob = object(vec![("txID", text("TX123"))]);
    assert_eq!(MyAlgo {}.sign_response(Ok(no_blob)), Err(Error::Decode));
    let no_id = object(vec![("blob", Json::List(vec![]))]);
    assert_eq!(MyAlgo {}.sign_response(Ok(no_id)), Err(Error::Decode));
    assert_eq!(MyAlgo {}.sign_response(Ok(Json::List(vec![]))), Err(Error::Decode));
}

#[test]
fn sign_response_with_wrong_types_fails() {
    let id_is_number = object(vec![("txID", Json::Number(1)), ("blob", Json::List(vec![]))]);
    assert_eq!(MyAlgo {}.sign_response(Ok(id_is_number)), Err(Error::Decode));
    let blob_is_text = object(vec![("txID", text("a")), ("blob", text("AAEC"))]);
    assert_eq!(MyAlgo {}.sign_response(Ok(blob_is_text)), Err(Error::Decode));
    let blob_too_large =
        object(vec![("txID", text("a")), ("blob", Json::List(vec![Json::Number(256)]))]);
    assert_eq!(MyAlgo {}.sign_response(Ok(blob_too_large)), Err(Error::Decode));
    let blob_decimal = object(vec![
        ("txID", text("a")),
        ("blob", Json::List(vec![Json::Decimal("1.5".to_string())])),
    ]);
    assert_eq!(MyAlgo {}.sign_response(Ok(blob_decimal)), Err(Error::Decode));
}

#[test]
fn sign_response_passes_the_wallet_error_on() {
    assert_eq!(
        MyAlgo {}.sign_response(Err("rejected".to_string())),
        Err(Error::ExternalSigning("rejected".to_string()))
    );
}

#[test]
fn decode_bytes_reads_numbers_up_to_255() {
    assert_eq!(decode_bytes(&Json::List(vec![])), Some(vec![]));
    assert_eq!(
        decode_bytes(&Json::List(vec![Json::Number(1), Json::Number(255)])),
        Some(vec![1, 255])
    );
    assert_eq!(decode_bytes(&Json::List(vec![Json::Number(1), Json::Bool(true)])), None);
    assert_eq!(decode_bytes(&Json::Number(1)), None);
}

#[test]
fn decode_signed_transaction_needs_an_object() {
    assert_eq!(decode_signed_transaction(&Json::Null), None);
    assert_eq!(
        decode_signed_transaction(&object(vec![
            ("txID", text("")),
            ("blob", Json::List(vec![])),
        ])),
        Some(MyAlgoSignedTransaction { tx_id: String::new(), blob: vec![] })
    );
}
