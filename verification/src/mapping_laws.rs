use crate::document::{
    has_key, key_mark, lemma_has_key_concat, lemma_lookup_concat, lookup, Entries, Json,
    JsonView,
};
use crate::error::Error;
use crate::merge::{adds_to, lemma_merge_adds, merge_spec, no_null, well_formed};
use crate::to_my_algo_transaction::{
    application_common_fields, application_document, application_fields, application_kind,
    common_fields, document, mapping, plain_type_fields, representable, result_view,
    type_fields,
};
use crate::transaction::{
    ApplicationCallOnComplete, ApplicationCallView, AssetParamsView, TransactionTypeView,
    TransactionView,
};
use crate::values::{
    address_value, lemma_accounts_value_well_formed, lemma_arguments_value_well_formed,
    lemma_bytes_value_well_formed, lemma_concat_adds_to, lemma_concat_values_well_formed,
    lemma_empty_adds_to, lemma_empty_has_key, lemma_empty_values_well_formed,
    lemma_numbers_value_well_formed, lemma_with_adds_to, lemma_with_has_key,
    lemma_with_optional_adds_to, lemma_with_optional_has_key,
    lemma_with_optional_values_well_formed, lemma_with_values_well_formed, values_well_formed,
};
use vstd::prelude::*;

verus! {

/// The entries of a document that is an object.
pub open spec fn fields_of(d: JsonView) -> Entries
    recommends
        d is Object,
{
    d->Object_0
}

/// Whether a key's parts are those of one of the common fields' keys.
pub open spec fn is_common_mark(mark: (nat, char, char, char)) -> bool {
    ||| mark == key_mark("fee"@)
    ||| mark == key_mark("flatFee"@)
    ||| mark == key_mark("firstRound"@)
    ||| mark == key_mark("genesisHash"@)
    ||| mark == key_mark("lastRound"@)
    ||| mark == key_mark("genesisID"@)
    ||| mark == key_mark("group"@)
    ||| mark == key_mark("lease"@)
    ||| mark == key_mark("note"@)
    ||| mark == key_mark("reKeyTo"@)
    ||| mark == key_mark("type"@)
}

/// The parts of each key of the schema. No two keys that can stand in one
/// document have the same.
pub proof fn lemma_key_marks()
    ensures
        key_mark("fee"@) == (3nat, 'f', ' ', ' '),
        key_mark("flatFee"@) == (7nat, 'f', 't', 'e'),
        key_mark("firstRound"@) == (10nat, 'f', 's', 'R'),
        key_mark("genesisHash"@) == (11nat, 'g', 'e', 'i'),
        key_mark("lastRound"@) == (9nat, 'l', 't', 'o'),
        key_mark("genesisID"@) == (9nat, 'g', 'e', 'i'),
        key_mark("group"@) == (5nat, 'g', 'u', ' '),
        key_mark("lease"@) == (5nat, 'l', 's', ' '),
        key_mark("note"@) == (4nat, 'n', 'e', ' '),
        key_mark("reKeyTo"@) == (7nat, 'r', 'e', 'T'),
        key_mark("type"@) == (4nat, 't', 'e', ' '),
        key_mark("from"@) == (4nat, 'f', 'm', ' '),
        key_mark("amount"@) == (6nat, 'a', 'u', 't'),
        key_mark("to"@) == (2nat, 't', ' ', ' '),
        key_mark("closeRemainderTo"@) == (16nat, 'c', 's', 'R'),
        key_mark("voteKey"@) == (7nat, 'v', 'e', 'e'),
        key_mark("selectionKey"@) == (12nat, 's', 'e', 't'),
        key_mark("voteFirst"@) == (9nat, 'v', 'e', 'i'),
        key_mark("voteLast"@) == (8nat, 'v', 'e', 'a'),
        key_mark("voteKeyDilution"@) == (15nat, 'v', 'e', 'e'),
        key_mark("assetName"@) == (9nat, 'a', 'e', 'N'),
        key_mark("assetUnitName"@) == (13nat, 'a', 'e', 'U'),
        key_mark("assetDecimals"@) == (13nat, 'a', 'e', 'D'),
        key_mark("assetTotal"@) == (10nat, 'a', 'e', 'T'),
        key_mark("assetURL"@) == (8nat, 'a', 'e', 'U'),
        key_mark("assetFreeze"@) == (11nat, 'a', 'e', 'F'),
        key_mark("assetManager"@) == (12nat, 'a', 'e', 'M'),
        key_mark("assetReserve"@) == (12nat, 'a', 'e', 'R'),
        key_mark("assetDefaultFrozen"@) == (18nat, 'a', 'e', 'D'),
        key_mark("assetIndex"@) == (10nat, 'a', 'e', 'I'),
        key_mark("assetSender"@) == (11nat, 'a', 'e', 'S'),
        key_mark("freezeAccount"@) == (13nat, 'f', 'e', 'e'),
        key_mark("freezeState"@) == (11nat, 'f', 'e', 'e'),
        key_mark("appArgs"@) == (7nat, 'a', 'A', 'g'),
        key_mark("appAccounts"@) == (11nat, 'a', 'A', 'c'),
        key_mark("appForeignApps"@) == (14nat, 'a', 'F', 'r'),
        key_mark("appForeignAssets"@) == (16nat, 'a', 'F', 'r'),
        key_mark("appApprovalProgram"@) == (18nat, 'a', 'A', 'p'),
        key_mark("appClearProgram"@) == (15nat, 'a', 'C', 'e'),
        key_mark("appLocalInts"@) == (12nat, 'a', 'L', 'c'),
        key_mark("appLocalByteSlices"@) == (18nat, 'a', 'L', 'c'),
        key_mark("appGlobalInts"@) == (13nat, 'a', 'G', 'o'),
        key_mark("appGlobalByteSlices"@) == (19nat, 'a', 'G', 'o'),
        key_mark("appOnComplete"@) == (13nat, 'a', 'O', 'C'),
        key_mark("extraPages"@) == (10nat, 'e', 'r', 'P'),
        key_mark("appIndex"@) == (8nat, 'a', 'I', 'd'),
{
    reveal_strlit("fee");
    reveal_strlit("flatFee");
    reveal_strlit("firstRound");
    reveal_strlit("genesisHash");
    reveal_strlit("lastRound");
    reveal_strlit("genesisID");
    reveal_strlit("group");
    reveal_strlit("lease");
    reveal_strlit("note");
    reveal_strlit("reKeyTo");
    reveal_strlit("type");
    reveal_strlit("from");
    reveal_strlit("amount");
    reveal_strlit("to");
    reveal_strlit("closeRemainderTo");
    reveal_strlit("voteKey");
    reveal_strlit("selectionKey");
    reveal_strlit("voteFirst");
    reveal_strlit("voteLast");
    reveal_strlit("voteKeyDilution");
    reveal_strlit("assetName");
    reveal_strlit("assetUnitName");
    reveal_strlit("assetDecimals");
    reveal_strlit("assetTotal");
    reveal_strlit("assetURL");
    reveal_strlit("assetFreeze");
    reveal_strlit("assetManager");
    reveal_strlit("assetReserve");
    reveal_strlit("assetDefaultFrozen");
    reveal_strlit("assetIndex");
    reveal_strlit("assetSender");
    reveal_strlit("freezeAccount");
    reveal_strlit("freezeState");
    reveal_strlit("appArgs");
    reveal_strlit("appAccounts");
    reveal_strlit("appForeignApps");
    reveal_strlit("appForeignAssets");
    reveal_strlit("appApprovalProgram");
    reveal_strlit("appClearProgram");
    reveal_strlit("appLocalInts");
    reveal_strlit("appLocalByteSlices");
    reveal_strlit("appGlobalInts");
    reveal_strlit("appGlobalByteSlices");
    reveal_strlit("appOnComplete");
    reveal_strlit("extraPages");
    reveal_strlit("appIndex");
}

/// Every key among the common fields is one of their eleven keys.
pub proof fn lemma_common_keys(t: TransactionView, key: Seq<char>)
    ensures
        has_key(common_fields(t), key) ==> is_common_mark(key_mark(key)),
{
    broadcast use lemma_empty_has_key, lemma_with_has_key, lemma_with_optional_has_key;
}

/// The common fields hold no null, and no key twice.
pub proof fn lemma_common_fields_are_plain(t: TransactionView)
    ensures
        adds_to(Seq::empty(), common_fields(t)),
{
    broadcast use
        lemma_empty_has_key,
        lemma_with_has_key,
        lemma_with_optional_has_key,
        lemma_empty_adds_to,
        lemma_with_adds_to,
        lemma_with_optional_adds_to,
    ;
    lemma_key_marks();
}

/// The fields of an application call's shape only add to its common fields.
pub proof fn lemma_application_fields_add(a: ApplicationCallView)
    requires
        application_kind(a) is Some,
    ensures
        adds_to(application_common_fields(a), application_fields(a)),
{
    broadcast use
        lemma_empty_has_key,
        lemma_with_has_key,
        lemma_with_optional_has_key,
        lemma_empty_adds_to,
        lemma_with_adds_to,
        lemma_with_optional_adds_to,
    ;
    lemma_key_marks();
}

proof fn lemma_application_fields_add_to_common(t: TransactionView)
    requires
        t.txn_type is ApplicationCallTransaction,
        representable(t.txn_type),
    ensures
        adds_to(
            common_fields(t),
            application_common_fields(t.txn_type->ApplicationCallTransaction_0),
        ),
        adds_to(common_fields(t), application_fields(t.txn_type->ApplicationCallTransaction_0)),
{
    broadcast use
        lemma_empty_has_key,
        lemma_with_has_key,
        lemma_with_optional_has_key,
        lemma_empty_adds_to,
        lemma_with_adds_to,
        lemma_with_optional_adds_to,
    ;
    lemma_key_marks();
    lemma_common_keys(t, "from"@);
    lemma_common_keys(t, "appArgs"@);
    lemma_common_keys(t, "appAccounts"@);
    lemma_common_keys(t, "appForeignApps"@);
    lemma_common_keys(t, "appForeignAssets"@);
    lemma_common_keys(t, "appApprovalProgram"@);
    lemma_common_keys(t, "appClearProgram"@);
    lemma_common_keys(t, "appLocalInts"@);
    lemma_common_keys(t, "appLocalByteSlices"@);
    lemma_common_keys(t, "appGlobalInts"@);
    lemma_common_keys(t, "appGlobalByteSlices"@);
    lemma_common_keys(t, "appOnComplete"@);
    lemma_common_keys(t, "extraPages"@);
    lemma_common_keys(t, "appIndex"@);
}

proof fn lemma_payment_fields_add(t: TransactionView)
    requires
        t.txn_type is Payment,
    ensures
        adds_to(common_fields(t), plain_type_fields(t.txn_type)),
{
    broadcast use
        lemma_empty_has_key,
        lemma_with_has_key,
        lemma_with_optional_has_key,
        lemma_empty_adds_to,
        lemma_with_adds_to,
        lemma_with_optional_adds_to,
    ;
    lemma_key_marks();
    lemma_common_keys(t, "from"@);
    lemma_common_keys(t, "amount"@);
    lemma_common_keys(t, "to"@);
    lemma_common_keys(t, "closeRemainderTo"@);
}

proof fn lemma_key_registration_fields_add(t: TransactionView)
    requires
        t.txn_type is KeyRegistration,
    ensures
        adds_to(common_fields(t), plain_type_fields(t.txn_type)),
{
    broadcast use
        lemma_empty_has_key,
        lemma_with_has_key,
        lemma_with_optional_has_key,
        lemma_empty_adds_to,
        lemma_with_adds_to,
        lemma_with_optional_adds_to,
    ;
    lemma_key_marks();
    lemma_common_keys(t, "from"@);
    lemma_common_keys(t, "voteKey"@);
    lemma_common_keys(t, "selectionKey"@);
    lemma_common_keys(t, "voteFirst"@);
    lemma_common_keys(t, "voteLast"@);
    lemma_common_keys(t, "voteKeyDilution"@);
}

proof fn lemma_asset_configuration_fields_add(t: TransactionView)
    requires
        t.txn_type is AssetConfigurationTransaction,
    ensures
        adds_to(common_fields(t), plain_type_fields(t.txn_type)),
{
    broadcast use
        lemma_empty_has_key,
        lemma_with_has_key,
        lemma_with_optional_has_key,
        lemma_empty_adds_to,
        lemma_with_adds_to,
        lemma_with_optional_adds_to,
    ;
    lemma_key_marks();
    lemma_common_keys(t, "from"@);
    lemma_common_keys(t, "assetName"@);
    lemma_common_keys(t, "assetUnitName"@);
    lemma_common_keys(t, "assetDecimals"@);
    lemma_common_keys(t, "assetTotal"@);
    lemma_common_keys(t, "assetURL"@);
    lemma_common_keys(t, "assetFreeze"@);
    lemma_common_keys(t, "assetManager"@);
    lemma_common_keys(t, "assetReserve"@);
    lemma_common_keys(t, "assetDefaultFrozen"@);
}

proof fn lemma_asset_transfer_fields_add(t: TransactionView)
    requires
        t.txn_type is AssetTransferTransaction || t.txn_type is AssetAcceptTransaction
            || t.txn_type is AssetClawbackTransaction,
    ensures
        adds_to(common_fields(t), plain_type_fields(t.txn_type)),
{
    broadcast use
        lemma_empty_has_key,
        lemma_with_has_key,
        lemma_with_optional_has_key,
        lemma_empty_adds_to,
        lemma_with_adds_to,
        lemma_with_optional_adds_to,
    ;
    lemma_key_marks();
    lemma_common_keys(t, "from"@);
    lemma_common_keys(t, "assetIndex"@);
    lemma_common_keys(t, "to"@);
    lemma_common_keys(t, "amount"@);
    lemma_common_keys(t, "closeRemainderTo"@);
    lemma_common_keys(t, "assetSender"@);
}

proof fn lemma_asset_freeze_fields_add(t: TransactionView)
    requires
        t.txn_type is AssetFreezeTransaction,
    ensures
        adds_to(common_fields(t), plain_type_fields(t.txn_type)),
{
    broadcast use
        lemma_empty_has_key,
        lemma_with_has_key,
        lemma_with_optional_has_key,
        lemma_empty_adds_to,
        lemma_with_adds_to,
        lemma_with_optional_adds_to,
    ;
    lemma_key_marks();
    lemma_common_keys(t, "from"@);
    lemma_common_keys(t, "assetIndex"@);
    lemma_common_keys(t, "freezeAccount"@);
    lemma_common_keys(t, "freezeState"@);
}

/// The fields of a transaction's kind only add to the common fields.
pub proof fn lemma_type_fields_add(t: TransactionView)
    requires
        representable(t.txn_type),
    ensures
        adds_to(common_fields(t), type_fields(t.txn_type)),
{
    match t.txn_type {
        TransactionTypeView::ApplicationCallTransaction(a) => {
            lemma_application_fields_add(a);
            lemma_application_fields_add_to_common(t);
            lemma_concat_adds_to(
                common_fields(t),
                application_common_fields(a),
                application_fields(a),
            );
        },
        TransactionTypeView::Payment(_) => lemma_payment_fields_add(t),
        TransactionTypeView::KeyRegistration(_) => lemma_key_registration_fields_add(t),
        TransactionTypeView::AssetConfigurationTransaction(_) => {
            lemma_asset_configuration_fields_add(t)
        },
        TransactionTypeView::AssetFreezeTransaction(_) => lemma_asset_freeze_fields_add(t),
        _ => lemma_asset_transfer_fields_add(t),
    }
}

/// The document of a transaction is its common fields with the fields of
/// its kind laid over them; that of an application call is its common fields
/// with the fields of its shape laid over them.
pub proof fn lemma_document_is_merge(t: TransactionView)
    requires
        representable(t.txn_type),
    ensures
        document(t) == merge_spec(
            JsonView::Object(common_fields(t)),
            JsonView::Object(type_fields(t.txn_type)),
        ),
        match t.txn_type {
            TransactionTypeView::ApplicationCallTransaction(a) => application_document(a)
                == merge_spec(
                JsonView::Object(application_common_fields(a)),
                JsonView::Object(application_fields(a)),
            ),
            _ => true,
        },
{
    lemma_type_fields_add(t);
    lemma_merge_adds(common_fields(t), type_fields(t.txn_type));
    match t.txn_type {
        TransactionTypeView::ApplicationCallTransaction(a) => {
            lemma_application_fields_add(a);
            lemma_merge_adds(application_common_fields(a), application_fields(a));
        },
        _ => {},
    }
}

/// Mapping is a function of the transaction: two results that both are what
/// mapping gives for it hold the same document, or the same error.
pub proof fn lemma_mapping_is_deterministic(
    t: TransactionView,
    first: Result<Json, Error>,
    second: Result<Json, Error>,
)
    requires
        result_view(first) == mapping(t),
        result_view(second) == mapping(t),
    ensures
        result_view(first) == result_view(second),
        first is Ok <==> representable(t.txn_type),
{
}

/// The seven shapes of application call that the schema knows, and no other.
pub proof fn lemma_application_kinds(a: ApplicationCallView)
    ensures
        application_kind(a) is Some <==> {
            let programs = a.approval_program is Some && a.clear_state_program is Some;
            let schemas = a.global_state_schema is Some && a.local_state_schema is Some;
            let nothing = a.approval_program is None && a.clear_state_program is None
                && a.global_state_schema is None && a.local_state_schema is None;
            ||| a.on_complete == ApplicationCallOnComplete::NoOp && a.app_id is None && programs
                && schemas
            ||| a.on_complete == ApplicationCallOnComplete::NoOp && a.app_id is Some && nothing
            ||| a.on_complete == ApplicationCallOnComplete::OptIn && a.app_id is Some && nothing
            ||| a.on_complete == ApplicationCallOnComplete::CloseOut && a.app_id is Some && nothing
            ||| a.on_complete == ApplicationCallOnComplete::ClearState && a.app_id is Some
                && nothing
            ||| a.on_complete == ApplicationCallOnComplete::UpdateApplication && a.app_id is Some
                && programs && a.global_state_schema is None && a.local_state_schema is None
            ||| a.on_complete == ApplicationCallOnComplete::DeleteApplication && a.app_id is Some
                && nothing
        },
{
}

/// No entry of a transaction's document holds a null: what is absent is left
/// out. And no key stands in it twice.
pub proof fn lemma_document_is_plain(t: TransactionView)
    requires
        representable(t.txn_type),
    ensures
        no_null(fields_of(document(t))),
        adds_to(Seq::empty(), fields_of(document(t))),
{
    broadcast use lemma_empty_has_key;
    lemma_common_fields_are_plain(t);
    lemma_type_fields_add(t);
    lemma_concat_adds_to(Seq::empty(), common_fields(t), type_fields(t.txn_type));
}

proof fn lemma_common_values_well_formed(t: TransactionView)
    ensures
        values_well_formed(common_fields(t)),
{
    broadcast use
        lemma_empty_values_well_formed,
        lemma_with_values_well_formed,
        lemma_with_optional_values_well_formed,
        lemma_bytes_value_well_formed,
        lemma_numbers_value_well_formed,
        lemma_arguments_value_well_formed,
        lemma_accounts_value_well_formed,
    ;
}

proof fn lemma_payment_values_well_formed(kind: TransactionTypeView)
    requires
        kind is Payment,
    ensures
        values_well_formed(plain_type_fields(kind)),
{
    broadcast use
        lemma_empty_values_well_formed,
        lemma_with_values_well_formed,
        lemma_with_optional_values_well_formed,
    ;
}

proof fn lemma_key_registration_values_well_formed(kind: TransactionTypeView)
    requires
        kind is KeyRegistration,
    ensures
        values_well_formed(plain_type_fields(kind)),
{
    broadcast use
        lemma_empty_values_well_formed,
        lemma_with_values_well_formed,
        lemma_with_optional_values_well_formed,
    ;
}

proof fn lemma_asset_configuration_values_well_formed(kind: TransactionTypeView)
    requires
        kind is AssetConfigurationTransaction,
    ensures
        values_well_formed(plain_type_fields(kind)),
{
    broadcast use
        lemma_empty_values_well_formed,
        lemma_with_values_well_formed,
        lemma_with_optional_values_well_formed,
    ;
}

proof fn lemma_asset_transfer_values_well_formed(kind: TransactionTypeView)
    requires
        kind is AssetTransferTransaction || kind is AssetAcceptTransaction
            || kind is AssetClawbackTransaction,
    ensures
        values_well_formed(plain_type_fields(kind)),
{
    broadcast use
        lemma_empty_values_well_formed,
        lemma_with_values_well_formed,
        lemma_with_optional_values_well_formed,
    ;
}

proof fn lemma_asset_freeze_values_well_formed(kind: TransactionTypeView)
    requires
        kind is AssetFreezeTransaction,
    ensures
        values_well_formed(plain_type_fields(kind)),
{
    broadcast use
        lemma_empty_values_well_formed,
        lemma_with_values_well_formed,
        lemma_with_optional_values_well_formed,
    ;
}

proof fn lemma_plain_values_well_formed(kind: TransactionTypeView)
    ensures
        values_well_formed(plain_type_fields(kind)),
{
    match kind {
        TransactionTypeView::Payment(_) => lemma_payment_values_well_formed(kind),
        TransactionTypeView::KeyRegistration(_) => lemma_key_registration_values_well_formed(kind),
        TransactionTypeView::AssetConfigurationTransaction(_) => {
            lemma_asset_configuration_values_well_formed(kind)
        },
        TransactionTypeView::AssetFreezeTransaction(_) => lemma_asset_freeze_values_well_formed(
            kind,
        ),
        TransactionTypeView::ApplicationCallTransaction(_) => {
            broadcast use lemma_empty_values_well_formed;
        },
        _ => lemma_asset_transfer_values_well_formed(kind),
    }
}

proof fn lemma_application_values_well_formed(a: ApplicationCallView)
    ensures
        values_well_formed(application_common_fields(a)),
        values_well_formed(application_fields(a)),
{
    broadcast use
        lemma_empty_values_well_formed,
        lemma_with_values_well_formed,
        lemma_with_optional_values_well_formed,
        lemma_bytes_value_well_formed,
        lemma_numbers_value_well_formed,
        lemma_arguments_value_well_formed,
        lemma_accounts_value_well_formed,
    ;
}

/// The document of a transaction is a mapping at every depth: no object in
/// it has a key twice.
pub proof fn lemma_document_well_formed(t: TransactionView)
    requires
        representable(t.txn_type),
    ensures
        well_formed(document(t)),
{
    lemma_document_is_plain(t);
    lemma_common_values_well_formed(t);
    match t.txn_type {
        TransactionTypeView::ApplicationCallTransaction(a) => {
            lemma_application_values_well_formed(a);
            lemma_concat_values_well_formed(
                application_common_fields(a),
                application_fields(a),
            );
        },
        _ => {
            lemma_plain_values_well_formed(t.txn_type);
        },
    }
    lemma_concat_values_well_formed(common_fields(t), type_fields(t.txn_type));
}

/// The three kinds of asset transfer share the tag `axfer`, and their
/// documents are told apart by the other fields: only a clawback names the
/// account that the asset is taken from, and an accept sends nothing from the
/// sender to the sender.
pub proof fn lemma_asset_transfers_are_told_apart(t: TransactionView)
    ensures
        match t.txn_type {
            TransactionTypeView::AssetTransferTransaction(x) => {
                &&& lookup(fields_of(document(t)), "type"@) == Some(JsonView::Text("axfer"@))
                &&& lookup(fields_of(document(t)), "assetSender"@) is None
                &&& lookup(fields_of(document(t)), "amount"@) == Some(JsonView::Number(x.amount))
                &&& lookup(fields_of(document(t)), "to"@) == Some(address_value(x.receiver))
            },
            TransactionTypeView::AssetAcceptTransaction(x) => {
                &&& lookup(fields_of(document(t)), "type"@) == Some(JsonView::Text("axfer"@))
                &&& lookup(fields_of(document(t)), "assetSender"@) is None
                &&& lookup(fields_of(document(t)), "closeRemainderTo"@) is None
                &&& lookup(fields_of(document(t)), "amount"@) == Some(JsonView::Number(0))
                &&& lookup(fields_of(document(t)), "from"@) == Some(address_value(x.sender))
                &&& lookup(fields_of(document(t)), "to"@) == Some(address_value(x.sender))
                &&& lookup(fields_of(document(t)), "assetIndex"@) == Some(
                    JsonView::Number(x.xfer),
                )
            },
            TransactionTypeView::AssetClawbackTransaction(x) => {
                &&& lookup(fields_of(document(t)), "type"@) == Some(JsonView::Text("axfer"@))
                &&& lookup(fields_of(document(t)), "assetSender"@) == Some(
                    address_value(x.asset_sender),
                )
                &&& lookup(fields_of(document(t)), "amount"@) == Some(
                    JsonView::Number(x.asset_amount),
                )
                &&& lookup(fields_of(document(t)), "to"@) == Some(address_value(x.asset_receiver))
            },
            _ => true,
        },
{
    broadcast use
        lemma_empty_has_key,
        lemma_with_has_key,
        lemma_with_optional_has_key,
        lemma_has_key_concat,
        lemma_lookup_concat,
    ;
    lemma_key_marks();
    if t.txn_type is AssetTransferTransaction || t.txn_type is AssetAcceptTransaction
        || t.txn_type is AssetClawbackTransaction {
        }
}

/// Whether a parameter of an asset is left unset: there are no parameters,
/// or this one is none.
pub open spec fn unset_parameter(
    params: Option<AssetParamsView>,
    unset: spec_fn(AssetParamsView) -> bool,
) -> bool {
    match params {
        Some(p) => unset(p),
        None => true,
    }
}

/// In the document of a payment, a field that is left unset has no key.
pub proof fn lemma_payment_unset_fields(t: TransactionView)
    requires
        t.txn_type is Payment,
        representable(t.txn_type),
    ensures
        t.genesis_id is None ==> !has_key(fields_of(document(t)), "genesisID"@),
        t.group is None ==> !has_key(fields_of(document(t)), "group"@),
        t.lease is None ==> !has_key(fields_of(document(t)), "lease"@),
        t.note is None ==> !has_key(fields_of(document(t)), "note"@),
        t.rekey_to is None ==> !has_key(fields_of(document(t)), "reKeyTo"@),
        t.txn_type->Payment_0.close_remainder_to is None ==> !has_key(
            fields_of(document(t)),
            "closeRemainderTo"@,
        ),
{
    broadcast use
        lemma_empty_has_key,
        lemma_with_has_key,
        lemma_with_optional_has_key,
        lemma_has_key_concat,
        lemma_lookup_concat,
    ;
    lemma_key_marks();
}

/// In the document of a key registration, a field that is left unset has no key.
pub proof fn lemma_key_registration_unset_fields(t: TransactionView)
    requires
        t.txn_type is KeyRegistration,
        representable(t.txn_type),
    ensures
        t.genesis_id is None ==> !has_key(fields_of(document(t)), "genesisID"@),
        t.group is None ==> !has_key(fields_of(document(t)), "group"@),
        t.lease is None ==> !has_key(fields_of(document(t)), "lease"@),
        t.note is None ==> !has_key(fields_of(document(t)), "note"@),
        t.rekey_to is None ==> !has_key(fields_of(document(t)), "reKeyTo"@),
        t.txn_type->KeyRegistration_0.vote_pk is None ==> !has_key(
            fields_of(document(t)),
            "voteKey"@,
        ),
        t.txn_type->KeyRegistration_0.selection_pk is None ==> !has_key(
            fields_of(document(t)),
            "selectionKey"@,
        ),
        t.txn_type->KeyRegistration_0.vote_first is None ==> !has_key(
            fields_of(document(t)),
            "voteFirst"@,
        ),
        t.txn_type->KeyRegistration_0.vote_last is None ==> !has_key(
            fields_of(document(t)),
            "voteLast"@,
        ),
        t.txn_type->KeyRegistration_0.vote_key_dilution is None ==> !has_key(
            fields_of(document(t)),
            "voteKeyDilution"@,
        ),
{
    broadcast use
        lemma_empty_has_key,
        lemma_with_has_key,
        lemma_with_optional_has_key,
        lemma_has_key_concat,
        lemma_lookup_concat,
    ;
    lemma_key_marks();
}

/// In the document of an asset configuration, a field that is left unset has no key.
pub proof fn lemma_asset_configuration_unset_fields(t: TransactionView)
    requires
        t.txn_type is AssetConfigurationTransaction,
        representable(t.txn_type),
    ensures
        t.genesis_id is None ==> !has_key(fields_of(document(t)), "genesisID"@),
        t.group is None ==> !has_key(fields_of(document(t)), "group"@),
        t.lease is None ==> !has_key(fields_of(document(t)), "lease"@),
        t.note is None ==> !has_key(fields_of(document(t)), "note"@),
        t.rekey_to is None ==> !has_key(fields_of(document(t)), "reKeyTo"@),
        unset_parameter(
            t.txn_type->AssetConfigurationTransaction_0.params,
            |p: AssetParamsView| p.asset_name is None,
        ) ==> !has_key(fields_of(document(t)), "assetName"@),
        unset_parameter(
            t.txn_type->AssetConfigurationTransaction_0.params,
            |p: AssetParamsView| p.unit_name is None,
        ) ==> !has_key(fields_of(document(t)), "assetUnitName"@),
        unset_parameter(
            t.txn_type->AssetConfigurationTransaction_0.params,
            |p: AssetParamsView| p.decimals is None,
        ) ==> !has_key(fields_of(document(t)), "assetDecimals"@),
        unset_parameter(
            t.txn_type->AssetConfigurationTransaction_0.params,
            |p: AssetParamsView| p.total is None,
        ) ==> !has_key(fields_of(document(t)), "assetTotal"@),
        unset_parameter(
            t.txn_type->AssetConfigurationTransaction_0.params,
            |p: AssetParamsView| p.url is None,
        ) ==> !has_key(fields_of(document(t)), "assetURL"@),
        unset_parameter(
            t.txn_type->AssetConfigurationTransaction_0.params,
            |p: AssetParamsView| p.freeze is None,
        ) ==> !has_key(fields_of(document(t)), "assetFreeze"@),
        unset_parameter(
            t.txn_type->AssetConfigurationTransaction_0.params,
            |p: AssetParamsView| p.manager is None,
        ) ==> !has_key(fields_of(document(t)), "assetManager"@),
        unset_parameter(
            t.txn_type->AssetConfigurationTransaction_0.params,
            |p: AssetParamsView| p.reserve is None,
        ) ==> !has_key(fields_of(document(t)), "assetReserve"@),
        unset_parameter(
            t.txn_type->AssetConfigurationTransaction_0.params,
            |p: AssetParamsView| p.default_frozen is None,
        ) ==> !has_key(fields_of(document(t)), "assetDefaultFrozen"@),
{
    broadcast use
        lemma_empty_has_key,
        lemma_with_has_key,
        lemma_with_optional_has_key,
        lemma_has_key_concat,
        lemma_lookup_concat,
    ;
    lemma_key_marks();
}

/// In the document of an asset transfer, a field that is left unset has no key.
pub proof fn lemma_asset_transfer_unset_fields(t: TransactionView)
    requires
        t.txn_type is AssetTransferTransaction,
        representable(t.txn_type),
    ensures
        t.genesis_id is None ==> !has_key(fields_of(document(t)), "genesisID"@),
        t.group is None ==> !has_key(fields_of(document(t)), "group"@),
        t.lease is None ==> !has_key(fields_of(document(t)), "lease"@),
        t.note is None ==> !has_key(fields_of(document(t)), "note"@),
        t.rekey_to is None ==> !has_key(fields_of(document(t)), "reKeyTo"@),
        t.txn_type->AssetTransferTransaction_0.close_to is None ==> !has_key(
            fields_of(document(t)),
            "closeRemainderTo"@,
        ),
        !has_key(fields_of(document(t)), "assetSender"@),
{
    broadcast use
        lemma_empty_has_key,
        lemma_with_has_key,
        lemma_with_optional_has_key,
        lemma_has_key_concat,
        lemma_lookup_concat,
    ;
    lemma_key_marks();
}

/// In the document of an asset accept, a field that is left unset has no key.
pub proof fn lemma_asset_accept_unset_fields(t: TransactionView)
    requires
        t.txn_type is AssetAcceptTransaction,
        representable(t.txn_type),
    ensures
        t.genesis_id is None ==> !has_key(fields_of(document(t)), "genesisID"@),
        t.group is None ==> !has_key(fields_of(document(t)), "group"@),
        t.lease is None ==> !has_key(fields_of(document(t)), "lease"@),
        t.note is None ==> !has_key(fields_of(document(t)), "note"@),
        t.rekey_to is None ==> !has_key(fields_of(document(t)), "reKeyTo"@),
        !has_key(fields_of(document(t)), "closeRemainderTo"@),
        !has_key(fields_of(document(t)), "assetSender"@),
{
    broadcast use
        lemma_empty_has_key,
        lemma_with_has_key,
        lemma_with_optional_has_key,
        lemma_has_key_concat,
        lemma_lookup_concat,
    ;
    lemma_key_marks();
}

/// In the document of an asset clawback, a field that is left unset has no key.
pub proof fn lemma_asset_clawback_unset_fields(t: TransactionView)
    requires
        t.txn_type is AssetClawbackTransaction,
        representable(t.txn_type),
    ensures
        t.genesis_id is None ==> !has_key(fields_of(document(t)), "genesisID"@),
        t.group is None ==> !has_key(fields_of(document(t)), "group"@),
        t.lease is None ==> !has_key(fields_of(document(t)), "lease"@),
        t.note is None ==> !has_key(fields_of(document(t)), "note"@),
        t.rekey_to is None ==> !has_key(fields_of(document(t)), "reKeyTo"@),
        !has_key(fields_of(document(t)), "closeRemainderTo"@),
{
    broadcast use
        lemma_empty_has_key,
        lemma_with_has_key,
        lemma_with_optional_has_key,
        lemma_has_key_concat,
        lemma_lookup_concat,
    ;
    lemma_key_marks();
}

/// In the document of an asset freeze, a field that is left unset has no key.
pub proof fn lemma_asset_freeze_unset_fields(t: TransactionView)
    requires
        t.txn_type is AssetFreezeTransaction,
        representable(t.txn_type),
    ensures
        t.genesis_id is None ==> !has_key(fields_of(document(t)), "genesisID"@),
        t.group is None ==> !has_key(fields_of(document(t)), "group"@),
        t.lease is None ==> !has_key(fields_of(document(t)), "lease"@),
        t.note is None ==> !has_key(fields_of(document(t)), "note"@),
        t.rekey_to is None ==> !has_key(fields_of(document(t)), "reKeyTo"@),
{
    broadcast use
        lemma_empty_has_key,
        lemma_with_has_key,
        lemma_with_optional_has_key,
        lemma_has_key_concat,
        lemma_lookup_concat,
    ;
    lemma_key_marks();
}

/// In the document of an application call, a field that is left unset has no key.
pub proof fn lemma_application_call_unset_fields(t: TransactionView)
    requires
        t.txn_type is ApplicationCallTransaction,
        representable(t.txn_type),
    ensures
        t.genesis_id is None ==> !has_key(fields_of(document(t)), "genesisID"@),
        t.group is None ==> !has_key(fields_of(document(t)), "group"@),
        t.lease is None ==> !has_key(fields_of(document(t)), "lease"@),
        t.note is None ==> !has_key(fields_of(document(t)), "note"@),
        t.rekey_to is None ==> !has_key(fields_of(document(t)), "reKeyTo"@),
        t.txn_type->ApplicationCallTransaction_0.app_arguments is None ==> !has_key(
            fields_of(document(t)),
            "appArgs"@,
        ),
        t.txn_type->ApplicationCallTransaction_0.accounts is None ==> !has_key(
            fields_of(document(t)),
            "appAccounts"@,
        ),
        t.txn_type->ApplicationCallTransaction_0.foreign_apps is None ==> !has_key(
            fields_of(document(t)),
            "appForeignApps"@,
        ),
        t.txn_type->ApplicationCallTransaction_0.foreign_assets is None ==> !has_key(
            fields_of(document(t)),
            "appForeignAssets"@,
        ),
{
    broadcast use
        lemma_empty_has_key,
        lemma_with_has_key,
        lemma_with_optional_has_key,
        lemma_has_key_concat,
        lemma_lookup_concat,
    ;
    lemma_key_marks();
}

} // verus!
