use crate::document::{entries_view, Entries, Json, JsonView};
use crate::error::{Error, ErrorView};
use crate::mapping_laws::{lemma_application_fields_add, lemma_type_fields_add};
use crate::merge::{lemma_merge_adds, merge};
use crate::transaction::{
    address_option_view, Address, ApplicationCallOnComplete,
    ApplicationCallTransaction, ApplicationCallView, AssetParams, AssetParamsView, Transaction,
    TransactionType, TransactionTypeView, TransactionView,
};
use crate::values::{
    accounts_json, accounts_value, address_json, address_value, arguments_json, arguments_value,
    base64_json, base64_value, bytes_json, bytes_value, numbers_json, numbers_value,
    optional_address, optional_address_json, optional_base32, optional_base32_json,
    optional_base64, optional_base64_json, optional_number, optional_number_json, optional_text,
    optional_text_json, put, put_optional, with, with_optional,
};
use vstd::prelude::*;

verus! {

/// The short code by which the schema names a transaction's kind. The three
/// kinds of asset transfer share one code.
pub open spec fn type_tag(kind: TransactionTypeView) -> Seq<char> {
    match kind {
        TransactionTypeView::Payment(_) => "pay"@,
        TransactionTypeView::KeyRegistration(_) => "keyreg"@,
        TransactionTypeView::AssetConfigurationTransaction(_) => "acfg"@,
        TransactionTypeView::AssetTransferTransaction(_) => "axfer"@,
        TransactionTypeView::AssetAcceptTransaction(_) => "axfer"@,
        TransactionTypeView::AssetClawbackTransaction(_) => "axfer"@,
        TransactionTypeView::AssetFreezeTransaction(_) => "afrz"@,
        TransactionTypeView::ApplicationCallTransaction(_) => "appl"@,
    }
}

/// The number by which the schema names an on-complete action.
pub open spec fn on_complete_code(action: ApplicationCallOnComplete) -> u32 {
    match action {
        ApplicationCallOnComplete::NoOp => 0,
        ApplicationCallOnComplete::OptIn => 1,
        ApplicationCallOnComplete::CloseOut => 2,
        ApplicationCallOnComplete::ClearState => 3,
        ApplicationCallOnComplete::UpdateApplication => 4,
        ApplicationCallOnComplete::DeleteApplication => 5,
    }
}

/// The fields that every transaction has, whatever its kind.
pub open spec fn common_fields(t: TransactionView) -> Entries {
    let d = Seq::<(Seq<char>, JsonView)>::empty();
    let d = with(d, "fee"@, JsonView::Number(t.fee));
    let d = with(d, "flatFee"@, JsonView::Bool(true));
    let d = with(d, "firstRound"@, JsonView::Number(t.first_valid));
    let d = with(d, "genesisHash"@, base64_value(t.genesis_hash));
    let d = with(d, "lastRound"@, JsonView::Number(t.last_valid));
    let d = with_optional(d, "genesisID"@, optional_text(t.genesis_id));
    let d = with_optional(d, "group"@, optional_base64(t.group));
    let d = with_optional(d, "lease"@, optional_base64(t.lease));
    let d = with_optional(
        d,
        "note"@,
        match t.note {
            Some(note) => Some(bytes_value(note)),
            None => None,
        },
    );
    let d = with_optional(d, "reKeyTo"@, optional_address(t.rekey_to));
    with(d, "type"@, JsonView::Text(type_tag(t.txn_type)))
}

/// The fields of an asset configuration: the sender and, where parameters are
/// given, each parameter that is set.
pub open spec fn asset_configuration_fields(
    sender: Seq<u8>,
    params: Option<AssetParamsView>,
) -> Entries {
    let d = Seq::<(Seq<char>, JsonView)>::empty();
    let d = with(d, "from"@, address_value(sender));
    match params {
        Some(p) => {
            let d = with_optional(d, "assetName"@, optional_text(p.asset_name));
            let d = with_optional(d, "assetUnitName"@, optional_text(p.unit_name));
            let d = with_optional(
                d,
                "assetDecimals"@,
                match p.decimals {
                    Some(n) => Some(JsonView::Number(n as u64)),
                    None => None,
                },
            );
            let d = with_optional(d, "assetTotal"@, optional_number(p.total));
            let d = with_optional(d, "assetURL"@, optional_text(p.url));
            let d = with_optional(d, "assetFreeze"@, optional_address(p.freeze));
            let d = with_optional(d, "assetManager"@, optional_address(p.manager));
            let d = with_optional(d, "assetReserve"@, optional_address(p.reserve));
            with_optional(
                d,
                "assetDefaultFrozen"@,
                match p.default_frozen {
                    Some(b) => Some(JsonView::Bool(b)),
                    None => None,
                },
            )
        },
        None => d,
    }
}

/// The fields of an asset transfer in the schema, which the three kinds of
/// transfer fill in differently.
pub open spec fn asset_transfer_fields(
    from: Seq<u8>,
    asset: u64,
    to: Seq<u8>,
    amount: u64,
    close_to: Option<Seq<u8>>,
    asset_sender: Option<Seq<u8>>,
) -> Entries {
    let d = Seq::<(Seq<char>, JsonView)>::empty();
    let d = with(d, "from"@, address_value(from));
    let d = with(d, "assetIndex"@, JsonView::Number(asset));
    let d = with(d, "to"@, address_value(to));
    let d = with(d, "amount"@, JsonView::Number(amount));
    let d = with_optional(d, "closeRemainderTo"@, optional_address(close_to));
    with_optional(d, "assetSender"@, optional_address(asset_sender))
}

/// The fields of every kind but the application call.
pub open spec fn plain_type_fields(kind: TransactionTypeView) -> Entries {
    let d = Seq::<(Seq<char>, JsonView)>::empty();
    match kind {
        TransactionTypeView::Payment(p) => {
            let d = with(d, "from"@, address_value(p.sender));
            let d = with(d, "amount"@, JsonView::Number(p.amount));
            let d = with(d, "to"@, address_value(p.receiver));
            with_optional(d, "closeRemainderTo"@, optional_address(p.close_remainder_to))
        },
        TransactionTypeView::KeyRegistration(r) => {
            let d = with(d, "from"@, address_value(r.sender));
            let d = with_optional(d, "voteKey"@, optional_base32(r.vote_pk));
            let d = with_optional(d, "selectionKey"@, optional_base32(r.selection_pk));
            let d = with_optional(d, "voteFirst"@, optional_number(r.vote_first));
            let d = with_optional(d, "voteLast"@, optional_number(r.vote_last));
            with_optional(d, "voteKeyDilution"@, optional_number(r.vote_key_dilution))
        },
        TransactionTypeView::AssetConfigurationTransaction(c) => asset_configuration_fields(
            c.sender,
            c.params,
        ),
        TransactionTypeView::AssetTransferTransaction(x) => asset_transfer_fields(
            x.sender,
            x.xfer,
            x.receiver,
            x.amount,
            x.close_to,
            None,
        ),
        TransactionTypeView::AssetAcceptTransaction(x) => asset_transfer_fields(
            x.sender,
            x.xfer,
            x.sender,
            0,
            None,
            None,
        ),
        TransactionTypeView::AssetClawbackTransaction(x) => asset_transfer_fields(
            x.sender,
            x.xfer,
            x.asset_receiver,
            x.asset_amount,
            None,
            Some(x.asset_sender),
        ),
        TransactionTypeView::AssetFreezeTransaction(f) => {
            let d = with(d, "from"@, address_value(f.sender));
            let d = with(d, "assetIndex"@, JsonView::Number(f.asset_id));
            let d = with(d, "freezeAccount"@, address_value(f.freeze_account));
            with(d, "freezeState"@, JsonView::Bool(f.frozen))
        },
        TransactionTypeView::ApplicationCallTransaction(_) => d,
    }
}

/// The fields that every application call has, whatever its shape.
pub open spec fn application_common_fields(a: ApplicationCallView) -> Entries {
    let d = Seq::<(Seq<char>, JsonView)>::empty();
    let d = with(d, "from"@, address_value(a.sender));
    let d = with_optional(
        d,
        "appArgs"@,
        match a.app_arguments {
            Some(arguments) => Some(arguments_value(arguments)),
            None => None,
        },
    );
    let d = with_optional(
        d,
        "appAccounts"@,
        match a.accounts {
            Some(accounts) => Some(accounts_value(accounts)),
            None => None,
        },
    );
    let d = with_optional(
        d,
        "appForeignApps"@,
        match a.foreign_apps {
            Some(apps) => Some(numbers_value(apps)),
            None => None,
        },
    );
    with_optional(
        d,
        "appForeignAssets"@,
        match a.foreign_assets {
            Some(assets) => Some(numbers_value(assets)),
            None => None,
        },
    )
}

/// The shapes of application call that the schema knows.
pub enum ApplicationCallKind {
    Create,
    Call,
    OptIn,
    CloseOut,
    Clear,
    Update,
    Delete,
}

/// The shape that the six parts of an application call make, if they make
/// one: the action, the application id, and which of the two programs and the
/// two schemas are there.
pub open spec fn application_kind(a: ApplicationCallView) -> Option<ApplicationCallKind> {
    let programs = a.approval_program is Some && a.clear_state_program is Some;
    let no_programs = a.approval_program is None && a.clear_state_program is None;
    let schemas = a.global_state_schema is Some && a.local_state_schema is Some;
    let no_schemas = a.global_state_schema is None && a.local_state_schema is None;
    if a.app_id is None {
        if a.on_complete == ApplicationCallOnComplete::NoOp && programs && schemas {
            Some(ApplicationCallKind::Create)
        } else {
            None
        }
    } else if no_programs && no_schemas {
        match a.on_complete {
            ApplicationCallOnComplete::NoOp => Some(ApplicationCallKind::Call),
            ApplicationCallOnComplete::OptIn => Some(ApplicationCallKind::OptIn),
            ApplicationCallOnComplete::CloseOut => Some(ApplicationCallKind::CloseOut),
            ApplicationCallOnComplete::ClearState => Some(ApplicationCallKind::Clear),
            ApplicationCallOnComplete::DeleteApplication => Some(ApplicationCallKind::Delete),
            ApplicationCallOnComplete::UpdateApplication => None,
        }
    } else if a.on_complete == ApplicationCallOnComplete::UpdateApplication && programs
        && no_schemas {
        Some(ApplicationCallKind::Update)
    } else {
        None
    }
}

/// The fields that the shape of an application call adds.
pub open spec fn application_fields(a: ApplicationCallView) -> Entries
    recommends
        application_kind(a) is Some,
{
    let d = Seq::<(Seq<char>, JsonView)>::empty();
    let code = JsonView::Number(on_complete_code(a.on_complete) as u64);
    match application_kind(a) {
        Some(ApplicationCallKind::Create) => {
            let d = with(d, "appApprovalProgram"@, base64_value(a.approval_program->0));
            let d = with(d, "appClearProgram"@, base64_value(a.clear_state_program->0));
            let d = with(
                d,
                "appLocalInts"@,
                JsonView::Number(a.local_state_schema->0.number_ints),
            );
            let d = with(
                d,
                "appLocalByteSlices"@,
                JsonView::Number(a.local_state_schema->0.number_byteslices),
            );
            let d = with(
                d,
                "appGlobalInts"@,
                JsonView::Number(a.global_state_schema->0.number_ints),
            );
            let d = with(
                d,
                "appGlobalByteSlices"@,
                JsonView::Number(a.global_state_schema->0.number_byteslices),
            );
            let d = with(d, "appOnComplete"@, code);
            with(d, "extraPages"@, JsonView::Number(a.extra_pages as u64))
        },
        Some(ApplicationCallKind::Update) => {
            let d = with(d, "appIndex"@, JsonView::Number(a.app_id->0));
            let d = with(d, "appOnComplete"@, code);
            let d = with(d, "appApprovalProgram"@, base64_value(a.approval_program->0));
            with(d, "appClearProgram"@, base64_value(a.clear_state_program->0))
        },
        Some(_) => {
            let d = with(d, "appIndex"@, JsonView::Number(a.app_id->0));
            with(d, "appOnComplete"@, code)
        },
        None => d,
    }
}

/// The document of an application call: its common fields, then the fields
/// of its shape.
pub open spec fn application_document(a: ApplicationCallView) -> JsonView {
    JsonView::Object(application_common_fields(a) + application_fields(a))
}

/// Whether the schema can express the transaction.
pub open spec fn representable(kind: TransactionTypeView) -> bool {
    match kind {
        TransactionTypeView::ApplicationCallTransaction(a) => application_kind(a) is Some,
        _ => true,
    }
}

/// The fields that the kind of a transaction adds to the common ones, in
/// order.
pub open spec fn type_fields(kind: TransactionTypeView) -> Entries {
    match kind {
        TransactionTypeView::ApplicationCallTransaction(a) => application_common_fields(a)
            + application_fields(a),
        _ => plain_type_fields(kind),
    }
}

/// The document that the wallet is given for a transaction: the common
/// fields, then the fields of its kind.
pub open spec fn document(t: TransactionView) -> JsonView {
    JsonView::Object(common_fields(t) + type_fields(t.txn_type))
}

/// What mapping an application call gives: its document where the schema
/// knows its shape, and else the error that hands the call back.
pub open spec fn application_mapping(a: ApplicationCallView) -> Result<JsonView, ErrorView> {
    if application_kind(a) is Some {
        Ok(application_document(a))
    } else {
        Err(ErrorView::InvalidTransactionState(a))
    }
}

/// What mapping a transaction gives: its document where the schema can
/// express it, and else the error that hands the offending call back.
pub open spec fn mapping(t: TransactionView) -> Result<JsonView, ErrorView> {
    match t.txn_type {
        TransactionTypeView::ApplicationCallTransaction(a) if application_kind(a) is None => Err(
            ErrorView::InvalidTransactionState(a),
        ),
        _ => Ok(document(t)),
    }
}

/// The mathematical value of a mapping's result.
pub open spec fn result_view(r: Result<Json, Error>) -> Result<JsonView, ErrorView> {
    match r {
        Ok(d) => Ok(d@),
        Err(e) => Err(e@),
    }
}

/// An empty run of fields.
fn new_fields() -> (d: Vec<(String, Json)>)
    ensures
        entries_view(d@) == Seq::<(Seq<char>, JsonView)>::empty(),
{
    let d: Vec<(String, Json)> = Vec::new();
    assert(entries_view(d@) =~= Seq::<(Seq<char>, JsonView)>::empty());
    d
}

/// The schema's short code for the kind of a transaction.
pub fn to_api_transaction_type(kind: &TransactionType) -> (r: &'static str)
    ensures
        r@ == type_tag(kind@),
{
    match kind {
        TransactionType::Payment(_) => "pay",
        TransactionType::KeyRegistration(_) => "keyreg",
        TransactionType::AssetConfigurationTransaction(_) => "acfg",
        TransactionType::AssetTransferTransaction(_) => "axfer",
        TransactionType::AssetAcceptTransaction(_) => "axfer",
        TransactionType::AssetClawbackTransaction(_) => "axfer",
        TransactionType::AssetFreezeTransaction(_) => "afrz",
        TransactionType::ApplicationCallTransaction(_) => "appl",
    }
}

/// The schema's number for an on-complete action.
pub fn app_on_complete_to_my_algo_index(on_complete: &ApplicationCallOnComplete) -> (r: u32)
    ensures
        r == on_complete_code(*on_complete),
{
    match on_complete {
        ApplicationCallOnComplete::NoOp => 0,
        ApplicationCallOnComplete::OptIn => 1,
        ApplicationCallOnComplete::CloseOut => 2,
        ApplicationCallOnComplete::ClearState => 3,
        ApplicationCallOnComplete::UpdateApplication => 4,
        ApplicationCallOnComplete::DeleteApplication => 5,
    }
}

/// Builds the fields that every transaction has.
pub fn to_my_algo_transaction_common_fields(t: &Transaction) -> (r: Json)
    ensures
        r@ == JsonView::Object(common_fields(t@)),
{
    let mut d = new_fields();
    put(&mut d, "fee", Json::Number(t.fee));
    put(&mut d, "flatFee", Json::Bool(true));
    put(&mut d, "firstRound", Json::Number(t.first_valid));
    put(&mut d, "genesisHash", base64_json(t.genesis_hash.as_slice()));
    put(&mut d, "lastRound", Json::Number(t.last_valid));
    put_optional(&mut d, "genesisID", optional_text_json(&t.genesis_id));
    put_optional(&mut d, "group", optional_base64_json(&t.group));
    put_optional(&mut d, "lease", optional_base64_json(&t.lease));
    let note = match &t.note {
        Some(note) => Some(bytes_json(note)),
        None => None,
    };
    put_optional(&mut d, "note", note);
    put_optional(&mut d, "reKeyTo", optional_address_json(&t.rekey_to));
    put(&mut d, "type", Json::Text(to_api_transaction_type(&t.txn_type).to_owned()));
    Json::Object(d)
}

/// Builds the fields of an asset configuration.
pub fn to_my_algo_asset_configuration_transaction_fields(
    sender: &Address,
    params: &Option<AssetParams>,
) -> (r: Json)
    ensures
        r@ == JsonView::Object(
            asset_configuration_fields(
                sender@,
                match params {
                    Some(p) => Some(p@),
                    None => None,
                },
            ),
        ),
{
    let mut d = new_fields();
    put(&mut d, "from", address_json(sender));
    match params {
        Some(p) => {
            put_optional(&mut d, "assetName", optional_text_json(&p.asset_name));
            put_optional(&mut d, "assetUnitName", optional_text_json(&p.unit_name));
            let decimals = match p.decimals {
                Some(n) => Some(Json::Number(n as u64)),
                None => None,
            };
            put_optional(&mut d, "assetDecimals", decimals);
            put_optional(&mut d, "assetTotal", optional_number_json(&p.total));
            put_optional(&mut d, "assetURL", optional_text_json(&p.url));
            put_optional(&mut d, "assetFreeze", optional_address_json(&p.freeze));
            put_optional(&mut d, "assetManager", optional_address_json(&p.manager));
            put_optional(&mut d, "assetReserve", optional_address_json(&p.reserve));
            let frozen = match p.default_frozen {
                Some(b) => Some(Json::Bool(b)),
                None => None,
            };
            put_optional(&mut d, "assetDefaultFrozen", frozen);
        },
        None => {},
    }
    Json::Object(d)
}

/// Builds the fields of an asset transfer of any of the three kinds.
fn to_my_algo_asset_transfer_fields(
    from: &Address,
    asset: u64,
    to: &Address,
    amount: u64,
    close_to: &Option<Address>,
    asset_sender: &Option<Address>,
) -> (r: Json)
    ensures
        r@ == JsonView::Object(
            asset_transfer_fields(
                from@,
                asset,
                to@,
                amount,
                address_option_view(*close_to),
                address_option_view(*asset_sender),
            ),
        ),
{
    let mut d = new_fields();
    put(&mut d, "from", address_json(from));
    put(&mut d, "assetIndex", Json::Number(asset));
    put(&mut d, "to", address_json(to));
    put(&mut d, "amount", Json::Number(amount));
    put_optional(&mut d, "closeRemainderTo", optional_address_json(close_to));
    put_optional(&mut d, "assetSender", optional_address_json(asset_sender));
    Json::Object(d)
}

/// Builds the fields that every application call has.
pub fn to_my_algo_app_transaction_common_fields(a: &ApplicationCallTransaction) -> (r: Json)
    ensures
        r@ == JsonView::Object(application_common_fields(a@)),
{
    let mut d = new_fields();
    put(&mut d, "from", address_json(&a.sender));
    let arguments = match &a.app_arguments {
        Some(arguments) => Some(arguments_json(arguments)),
        None => None,
    };
    put_optional(&mut d, "appArgs", arguments);
    let accounts = match &a.accounts {
        Some(accounts) => Some(accounts_json(accounts)),
        None => None,
    };
    put_optional(&mut d, "appAccounts", accounts);
    let apps = match &a.foreign_apps {
        Some(apps) => Some(numbers_json(apps)),
        None => None,
    };
    put_optional(&mut d, "appForeignApps", apps);
    let assets = match &a.foreign_assets {
        Some(assets) => Some(numbers_json(assets)),
        None => None,
    };
    put_optional(&mut d, "appForeignAssets", assets);
    Json::Object(d)
}

/// Builds the fields of an application call's shape, or refuses a call whose
/// parts make no shape that the schema knows.
pub fn to_my_algo_app_transaction_fields(a: &ApplicationCallTransaction) -> (r: Result<Json, Error>)
    ensures
        match r {
            Ok(fields) => application_kind(a@) is Some && fields@ == JsonView::Object(
                application_fields(a@),
            ),
            Err(e) => application_kind(a@) is None && e@ == ErrorView::InvalidTransactionState(
                a@,
            ),
        },
{
    let code = Json::Number(app_on_complete_to_my_algo_index(&a.on_complete) as u64);
    let mut d = new_fields();
    match (
        &a.on_complete,
        a.app_id,
        &a.approval_program,
        &a.clear_state_program,
        &a.global_state_schema,
        &a.local_state_schema,
    ) {
        (
            ApplicationCallOnComplete::NoOp,
            None,
            Some(approval),
            Some(clear),
            Some(global_schema),
            Some(local_schema),
        ) => {
            put(&mut d, "appApprovalProgram", base64_json(approval.as_slice()));
            put(&mut d, "appClearProgram", base64_json(clear.as_slice()));
            put(&mut d, "appLocalInts", Json::Number(local_schema.number_ints));
            put(&mut d, "appLocalByteSlices", Json::Number(local_schema.number_byteslices));
            put(&mut d, "appGlobalInts", Json::Number(global_schema.number_ints));
            put(&mut d, "appGlobalByteSlices", Json::Number(global_schema.number_byteslices));
            put(&mut d, "appOnComplete", code);
            put(&mut d, "extraPages", Json::Number(a.extra_pages as u64));
            Ok(Json::Object(d))
        },
        (
            ApplicationCallOnComplete::NoOp
            | ApplicationCallOnComplete::OptIn
            | ApplicationCallOnComplete::CloseOut
            | ApplicationCallOnComplete::ClearState
            | ApplicationCallOnComplete::DeleteApplication,
            Some(app_id),
            None,
            None,
            None,
            None,
        ) => {
            put(&mut d, "appIndex", Json::Number(app_id));
            put(&mut d, "appOnComplete", code);
            Ok(Json::Object(d))
        },
        (
            ApplicationCallOnComplete::UpdateApplication,
            Some(app_id),
            Some(approval),
            Some(clear),
            None,
            None,
        ) => {
            put(&mut d, "appIndex", Json::Number(app_id));
            put(&mut d, "appOnComplete", code);
            put(&mut d, "appApprovalProgram", base64_json(approval.as_slice()));
            put(&mut d, "appClearProgram", base64_json(clear.as_slice()));
            Ok(Json::Object(d))
        },
        _ => Err(Error::InvalidTransactionState(a.copy())),
    }
}

/// Builds the document of an application call: its common fields with the
/// fields of its shape laid over them.
pub fn to_my_algo_app_call(a: &ApplicationCallTransaction) -> (r: Result<Json, Error>)
    ensures
        result_view(r) == application_mapping(a@),
{
    let common = to_my_algo_app_transaction_common_fields(a);
    match to_my_algo_app_transaction_fields(a) {
        Ok(overlay) => {
            let mut all_fields = common;
            merge(&mut all_fields, overlay);
            proof {
                lemma_application_fields_add(a@);
                lemma_merge_adds(application_common_fields(a@), application_fields(a@));
            }
            Ok(all_fields)
        },
        Err(e) => Err(e),
    }
}

/// Builds the fields that the kind of a transaction adds.
pub fn to_my_algo_transaction_type_fields(t: &Transaction) -> (r: Result<Json, Error>)
    ensures
        match r {
            Ok(fields) => representable(t@.txn_type) && fields@ == JsonView::Object(
                type_fields(t@.txn_type),
            ),
            Err(e) => mapping(t@) == Err::<JsonView, ErrorView>(e@),
        },
{
    match &t.txn_type {
        TransactionType::Payment(p) => {
            let mut d = new_fields();
            put(&mut d, "from", address_json(&p.sender));
            put(&mut d, "amount", Json::Number(p.amount));
            put(&mut d, "to", address_json(&p.receiver));
            put_optional(&mut d, "closeRemainderTo", optional_address_json(&p.close_remainder_to));
            Ok(Json::Object(d))
        },
        TransactionType::KeyRegistration(r) => {
            let mut d = new_fields();
            put(&mut d, "from", address_json(&r.sender));
            put_optional(&mut d, "voteKey", optional_base32_json(&r.vote_pk));
            put_optional(&mut d, "selectionKey", optional_base32_json(&r.selection_pk));
            put_optional(&mut d, "voteFirst", optional_number_json(&r.vote_first));
            put_optional(&mut d, "voteLast", optional_number_json(&r.vote_last));
            put_optional(&mut d, "voteKeyDilution", optional_number_json(&r.vote_key_dilution));
            Ok(Json::Object(d))
        },
        TransactionType::AssetConfigurationTransaction(c) => Ok(
            to_my_algo_asset_configuration_transaction_fields(&c.sender, &c.params),
        ),
        TransactionType::AssetTransferTransaction(x) => Ok(
            to_my_algo_asset_transfer_fields(
                &x.sender,
                x.xfer,
                &x.receiver,
                x.amount,
                &x.close_to,
                &None,
            ),
        ),
        TransactionType::AssetAcceptTransaction(x) => Ok(
            to_my_algo_asset_transfer_fields(&x.sender, x.xfer, &x.sender, 0, &None, &None),
        ),
        TransactionType::AssetClawbackTransaction(x) => Ok(
            to_my_algo_asset_transfer_fields(
                &x.sender,
                x.xfer,
                &x.asset_receiver,
                x.asset_amount,
                &None,
                &Some(x.asset_sender),
            ),
        ),
        TransactionType::AssetFreezeTransaction(f) => {
            let mut d = new_fields();
            put(&mut d, "from", address_json(&f.sender));
            put(&mut d, "assetIndex", Json::Number(f.asset_id));
            put(&mut d, "freezeAccount", address_json(&f.freeze_account));
            put(&mut d, "freezeState", Json::Bool(f.frozen));
            Ok(Json::Object(d))
        },
        TransactionType::ApplicationCallTransaction(a) => to_my_algo_app_call(a),
    }
}

/// Maps a transaction to the document that the wallet signs.
pub fn to_my_algo_transaction_value(t: &Transaction) -> (r: Result<Json, Error>)
    ensures
        result_view(r) == mapping(t@),
{
    let common = to_my_algo_transaction_common_fields(t);
    match to_my_algo_transaction_type_fields(t) {
        Ok(overlay) => {
            let mut all_fields = common;
            merge(&mut all_fields, overlay);
            proof {
                lemma_type_fields_add(t@);
                lemma_merge_adds(common_fields(t@), type_fields(t@.txn_type));
            }
            Ok(all_fields)
        },
        Err(e) => Err(e),
    }
}

} // verus!
