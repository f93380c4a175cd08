use vstd::prelude::*;

verus! {

/// The public key of an account.
#[derive(Debug, Clone, Copy, PartialEq, Eq)]
pub struct Address(pub [u8; 32]);

/// What an application call asks the ledger to do once the program has run.
#[derive(Debug, Clone, Copy, PartialEq, Eq)]
pub enum ApplicationCallOnComplete {
    NoOp,
    OptIn,
    CloseOut,
    ClearState,
    UpdateApplication,
    DeleteApplication,
}

/// How much storage an application may use.
#[derive(Debug, Clone, Copy, PartialEq, Eq)]
pub struct StateSchema {
    pub number_ints: u64,
    pub number_byteslices: u64,
}

#[derive(Debug, Clone, PartialEq, Eq)]
pub struct Payment {
    pub sender: Address,
    pub receiver: Address,
    /// In microalgos.
    pub amount: u64,
    pub close_remainder_to: Option<Address>,
}

#[derive(Debug, Clone, PartialEq, Eq)]
pub struct KeyRegistration {
    pub sender: Address,
    pub vote_pk: Option<[u8; 32]>,
    pub selection_pk: Option<[u8; 32]>,
    pub vote_first: Option<u64>,
    pub vote_last: Option<u64>,
    pub vote_key_dilution: Option<u64>,
}

#[derive(Debug, Clone, PartialEq, Eq)]
pub struct AssetParams {
    pub asset_name: Option<String>,
    pub decimals: Option<u32>,
    pub default_frozen: Option<bool>,
    pub total: Option<u64>,
    pub unit_name: Option<String>,
    pub url: Option<String>,
    pub freeze: Option<Address>,
    pub manager: Option<Address>,
    pub reserve: Option<Address>,
}

#[derive(Debug, Clone, PartialEq, Eq)]
pub struct AssetConfigurationTransaction {
    pub sender: Address,
    /// Absent when the asset is destroyed.
    pub params: Option<AssetParams>,
}

#[derive(Debug, Clone, PartialEq, Eq)]
pub struct AssetTransferTransaction {
    pub sender: Address,
    pub xfer: u64,
    pub amount: u64,
    pub receiver: Address,
    pub close_to: Option<Address>,
}

#[derive(Debug, Clone, PartialEq, Eq)]
pub struct AssetAcceptTransaction {
    pub sender: Address,
    pub xfer: u64,
}

#[derive(Debug, Clone, PartialEq, Eq)]
pub struct AssetClawbackTransaction {
    /// The clawback authority.
    pub sender: Address,
    pub xfer: u64,
    pub asset_amount: u64,
    /// The account that the asset is taken from.
    pub asset_sender: Address,
    pub asset_receiver: Address,
}

#[derive(Debug, Clone, PartialEq, Eq)]
pub struct AssetFreezeTransaction {
    pub sender: Address,
    pub freeze_account: Address,
    pub asset_id: u64,
    pub frozen: bool,
}

#[derive(Debug, Clone, PartialEq, Eq)]
pub struct ApplicationCallTransaction {
    pub sender: Address,
    pub app_id: Option<u64>,
    pub on_complete: ApplicationCallOnComplete,
    pub accounts: Option<Vec<Address>>,
    pub approval_program: Option<Vec<u8>>,
    pub app_arguments: Option<Vec<Vec<u8>>>,
    pub clear_state_program: Option<Vec<u8>>,
    pub foreign_apps: Option<Vec<u64>>,
    pub foreign_assets: Option<Vec<u64>>,
    pub global_state_schema: Option<StateSchema>,
    pub local_state_schema: Option<StateSchema>,
    pub extra_pages: u32,
}

#[derive(Debug, Clone, PartialEq, Eq)]
pub enum TransactionType {
    Payment(Payment),
    KeyRegistration(KeyRegistration),
    AssetConfigurationTransaction(AssetConfigurationTransaction),
    AssetTransferTransaction(AssetTransferTransaction),
    AssetAcceptTransaction(AssetAcceptTransaction),
    AssetClawbackTransaction(AssetClawbackTransaction),
    AssetFreezeTransaction(AssetFreezeTransaction),
    ApplicationCallTransaction(ApplicationCallTransaction),
}

/// A transaction as the caller hands it over for signing.
#[derive(Debug, Clone, PartialEq, Eq)]
pub struct Transaction {
    /// In microalgos.
    pub fee: u64,
    pub first_valid: u64,
    pub genesis_hash: [u8; 32],
    pub last_valid: u64,
    pub txn_type: TransactionType,
    pub genesis_id: Option<String>,
    pub group: Option<[u8; 32]>,
    pub lease: Option<[u8; 32]>,
    pub note: Option<Vec<u8>>,
    pub rekey_to: Option<Address>,
}

/// The mathematical value of a [`Payment`]: each address is its key.
pub ghost struct PaymentView {
    pub sender: Seq<u8>,
    pub receiver: Seq<u8>,
    pub amount: u64,
    pub close_remainder_to: Option<Seq<u8>>,
}

pub ghost struct KeyRegistrationView {
    pub sender: Seq<u8>,
    pub vote_pk: Option<Seq<u8>>,
    pub selection_pk: Option<Seq<u8>>,
    pub vote_first: Option<u64>,
    pub vote_last: Option<u64>,
    pub vote_key_dilution: Option<u64>,
}

pub ghost struct AssetParamsView {
    pub asset_name: Option<Seq<char>>,
    pub decimals: Option<u32>,
    pub default_frozen: Option<bool>,
    pub total: Option<u64>,
    pub unit_name: Option<Seq<char>>,
    pub url: Option<Seq<char>>,
    pub freeze: Option<Seq<u8>>,
    pub manager: Option<Seq<u8>>,
    pub reserve: Option<Seq<u8>>,
}

pub ghost struct AssetConfigurationView {
    pub sender: Seq<u8>,
    pub params: Option<AssetParamsView>,
}

pub ghost struct AssetTransferView {
    pub sender: Seq<u8>,
    pub xfer: u64,
    pub amount: u64,
    pub receiver: Seq<u8>,
    pub close_to: Option<Seq<u8>>,
}

pub ghost struct AssetAcceptView {
    pub sender: Seq<u8>,
    pub xfer: u64,
}

pub ghost struct AssetClawbackView {
    pub sender: Seq<u8>,
    pub xfer: u64,
    pub asset_amount: u64,
    pub asset_sender: Seq<u8>,
    pub asset_receiver: Seq<u8>,
}

pub ghost struct AssetFreezeView {
    pub sender: Seq<u8>,
    pub freeze_account: Seq<u8>,
    pub asset_id: u64,
    pub frozen: bool,
}

pub ghost struct ApplicationCallView {
    pub sender: Seq<u8>,
    pub app_id: Option<u64>,
    pub on_complete: ApplicationCallOnComplete,
    pub accounts: Option<Seq<Seq<u8>>>,
    pub approval_program: Option<Seq<u8>>,
    pub app_arguments: Option<Seq<Seq<u8>>>,
    pub clear_state_program: Option<Seq<u8>>,
    pub foreign_apps: Option<Seq<u64>>,
    pub foreign_assets: Option<Seq<u64>>,
    pub global_state_schema: Option<StateSchema>,
    pub local_state_schema: Option<StateSchema>,
    pub extra_pages: u32,
}

pub ghost enum TransactionTypeView {
    Payment(PaymentView),
    KeyRegistration(KeyRegistrationView),
    AssetConfigurationTransaction(AssetConfigurationView),
    AssetTransferTransaction(AssetTransferView),
    AssetAcceptTransaction(AssetAcceptView),
    AssetClawbackTransaction(AssetClawbackView),
    AssetFreezeTransaction(AssetFreezeView),
    ApplicationCallTransaction(ApplicationCallView),
}

/// The mathematical value of a [`Transaction`].
pub ghost struct TransactionView {
    pub fee: u64,
    pub first_valid: u64,
    pub genesis_hash: Seq<u8>,
    pub last_valid: u64,
    pub txn_type: TransactionTypeView,
    pub genesis_id: Option<Seq<char>>,
    pub group: Option<Seq<u8>>,
    pub lease: Option<Seq<u8>>,
    pub note: Option<Seq<u8>>,
    pub rekey_to: Option<Seq<u8>>,
}

/// The key of an address that may be missing.
pub open spec fn address_option_view(value: Option<Address>) -> Option<Seq<u8>> {
    match value {
        Some(a) => Some(a@),
        None => None,
    }
}

/// The bytes of a key or hash that may be missing.
pub open spec fn key_option_view(value: Option<[u8; 32]>) -> Option<Seq<u8>> {
    match value {
        Some(k) => Some(k@),
        None => None,
    }
}

/// The characters of a text that may be missing.
pub open spec fn text_option_view(value: Option<String>) -> Option<Seq<char>> {
    match value {
        Some(s) => Some(s@),
        None => None,
    }
}

/// The bytes of a byte string that may be missing.
pub open spec fn bytes_option_view(value: Option<Vec<u8>>) -> Option<Seq<u8>> {
    match value {
        Some(b) => Some(b@),
        None => None,
    }
}

/// The numbers of a list that may be missing.
pub open spec fn numbers_option_view(value: Option<Vec<u64>>) -> Option<Seq<u64>> {
    match value {
        Some(n) => Some(n@),
        None => None,
    }
}

/// The keys of a list of addresses, in order.
pub open spec fn addresses_view(addresses: Seq<Address>) -> Seq<Seq<u8>> {
    Seq::new(addresses.len(), |i: int| addresses[i]@)
}

/// The bytes of a list of byte strings, in order.
pub open spec fn arguments_view(arguments: Seq<Vec<u8>>) -> Seq<Seq<u8>> {
    Seq::new(arguments.len(), |i: int| arguments[i]@)
}

impl View for Address {
    type V = Seq<u8>;

    open spec fn view(&self) -> Seq<u8> {
        self.0@
    }
}

impl View for Payment {
    type V = PaymentView;

    open spec fn view(&self) -> PaymentView {
        PaymentView {
            sender: self.sender@,
            receiver: self.receiver@,
            amount: self.amount,
            close_remainder_to: address_option_view(self.close_remainder_to),
        }
    }
}

impl View for KeyRegistration {
    type V = KeyRegistrationView;

    open spec fn view(&self) -> KeyRegistrationView {
        KeyRegistrationView {
            sender: self.sender@,
            vote_pk: key_option_view(self.vote_pk),
            selection_pk: key_option_view(self.selection_pk),
            vote_first: self.vote_first,
            vote_last: self.vote_last,
            vote_key_dilution: self.vote_key_dilution,
        }
    }
}

impl View for AssetParams {
    type V = AssetParamsView;

    open spec fn view(&self) -> AssetParamsView {
        AssetParamsView {
            asset_name: text_option_view(self.asset_name),
            decimals: self.decimals,
            default_frozen: self.default_frozen,
            total: self.total,
            unit_name: text_option_view(self.unit_name),
            url: text_option_view(self.url),
            freeze: address_option_view(self.freeze),
            manager: address_option_view(self.manager),
            reserve: address_option_view(self.reserve),
        }
    }
}

impl View for AssetConfigurationTransaction {
    type V = AssetConfigurationView;

    open spec fn view(&self) -> AssetConfigurationView {
        AssetConfigurationView {
            sender: self.sender@,
            params: match self.params {
                Some(p) => Some(p@),
                None => None,
            },
        }
    }
}

impl View for AssetTransferTransaction {
    type V = AssetTransferView;

    open spec fn view(&self) -> AssetTransferView {
        AssetTransferView {
            sender: self.sender@,
            xfer: self.xfer,
            amount: self.amount,
            receiver: self.receiver@,
            close_to: address_option_view(self.close_to),
        }
    }
}

impl View for AssetAcceptTransaction {
    type V = AssetAcceptView;

    open spec fn view(&self) -> AssetAcceptView {
        AssetAcceptView { sender: self.sender@, xfer: self.xfer }
    }
}

impl View for AssetClawbackTransaction {
    type V = AssetClawbackView;

    open spec fn view(&self) -> AssetClawbackView {
        AssetClawbackView {
            sender: self.sender@,
            xfer: self.xfer,
            asset_amount: self.asset_amount,
            asset_sender: self.asset_sender@,
            asset_receiver: self.asset_receiver@,
        }
    }
}

impl View for AssetFreezeTransaction {
    type V = AssetFreezeView;

    open spec fn view(&self) -> AssetFreezeView {
        AssetFreezeView {
            sender: self.sender@,
            freeze_account: self.freeze_account@,
            asset_id: self.asset_id,
            frozen: self.frozen,
        }
    }
}

impl View for ApplicationCallTransaction {
    type V = ApplicationCallView;

    open spec fn view(&self) -> ApplicationCallView {
        ApplicationCallView {
            sender: self.sender@,
            app_id: self.app_id,
            on_complete: self.on_complete,
            accounts: match self.accounts {
                Some(accounts) => Some(addresses_view(accounts@)),
                None => None,
            },
            approval_program: bytes_option_view(self.approval_program),
            app_arguments: match self.app_arguments {
                Some(arguments) => Some(arguments_view(arguments@)),
                None => None,
            },
            clear_state_program: bytes_option_view(self.clear_state_program),
            foreign_apps: numbers_option_view(self.foreign_apps),
            foreign_assets: numbers_option_view(self.foreign_assets),
            global_state_schema: self.global_state_schema,
            local_state_schema: self.local_state_schema,
            extra_pages: self.extra_pages,
        }
    }
}

impl View for TransactionType {
    type V = TransactionTypeView;

    open spec fn view(&self) -> TransactionTypeView {
        match self {
            TransactionType::Payment(p) => TransactionTypeView::Payment(p@),
            TransactionType::KeyRegistration(r) => TransactionTypeView::KeyRegistration(r@),
            TransactionType::AssetConfigurationTransaction(c) => {
                TransactionTypeView::AssetConfigurationTransaction(c@)
            },
            TransactionType::AssetTransferTransaction(x) => {
                TransactionTypeView::AssetTransferTransaction(x@)
            },
            TransactionType::AssetAcceptTransaction(x) => {
                TransactionTypeView::AssetAcceptTransaction(x@)
            },
            TransactionType::AssetClawbackTransaction(x) => {
                TransactionTypeView::AssetClawbackTransaction(x@)
            },
            TransactionType::AssetFreezeTransaction(f) => {
                TransactionTypeView::AssetFreezeTransaction(f@)
            },
            TransactionType::ApplicationCallTransaction(a) => {
                TransactionTypeView::ApplicationCallTransaction(a@)
            },
        }
    }
}

impl View for Transaction {
    type V = TransactionView;

    open spec fn view(&self) -> TransactionView {
        TransactionView {
            fee: self.fee,
            first_valid: self.first_valid,
            genesis_hash: self.genesis_hash@,
            last_valid: self.last_valid,
            txn_type: self.txn_type@,
            genesis_id: text_option_view(self.genesis_id),
            group: key_option_view(self.group),
            lease: key_option_view(self.lease),
            note: bytes_option_view(self.note),
            rekey_to: address_option_view(self.rekey_to),
        }
    }
}

/// A copy of a list of plain values.
pub fn copy_list<T: Copy>(list: &Vec<T>) -> (r: Vec<T>)
    ensures
        r@ == list@,
{
    let mut r: Vec<T> = Vec::new();
    let mut i: usize = 0;
    while i < list.len()
        invariant
            i <= list.len(),
            r@ == list@.subrange(0, i as int),
        decreases list.len() - i,
    {
        r.push(list[i]);
        assert(r@ =~= list@.subrange(0, i + 1));
        i += 1;
    }
    assert(list@.subrange(0, i as int) =~= list@);
    r
}

/// A copy of a list that may be missing.
fn copy_optional_list<T: Copy>(list: &Option<Vec<T>>) -> (r: Option<Vec<T>>)
    ensures
        match (list, r) {
            (Some(given), Some(copied)) => copied@ == given@,
            (None, None) => true,
            _ => false,
        },
{
    match list {
        Some(given) => Some(copy_list(given)),
        None => None,
    }
}

/// A copy of a list of byte strings that may be missing.
fn copy_arguments(arguments: &Option<Vec<Vec<u8>>>) -> (r: Option<Vec<Vec<u8>>>)
    ensures
        match (arguments, r) {
            (Some(given), Some(copied)) => arguments_view(copied@) == arguments_view(given@),
            (None, None) => true,
            _ => false,
        },
{
    match arguments {
        Some(given) => {
            let mut copied: Vec<Vec<u8>> = Vec::new();
            let mut i: usize = 0;
            while i < given.len()
                invariant
                    i <= given.len(),
                    copied@.len() == i,
                    forall|j: int| 0 <= j < i ==> (#[trigger] copied@[j])@ == given@[j]@,
                decreases given.len() - i,
            {
                copied.push(copy_list(&given[i]));
                i += 1;
            }
            assert(arguments_view(copied@) =~= arguments_view(given@));
            Some(copied)
        },
        None => None,
    }
}

impl ApplicationCallTransaction {
    /// A copy of this call, part by part.
    pub fn copy(&self) -> (r: ApplicationCallTransaction)
        ensures
            r@ == self@,
    {
        let accounts = copy_optional_list(&self.accounts);
        assert(match (self.accounts, accounts) {
            (Some(given), Some(copied)) => addresses_view(copied@) == addresses_view(given@),
            (None, None) => true,
            _ => false,
        });
        ApplicationCallTransaction {
            sender: self.sender,
            app_id: self.app_id,
            on_complete: self.on_complete,
            accounts,
            approval_program: copy_optional_list(&self.approval_program),
            app_arguments: copy_arguments(&self.app_arguments),
            clear_state_program: copy_optional_list(&self.clear_state_program),
            foreign_apps: copy_optional_list(&self.foreign_apps),
            foreign_assets: copy_optional_list(&self.foreign_assets),
            global_state_schema: self.global_state_schema,
            local_state_schema: self.local_state_schema,
            extra_pages: self.extra_pages,
        }
    }
}

} // verus!
