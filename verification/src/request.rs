//! What a contract asks of the extension: the function ids it answers, the
//! SCALE layout of each request, and the pallet operation a request becomes.

use vstd::prelude::*;
use vstd::bytes::{
    lemma_auto_spec_u128_to_from_le_bytes, lemma_auto_spec_u32_to_from_le_bytes,
    spec_u128_from_le_bytes, spec_u128_to_le_bytes, spec_u32_from_le_bytes, spec_u32_to_le_bytes,
    u128_from_le_bytes, u32_from_le_bytes,
};
use vstd::slice::slice_subrange;
use crate::scale::{bytes_encoding, decode_bytes, lemma_bytes_encoding_unique};

verus! {

/// An account of the runtime: 32 bytes.
pub type AccountId = [u8; 32];

pub const CREATE: u32 = 1102;
pub const MINT: u32 = 1103;
pub const BURN: u32 = 1104;
pub const TRANSFER: u32 = 1105;
pub const BALANCE: u32 = 1106;
pub const TOTAL_SUPPLY: u32 = 1107;
pub const APPROVE: u32 = 1108;
pub const TRANSFER_APPROVED: u32 = 1109;
pub const ALLOWANCE: u32 = 1110;
pub const SET_METADATA: u32 = 1112;
pub const METADATA_NAME: u32 = 1113;
pub const METADATA_SYMBOL: u32 = 1114;
pub const METADATA_DECIMALS: u32 = 1115;

/// On whose behalf a request acts: `Caller` selects the calling contract's
/// own address, `Address` the account that called that contract.
#[derive(Debug, Copy, Clone, PartialEq, Eq, Structural)]
pub enum OriginType {
    Caller,
    Address,
}

/// An operation of the assets pallet, with the arguments it is called with.
#[derive(Debug, PartialEq, Eq)]
pub enum PalletCall {
    Create { asset_id: u32, admin: AccountId, is_sufficient: bool, min_balance: u128 },
    MintInto { asset_id: u32, who: AccountId, amount: u128 },
    BurnFrom { asset_id: u32, who: AccountId, amount: u128 },
    Transfer { asset_id: u32, source: AccountId, dest: AccountId, amount: u128, keep_alive: bool },
    Balance { asset_id: u32, who: AccountId },
    TotalSupply { asset_id: u32 },
    Approve { asset_id: u32, owner: AccountId, delegate: AccountId, amount: u128 },
    TransferFrom {
        asset_id: u32,
        owner: AccountId,
        delegate: AccountId,
        dest: AccountId,
        amount: u128,
    },
    Allowance { asset_id: u32, owner: AccountId, delegate: AccountId },
    SetMetadata { asset_id: u32, from: AccountId, name: Vec<u8>, symbol: Vec<u8>, decimals: u8 },
    Name { asset_id: u32 },
    Symbol { asset_id: u32 },
    Decimals { asset_id: u32 },
}

/// A pallet operation as a mathematical value: accounts and byte strings
/// are sequences of bytes.
pub enum PalletCallView {
    Create { asset_id: u32, admin: Seq<u8>, is_sufficient: bool, min_balance: u128 },
    MintInto { asset_id: u32, who: Seq<u8>, amount: u128 },
    BurnFrom { asset_id: u32, who: Seq<u8>, amount: u128 },
    Transfer { asset_id: u32, source: Seq<u8>, dest: Seq<u8>, amount: u128, keep_alive: bool },
    Balance { asset_id: u32, who: Seq<u8> },
    TotalSupply { asset_id: u32 },
    Approve { asset_id: u32, owner: Seq<u8>, delegate: Seq<u8>, amount: u128 },
    TransferFrom { asset_id: u32, owner: Seq<u8>, delegate: Seq<u8>, dest: Seq<u8>, amount: u128 },
    Allowance { asset_id: u32, owner: Seq<u8>, delegate: Seq<u8> },
    SetMetadata { asset_id: u32, from: Seq<u8>, name: Seq<u8>, symbol: Seq<u8>, decimals: u8 },
    Name { asset_id: u32 },
    Symbol { asset_id: u32 },
    Decimals { asset_id: u32 },
}

impl View for PalletCall {
    type V = PalletCallView;

    open spec fn view(&self) -> PalletCallView {
        match self {
            PalletCall::Create { asset_id, admin, is_sufficient, min_balance } =>
                PalletCallView::Create {
                asset_id: *asset_id,
                admin: admin@,
                is_sufficient: *is_sufficient,
                min_balance: *min_balance,
            },
            PalletCall::MintInto { asset_id, who, amount } => PalletCallView::MintInto {
                asset_id: *asset_id,
                who: who@,
                amount: *amount,
            },
            PalletCall::BurnFrom { asset_id, who, amount } => PalletCallView::BurnFrom {
                asset_id: *asset_id,
                who: who@,
                amount: *amount,
            },
            PalletCall::Transfer { asset_id, source, dest, amount, keep_alive } =>
                PalletCallView::Transfer {
                asset_id: *asset_id,
                source: source@,
                dest: dest@,
                amount: *amount,
                keep_alive: *keep_alive,
            },
            PalletCall::Balance { asset_id, who } => PalletCallView::Balance {
                asset_id: *asset_id,
                who: who@,
            },
            PalletCall::TotalSupply { asset_id } => PalletCallView::TotalSupply {
                asset_id: *asset_id,
            },
            PalletCall::Approve { asset_id, owner, delegate, amount } => PalletCallView::Approve {
                asset_id: *asset_id,
                owner: owner@,
                delegate: delegate@,
                amount: *amount,
            },
            PalletCall::TransferFrom { asset_id, owner, delegate, dest, amount } =>
                PalletCallView::TransferFrom {
                asset_id: *asset_id,
                owner: owner@,
                delegate: delegate@,
                dest: dest@,
                amount: *amount,
            },
            PalletCall::Allowance { asset_id, owner, delegate } => PalletCallView::Allowance {
                asset_id: *asset_id,
                owner: owner@,
                delegate: delegate@,
            },
            PalletCall::SetMetadata { asset_id, from, name, symbol, decimals } =>
                PalletCallView::SetMetadata {
                asset_id: *asset_id,
                from: from@,
                name: name@,
                symbol: symbol@,
                decimals: *decimals,
            },
            PalletCall::Name { asset_id } => PalletCallView::Name { asset_id: *asset_id },
            PalletCall::Symbol { asset_id } => PalletCallView::Symbol { asset_id: *asset_id },
            PalletCall::Decimals { asset_id } => PalletCallView::Decimals { asset_id: *asset_id },
        }
    }
}

/// Why a call of the extension runs no pallet operation.
#[derive(Debug, Copy, Clone, PartialEq, Eq, Structural)]
pub enum PlanError {
    /// The function id is not one the extension answers.
    UnknownFunction,
    /// The input does not hold a request of the function's layout.
    DecodingFailed,
}

/// The function ids the extension answers.
pub open spec fn is_registered(func_id: u32) -> bool {
    ||| func_id == CREATE
    ||| func_id == MINT
    ||| func_id == BURN
    ||| func_id == TRANSFER
    ||| func_id == BALANCE
    ||| func_id == TOTAL_SUPPLY
    ||| func_id == APPROVE
    ||| func_id == TRANSFER_APPROVED
    ||| func_id == ALLOWANCE
    ||| func_id == SET_METADATA
    ||| func_id == METADATA_NAME
    ||| func_id == METADATA_SYMBOL
    ||| func_id == METADATA_DECIMALS
}

/// The requests laid out as `(OriginType, AssetId, AccountId, Balance)`.
pub open spec fn is_asset_request(func_id: u32) -> bool {
    ||| func_id == CREATE
    ||| func_id == MINT
    ||| func_id == BURN
    ||| func_id == TRANSFER
    ||| func_id == APPROVE
}

/// The requests laid out as a bare `AssetId`.
pub open spec fn is_asset_id_request(func_id: u32) -> bool {
    ||| func_id == TOTAL_SUPPLY
    ||| func_id == METADATA_NAME
    ||| func_id == METADATA_SYMBOL
    ||| func_id == METADATA_DECIMALS
}

/// The origin that a byte encodes (the enum's SCALE variant index).
pub open spec fn origin_of_byte(b: u8) -> Option<OriginType> {
    if b == 0 {
        Some(OriginType::Caller)
    } else if b == 1 {
        Some(OriginType::Address)
    } else {
        None
    }
}

/// The SCALE encoding of an origin.
pub open spec fn origin_byte(o: OriginType) -> u8 {
    match o {
        OriginType::Caller => 0,
        OriginType::Address => 1,
    }
}

/// The account a request acts for.
pub open spec fn acting_account(o: OriginType, address: Seq<u8>, caller: Seq<u8>) -> Seq<u8> {
    match o {
        OriginType::Caller => address,
        OriginType::Address => caller,
    }
}

/// The `u32` encoded at `pos`, little-endian.
pub open spec fn u32_at(s: Seq<u8>, pos: int) -> u32 {
    spec_u32_from_le_bytes(s.subrange(pos, pos + 4))
}

/// The `u128` encoded at `pos`, little-endian.
pub open spec fn u128_at(s: Seq<u8>, pos: int) -> u128 {
    spec_u128_from_le_bytes(s.subrange(pos, pos + 16))
}

/// The tail of a metadata request, after its origin and asset id: the name
/// and the symbol as byte strings, then the decimals; nothing may follow.
pub open spec fn metadata_tail(tail: Seq<u8>, name: Seq<u8>, symbol: Seq<u8>, decimals: u8) -> bool {
    &&& name.len() <= u32::MAX
    &&& symbol.len() <= u32::MAX
    &&& tail == bytes_encoding(name) + bytes_encoding(symbol) + seq![decimals]
}

/// Whether `input` holds a request of the layout of `func_id`. A request of
/// fixed size is read from the front of the input; a metadata request must
/// fill the input.
pub open spec fn decodable(func_id: u32, input: Seq<u8>) -> bool {
    if is_asset_request(func_id) {
        input.len() >= 53 && origin_of_byte(input[0]) is Some
    } else if func_id == BALANCE {
        input.len() >= 36
    } else if is_asset_id_request(func_id) {
        input.len() >= 4
    } else if func_id == TRANSFER_APPROVED {
        input.len() >= 85 && origin_of_byte(input[32]) is Some
    } else if func_id == ALLOWANCE {
        input.len() >= 68
    } else if func_id == SET_METADATA {
        &&& input.len() >= 5
        &&& origin_of_byte(input[0]) is Some
        &&& exists|name: Seq<u8>, symbol: Seq<u8>, decimals: u8|
            #[trigger] metadata_tail(input.skip(5), name, symbol, decimals)
    } else {
        false
    }
}

/// The name, symbol and decimals of a decodable metadata request.
pub open spec fn metadata_fields(input: Seq<u8>) -> (Seq<u8>, Seq<u8>, u8) {
    choose|name: Seq<u8>, symbol: Seq<u8>, decimals: u8|
        #[trigger] metadata_tail(input.skip(5), name, symbol, decimals)
}

/// The pallet operation that a call of the extension with `func_id` and
/// `input` runs, for a contract at `address` called by `caller`; or why it
/// runs none.
pub open spec fn spec_plan(func_id: u32, input: Seq<u8>, address: Seq<u8>, caller: Seq<u8>) -> Result<
    PalletCallView,
    PlanError,
> {
    if !is_registered(func_id) {
        Err(PlanError::UnknownFunction)
    } else if !decodable(func_id, input) {
        Err(PlanError::DecodingFailed)
    } else if func_id == CREATE {
        Ok(
            PalletCallView::Create {
                asset_id: u32_at(input, 1),
                admin: input.subrange(5, 37),
                is_sufficient: true,
                min_balance: u128_at(input, 37),
            },
        )
    } else if func_id == MINT {
        Ok(
            PalletCallView::MintInto {
                asset_id: u32_at(input, 1),
                who: input.subrange(5, 37),
                amount: u128_at(input, 37),
            },
        )
    } else if func_id == BURN {
        Ok(
            PalletCallView::BurnFrom {
                asset_id: u32_at(input, 1),
                who: input.subrange(5, 37),
                amount: u128_at(input, 37),
            },
        )
    } else if func_id == TRANSFER {
        Ok(
            PalletCallView::Transfer {
                asset_id: u32_at(input, 1),
                source: acting_account(origin_of_byte(input[0]).unwrap(), address, caller),
                dest: input.subrange(5, 37),
                amount: u128_at(input, 37),
                keep_alive: true,
            },
        )
    } else if func_id == BALANCE {
        Ok(PalletCallView::Balance { asset_id: u32_at(input, 0), who: input.subrange(4, 36) })
    } else if func_id == TOTAL_SUPPLY {
        Ok(PalletCallView::TotalSupply { asset_id: u32_at(input, 0) })
    } else if func_id == APPROVE {
        Ok(
            PalletCallView::Approve {
                asset_id: u32_at(input, 1),
                owner: acting_account(origin_of_byte(input[0]).unwrap(), address, caller),
                delegate: input.subrange(5, 37),
                amount: u128_at(input, 37),
            },
        )
    } else if func_id == TRANSFER_APPROVED {
        Ok(
            PalletCallView::TransferFrom {
                asset_id: u32_at(input, 33),
                owner: acting_account(origin_of_byte(input[32]).unwrap(), address, caller),
                delegate: input.subrange(0, 32),
                dest: input.subrange(37, 69),
                amount: u128_at(input, 69),
            },
        )
    } else if func_id == ALLOWANCE {
        Ok(
            PalletCallView::Allowance {
                asset_id: u32_at(input, 0),
                owner: input.subrange(4, 36),
                delegate: input.subrange(36, 68),
            },
        )
    } else if func_id == SET_METADATA {
        let t = metadata_fields(input);
        Ok(
            PalletCallView::SetMetadata {
                asset_id: u32_at(input, 1),
                from: acting_account(origin_of_byte(input[0]).unwrap(), address, caller),
                name: t.0,
                symbol: t.1,
                decimals: t.2,
            },
        )
    } else if func_id == METADATA_NAME {
        Ok(PalletCallView::Name { asset_id: u32_at(input, 0) })
    } else if func_id == METADATA_SYMBOL {
        Ok(PalletCallView::Symbol { asset_id: u32_at(input, 0) })
    } else {
        Ok(PalletCallView::Decimals { asset_id: u32_at(input, 0) })
    }
}

/// The SCALE encoding of `(OriginType, AssetId, AccountId, Balance)`.
pub open spec fn asset_request_encoding(o: OriginType, asset_id: u32, account: Seq<u8>, amount: u128) -> Seq<u8> {
    seq![origin_byte(o)] + spec_u32_to_le_bytes(asset_id) + account + spec_u128_to_le_bytes(amount)
}

/// The SCALE encoding of `(AssetId, AccountId)`.
pub open spec fn balance_request_encoding(asset_id: u32, who: Seq<u8>) -> Seq<u8> {
    spec_u32_to_le_bytes(asset_id) + who
}

/// The SCALE encoding of `(AccountId, (OriginType, AssetId, AccountId, Balance))`.
pub open spec fn approved_transfer_request_encoding(
    owner: Seq<u8>,
    o: OriginType,
    asset_id: u32,
    to: Seq<u8>,
    amount: u128,
) -> Seq<u8> {
    owner + asset_request_encoding(o, asset_id, to, amount)
}

/// The SCALE encoding of `(AssetId, AccountId, AccountId)`.
pub open spec fn allowance_request_encoding(asset_id: u32, owner: Seq<u8>, delegate: Seq<u8>) -> Seq<u8> {
    spec_u32_to_le_bytes(asset_id) + owner + delegate
}

/// The SCALE encoding of `(OriginType, AssetId, Vec<u8>, Vec<u8>, u8)`.
pub open spec fn metadata_request_encoding(
    o: OriginType,
    asset_id: u32,
    name: Seq<u8>,
    symbol: Seq<u8>,
    decimals: u8,
) -> Seq<u8> {
    seq![origin_byte(o)] + spec_u32_to_le_bytes(asset_id) + bytes_encoding(name) + bytes_encoding(
        symbol,
    ) + seq![decimals]
}

/// Reading an origin's byte back gives the origin.
pub proof fn lemma_origin_roundtrip(o: OriginType)
    ensures
        origin_of_byte(origin_byte(o)) == Some(o),
{
}

/// A request of the layout `(OriginType, AssetId, AccountId, Balance)` is
/// read back as it was written, whatever follows it: creation, mint and
/// burn take the account as theirs; a transfer goes from the account the
/// origin selects to the given account, with the sender kept alive; an
/// approval lets the given account spend for the one the origin selects.
pub proof fn lemma_plan_reads_asset_request(
    func_id: u32,
    o: OriginType,
    asset_id: u32,
    account: Seq<u8>,
    amount: u128,
    rest: Seq<u8>,
    address: Seq<u8>,
    caller: Seq<u8>,
)
    requires
        is_asset_request(func_id),
        account.len() == 32,
    ensures
        ({
            let input = asset_request_encoding(o, asset_id, account, amount) + rest;
            let acting = acting_account(o, address, caller);
            &&& func_id == CREATE ==> spec_plan(func_id, input, address, caller) == Ok::<
                PalletCallView,
                PlanError,
            >(
                PalletCallView::Create {
                    asset_id,
                    admin: account,
                    is_sufficient: true,
                    min_balance: amount,
                },
            )
            &&& func_id == MINT ==> spec_plan(func_id, input, address, caller) == Ok::<
                PalletCallView,
                PlanError,
            >(PalletCallView::MintInto { asset_id, who: account, amount })
            &&& func_id == BURN ==> spec_plan(func_id, input, address, caller) == Ok::<
                PalletCallView,
                PlanError,
            >(PalletCallView::BurnFrom { asset_id, who: account, amount })
            &&& func_id == TRANSFER ==> spec_plan(func_id, input, address, caller) == Ok::<
                PalletCallView,
                PlanError,
            >(
                PalletCallView::Transfer {
                    asset_id,
                    source: acting,
                    dest: account,
                    amount,
                    keep_alive: true,
                },
            )
            &&& func_id == APPROVE ==> spec_plan(func_id, input, address, caller) == Ok::<
                PalletCallView,
                PlanError,
            >(PalletCallView::Approve { asset_id, owner: acting, delegate: account, amount })
        }),
{
    lemma_auto_spec_u32_to_from_le_bytes();
    lemma_auto_spec_u128_to_from_le_bytes();
    let input = asset_request_encoding(o, asset_id, account, amount) + rest;
    let a = spec_u32_to_le_bytes(asset_id);
    let m = spec_u128_to_le_bytes(amount);
    assert(input[0] == origin_byte(o));
    assert(input.subrange(1, 5) =~= a);
    assert(input.subrange(5, 37) =~= account);
    assert(input.subrange(37, 53) =~= m);
}

/// A balance, total supply, allowance or metadata query is read back as it
/// was written, whatever follows it.
pub proof fn lemma_plan_reads_queries(
    asset_id: u32,
    owner: Seq<u8>,
    delegate: Seq<u8>,
    rest: Seq<u8>,
    address: Seq<u8>,
    caller: Seq<u8>,
)
    requires
        owner.len() == 32,
        delegate.len() == 32,
    ensures
        spec_plan(BALANCE, balance_request_encoding(asset_id, owner) + rest, address, caller)
            == Ok::<PalletCallView, PlanError>(PalletCallView::Balance { asset_id, who: owner }),
        spec_plan(
            ALLOWANCE,
            allowance_request_encoding(asset_id, owner, delegate) + rest,
            address,
            caller,
        ) == Ok::<PalletCallView, PlanError>(
            PalletCallView::Allowance { asset_id, owner, delegate },
        ),
        spec_plan(TOTAL_SUPPLY, spec_u32_to_le_bytes(asset_id) + rest, address, caller) == Ok::<
            PalletCallView,
            PlanError,
        >(PalletCallView::TotalSupply { asset_id }),
        spec_plan(METADATA_NAME, spec_u32_to_le_bytes(asset_id) + rest, address, caller) == Ok::<
            PalletCallView,
            PlanError,
        >(PalletCallView::Name { asset_id }),
        spec_plan(METADATA_SYMBOL, spec_u32_to_le_bytes(asset_id) + rest, address, caller) == Ok::<
            PalletCallView,
            PlanError,
        >(PalletCallView::Symbol { asset_id }),
        spec_plan(METADATA_DECIMALS, spec_u32_to_le_bytes(asset_id) + rest, address, caller)
            == Ok::<PalletCallView, PlanError>(PalletCallView::Decimals { asset_id }),
{
    lemma_auto_spec_u32_to_from_le_bytes();
    let a = spec_u32_to_le_bytes(asset_id);
    let b = balance_request_encoding(asset_id, owner) + rest;
    assert(b.subrange(0, 4) =~= a);
    assert(b.subrange(4, 36) =~= owner);
    let c = allowance_request_encoding(asset_id, owner, delegate) + rest;
    assert(c.subrange(0, 4) =~= a);
    assert(c.subrange(4, 36) =~= owner);
    assert(c.subrange(36, 68) =~= delegate);
    assert((a + rest).subrange(0, 4) =~= a);
}

/// An approved transfer is read back as it was written, whatever follows
/// it: it moves the owner's funds, on behalf of the account the origin
/// selects, to the given account.
pub proof fn lemma_plan_reads_approved_transfer(
    owner: Seq<u8>,
    o: OriginType,
    asset_id: u32,
    to: Seq<u8>,
    amount: u128,
    rest: Seq<u8>,
    address: Seq<u8>,
    caller: Seq<u8>,
)
    requires
        owner.len() == 32,
        to.len() == 32,
    ensures
        spec_plan(
            TRANSFER_APPROVED,
            approved_transfer_request_encoding(owner, o, asset_id, to, amount) + rest,
            address,
            caller,
        ) == Ok::<PalletCallView, PlanError>(
            PalletCallView::TransferFrom {
                asset_id,
                owner: acting_account(o, address, caller),
                delegate: owner,
                dest: to,
                amount,
            },
        ),
{
    lemma_auto_spec_u32_to_from_le_bytes();
    lemma_auto_spec_u128_to_from_le_bytes();
    let input = approved_transfer_request_encoding(owner, o, asset_id, to, amount) + rest;
    assert(input[32] == origin_byte(o));
    assert(input.subrange(0, 32) =~= owner);
    assert(input.subrange(33, 37) =~= spec_u32_to_le_bytes(asset_id));
    assert(input.subrange(37, 69) =~= to);
    assert(input.subrange(69, 85) =~= spec_u128_to_le_bytes(amount));
}

/// A metadata update is read back as it was written; it must fill the
/// input, so nothing may follow it.
pub proof fn lemma_plan_reads_metadata(
    o: OriginType,
    asset_id: u32,
    name: Seq<u8>,
    symbol: Seq<u8>,
    decimals: u8,
    address: Seq<u8>,
    caller: Seq<u8>,
)
    requires
        name.len() <= u32::MAX,
        symbol.len() <= u32::MAX,
    ensures
        spec_plan(
            SET_METADATA,
            metadata_request_encoding(o, asset_id, name, symbol, decimals),
            address,
            caller,
        ) == Ok::<PalletCallView, PlanError>(
            PalletCallView::SetMetadata {
                asset_id,
                from: acting_account(o, address, caller),
                name,
                symbol,
                decimals,
            },
        ),
{
    lemma_auto_spec_u32_to_from_le_bytes();
    let input = metadata_request_encoding(o, asset_id, name, symbol, decimals);
    assert(input[0] == origin_byte(o));
    assert(input.subrange(1, 5) =~= spec_u32_to_le_bytes(asset_id));
    assert(input.skip(5) =~= bytes_encoding(name) + bytes_encoding(symbol) + seq![decimals]);
    assert(metadata_tail(input.skip(5), name, symbol, decimals));
    let t = metadata_fields(input);
    lemma_metadata_tail_unique(input.skip(5), name, symbol, decimals, t.0, t.1, t.2);
}

/// `Caller` acts for the contract's own address, `Address` for the account
/// that called the contract.
pub proof fn lemma_origin_acts_for(address: Seq<u8>, caller: Seq<u8>)
    ensures
        acting_account(OriginType::Caller, address, caller) == address,
        acting_account(OriginType::Address, address, caller) == caller,
        origin_of_byte(0) == Some(OriginType::Caller),
        origin_of_byte(1) == Some(OriginType::Address),
        forall|b: u8| b >= 2 ==> #[trigger] origin_of_byte(b) is None,
{
}

/// A function id other than the thirteen the extension answers runs no
/// operation, whatever the input.
pub proof fn lemma_unknown_ids_rejected(func_id: u32, input: Seq<u8>, address: Seq<u8>, caller: Seq<u8>)
    requires
        func_id != 1102 && func_id != 1103 && func_id != 1104 && func_id != 1105 && func_id
            != 1106 && func_id != 1107 && func_id != 1108 && func_id != 1109 && func_id != 1110
            && func_id != 1112 && func_id != 1113 && func_id != 1114 && func_id != 1115,
    ensures
        spec_plan(func_id, input, address, caller) == Err::<PalletCallView, PlanError>(
            PlanError::UnknownFunction,
        ),
{
}

/// A known function id with an input too short for its layout, or with an
/// origin byte other than 0 or 1, runs no operation: decoding fails.
pub proof fn lemma_malformed_requests_rejected(
    func_id: u32,
    input: Seq<u8>,
    address: Seq<u8>,
    caller: Seq<u8>,
)
    ensures
        (func_id == 1102 || func_id == 1103 || func_id == 1104 || func_id == 1105 || func_id
            == 1108) && (input.len() < 53 || input[0] >= 2) ==> spec_plan(
            func_id,
            input,
            address,
            caller,
        ) == Err::<PalletCallView, PlanError>(PlanError::DecodingFailed),
        func_id == 1106 && input.len() < 36 ==> spec_plan(func_id, input, address, caller)
            == Err::<PalletCallView, PlanError>(PlanError::DecodingFailed),
        (func_id == 1107 || func_id == 1113 || func_id == 1114 || func_id == 1115) && input.len()
            < 4 ==> spec_plan(func_id, input, address, caller) == Err::<PalletCallView, PlanError>(
            PlanError::DecodingFailed,
        ),
        func_id == 1109 && (input.len() < 85 || input[32] >= 2) ==> spec_plan(
            func_id,
            input,
            address,
            caller,
        ) == Err::<PalletCallView, PlanError>(PlanError::DecodingFailed),
        func_id == 1110 && input.len() < 68 ==> spec_plan(func_id, input, address, caller)
            == Err::<PalletCallView, PlanError>(PlanError::DecodingFailed),
        func_id == 1112 && (input.len() < 5 || input[0] >= 2) ==> spec_plan(
            func_id,
            input,
            address,
            caller,
        ) == Err::<PalletCallView, PlanError>(PlanError::DecodingFailed),
{
}

/// A metadata request must fill the input: with any bytes after it, the
/// request is refused.
pub proof fn lemma_metadata_request_fills_input(
    o: OriginType,
    asset_id: u32,
    name: Seq<u8>,
    symbol: Seq<u8>,
    decimals: u8,
    extra: Seq<u8>,
    address: Seq<u8>,
    caller: Seq<u8>,
)
    requires
        name.len() <= u32::MAX,
        symbol.len() <= u32::MAX,
        extra.len() > 0,
    ensures
        spec_plan(
            SET_METADATA,
            metadata_request_encoding(o, asset_id, name, symbol, decimals) + extra,
            address,
            caller,
        ) == Err::<PalletCallView, PlanError>(PlanError::DecodingFailed),
{
    let input = metadata_request_encoding(o, asset_id, name, symbol, decimals) + extra;
    lemma_auto_spec_u32_to_from_le_bytes();
    assert forall|n: Seq<u8>, sy: Seq<u8>, d: u8| !#[trigger] metadata_tail(
        input.skip(5),
        n,
        sy,
        d,
    ) by {
        if metadata_tail(input.skip(5), n, sy, d) {
            let r1 = bytes_encoding(symbol) + (seq![decimals] + extra);
            let r2 = bytes_encoding(sy) + seq![d];
            assert(input.skip(5) =~= bytes_encoding(name) + r1);
            assert(input.skip(5) =~= bytes_encoding(n) + r2);
            lemma_bytes_encoding_unique(name, n, r1, r2);
            lemma_bytes_encoding_unique(symbol, sy, seq![decimals] + extra, seq![d]);
            assert((seq![decimals] + extra).len() == seq![d].len());
        }
    }
}

/// A metadata tail has one reading.
pub proof fn lemma_metadata_tail_unique(
    tail: Seq<u8>,
    n1: Seq<u8>,
    s1: Seq<u8>,
    d1: u8,
    n2: Seq<u8>,
    s2: Seq<u8>,
    d2: u8,
)
    requires
        metadata_tail(tail, n1, s1, d1),
        metadata_tail(tail, n2, s2, d2),
    ensures
        n1 == n2,
        s1 == s2,
        d1 == d2,
{
    let r1 = bytes_encoding(s1) + seq![d1];
    let r2 = bytes_encoding(s2) + seq![d2];
    assert(tail =~= bytes_encoding(n1) + r1);
    assert(tail =~= bytes_encoding(n2) + r2);
    lemma_bytes_encoding_unique(n1, n2, r1, r2);
    lemma_bytes_encoding_unique(s1, s2, seq![d1], seq![d2]);
    assert(seq![d1][0] == seq![d2][0]);
}

/// Decodes an origin from its byte.
pub fn decode_origin(b: u8) -> (r: Option<OriginType>)
    ensures
        r == origin_of_byte(b),
{
    if b == 0 {
        Some(OriginType::Caller)
    } else if b == 1 {
        Some(OriginType::Address)
    } else {
        None
    }
}

/// The account a request with origin `o` acts for: the contract's own
/// address for `Caller`, the contract's caller for `Address`.
pub fn resolve_origin(o: OriginType, address: &AccountId, caller: &AccountId) -> (r: AccountId)
    ensures
        r@ == acting_account(o, address@, caller@),
{
    match o {
        OriginType::Caller => *address,
        OriginType::Address => *caller,
    }
}

/// Decodes the `(OriginType, AssetId, AccountId, Balance)` at the front of
/// `input`.
pub fn decode_asset_request(input: &[u8]) -> (r: Option<(OriginType, u32, AccountId, u128)>)
    ensures
        r is Some <==> input@.len() >= 53 && origin_of_byte(input@[0]) is Some,
        r matches Some((o, id, account, amount)) ==> {
            &&& Some(o) == origin_of_byte(input@[0])
            &&& id == u32_at(input@, 1)
            &&& account@ == input@.subrange(5, 37)
            &&& amount == u128_at(input@, 37)
        },
{
    if input.len() < 53 {
        return None;
    }
    match decode_origin(input[0]) {
        Some(o) => Some((o, read_u32(input, 1), read_account(input, 5), read_u128(input, 37))),
        None => None,
    }
}

/// Decodes the `(AssetId, AccountId)` at the front of `input`.
pub fn decode_balance_request(input: &[u8]) -> (r: Option<(u32, AccountId)>)
    ensures
        r is Some <==> input@.len() >= 36,
        r matches Some((id, who)) ==> id == u32_at(input@, 0) && who@ == input@.subrange(4, 36),
{
    if input.len() < 36 {
        return None;
    }
    Some((read_u32(input, 0), read_account(input, 4)))
}

/// Decodes the `AssetId` at the front of `input`.
pub fn decode_asset_id(input: &[u8]) -> (r: Option<u32>)
    ensures
        r is Some <==> input@.len() >= 4,
        r matches Some(id) ==> id == u32_at(input@, 0),
{
    if input.len() < 4 {
        return None;
    }
    Some(read_u32(input, 0))
}

/// Decodes the `(AccountId, (OriginType, AssetId, AccountId, Balance))` at
/// the front of `input`.
pub fn decode_approved_transfer_request(input: &[u8]) -> (r: Option<
    (AccountId, OriginType, u32, AccountId, u128),
>)
    ensures
        r is Some <==> input@.len() >= 85 && origin_of_byte(input@[32]) is Some,
        r matches Some((owner, o, id, to, amount)) ==> {
            &&& owner@ == input@.subrange(0, 32)
            &&& Some(o) == origin_of_byte(input@[32])
            &&& id == u32_at(input@, 33)
            &&& to@ == input@.subrange(37, 69)
            &&& amount == u128_at(input@, 69)
        },
{
    if input.len() < 85 {
        return None;
    }
    match decode_origin(input[32]) {
        Some(o) => Some(
            (read_account(input, 0), o, read_u32(input, 33), read_account(input, 37), read_u128(input, 69)),
        ),
        None => None,
    }
}

/// Decodes the `(AssetId, AccountId, AccountId)` at the front of `input`.
pub fn decode_allowance_request(input: &[u8]) -> (r: Option<(u32, AccountId, AccountId)>)
    ensures
        r is Some <==> input@.len() >= 68,
        r matches Some((id, owner, delegate)) ==> {
            &&& id == u32_at(input@, 0)
            &&& owner@ == input@.subrange(4, 36)
            &&& delegate@ == input@.subrange(36, 68)
        },
{
    if input.len() < 68 {
        return None;
    }
    Some((read_u32(input, 0), read_account(input, 4), read_account(input, 36)))
}

/// Decodes the `(OriginType, AssetId, Vec<u8>, Vec<u8>, u8)` that must fill
/// `input`.
pub fn decode_metadata_request(input: &[u8]) -> (r: Option<(OriginType, u32, Vec<u8>, Vec<u8>, u8)>)
    ensures
        r is Some <==> decodable(SET_METADATA, input@),
        r matches Some((o, id, name, symbol, decimals)) ==> {
            &&& Some(o) == origin_of_byte(input@[0])
            &&& id == u32_at(input@, 1)
            &&& metadata_fields(input@) == (name@, symbol@, decimals)
        },
{
    if input.len() < 5 {
        return None;
    }
    let o = match decode_origin(input[0]) {
        Some(o) => o,
        None => return None,
    };
    let id = read_u32(input, 1);
    let tail = slice_subrange(input, 5, input.len());
    assert(tail@ == input@.skip(5));
    let (name, rest) = match decode_bytes(tail) {
        Some(p) => p,
        None => {
            assert forall|n: Seq<u8>, s: Seq<u8>, d: u8| !#[trigger] metadata_tail(
                input@.skip(5),
                n,
                s,
                d,
            ) by {
                if metadata_tail(input@.skip(5), n, s, d) {
                    assert(tail@ =~= bytes_encoding(n) + (bytes_encoding(s) + seq![d]));
                }
            }
            return None;
        },
    };
    let (symbol, last) = match decode_bytes(rest) {
        Some(p) => p,
        None => {
            assert forall|n: Seq<u8>, s: Seq<u8>, d: u8| !#[trigger] metadata_tail(
                input@.skip(5),
                n,
                s,
                d,
            ) by {
                if metadata_tail(input@.skip(5), n, s, d) {
                    assert(tail@ =~= bytes_encoding(n) + (bytes_encoding(s) + seq![d]));
                    lemma_bytes_encoding_unique(name@, n, rest@, bytes_encoding(s) + seq![d]);
                }
            }
            return None;
        },
    };
    if last.len() != 1 {
        assert forall|n: Seq<u8>, s: Seq<u8>, d: u8| !#[trigger] metadata_tail(
            input@.skip(5),
            n,
            s,
            d,
        ) by {
            if metadata_tail(input@.skip(5), n, s, d) {
                assert(tail@ =~= bytes_encoding(n) + (bytes_encoding(s) + seq![d]));
                lemma_bytes_encoding_unique(name@, n, rest@, bytes_encoding(s) + seq![d]);
                lemma_bytes_encoding_unique(symbol@, s, last@, seq![d]);
            }
        }
        return None;
    }
    let decimals = last[0];
    assert(last@ =~= seq![decimals]);
    assert(tail@ =~= bytes_encoding(name@) + bytes_encoding(symbol@) + seq![decimals]);
    assert(metadata_tail(input@.skip(5), name@, symbol@, decimals));
    proof {
        let t = metadata_fields(input@);
        lemma_metadata_tail_unique(input@.skip(5), name@, symbol@, decimals, t.0, t.1, t.2);
    }
    Some((o, id, name, symbol, decimals))
}

/// Reads the little-endian `u32` at `pos`.
fn read_u32(input: &[u8], pos: usize) -> (r: u32)
    requires
        pos + 4 <= input.len(),
    ensures
        r == u32_at(input@, pos as int),
{
    u32_from_le_bytes(slice_subrange(input, pos, pos + 4))
}

/// Reads the little-endian `u128` at `pos`.
fn read_u128(input: &[u8], pos: usize) -> (r: u128)
    requires
        pos + 16 <= input.len(),
    ensures
        r == u128_at(input@, pos as int),
{
    u128_from_le_bytes(slice_subrange(input, pos, pos + 16))
}

/// Reads the account at `pos`.
fn read_account(input: &[u8], pos: usize) -> (r: AccountId)
    requires
        pos + 32 <= input.len(),
    ensures
        r@ == input@.subrange(pos as int, pos + 32),
{
    let mut a: AccountId = [0u8; 32];
    let mut i: usize = 0;
    while i < 32
        invariant
            i <= 32,
            pos + 32 <= input.len(),
            a@.len() == 32,
            forall|j: int| 0 <= j < i ==> a@[j] == input@[pos + j],
        decreases 32 - i,
    {
        a[i] = input[pos + i];
        i = i + 1;
    }
    assert(a@ =~= input@.subrange(pos as int, pos + 32));
    a
}

} // verus!
