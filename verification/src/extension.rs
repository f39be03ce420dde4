//! The extension's decisions: which pallet operation a call runs, and what
//! the contract is answered once the pallet has run it.
//!
//! A call goes in two steps. `Psp22AssetExtension::plan` reads the function
//! id and the contract's input and names the pallet operation; the runtime
//! runs it; `Psp22AssetExtension::respond` takes what the pallet gave back and
//! names the bytes to write to the contract's output buffer, with the message
//! of the error to return should that write fail. After that, the call
//! returns a converging result with flags 0.

use vstd::prelude::*;
use vstd::bytes::{
    lemma_auto_spec_u128_to_from_le_bytes, spec_u128_from_le_bytes, spec_u128_to_le_bytes,
    u128_to_le_bytes,
};
use crate::errors::{
    encode_error_result, err_encoding, err_from_encoding, err_result_encoding,
    lemma_err_encoding_roundtrip, pallet_err_of, DispatchErrorKind, PalletAssetErr,
};
use crate::request::{
    decode_allowance_request, decode_approved_transfer_request, decode_asset_id,
    decode_asset_request, decode_balance_request, decode_metadata_request, is_registered, resolve_origin,
    spec_plan, AccountId, PalletCall, PalletCallView, PlanError, ALLOWANCE, APPROVE, BALANCE, BURN,
    CREATE, METADATA_DECIMALS, METADATA_NAME, METADATA_SYMBOL, MINT, SET_METADATA, TOTAL_SUPPLY,
    TRANSFER, TRANSFER_APPROVED,
};
use crate::scale::{bytes_encoding, encode_bytes};

verus! {

/// The chain extension.
pub struct Psp22AssetExtension;

/// What the pallet gave back for an operation.
#[derive(Debug, PartialEq, Eq)]
pub enum PalletOutcome {
    /// The result of an operation that changes state.
    Dispatched(Result<(), DispatchErrorKind>),
    /// A balance, a total supply or an allowance.
    Amount(u128),
    /// An asset's name or symbol.
    Bytes(Vec<u8>),
    /// An asset's decimals.
    Byte(u8),
}

/// Bytes to write to the contract's output buffer, and the message of the
/// error that the call returns if they cannot be written.
pub struct Reply {
    pub output: Vec<u8>,
    pub failure_message: &'static str,
}

/// Whether `outcome` is of the kind the pallet gives back for `call`; a name
/// must leave room for being encoded twice.
pub open spec fn outcome_fits(call: PalletCallView, outcome: PalletOutcome) -> bool {
    match call {
        PalletCallView::Create { .. } | PalletCallView::MintInto { .. }
        | PalletCallView::BurnFrom { .. } | PalletCallView::Transfer { .. }
        | PalletCallView::Approve { .. } | PalletCallView::TransferFrom { .. }
        | PalletCallView::SetMetadata { .. } => outcome is Dispatched,
        PalletCallView::Balance { .. } | PalletCallView::TotalSupply { .. }
        | PalletCallView::Allowance { .. } => outcome is Amount,
        PalletCallView::Name { .. } => outcome matches PalletOutcome::Bytes(b) && b@.len() + 5
            <= u32::MAX,
        PalletCallView::Symbol { .. } => outcome matches PalletOutcome::Bytes(b) && b@.len()
            <= u32::MAX,
        PalletCallView::Decimals { .. } => outcome is Byte,
    }
}

/// The bytes a contract is answered: the encoded error of a failed
/// creation, mint, approval, approved transfer or metadata update (nothing
/// when it succeeds); nothing for a burn or a transfer, whatever came of it;
/// the encoded value of a query (the name encoded twice over).
pub open spec fn answer(call: PalletCallView, outcome: PalletOutcome) -> Option<Seq<u8>> {
    match call {
        PalletCallView::Create { .. } | PalletCallView::MintInto { .. }
        | PalletCallView::Approve { .. } | PalletCallView::TransferFrom { .. }
        | PalletCallView::SetMetadata { .. } => match outcome {
            PalletOutcome::Dispatched(Err(e)) => Some(err_result_encoding(pallet_err_of(e))),
            _ => None,
        },
        PalletCallView::BurnFrom { .. } | PalletCallView::Transfer { .. } => None,
        PalletCallView::Balance { .. } | PalletCallView::TotalSupply { .. }
        | PalletCallView::Allowance { .. } => match outcome {
            PalletOutcome::Amount(x) => Some(spec_u128_to_le_bytes(x)),
            _ => None,
        },
        PalletCallView::Name { .. } => match outcome {
            PalletOutcome::Bytes(b) => Some(bytes_encoding(bytes_encoding(b@))),
            _ => None,
        },
        PalletCallView::Symbol { .. } => match outcome {
            PalletOutcome::Bytes(b) => Some(bytes_encoding(b@)),
            _ => None,
        },
        PalletCallView::Decimals { .. } => match outcome {
            PalletOutcome::Byte(d) => Some(seq![d]),
            _ => None,
        },
    }
}

/// The message of the error returned when the answer to `call` cannot be
/// written.
pub open spec fn failure_message(call: PalletCallView) -> &'static str {
    match call {
        PalletCallView::Create { .. } => "ChainExtension failed to call 'approve transfer'",
        PalletCallView::MintInto { .. } => "ChainExtension failed to call mint",
        PalletCallView::Approve { .. } => "ChainExtension failed to call 'approve'",
        PalletCallView::TransferFrom { .. } => "ChainExtension failed to call 'approved transfer'",
        PalletCallView::SetMetadata { .. } => "ChainExtension failed to call set_metadata",
        PalletCallView::Balance { .. } => "ChainExtension failed to call balance",
        PalletCallView::TotalSupply { .. } => "ChainExtension failed to call total_supply",
        PalletCallView::Allowance { .. } => "ChainExtension failed to call balance",
        PalletCallView::Name { .. } => "ChainExtension failed to call get metadata name",
        PalletCallView::Symbol { .. } => "ChainExtension failed to call balance",
        PalletCallView::Decimals { .. } => "ChainExtension failed to call total_supply",
        _ => "",
    }
}

/// The contract reads its answer back: an operation that succeeded is not
/// answered; a failed one is answered with `Err` and the error the
/// runtime's error became; an amount is answered with its own encoding.
pub proof fn lemma_answers_read_back(call: PalletCallView, outcome: PalletOutcome)
    requires
        outcome_fits(call, outcome),
    ensures
        outcome matches PalletOutcome::Dispatched(Ok(_)) ==> answer(call, outcome) is None,
        outcome matches PalletOutcome::Dispatched(Err(e)) ==> (answer(call, outcome) matches Some(
            bytes,
        ) ==> bytes[0] == 1 && err_from_encoding(bytes.skip(1)) == pallet_err_of(e)),
        outcome matches PalletOutcome::Amount(x) ==> (answer(call, outcome) matches Some(bytes)
            && spec_u128_from_le_bytes(bytes) == x),
{
    lemma_auto_spec_u128_to_from_le_bytes();
    if let PalletOutcome::Dispatched(Err(e)) = outcome {
        let err = pallet_err_of(e);
        lemma_err_encoding_roundtrip(err);
        assert(err_result_encoding(err).skip(1) =~= err_encoding(err));
    }
}

/// A creation, mint, approval, approved transfer or metadata update that
/// the pallet refuses is always answered, whatever the runtime error: with
/// `Err` (1) followed by the encoding of the error it becomes, which reads
/// back as that error. One that succeeds is not answered.
pub proof fn lemma_failures_are_reported(call: PalletCallView, e: DispatchErrorKind)
    requires
        call is Create || call is MintInto || call is Approve || call is TransferFrom
            || call is SetMetadata,
    ensures
        answer(call, PalletOutcome::Dispatched(Err(e))) == Some(
            seq![1u8] + err_encoding(pallet_err_of(e)),
        ),
        answer(call, PalletOutcome::Dispatched(Err(e))) matches Some(bytes) && bytes[0] == 1
            && err_from_encoding(bytes.skip(1)) == pallet_err_of(e),
        answer(call, PalletOutcome::Dispatched(Ok(()))) is None,
{
    let err = pallet_err_of(e);
    lemma_err_encoding_roundtrip(err);
    assert((seq![1u8] + err_encoding(err)).skip(1) =~= err_encoding(err));
}

/// The error a call returns when its answer cannot be written names the
/// operation, for every call of that operation.
pub proof fn lemma_failure_messages(call: PalletCallView)
    ensures
        call is Create ==> failure_message(call)@
            == "ChainExtension failed to call 'approve transfer'"@,
        call is MintInto ==> failure_message(call)@ == "ChainExtension failed to call mint"@,
        call is Approve ==> failure_message(call)@ == "ChainExtension failed to call 'approve'"@,
        call is TransferFrom ==> failure_message(call)@
            == "ChainExtension failed to call 'approved transfer'"@,
        call is SetMetadata ==> failure_message(call)@
            == "ChainExtension failed to call set_metadata"@,
        (call is Balance || call is Allowance || call is Symbol) ==> failure_message(call)@
            == "ChainExtension failed to call balance"@,
        (call is TotalSupply || call is Decimals) ==> failure_message(call)@
            == "ChainExtension failed to call total_supply"@,
        call is Name ==> failure_message(call)@
            == "ChainExtension failed to call get metadata name"@,
{
}

/// A burn or a transfer is never answered, whether it succeeds or fails.
pub proof fn lemma_burn_and_transfer_are_silent(call: PalletCallView, outcome: PalletOutcome)
    requires
        call is BurnFrom || call is Transfer,
    ensures
        answer(call, outcome) is None,
{
}

/// Every query is answered, whatever the pallet gives back (an empty name or
/// symbol included): the name encoded as a byte string twice over, the
/// symbol once, the decimals as their byte, and an amount as the sixteen
/// little-endian bytes that read back as it.
pub proof fn lemma_queries_are_answered(
    call: PalletCallView,
    asset_id: u32,
    b: Vec<u8>,
    d: u8,
    x: u128,
)
    ensures
        answer(PalletCallView::Name { asset_id }, PalletOutcome::Bytes(b)) == Some(
            bytes_encoding(bytes_encoding(b@)),
        ),
        answer(PalletCallView::Symbol { asset_id }, PalletOutcome::Bytes(b)) == Some(
            bytes_encoding(b@),
        ),
        answer(PalletCallView::Decimals { asset_id }, PalletOutcome::Byte(d)) == Some(seq![d]),
        (call is Balance || call is TotalSupply || call is Allowance) ==> (answer(
            call,
            PalletOutcome::Amount(x),
        ) matches Some(bytes) && bytes.len() == 16 && spec_u128_from_le_bytes(bytes) == x),
{
    lemma_auto_spec_u128_to_from_le_bytes();
}

impl Psp22AssetExtension {
    /// The extension is always enabled.
    pub fn enabled() -> (r: bool)
        ensures
            r,
    {
        true
    }

    /// Whether the extension answers the function id `func_id`.
    pub fn answers(func_id: u32) -> (r: bool)
        ensures
            r == is_registered(func_id),
    {
        func_id == CREATE || func_id == MINT || func_id == BURN || func_id == TRANSFER
            || func_id == BALANCE || func_id == TOTAL_SUPPLY || func_id == APPROVE
            || func_id == TRANSFER_APPROVED || func_id == ALLOWANCE || func_id == SET_METADATA
            || func_id == METADATA_NAME || func_id == METADATA_SYMBOL || func_id
            == METADATA_DECIMALS
    }

    /// The pallet operation that the call `func_id` with `input` runs, for a
    /// contract at `address` called by `caller`.
    pub fn plan(func_id: u32, input: &[u8], address: &AccountId, caller: &AccountId) -> (r: Result<
        PalletCall,
        PlanError,
    >)
        ensures
            match r {
                Ok(call) => spec_plan(func_id, input@, address@, caller@) == Ok::<
                    PalletCallView,
                    PlanError,
                >(call@),
                Err(e) => spec_plan(func_id, input@, address@, caller@) == Err::<
                    PalletCallView,
                    PlanError,
                >(e),
            },
    {
        if func_id == CREATE || func_id == MINT || func_id == BURN || func_id == TRANSFER
            || func_id == APPROVE {
            let (o, asset_id, account, amount) = match decode_asset_request(input) {
                Some(req) => req,
                None => return Err(PlanError::DecodingFailed),
            };
            if func_id == CREATE {
                Ok(PalletCall::Create { asset_id, admin: account, is_sufficient: true, min_balance: amount })
            } else if func_id == MINT {
                Ok(PalletCall::MintInto { asset_id, who: account, amount })
            } else if func_id == BURN {
                Ok(PalletCall::BurnFrom { asset_id, who: account, amount })
            } else if func_id == TRANSFER {
                let source = resolve_origin(o, address, caller);
                Ok(PalletCall::Transfer { asset_id, source, dest: account, amount, keep_alive: true })
            } else {
                let owner = resolve_origin(o, address, caller);
                Ok(PalletCall::Approve { asset_id, owner, delegate: account, amount })
            }
        } else if func_id == BALANCE {
            match decode_balance_request(input) {
                Some((asset_id, who)) => Ok(PalletCall::Balance { asset_id, who }),
                None => Err(PlanError::DecodingFailed),
            }
        } else if func_id == TOTAL_SUPPLY || func_id == METADATA_NAME || func_id == METADATA_SYMBOL
            || func_id == METADATA_DECIMALS {
            let asset_id = match decode_asset_id(input) {
                Some(id) => id,
                None => return Err(PlanError::DecodingFailed),
            };
            if func_id == TOTAL_SUPPLY {
                Ok(PalletCall::TotalSupply { asset_id })
            } else if func_id == METADATA_NAME {
                Ok(PalletCall::Name { asset_id })
            } else if func_id == METADATA_SYMBOL {
                Ok(PalletCall::Symbol { asset_id })
            } else {
                Ok(PalletCall::Decimals { asset_id })
            }
        } else if func_id == TRANSFER_APPROVED {
            match decode_approved_transfer_request(input) {
                Some((delegate, o, asset_id, dest, amount)) => {
                    let owner = resolve_origin(o, address, caller);
                    Ok(PalletCall::TransferFrom { asset_id, owner, delegate, dest, amount })
                },
                None => Err(PlanError::DecodingFailed),
            }
        } else if func_id == ALLOWANCE {
            match decode_allowance_request(input) {
                Some((asset_id, owner, delegate)) => Ok(
                    PalletCall::Allowance { asset_id, owner, delegate },
                ),
                None => Err(PlanError::DecodingFailed),
            }
        } else if func_id == SET_METADATA {
            match decode_metadata_request(input) {
                Some((o, asset_id, name, symbol, decimals)) => {
                    let from = resolve_origin(o, address, caller);
                    Ok(PalletCall::SetMetadata { asset_id, from, name, symbol, decimals })
                },
                None => Err(PlanError::DecodingFailed),
            }
        } else {
            Err(PlanError::UnknownFunction)
        }
    }

    /// What the contract is answered once the pallet has run `call` and
    /// given back `outcome`.
    pub fn respond(call: &PalletCall, outcome: PalletOutcome) -> (r: Option<Reply>)
        requires
            outcome_fits(call@, outcome),
        ensures
            match r {
                Some(reply) => answer(call@, outcome) == Some(reply.output@)
                    && reply.failure_message@ == failure_message(call@)@,
                None => answer(call@, outcome) is None,
            },
    {
        match call {
            PalletCall::Create { .. } => Self::report_failure(
                outcome,
                "ChainExtension failed to call 'approve transfer'",
            ),
            PalletCall::MintInto { .. } => Self::report_failure(
                outcome,
                "ChainExtension failed to call mint",
            ),
            PalletCall::Approve { .. } => Self::report_failure(
                outcome,
                "ChainExtension failed to call 'approve'",
            ),
            PalletCall::TransferFrom { .. } => Self::report_failure(
                outcome,
                "ChainExtension failed to call 'approved transfer'",
            ),
            PalletCall::SetMetadata { .. } => Self::report_failure(
                outcome,
                "ChainExtension failed to call set_metadata",
            ),
            PalletCall::BurnFrom { .. } | PalletCall::Transfer { .. } => None,
            PalletCall::Balance { .. } => Self::report_amount(
                outcome,
                "ChainExtension failed to call balance",
            ),
            PalletCall::TotalSupply { .. } => Self::report_amount(
                outcome,
                "ChainExtension failed to call total_supply",
            ),
            PalletCall::Allowance { .. } => Self::report_amount(
                outcome,
                "ChainExtension failed to call balance",
            ),
            PalletCall::Name { .. } => match outcome {
                PalletOutcome::Bytes(name) => {
                    let once = encode_bytes(name.as_slice());
                    Some(
                        Reply {
                            output: encode_bytes(once.as_slice()),
                            failure_message: "ChainExtension failed to call get metadata name",
                        },
                    )
                },
                _ => None,
            },
            PalletCall::Symbol { .. } => match outcome {
                PalletOutcome::Bytes(symbol) => Some(
                    Reply {
                        output: encode_bytes(symbol.as_slice()),
                        failure_message: "ChainExtension failed to call balance",
                    },
                ),
                _ => None,
            },
            PalletCall::Decimals { .. } => match outcome {
                PalletOutcome::Byte(d) => Some(
                    Reply {
                        output: vec![d],
                        failure_message: "ChainExtension failed to call total_supply",
                    },
                ),
                _ => None,
            },
        }
    }

    /// The answer to an operation that changes state: its error, if it
    /// failed.
    fn report_failure(outcome: PalletOutcome, message: &'static str) -> (r: Option<Reply>)
        ensures
            match outcome {
                PalletOutcome::Dispatched(Err(e)) => r matches Some(reply) && reply.output@
                    == err_result_encoding(pallet_err_of(e)) && reply.failure_message == message,
                _ => r is None,
            },
    {
        match outcome {
            PalletOutcome::Dispatched(Err(e)) => {
                let err = PalletAssetErr::from(e);
                Some(Reply { output: encode_error_result(&err), failure_message: message })
            },
            _ => None,
        }
    }

    /// The answer to a query of an amount: its encoding.
    fn report_amount(outcome: PalletOutcome, message: &'static str) -> (r: Option<Reply>)
        ensures
            match outcome {
                PalletOutcome::Amount(x) => r matches Some(reply) && reply.output@
                    == spec_u128_to_le_bytes(x) && reply.failure_message == message,
                _ => r is None,
            },
    {
        match outcome {
            PalletOutcome::Amount(x) => Some(
                Reply { output: u128_to_le_bytes(x), failure_message: message },
            ),
            _ => None,
        }
    }
}

} // verus!
