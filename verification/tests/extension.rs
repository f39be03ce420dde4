use psp22_asset_extension::errors::{
    encode_error_result, ArithmeticErrorKind, DispatchErrorKind, PalletAssetArithmeticErr,
    PalletAssetErr, PalletAssetTokenErr, TokenErrorKind,
};
use psp22_asset_extension::extension::{PalletOutcome, Psp22AssetExtension};
use psp22_asset_extension::request::{
    decode_origin, resolve_origin, OriginType, PalletCall, PlanError,
};

const ADDRESS: [u8; 32] = [0xAA; 32];
const CALLER: [u8; 32] = [0xCC; 32];

fn account(b: u8) -> [u8; 32] {
    [b; 32]
}

fn asset_request(origin: u8, asset_id: u32, who: [u8; 32], amount: u128) -> Vec<u8> {
    let mut v = vec![origin];
    v.extend_from_slice(&asset_id.to_le_bytes());
    v.extend_from_slice(&who);
    v.extend_from_slice(&amount.to_le_bytes());
    v
}

fn compact(n: usize) -> Vec<u8> {
    if n < 64 {
        vec![(n as u8) << 2]
    } else if n < 16384 {
        (((n as u16) << 2) | 1).to_le_bytes().to_vec()
    } else {
        (((n as u32) << 2) | 2).to_le_bytes().to_vec()
    }
}

fn metadata_request(origin: u8, asset_id: u32, name: &[u8], symbol: &[u8], decimals: u8) -> Vec<u8> {
    let mut v = vec![origin];
    v.extend_from_slice(&asset_id.to_le_bytes());
    v.extend_from_slice(&compact(name.len()));
    v.extend_from_slice(name);
    v.extend_from_slice(&compact(symbol.len()));
    v.extend_from_slice(symbol);
    v.push(decimals);
    v
}

#[test]
fn extension_is_enabled() {
    assert!(Psp22AssetExtension::enabled());
}

#[test]
fn registered_function_ids() {
    for id in [1102u32, 1103, 1104, 1105, 1106, 1107, 1108, 1109, 1110, 1112, 1113, 1114, 1115] {
        assert!(Psp22AssetExtension::answers(id));
    }
    for id in [0u32, 1101, 1111, 1116] {
        assert!(!Psp22AssetExtension::answers(id));
    }
}

#[test]
fn unknown_function_is_rejected() {
    let input = asset_request(0, 1, account(1), 10);
    for id in [0u32, 1101, 1111, 1116, u32::MAX] {
        assert_eq!(
            Psp22AssetExtension::plan(id, &input, &ADDRESS, &CALLER),
            Err(PlanError::UnknownFunction)
        );
    }
}

#[test]
fn create_reads_its_request() {
    let input = asset_request(1, 7, account(3), 1000);
    assert_eq!(
        Psp22AssetExtension::plan(1102, &input, &ADDRESS, &CALLER),
        Ok(PalletCall::Create { asset_id: 7, admin: account(3), is_sufficient: true, min_balance: 1000 })
    );
}

#[test]
fn mint_and_burn_read_their_request() {
    let input = asset_request(0, 0x01020304, account(9), u128::MAX);
    assert_eq!(
        Psp22AssetExtension::plan(1103, &input, &ADDRESS, &CALLER),
        Ok(PalletCall::MintInto { asset_id: 0x01020304, who: account(9), amount: u128::MAX })
    );
    assert_eq!(
        Psp22AssetExtension::plan(1104, &input, &ADDRESS, &CALLER),
        Ok(PalletCall::BurnFrom { asset_id: 0x01020304, who: account(9), amount: u128::MAX })
    );
}

#[test]
fn transfer_source_follows_origin() {
    let by_caller = asset_request(0, 5, account(4), 77);
    assert_eq!(
        Psp22AssetExtension::plan(1105, &by_caller, &ADDRESS, &CALLER),
        Ok(PalletCall::Transfer { asset_id: 5, source: ADDRESS, dest: account(4), amount: 77, keep_alive: true })
    );
    let by_address = asset_request(1, 5, account(4), 77);
    assert_eq!(
        Psp22AssetExtension::plan(1105, &by_address, &ADDRESS, &CALLER),
        Ok(PalletCall::Transfer { asset_id: 5, source: CALLER, dest: account(4), amount: 77, keep_alive: true })
    );
}

#[test]
fn approve_owner_follows_origin() {
    let input = asset_request(1, 2, account(8), 50);
    assert_eq!(
        Psp22AssetExtension::plan(1108, &input, &ADDRESS, &CALLER),
        Ok(PalletCall::Approve { asset_id: 2, owner: CALLER, delegate: account(8), amount: 50 })
    );
}

#[test]
fn transfer_approved_reads_owner_first() {
    let mut input = account(6).to_vec();
    input.extend(asset_request(0, 11, account(7), 123));
    assert_eq!(
        Psp22AssetExtension::plan(1109, &input, &ADDRESS, &CALLER),
        Ok(PalletCall::TransferFrom { asset_id: 11, owner: ADDRESS, delegate: account(6), dest: account(7), amount: 123 })
    );
    input[32] = 2;
    assert_eq!(
        Psp22AssetExtension::plan(1109, &input, &ADDRESS, &CALLER),
        Err(PlanError::DecodingFailed)
    );
}

#[test]
fn queries_read_their_request() {
    let mut balance = 3u32.to_le_bytes().to_vec();
    balance.extend_from_slice(&account(5));
    assert_eq!(
        Psp22AssetExtension::plan(1106, &balance, &ADDRESS, &CALLER),
        Ok(PalletCall::Balance { asset_id: 3, who: account(5) })
    );
    let id = 0xdeadbeefu32.to_le_bytes();
    assert_eq!(Psp22AssetExtension::plan(1107, &id, &ADDRESS, &CALLER), Ok(PalletCall::TotalSupply { asset_id: 0xdeadbeef }));
    assert_eq!(Psp22AssetExtension::plan(1113, &id, &ADDRESS, &CALLER), Ok(PalletCall::Name { asset_id: 0xdeadbeef }));
    assert_eq!(Psp22AssetExtension::plan(1114, &id, &ADDRESS, &CALLER), Ok(PalletCall::Symbol { asset_id: 0xdeadbeef }));
    assert_eq!(Psp22AssetExtension::plan(1115, &id, &ADDRESS, &CALLER), Ok(PalletCall::Decimals { asset_id: 0xdeadbeef }));
    let mut allowance = 4u32.to_le_bytes().to_vec();
    allowance.extend_from_slice(&account(1));
    allowance.extend_from_slice(&account(2));
    assert_eq!(
        Psp22AssetExtension::plan(1110, &allowance, &ADDRESS, &CALLER),
        Ok(PalletCall::Allowance { asset_id: 4, owner: account(1), delegate: account(2) })
    );
}

#[test]
fn fixed_requests_ignore_trailing_bytes() {
    let mut input = asset_request(0, 1, account(1), 1);
    input.extend_from_slice(&[9, 9, 9]);
    assert_eq!(
        Psp22AssetExtension::plan(1103, &input, &ADDRESS, &CALLER),
        Ok(PalletCall::MintInto { asset_id: 1, who: account(1), amount: 1 })
    );
}

#[test]
fn short_or_malformed_input_fails_to_decode() {
    let input = asset_request(0, 1, account(1), 1);
    assert_eq!(
        Psp22AssetExtension::plan(1102, &input[..52], &ADDRESS, &CALLER),
        Err(PlanError::DecodingFailed)
    );
    let bad_origin = asset_request(2, 1, account(1), 1);
    assert_eq!(
        Psp22AssetExtension::plan(1105, &bad_origin, &ADDRESS, &CALLER),
        Err(PlanError::DecodingFailed)
    );
    assert_eq!(Psp22AssetExtension::plan(1107, &[1, 2, 3], &ADDRESS, &CALLER), Err(PlanError::DecodingFailed));
    assert_eq!(Psp22AssetExtension::plan(1106, &[0; 35], &ADDRESS, &CALLER), Err(PlanError::DecodingFailed));
    assert_eq!(Psp22AssetExtension::plan(1110, &[0; 67], &ADDRESS, &CALLER), Err(PlanError::DecodingFailed));
}

#[test]
fn set_metadata_reads_its_request() {
    let input = metadata_request(0, 12, b"Token", b"TKN", 18);
    assert_eq!(
        Psp22AssetExtension::plan(1112, &input, &ADDRESS, &CALLER),
        Ok(PalletCall::SetMetadata { asset_id: 12, from: ADDRESS, name: b"Token".to_vec(), symbol: b"TKN".to_vec(), decimals: 18 })
    );
    let long_name = vec![b'x'; 300];
    let input = metadata_request(1, 12, &long_name, b"", 0);
    assert_eq!(
        Psp22AssetExtension::plan(1112, &input, &ADDRESS, &CALLER),
        Ok(PalletCall::SetMetadata { asset_id: 12, from: CALLER, name: long_name, symbol: vec![], decimals: 0 })
    );
}

#[test]
fn set_metadata_must_fill_the_input() {
    let mut input = metadata_request(0, 12, b"Token", b"TKN", 18);
    input.push(0);
    assert_eq!(Psp22AssetExtension::plan(1112, &input, &ADDRESS, &CALLER), Err(PlanError::DecodingFailed));
    let input = metadata_request(0, 12, b"Token", b"TKN", 18);
    assert_eq!(
        Psp22AssetExtension::plan(1112, &input[..input.len() - 1], &ADDRESS, &CALLER),
        Err(PlanError::DecodingFailed)
    );
    // A length that is not written in its shortest form is refused.
    let mut input = vec![0u8];
    input.extend_from_slice(&12u32.to_le_bytes());
    input.extend_from_slice(&[0b0000_0101, 0]);
    input.push(0);
    input.push(0);
    assert_eq!(Psp22AssetExtension::plan(1112, &input, &ADDRESS, &CALLER), Err(PlanError::DecodingFailed));
}

#[test]
fn error_conversion() {
    assert_eq!(PalletAssetErr::from(DispatchErrorKind::Other), PalletAssetErr::Other);
    assert_eq!(PalletAssetErr::from(DispatchErrorKind::BadOrigin), PalletAssetErr::BadOrigin);
    assert_eq!(PalletAssetErr::from(DispatchErrorKind::Module), PalletAssetErr::Module);
    assert_eq!(PalletAssetErr::from(DispatchErrorKind::TooManyConsumers), PalletAssetErr::TooManyConsumers);
    assert_eq!(
        PalletAssetErr::from(DispatchErrorKind::Token(TokenErrorKind::Frozen)),
        PalletAssetErr::Token(PalletAssetTokenErr::Frozen)
    );
    assert_eq!(
        PalletAssetErr::from(DispatchErrorKind::Arithmetic(ArithmeticErrorKind::DivisionByZero)),
        PalletAssetErr::Arithmetic(PalletAssetArithmeticErr::DivisionByZero)
    );
    for e in [
        DispatchErrorKind::Transactional,
        DispatchErrorKind::Exhausted,
        DispatchErrorKind::Corruption,
        DispatchErrorKind::Unavailable,
    ] {
        assert_eq!(PalletAssetErr::from(e), PalletAssetErr::Unknown);
    }
    assert_eq!(PalletAssetTokenErr::from(TokenErrorKind::WouldDie), PalletAssetTokenErr::WouldDie);
    assert_eq!(PalletAssetArithmeticErr::from(ArithmeticErrorKind::Overflow), PalletAssetArithmeticErr::Overflow);
}

#[test]
fn error_encoding() {
    assert_eq!(PalletAssetErr::Other.encode(), vec![0]);
    assert_eq!(PalletAssetErr::Unknown.encode(), vec![9]);
    assert_eq!(PalletAssetErr::Token(PalletAssetTokenErr::Unsupported).encode(), vec![7, 6]);
    assert_eq!(PalletAssetErr::Arithmetic(PalletAssetArithmeticErr::Underflow).encode(), vec![8, 0]);
    assert_eq!(PalletAssetTokenErr::Unknown.encode(), vec![7]);
    assert_eq!(PalletAssetArithmeticErr::Unknown.encode(), vec![3]);
    assert_eq!(encode_error_result(&PalletAssetErr::NoProviders), vec![1, 5]);
    assert_eq!(
        encode_error_result(&PalletAssetErr::Token(PalletAssetTokenErr::NoFunds)),
        vec![1, 7, 0]
    );
}

#[test]
fn failed_operations_are_answered_with_their_error() {
    let who = account(1);
    let err = DispatchErrorKind::Token(TokenErrorKind::BelowMinimum);
    let cases = [
        (PalletCall::Create { asset_id: 1, admin: who, is_sufficient: true, min_balance: 1 }, "ChainExtension failed to call 'approve transfer'"),
        (PalletCall::MintInto { asset_id: 1, who, amount: 1 }, "ChainExtension failed to call mint"),
        (PalletCall::Approve { asset_id: 1, owner: who, delegate: who, amount: 1 }, "ChainExtension failed to call 'approve'"),
        (PalletCall::TransferFrom { asset_id: 1, owner: who, delegate: who, dest: who, amount: 1 }, "ChainExtension failed to call 'approved transfer'"),
        (PalletCall::SetMetadata { asset_id: 1, from: who, name: vec![], symbol: vec![], decimals: 0 }, "ChainExtension failed to call set_metadata"),
    ];
    for (call, message) in cases {
        let reply = Psp22AssetExtension::respond(&call, PalletOutcome::Dispatched(Err(err))).unwrap();
        assert_eq!(reply.output, vec![1, 7, 2]);
        assert_eq!(reply.failure_message, message);
        assert!(Psp22AssetExtension::respond(&call, PalletOutcome::Dispatched(Ok(()))).is_none());
    }
}

#[test]
fn burn_and_transfer_are_never_answered() {
    let who = account(1);
    let burn = PalletCall::BurnFrom { asset_id: 1, who, amount: 1 };
    let transfer = PalletCall::Transfer { asset_id: 1, source: who, dest: who, amount: 1, keep_alive: true };
    for call in [burn, transfer] {
        assert!(Psp22AssetExtension::respond(&call, PalletOutcome::Dispatched(Err(DispatchErrorKind::BadOrigin))).is_none());
        assert!(Psp22AssetExtension::respond(&call, PalletOutcome::Dispatched(Ok(()))).is_none());
    }
}

#[test]
fn amounts_are_answered_little_endian() {
    let who = account(1);
    let reply = Psp22AssetExtension::respond(&PalletCall::Balance { asset_id: 1, who }, PalletOutcome::Amount(258)).unwrap();
    let mut expected = vec![2u8, 1];
    expected.extend_from_slice(&[0u8; 14]);
    assert_eq!(reply.output, expected);
    assert_eq!(reply.failure_message, "ChainExtension failed to call balance");
    let reply = Psp22AssetExtension::respond(&PalletCall::TotalSupply { asset_id: 1 }, PalletOutcome::Amount(u128::MAX)).unwrap();
    assert_eq!(reply.output, vec![0xff; 16]);
    assert_eq!(reply.failure_message, "ChainExtension failed to call total_supply");
    let reply = Psp22AssetExtension::respond(&PalletCall::Allowance { asset_id: 1, owner: who, delegate: who }, PalletOutcome::Amount(0)).unwrap();
    assert_eq!(reply.output, vec![0; 16]);
    assert_eq!(reply.failure_message, "ChainExtension failed to call balance");
}

#[test]
fn metadata_is_answered_encoded() {
    let name = Psp22AssetExtension::respond(&PalletCall::Name { asset_id: 1 }, PalletOutcome::Bytes(b"Abc".to_vec())).unwrap();
    assert_eq!(name.output, vec![16, 12, b'A', b'b', b'c']);
    assert_eq!(name.failure_message, "ChainExtension failed to call get metadata name");
    let symbol = Psp22AssetExtension::respond(&PalletCall::Symbol { asset_id: 1 }, PalletOutcome::Bytes(b"Abc".to_vec())).unwrap();
    assert_eq!(symbol.output, vec![12, b'A', b'b', b'c']);
    assert_eq!(symbol.failure_message, "ChainExtension failed to call balance");
    let decimals = Psp22AssetExtension::respond(&PalletCall::Decimals { asset_id: 1 }, PalletOutcome::Byte(12)).unwrap();
    assert_eq!(decimals.output, vec![12]);
    assert_eq!(decimals.failure_message, "ChainExtension failed to call total_supply");
    let long = vec![7u8; 100];
    let symbol = Psp22AssetExtension::respond(&PalletCall::Symbol { asset_id: 1 }, PalletOutcome::Bytes(long.clone())).unwrap();
    let mut expected = vec![0x91, 0x01];
    expected.extend_from_slice(&long);
    assert_eq!(symbol.output, expected);
}

#[test]
fn origin_decoding_and_resolution() {
    assert_eq!(decode_origin(0), Some(OriginType::Caller));
    assert_eq!(decode_origin(1), Some(OriginType::Address));
    assert_eq!(decode_origin(2), None);
    assert_eq!(resolve_origin(OriginType::Caller, &ADDRESS, &CALLER), ADDRESS);
    assert_eq!(resolve_origin(OriginType::Address, &ADDRESS, &CALLER), CALLER);
}

#[test]
fn every_error_has_its_own_encoding() {
    let mut errors = vec![
        PalletAssetErr::Other,
        PalletAssetErr::CannotLookup,
        PalletAssetErr::BadOrigin,
        PalletAssetErr::Module,
        PalletAssetErr::ConsumerRemaining,
        PalletAssetErr::NoProviders,
        PalletAssetErr::TooManyConsumers,
        PalletAssetErr::Unknown,
    ];
    for t in [
        PalletAssetTokenErr::NoFunds,
        PalletAssetTokenErr::WouldDie,
        PalletAssetTokenErr::BelowMinimum,
        PalletAssetTokenErr::CannotCreate,
        PalletAssetTokenErr::UnknownAsset,
        PalletAssetTokenErr::Frozen,
        PalletAssetTokenErr::Unsupported,
        PalletAssetTokenErr::Unknown,
    ] {
        errors.push(PalletAssetErr::Token(t));
    }
    for a in [
        PalletAssetArithmeticErr::Underflow,
        PalletAssetArithmeticErr::Overflow,
        PalletAssetArithmeticErr::DivisionByZero,
        PalletAssetArithmeticErr::Unknown,
    ] {
        errors.push(PalletAssetErr::Arithmetic(a));
    }
    for (i, e1) in errors.iter().enumerate() {
        let b1 = encode_error_result(e1);
        assert_eq!(b1[0], 1);
        assert_ne!(b1, vec![0u8]);
        for e2 in errors.iter().skip(i + 1) {
            assert_ne!(b1, encode_error_result(e2));
        }
    }
}
