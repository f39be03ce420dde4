//! The errors that the extension reports back to a contract, what each
//! runtime error becomes, and their SCALE encoding.

use vstd::prelude::*;
use vstd::std_specs::convert::FromSpecImpl;

verus! {

/// What a contract is told when an asset operation fails.
#[derive(Debug, Copy, Clone, PartialEq, Eq, Structural)]
pub enum PalletAssetErr {
    /// Some error occurred.
    Other,
    /// Failed to lookup some data.
    CannotLookup,
    /// A bad origin.
    BadOrigin,
    /// A custom error in a module.
    Module,
    /// At least one consumer is remaining so the account cannot be destroyed.
    ConsumerRemaining,
    /// There are no providers so the account cannot be created.
    NoProviders,
    /// There are too many consumers so the account cannot be created.
    TooManyConsumers,
    /// An error to do with tokens.
    Token(PalletAssetTokenErr),
    /// An arithmetic error.
    Arithmetic(PalletAssetArithmeticErr),
    /// Any other runtime error.
    Unknown,
}

/// The arithmetic errors a contract can be told of.
#[derive(Debug, Copy, Clone, PartialEq, Eq, Structural)]
pub enum PalletAssetArithmeticErr {
    /// Underflow.
    Underflow,
    /// Overflow.
    Overflow,
    /// Division by zero.
    DivisionByZero,
    /// Any other arithmetic error.
    Unknown,
}

/// The token errors a contract can be told of.
#[derive(Debug, Copy, Clone, PartialEq, Eq, Structural)]
pub enum PalletAssetTokenErr {
    /// Funds are unavailable.
    NoFunds,
    /// Account that must exist would die.
    WouldDie,
    /// Account cannot exist with the funds that would be given.
    BelowMinimum,
    /// Account cannot be created.
    CannotCreate,
    /// The asset in question is unknown.
    UnknownAsset,
    /// Funds exist but are frozen.
    Frozen,
    /// Operation is not supported by the asset.
    Unsupported,
    /// Any other token error.
    Unknown,
}

/// The runtime's dispatch error, as far as the extension reads it: which
/// variant it is, with the token or arithmetic error it carries.
#[derive(Debug, Copy, Clone, PartialEq, Eq, Structural)]
pub enum DispatchErrorKind {
    Other,
    CannotLookup,
    BadOrigin,
    Module,
    ConsumerRemaining,
    NoProviders,
    TooManyConsumers,
    Token(TokenErrorKind),
    Arithmetic(ArithmeticErrorKind),
    Transactional,
    Exhausted,
    Corruption,
    Unavailable,
}

/// The runtime's token error.
#[derive(Debug, Copy, Clone, PartialEq, Eq, Structural)]
pub enum TokenErrorKind {
    NoFunds,
    WouldDie,
    BelowMinimum,
    CannotCreate,
    UnknownAsset,
    Frozen,
    Unsupported,
}

/// The runtime's arithmetic error.
#[derive(Debug, Copy, Clone, PartialEq, Eq, Structural)]
pub enum ArithmeticErrorKind {
    Underflow,
    Overflow,
    DivisionByZero,
}

/// The token error a contract is told of for a runtime token error.
pub open spec fn token_err_of(e: TokenErrorKind) -> PalletAssetTokenErr {
    match e {
        TokenErrorKind::NoFunds => PalletAssetTokenErr::NoFunds,
        TokenErrorKind::WouldDie => PalletAssetTokenErr::WouldDie,
        TokenErrorKind::BelowMinimum => PalletAssetTokenErr::BelowMinimum,
        TokenErrorKind::CannotCreate => PalletAssetTokenErr::CannotCreate,
        TokenErrorKind::UnknownAsset => PalletAssetTokenErr::UnknownAsset,
        TokenErrorKind::Frozen => PalletAssetTokenErr::Frozen,
        TokenErrorKind::Unsupported => PalletAssetTokenErr::Unsupported,
    }
}

/// The arithmetic error a contract is told of for a runtime arithmetic error.
pub open spec fn arithmetic_err_of(e: ArithmeticErrorKind) -> PalletAssetArithmeticErr {
    match e {
        ArithmeticErrorKind::Underflow => PalletAssetArithmeticErr::Underflow,
        ArithmeticErrorKind::Overflow => PalletAssetArithmeticErr::Overflow,
        ArithmeticErrorKind::DivisionByZero => PalletAssetArithmeticErr::DivisionByZero,
    }
}

/// The error a contract is told of for a runtime dispatch error.
pub open spec fn pallet_err_of(e: DispatchErrorKind) -> PalletAssetErr {
    match e {
        DispatchErrorKind::Other => PalletAssetErr::Other,
        DispatchErrorKind::CannotLookup => PalletAssetErr::CannotLookup,
        DispatchErrorKind::BadOrigin => PalletAssetErr::BadOrigin,
        DispatchErrorKind::Module => PalletAssetErr::Module,
        DispatchErrorKind::ConsumerRemaining => PalletAssetErr::ConsumerRemaining,
        DispatchErrorKind::NoProviders => PalletAssetErr::NoProviders,
        DispatchErrorKind::TooManyConsumers => PalletAssetErr::TooManyConsumers,
        DispatchErrorKind::Token(t) => PalletAssetErr::Token(token_err_of(t)),
        DispatchErrorKind::Arithmetic(a) => PalletAssetErr::Arithmetic(arithmetic_err_of(a)),
        _ => PalletAssetErr::Unknown,
    }
}

impl From<TokenErrorKind> for PalletAssetTokenErr {
    fn from(e: TokenErrorKind) -> (r: Self) {
        match e {
            TokenErrorKind::NoFunds => PalletAssetTokenErr::NoFunds,
            TokenErrorKind::WouldDie => PalletAssetTokenErr::WouldDie,
            TokenErrorKind::BelowMinimum => PalletAssetTokenErr::BelowMinimum,
            TokenErrorKind::CannotCreate => PalletAssetTokenErr::CannotCreate,
            TokenErrorKind::UnknownAsset => PalletAssetTokenErr::UnknownAsset,
            TokenErrorKind::Frozen => PalletAssetTokenErr::Frozen,
            TokenErrorKind::Unsupported => PalletAssetTokenErr::Unsupported,
        }
    }
}

impl FromSpecImpl<TokenErrorKind> for PalletAssetTokenErr {
    open spec fn obeys_from_spec() -> bool {
        true
    }

    open spec fn from_spec(e: TokenErrorKind) -> Self {
        token_err_of(e)
    }
}

impl From<ArithmeticErrorKind> for PalletAssetArithmeticErr {
    fn from(e: ArithmeticErrorKind) -> (r: Self) {
        match e {
            ArithmeticErrorKind::Underflow => PalletAssetArithmeticErr::Underflow,
            ArithmeticErrorKind::Overflow => PalletAssetArithmeticErr::Overflow,
            ArithmeticErrorKind::DivisionByZero => PalletAssetArithmeticErr::DivisionByZero,
        }
    }
}

impl FromSpecImpl<ArithmeticErrorKind> for PalletAssetArithmeticErr {
    open spec fn obeys_from_spec() -> bool {
        true
    }

    open spec fn from_spec(e: ArithmeticErrorKind) -> Self {
        arithmetic_err_of(e)
    }
}

impl From<DispatchErrorKind> for PalletAssetErr {
    fn from(e: DispatchErrorKind) -> (r: Self) {
        match e {
            DispatchErrorKind::Other => PalletAssetErr::Other,
            DispatchErrorKind::CannotLookup => PalletAssetErr::CannotLookup,
            DispatchErrorKind::BadOrigin => PalletAssetErr::BadOrigin,
            DispatchErrorKind::Module => PalletAssetErr::Module,
            DispatchErrorKind::ConsumerRemaining => PalletAssetErr::ConsumerRemaining,
            DispatchErrorKind::NoProviders => PalletAssetErr::NoProviders,
            DispatchErrorKind::TooManyConsumers => PalletAssetErr::TooManyConsumers,
            DispatchErrorKind::Token(t) => PalletAssetErr::Token(PalletAssetTokenErr::from(t)),
            DispatchErrorKind::Arithmetic(a) => PalletAssetErr::Arithmetic(
                PalletAssetArithmeticErr::from(a),
            ),
            _ => PalletAssetErr::Unknown,
        }
    }
}

impl FromSpecImpl<DispatchErrorKind> for PalletAssetErr {
    open spec fn obeys_from_spec() -> bool {
        true
    }

    open spec fn from_spec(e: DispatchErrorKind) -> Self {
        pallet_err_of(e)
    }
}

/// The SCALE variant index of a token error (its place in the declaration).
pub open spec fn token_err_index(e: PalletAssetTokenErr) -> u8 {
    match e {
        PalletAssetTokenErr::NoFunds => 0,
        PalletAssetTokenErr::WouldDie => 1,
        PalletAssetTokenErr::BelowMinimum => 2,
        PalletAssetTokenErr::CannotCreate => 3,
        PalletAssetTokenErr::UnknownAsset => 4,
        PalletAssetTokenErr::Frozen => 5,
        PalletAssetTokenErr::Unsupported => 6,
        PalletAssetTokenErr::Unknown => 7,
    }
}

/// The SCALE variant index of an arithmetic error.
pub open spec fn arithmetic_err_index(e: PalletAssetArithmeticErr) -> u8 {
    match e {
        PalletAssetArithmeticErr::Underflow => 0,
        PalletAssetArithmeticErr::Overflow => 1,
        PalletAssetArithmeticErr::DivisionByZero => 2,
        PalletAssetArithmeticErr::Unknown => 3,
    }
}

/// The SCALE encoding of an error: its variant index, followed by the
/// index of the token or arithmetic error it carries.
pub open spec fn err_encoding(e: PalletAssetErr) -> Seq<u8> {
    match e {
        PalletAssetErr::Other => seq![0u8],
        PalletAssetErr::CannotLookup => seq![1u8],
        PalletAssetErr::BadOrigin => seq![2u8],
        PalletAssetErr::Module => seq![3u8],
        PalletAssetErr::ConsumerRemaining => seq![4u8],
        PalletAssetErr::NoProviders => seq![5u8],
        PalletAssetErr::TooManyConsumers => seq![6u8],
        PalletAssetErr::Token(t) => seq![7u8, token_err_index(t)],
        PalletAssetErr::Arithmetic(a) => seq![8u8, arithmetic_err_index(a)],
        PalletAssetErr::Unknown => seq![9u8],
    }
}

/// The SCALE encoding of `Result::<(), PalletAssetErr>::Err(e)`: the `Err`
/// marker 1, then the error.
pub open spec fn err_result_encoding(e: PalletAssetErr) -> Seq<u8> {
    seq![1u8] + err_encoding(e)
}

/// The SCALE encoding of `Result::<(), PalletAssetErr>::Ok(())`.
pub open spec fn ok_result_encoding() -> Seq<u8> {
    seq![0u8]
}

impl PalletAssetTokenErr {
    /// The SCALE encoding of the token error: its variant index.
    pub fn encode(&self) -> (r: Vec<u8>)
        ensures
            r@ == seq![token_err_index(*self)],
    {
        let i: u8 = match self {
            PalletAssetTokenErr::NoFunds => 0,
            PalletAssetTokenErr::WouldDie => 1,
            PalletAssetTokenErr::BelowMinimum => 2,
            PalletAssetTokenErr::CannotCreate => 3,
            PalletAssetTokenErr::UnknownAsset => 4,
            PalletAssetTokenErr::Frozen => 5,
            PalletAssetTokenErr::Unsupported => 6,
            PalletAssetTokenErr::Unknown => 7,
        };
        vec![i]
    }
}

impl PalletAssetArithmeticErr {
    /// The SCALE encoding of the arithmetic error: its variant index.
    pub fn encode(&self) -> (r: Vec<u8>)
        ensures
            r@ == seq![arithmetic_err_index(*self)],
    {
        let i: u8 = match self {
            PalletAssetArithmeticErr::Underflow => 0,
            PalletAssetArithmeticErr::Overflow => 1,
            PalletAssetArithmeticErr::DivisionByZero => 2,
            PalletAssetArithmeticErr::Unknown => 3,
        };
        vec![i]
    }
}

impl PalletAssetErr {
    /// The SCALE encoding of the error.
    pub fn encode(&self) -> (r: Vec<u8>)
        ensures
            r@ == err_encoding(*self),
    {
        match self {
            PalletAssetErr::Other => vec![0u8],
            PalletAssetErr::CannotLookup => vec![1u8],
            PalletAssetErr::BadOrigin => vec![2u8],
            PalletAssetErr::Module => vec![3u8],
            PalletAssetErr::ConsumerRemaining => vec![4u8],
            PalletAssetErr::NoProviders => vec![5u8],
            PalletAssetErr::TooManyConsumers => vec![6u8],
            PalletAssetErr::Token(t) => {
                let mut v = vec![7u8];
                let mut inner = t.encode();
                v.append(&mut inner);
                v
            },
            PalletAssetErr::Arithmetic(a) => {
                let mut v = vec![8u8];
                let mut inner = a.encode();
                v.append(&mut inner);
                v
            },
            PalletAssetErr::Unknown => vec![9u8],
        }
    }
}

/// The SCALE encoding of `Result::<(), PalletAssetErr>::Err(*e)`, the
/// answer a contract gets for a failed operation.
pub fn encode_error_result(e: &PalletAssetErr) -> (r: Vec<u8>)
    ensures
        r@ == err_result_encoding(*e),
{
    let mut v = vec![1u8];
    let mut inner = e.encode();
    v.append(&mut inner);
    v
}

/// The token error with a given variant index.
pub open spec fn token_err_at(i: u8) -> PalletAssetTokenErr {
    if i == 0 {
        PalletAssetTokenErr::NoFunds
    } else if i == 1 {
        PalletAssetTokenErr::WouldDie
    } else if i == 2 {
        PalletAssetTokenErr::BelowMinimum
    } else if i == 3 {
        PalletAssetTokenErr::CannotCreate
    } else if i == 4 {
        PalletAssetTokenErr::UnknownAsset
    } else if i == 5 {
        PalletAssetTokenErr::Frozen
    } else if i == 6 {
        PalletAssetTokenErr::Unsupported
    } else {
        PalletAssetTokenErr::Unknown
    }
}

/// The arithmetic error with a given variant index.
pub open spec fn arithmetic_err_at(i: u8) -> PalletAssetArithmeticErr {
    if i == 0 {
        PalletAssetArithmeticErr::Underflow
    } else if i == 1 {
        PalletAssetArithmeticErr::Overflow
    } else if i == 2 {
        PalletAssetArithmeticErr::DivisionByZero
    } else {
        PalletAssetArithmeticErr::Unknown
    }
}

/// The error that an encoding stands for.
pub open spec fn err_from_encoding(s: Seq<u8>) -> PalletAssetErr {
    if s[0] == 0 {
        PalletAssetErr::Other
    } else if s[0] == 1 {
        PalletAssetErr::CannotLookup
    } else if s[0] == 2 {
        PalletAssetErr::BadOrigin
    } else if s[0] == 3 {
        PalletAssetErr::Module
    } else if s[0] == 4 {
        PalletAssetErr::ConsumerRemaining
    } else if s[0] == 5 {
        PalletAssetErr::NoProviders
    } else if s[0] == 6 {
        PalletAssetErr::TooManyConsumers
    } else if s[0] == 7 {
        PalletAssetErr::Token(token_err_at(s[1]))
    } else if s[0] == 8 {
        PalletAssetErr::Arithmetic(arithmetic_err_at(s[1]))
    } else {
        PalletAssetErr::Unknown
    }
}

/// Reading an error's encoding back gives the error.
pub proof fn lemma_err_encoding_roundtrip(e: PalletAssetErr)
    ensures
        err_from_encoding(err_encoding(e)) == e,
{
    match e {
        PalletAssetErr::Token(t) => {
            assert(token_err_at(token_err_index(t)) == t);
        },
        PalletAssetErr::Arithmetic(a) => {
            assert(arithmetic_err_at(arithmetic_err_index(a)) == a);
        },
        _ => {},
    }
}

/// Two errors with the same encoding are the same error: a contract can
/// tell every error apart from the bytes it gets.
pub proof fn lemma_err_encoding_injective(e1: PalletAssetErr, e2: PalletAssetErr)
    requires
        err_encoding(e1) == err_encoding(e2),
    ensures
        e1 == e2,
{
    lemma_err_encoding_roundtrip(e1);
    lemma_err_encoding_roundtrip(e2);
}

/// The answer to a failed operation tells which error it was, and is never
/// the encoding of success.
pub proof fn lemma_err_result_encoding_distinct(e1: PalletAssetErr, e2: PalletAssetErr)
    ensures
        err_result_encoding(e1) == err_result_encoding(e2) ==> e1 == e2,
        err_result_encoding(e1) != ok_result_encoding(),
{
    if err_result_encoding(e1) == err_result_encoding(e2) {
        assert(err_encoding(e1) =~= err_result_encoding(e1).skip(1));
        assert(err_encoding(e2) =~= err_result_encoding(e2).skip(1));
        lemma_err_encoding_injective(e1, e2);
    }
    assert(err_result_encoding(e1)[0] != ok_result_encoding()[0]);
}

/// The SCALE variant index of a runtime token error (its place in the
/// runtime's declaration).
pub open spec fn token_kind_index(t: TokenErrorKind) -> u8 {
    match t {
        TokenErrorKind::NoFunds => 0,
        TokenErrorKind::WouldDie => 1,
        TokenErrorKind::BelowMinimum => 2,
        TokenErrorKind::CannotCreate => 3,
        TokenErrorKind::UnknownAsset => 4,
        TokenErrorKind::Frozen => 5,
        TokenErrorKind::Unsupported => 6,
    }
}

/// The SCALE variant index of a runtime arithmetic error.
pub open spec fn arithmetic_kind_index(a: ArithmeticErrorKind) -> u8 {
    match a {
        ArithmeticErrorKind::Underflow => 0,
        ArithmeticErrorKind::Overflow => 1,
        ArithmeticErrorKind::DivisionByZero => 2,
    }
}

/// The SCALE variant index of a runtime dispatch error.
pub open spec fn dispatch_kind_index(e: DispatchErrorKind) -> u8 {
    match e {
        DispatchErrorKind::Other => 0,
        DispatchErrorKind::CannotLookup => 1,
        DispatchErrorKind::BadOrigin => 2,
        DispatchErrorKind::Module => 3,
        DispatchErrorKind::ConsumerRemaining => 4,
        DispatchErrorKind::NoProviders => 5,
        DispatchErrorKind::TooManyConsumers => 6,
        DispatchErrorKind::Token(_) => 7,
        DispatchErrorKind::Arithmetic(_) => 8,
        DispatchErrorKind::Transactional => 9,
        DispatchErrorKind::Exhausted => 10,
        DispatchErrorKind::Corruption => 11,
        DispatchErrorKind::Unavailable => 12,
    }
}

/// Every runtime token error becomes the contract's token error of the same
/// name: never `Unknown`, and with the runtime error's variant index.
pub proof fn lemma_token_err_keeps_its_name(t: TokenErrorKind)
    ensures
        token_err_of(t) != PalletAssetTokenErr::Unknown,
        token_err_index(token_err_of(t)) == token_kind_index(t),
{
}

/// Every runtime arithmetic error becomes the contract's arithmetic error of
/// the same name: never `Unknown`, and with the runtime error's variant
/// index.
pub proof fn lemma_arithmetic_err_keeps_its_name(a: ArithmeticErrorKind)
    ensures
        arithmetic_err_of(a) != PalletAssetArithmeticErr::Unknown,
        arithmetic_err_index(arithmetic_err_of(a)) == arithmetic_kind_index(a),
{
}

/// A runtime dispatch error is reported under its own variant index when
/// the contract's error type names it (the first nine), with a token or
/// arithmetic error carried over by name; the runtime's later variants are
/// reported as `Unknown`. The encoding of the reported error starts with
/// that index.
pub proof fn lemma_dispatch_err_keeps_its_name(e: DispatchErrorKind)
    ensures
        dispatch_kind_index(e) < 9 ==> err_encoding(pallet_err_of(e))[0] == dispatch_kind_index(e),
        dispatch_kind_index(e) >= 9 ==> pallet_err_of(e) == PalletAssetErr::Unknown,
        e matches DispatchErrorKind::Token(t) ==> err_encoding(pallet_err_of(e)) == seq![
            7u8,
            token_kind_index(t),
        ],
        e matches DispatchErrorKind::Arithmetic(a) ==> err_encoding(pallet_err_of(e)) == seq![
            8u8,
            arithmetic_kind_index(a),
        ],
        pallet_err_of(e) != PalletAssetErr::Token(PalletAssetTokenErr::Unknown),
        pallet_err_of(e) != PalletAssetErr::Arithmetic(PalletAssetArithmeticErr::Unknown),
{
    match e {
        DispatchErrorKind::Token(t) => lemma_token_err_keeps_its_name(t),
        DispatchErrorKind::Arithmetic(a) => lemma_arithmetic_err_keeps_its_name(a),
        _ => {},
    }
}

/// Every error is encoded by its place in the declaration: the variants
/// the runtime names first, then `Unknown` last, in each of the three enums.
pub proof fn lemma_unknown_variants_encoded_last()
    ensures
        err_encoding(PalletAssetErr::Unknown) == seq![9u8],
        err_encoding(PalletAssetErr::Token(PalletAssetTokenErr::Unknown)) == seq![7u8, 7u8],
        err_encoding(PalletAssetErr::Arithmetic(PalletAssetArithmeticErr::Unknown)) == seq![
            8u8,
            3u8,
        ],
{
}

/// Runtime errors that differ in what the extension reads of them are told
/// apart by the contract, but for the runtime variants the extension does
/// not name, which all become `Unknown`.
pub proof fn lemma_pallet_err_of_named_injective(e1: DispatchErrorKind, e2: DispatchErrorKind)
    requires
        pallet_err_of(e1) == pallet_err_of(e2),
        pallet_err_of(e1) != PalletAssetErr::Unknown,
    ensures
        e1 == e2,
{
}

} // verus!
