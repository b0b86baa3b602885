//! Status codes and plain records that cross the boundary by value.

use vstd::prelude::*;

verus! {

/// Code of [`BccResult::success`].
pub const RESULT_SUCCESS: i32 = 0;

/// Code of [`BccResult::failure`].
pub const RESULT_FAILURE: i32 = 1;

/// Code of [`BccBIP39ErrorCode::success`].
pub const BIP39_SUCCESS: i32 = 0;

/// Code of [`BccBIP39ErrorCode::invalid_word`].
pub const BIP39_INVALID_WORD: i32 = 1;

/// Code of [`BccBIP39ErrorCode::invalid_checksum`].
pub const BIP39_INVALID_CHECKSUM: i32 = 2;

/// Code of [`BccBIP39ErrorCode::invalid_word_count`].
pub const BIP39_INVALID_WORD_COUNT: i32 = 3;

/// Code of [`BccTransactionErrorCode::success`].
pub const TRANSACTION_SUCCESS: i32 = 0;

/// Code of [`BccTransactionErrorCode::no_outputs`].
pub const TRANSACTION_NO_OUTPUTS: i32 = 1;

/// Code of [`BccTransactionErrorCode::no_inputs`].
pub const TRANSACTION_NO_INPUTS: i32 = 2;

/// Code of [`BccTransactionErrorCode::signature_mismatch`].
pub const TRANSACTION_SIGNATURE_MISMATCH: i32 = 3;

/// Code of [`BccTransactionErrorCode::over_limit`].
pub const TRANSACTION_OVER_LIMIT: i32 = 4;

/// Code of [`BccTransactionErrorCode::signatures_exceeded`].
pub const TRANSACTION_SIGNATURES_EXCEEDED: i32 = 5;

/// Code of [`BccTransactionErrorCode::coin_out_of_bounds`].
pub const TRANSACTION_COIN_OUT_OF_BOUNDS: i32 = 6;

/// Result of an operation that either works or does not: 0 is success, anything
/// else is failure.
#[derive(Clone, Copy, Debug, PartialEq, Eq, Structural)]
pub struct BccResult(pub i32);

impl BccResult {
    /// The integer that crosses the boundary.
    pub fn code(&self) -> (code: i32)
        ensures
            code == self.0,
    {
        self.0
    }

    pub fn success() -> (result: BccResult)
        ensures
            result.0 == RESULT_SUCCESS,
    {
        BccResult(0)
    }

    pub fn failure() -> (result: BccResult)
        ensures
            result.0 == RESULT_FAILURE,
    {
        BccResult(1)
    }
}

/// The ways in which the mnemonic codec answers.
#[derive(Clone, Copy, Debug, PartialEq, Eq, Structural)]
pub struct BccBIP39ErrorCode(pub i32);

impl BccBIP39ErrorCode {
    /// The integer that crosses the boundary.
    pub fn code(&self) -> (code: i32)
        ensures
            code == self.0,
    {
        self.0
    }

    pub fn success() -> (code: Self)
        ensures
            code.0 == BIP39_SUCCESS,
    {
        BccBIP39ErrorCode(0)
    }

    /// A word of the phrase is not in the dictionary.
    pub fn invalid_word() -> (code: Self)
        ensures
            code.0 == BIP39_INVALID_WORD,
    {
        BccBIP39ErrorCode(1)
    }

    /// The checksum that the phrase embeds does not match its entropy.
    pub fn invalid_checksum() -> (code: Self)
        ensures
            code.0 == BIP39_INVALID_CHECKSUM,
    {
        BccBIP39ErrorCode(2)
    }

    /// The word count is not one of the supported ones.
    pub fn invalid_word_count() -> (code: Self)
        ensures
            code.0 == BIP39_INVALID_WORD_COUNT,
    {
        BccBIP39ErrorCode(3)
    }
}

/// The ways in which building a transaction answers.
#[derive(Clone, Copy, Debug, PartialEq, Eq, Structural)]
pub struct BccTransactionErrorCode(pub i32);

/// Why the wallet library refused to build a transaction.
#[derive(Clone, Copy, Debug, PartialEq, Eq, Structural)]
pub enum TxBuildError {
    TxInvalidNoInput,
    TxInvalidNoOutput,
    TxNotEnoughTotalInput,
    TxOverLimit,
    TxOutputPolicyNotEnoughCoins,
    TxSignaturesExceeded,
    TxSignaturesMismatch,
    CoinError,
    FeeError,
}

impl TxBuildError {
    /// The code that stands for this cause at the boundary, where one is defined.
    pub open spec fn code_of(self) -> Option<i32> {
        match self {
            TxBuildError::TxInvalidNoInput => Some(TRANSACTION_NO_INPUTS),
            TxBuildError::TxInvalidNoOutput => Some(TRANSACTION_NO_OUTPUTS),
            TxBuildError::TxNotEnoughTotalInput => None,
            TxBuildError::TxOverLimit => Some(TRANSACTION_OVER_LIMIT),
            TxBuildError::TxOutputPolicyNotEnoughCoins => None,
            TxBuildError::TxSignaturesExceeded => Some(TRANSACTION_SIGNATURES_EXCEEDED),
            TxBuildError::TxSignaturesMismatch => Some(TRANSACTION_SIGNATURE_MISMATCH),
            TxBuildError::CoinError => Some(TRANSACTION_COIN_OUT_OF_BOUNDS),
            TxBuildError::FeeError => None,
        }
    }

    /// Whether a code is defined for this cause.  Three causes have none yet:
    /// not enough input in total, an output policy short of coins, and a fee
    /// that could not be computed.
    pub fn has_code(&self) -> (defined: bool)
        ensures
            defined == self.code_of().is_some(),
    {
        match self {
            TxBuildError::TxNotEnoughTotalInput => false,
            TxBuildError::TxOutputPolicyNotEnoughCoins => false,
            TxBuildError::FeeError => false,
            _ => true,
        }
    }
}

impl BccTransactionErrorCode {
    /// The integer that crosses the boundary.
    pub fn code(&self) -> (code: i32)
        ensures
            code == self.0,
    {
        self.0
    }

    pub fn success() -> (code: Self)
        ensures
            code.0 == TRANSACTION_SUCCESS,
    {
        BccTransactionErrorCode(0)
    }

    /// The transaction has no outputs.
    pub fn no_outputs() -> (code: Self)
        ensures
            code.0 == TRANSACTION_NO_OUTPUTS,
    {
        BccTransactionErrorCode(1)
    }

    /// The transaction has no inputs.
    pub fn no_inputs() -> (code: Self)
        ensures
            code.0 == TRANSACTION_NO_INPUTS,
    {
        BccTransactionErrorCode(2)
    }

    /// The number of signatures does not match the number of witnesses.
    pub fn signature_mismatch() -> (code: Self)
        ensures
            code.0 == TRANSACTION_SIGNATURE_MISMATCH,
    {
        BccTransactionErrorCode(3)
    }

    /// The transaction is too big.
    pub fn over_limit() -> (code: Self)
        ensures
            code.0 == TRANSACTION_OVER_LIMIT,
    {
        BccTransactionErrorCode(4)
    }

    /// The transaction already has enough signatures.
    pub fn signatures_exceeded() -> (code: Self)
        ensures
            code.0 == TRANSACTION_SIGNATURES_EXCEEDED,
    {
        BccTransactionErrorCode(5)
    }

    /// A coin value is out of bounds.
    pub fn coin_out_of_bounds() -> (code: Self)
        ensures
            code.0 == TRANSACTION_COIN_OUT_OF_BOUNDS,
    {
        BccTransactionErrorCode(6)
    }

    /// The code that reports `err`.  A cause without a defined code is refused
    /// rather than reported under a code that means something else: test
    /// [`TxBuildError::has_code`] first.
    pub fn from(err: TxBuildError) -> (code: Self)
        requires
            err.code_of().is_some(),
        ensures
            Some(code.0) == err.code_of(),
            code.0 != TRANSACTION_SUCCESS,
    {
        match err {
            TxBuildError::TxInvalidNoInput => Self::no_inputs(),
            TxBuildError::TxInvalidNoOutput => Self::no_outputs(),
            TxBuildError::TxOverLimit => Self::over_limit(),
            TxBuildError::TxSignaturesExceeded => Self::signatures_exceeded(),
            TxBuildError::TxSignaturesMismatch => Self::signature_mismatch(),
            _ => Self::coin_out_of_bounds(),
        }
    }
}

/// Sign of a difference between two amounts of coin.
#[derive(Clone, Copy, Debug, PartialEq, Eq, Structural)]
pub enum DiffType {
    Positive,
    Negative,
    Zero,
}

/// A difference between two amounts of coin, as the wallet library reports it:
/// the sign, and the distance where there is one.
#[derive(Clone, Copy, Debug, PartialEq, Eq, Structural)]
pub enum CoinDiff {
    Positive(u64),
    Negative(u64),
    Zero,
}

/// A difference between two amounts of coin as a flat record: sign and
/// magnitude side by side.
#[derive(Clone, Copy, Debug, PartialEq, Eq, Structural)]
pub struct Balance {
    pub sign: DiffType,
    pub value: u64,
}

impl Balance {
    /// The integer that this record stands for.
    pub open spec fn amount(self) -> int {
        match self.sign {
            DiffType::Positive => self.value as int,
            DiffType::Negative => -(self.value as int),
            DiffType::Zero => 0,
        }
    }
}

impl CoinDiff {
    /// The integer that this difference stands for.
    pub open spec fn amount(self) -> int {
        match self {
            CoinDiff::Positive(i) => i as int,
            CoinDiff::Negative(i) => -(i as int),
            CoinDiff::Zero => 0,
        }
    }
}

impl vstd::std_specs::convert::FromSpecImpl<CoinDiff> for Balance {
    open spec fn obeys_from_spec() -> bool {
        true
    }

    open spec fn from_spec(cd: CoinDiff) -> Balance {
        match cd {
            CoinDiff::Positive(i) => Balance { sign: DiffType::Positive, value: i },
            CoinDiff::Negative(i) => Balance { sign: DiffType::Negative, value: i },
            CoinDiff::Zero => Balance { sign: DiffType::Zero, value: 0 },
        }
    }
}

impl From<CoinDiff> for Balance {
    fn from(cd: CoinDiff) -> (balance: Balance) {
        match cd {
            CoinDiff::Positive(i) => Balance { sign: DiffType::Positive, value: i },
            CoinDiff::Negative(i) => Balance { sign: DiffType::Negative, value: i },
            CoinDiff::Zero => Balance { sign: DiffType::Zero, value: 0 },
        }
    }
}

/// Flattening a difference keeps the integer that it stands for.
pub proof fn lemma_balance_keeps_amount(cd: CoinDiff)
    ensures
        <Balance as vstd::std_specs::convert::FromSpec<CoinDiff>>::from_spec(cd).amount() == cd.amount(),
{
}

} // verus!
