//! Transaction checks for Ethereum transactions handled by the ethink pallet.

pub mod crypto;
pub mod laws;
pub mod pallet;
pub mod primitives;
pub mod transaction;
pub mod validity;

pub use primitives::{H160, H256, U256};
pub use transaction::{
    EIP1559Transaction, EIP2930Transaction, EthTransaction, LegacyTransaction,
    TransactionAction, TransactionSignature,
};
pub use validity::{
    InvalidTransaction, TransactionValidity, TransactionValidityError, UnknownTransaction,
    ValidTransaction,
};
