//! Authenticated fund movement: withdrawals, deposit addresses, and the
//! networks a currency can be withdrawn over.
use vstd::prelude::*;
use crate::decimal::{is_positive_decimal, spec_is_decimal, spec_is_positive_decimal};
use crate::errors::{AuthedError, InvalidParams};
use crate::trading::rejects_params;

verus! {

/// One network over which a currency can be withdrawn. No minimum amount
/// means that there is none, or that it is unknown.
#[derive(Debug, Clone)]
pub struct WithdrawalMethod {
    pub network: String,
    pub fee: String,
    pub min_amount: Option<String>,
}

/// The fee, and the minimum where there is one, are exact decimals.
pub open spec fn method_amounts_are_decimal(m: WithdrawalMethod) -> bool {
    &&& spec_is_decimal(m.fee@)
    &&& m.min_amount matches Some(a) ==> spec_is_decimal(a@)
}

/// Checks the amount of a withdrawal before it is requested: it must be an
/// exact decimal above zero, else it is rejected as invalid parameters.
pub fn validate_withdrawal_amount(amount: &str) -> (r: Result<(), AuthedError>)
    ensures
        r is Ok <==> spec_is_positive_decimal(amount@),
        r is Err ==> rejects_params(r),
{
    if is_positive_decimal(amount) {
        Ok(())
    } else {
        Err(
            AuthedError::InvalidParams(
                InvalidParams::new("amount must be a decimal above zero".to_owned()),
            ),
        )
    }
}

/// Fund movement on one exchange account. Every operation fails only with
/// an [`AuthedError`].
pub trait Wallet {
    /// Requests a withdrawal; once the exchange accepts it, it cannot be
    /// taken back. An amount that is no decimal above zero is rejected as
    /// invalid parameters.
    fn withdraw(&self, currency: &str, address: &str, amount: String, network: Option<&str>) -> (r:
        Result<(), AuthedError>)
        ensures
            !spec_is_positive_decimal(amount@) ==> rejects_params(r),
    ;

    /// The address to which `currency` can be deposited.
    fn get_deposit_address(&self, currency: &str, network: Option<&str>) -> Result<
        String,
        AuthedError,
    >;

    /// Every network over which `currency` can be withdrawn, with its fee
    /// and minimum.
    fn get_withdrawal_methods(&self, currency: &str) -> (r: Result<
        Vec<WithdrawalMethod>,
        AuthedError,
    >)
        ensures
            r matches Ok(ms) ==> forall|i: int|
                0 <= i < ms@.len() ==> method_amounts_are_decimal(#[trigger] ms@[i]),
    ;
}

} // verus!
