//! The reward token's admission rules.
//!
//! The token's ledger — balances, allowances, metadata — lives with the
//! host's token interface; the embedder calls it after this logic has
//! admitted the operation.  What the contract itself enforces is here:
//! who the admin is, that only the admin mints, and that every amount
//! is in range.  A call that returns `Ok` is cleared for the embedder
//! to carry out; a call that returns an error must not reach the
//! ledger.

use vstd::prelude::*;

use crate::Address;

verus! {

/// The number of decimal places the token is created with.
pub const DECIMAL_PLACES: u32 = 7;

/// Everything that can go wrong in a token call.
#[derive(Clone, Copy, Debug, PartialEq, Eq, Structural)]
pub enum TokenError {
    /// The token already has an admin.
    AlreadyInitialized,
    /// The token has not been initialized yet.
    NotInitialized,
    /// The caller is not the admin.
    NotAuthorized,
    /// An amount outside the operation's allowed range.
    InvalidAmount,
}

/// The token contract's own state: the admin that may mint.
pub struct TrueToken {
    /// The admin; `None` until `initialize` has run.
    pub admin: Option<Address>,
}

impl TrueToken {
    /// Whether `initialize` has run.
    pub open spec fn is_initialized(self) -> bool {
        self.admin is Some
    }

    /// A fresh, uninitialized token contract.
    pub fn new() -> (t: TrueToken)
        ensures
            !t.is_initialized(),
    {
        TrueToken { admin: None }
    }

    /// Installs the admin; the embedder then creates the ledger-side
    /// token with [`DECIMAL_PLACES`] decimals.  Fails, changing
    /// nothing, when the token already has an admin.
    pub fn initialize(&mut self, admin: Address) -> (r: Result<(), TokenError>)
        ensures
            r == (if old(self).is_initialized() {
                Err::<(), TokenError>(TokenError::AlreadyInitialized)
            } else {
                Ok::<(), TokenError>(())
            }),
            r is Err ==> *final(self) == *old(self),
            r is Ok ==> final(self).admin == Some(admin),
    {
        match self.admin {
            Some(_) => Err(TokenError::AlreadyInitialized),
            None => {
                self.admin = Some(admin);
                Ok(())
            },
        }
    }

    /// Admits a mint of `amount` new tokens to a recipient: only the
    /// admin mints, and only a positive amount.
    pub fn mint(&self, caller: Address, _to: Address, amount: i128) -> (r: Result<(), TokenError>)
        ensures
            r == (if !self.is_initialized() {
                Err::<(), TokenError>(TokenError::NotInitialized)
            } else if self.admin != Some(caller) {
                Err::<(), TokenError>(TokenError::NotAuthorized)
            } else if amount <= 0 {
                Err::<(), TokenError>(TokenError::InvalidAmount)
            } else {
                Ok::<(), TokenError>(())
            }),
    {
        let authorized = match self.admin {
            Some(a) => a == caller,
            None => return Err(TokenError::NotInitialized),
        };
        if !authorized {
            return Err(TokenError::NotAuthorized);
        }
        if amount <= 0 {
            return Err(TokenError::InvalidAmount);
        }
        Ok(())
    }

    /// Admits a reward mint to a verifier, under the same rules as
    /// [`TrueToken::mint`].
    pub fn mint_reward(&self, caller: Address, verifier: Address, amount: i128) -> (r: Result<
        (),
        TokenError,
    >)
        ensures
            r == (if !self.is_initialized() {
                Err::<(), TokenError>(TokenError::NotInitialized)
            } else if self.admin != Some(caller) {
                Err::<(), TokenError>(TokenError::NotAuthorized)
            } else if amount <= 0 {
                Err::<(), TokenError>(TokenError::InvalidAmount)
            } else {
                Ok::<(), TokenError>(())
            }),
    {
        self.mint(caller, verifier, amount)
    }

    /// Admits a transfer: the amount must be positive.  The sender's
    /// consent is the host's proof-of-identity, taken before the call.
    pub fn transfer(&self, _from: Address, _to: Address, amount: i128) -> (r: Result<
        (),
        TokenError,
    >)
        ensures
            r == (if amount <= 0 {
                Err::<(), TokenError>(TokenError::InvalidAmount)
            } else {
                Ok::<(), TokenError>(())
            }),
    {
        if amount <= 0 {
            return Err(TokenError::InvalidAmount);
        }
        Ok(())
    }

    /// Admits a delegated transfer: the amount must be positive.  The
    /// spender's consent and allowance are checked by the host.
    pub fn transfer_from(
        &self,
        _spender: Address,
        _from: Address,
        _to: Address,
        amount: i128,
    ) -> (r: Result<(), TokenError>)
        ensures
            r == (if amount <= 0 {
                Err::<(), TokenError>(TokenError::InvalidAmount)
            } else {
                Ok::<(), TokenError>(())
            }),
    {
        if amount <= 0 {
            return Err(TokenError::InvalidAmount);
        }
        Ok(())
    }

    /// Admits an allowance grant: the amount may be zero — that is how
    /// an allowance is revoked — but never negative.
    pub fn approve(&self, _from: Address, _spender: Address, amount: i128) -> (r: Result<
        (),
        TokenError,
    >)
        ensures
            r == (if amount < 0 {
                Err::<(), TokenError>(TokenError::InvalidAmount)
            } else {
                Ok::<(), TokenError>(())
            }),
    {
        if amount < 0 {
            return Err(TokenError::InvalidAmount);
        }
        Ok(())
    }

    /// Admits a burn: the amount must be positive.  The holder's
    /// consent is the host's proof-of-identity.
    pub fn burn(&self, _from: Address, amount: i128) -> (r: Result<(), TokenError>)
        ensures
            r == (if amount <= 0 {
                Err::<(), TokenError>(TokenError::InvalidAmount)
            } else {
                Ok::<(), TokenError>(())
            }),
    {
        if amount <= 0 {
            return Err(TokenError::InvalidAmount);
        }
        Ok(())
    }

    /// Whether `account` is the admin, once initialized.
    pub fn is_admin(&self, account: Address) -> (r: Option<bool>)
        ensures
            r == (if self.is_initialized() {
                Some(self.admin == Some(account))
            } else {
                None::<bool>
            }),
    {
        match self.admin {
            Some(a) => Some(a == account),
            None => None,
        }
    }
}

} // verus!
