//! Bootstrap, authority rotation, fee withdrawal and teardown of the
//! administrative record.

use crate::encoding::bytes_equal;
use crate::errors::MyErrorCode;
use crate::states::AdminAccount;
use vstd::prelude::*;

verus! {

/// Whether `caller` is the authority that `admin_account` names.
pub fn is_authority(caller: &[u8; 32], admin_account: &AdminAccount) -> (yes: bool)
    ensures
        yes == (caller@ == admin_account.authority@),
{
    bytes_equal(caller.as_slice(), admin_account.authority.as_slice())
}

/// The records that creating the administrative record touches.
#[derive(Clone, Copy, Debug, PartialEq, Eq)]
pub struct InitializeAdmin {
    pub user: [u8; 32],
    pub admin_account: AdminAccount,
}

impl InitializeAdmin {
    /// Makes the caller the authority, records the oracle's key and starts
    /// the fee balance at zero.
    pub fn process(&mut self, oracle_authority: [u8; 32]) -> (res: Result<(), MyErrorCode>)
        ensures
            res.is_ok(),
            final(self).user == old(self).user,
            final(self).admin_account.authority == old(self).user,
            final(self).admin_account.oracle_authority == oracle_authority,
            final(self).admin_account.fee == 0,
    {
        self.admin_account.authority = self.user;
        self.admin_account.oracle_authority = oracle_authority;
        self.admin_account.fee = 0;
        Ok(())
    }
}

/// The records that releasing the administrative record touches.
#[derive(Clone, Copy, Debug, PartialEq, Eq)]
pub struct DeleteAdmin {
    pub authority: [u8; 32],
    pub admin_account: AdminAccount,
}

impl DeleteAdmin {
    /// Allows the release of the administrative record to its authority
    /// and to nobody else. The record itself is left as it is.
    pub fn process(&mut self) -> (res: Result<(), MyErrorCode>)
        ensures
            *final(self) == *old(self),
            res.is_ok() <==> old(self).authority@ == old(self).admin_account.authority@,
            res.is_err() ==> res == Err::<(), MyErrorCode>(MyErrorCode::Unauthorized),
    {
        if !is_authority(&self.authority, &self.admin_account) {
            return Err(MyErrorCode::Unauthorized);
        }
        Ok(())
    }
}

/// The records that replacing the oracle's key touches.
#[derive(Clone, Copy, Debug, PartialEq, Eq)]
pub struct SetOracleAuthority {
    pub authority: [u8; 32],
    pub admin_account: AdminAccount,
}

impl SetOracleAuthority {
    /// Replaces the oracle's key, for the authority and for nobody else.
    pub fn process(&mut self, oracle_authority: [u8; 32]) -> (res: Result<(), MyErrorCode>)
        ensures
            final(self).authority == old(self).authority,
            final(self).admin_account.authority == old(self).admin_account.authority,
            final(self).admin_account.fee == old(self).admin_account.fee,
            res.is_ok() <==> old(self).authority@ == old(self).admin_account.authority@,
            match res {
                Ok(_) => final(self).admin_account.oracle_authority == oracle_authority,
                Err(e) => e == MyErrorCode::Unauthorized && *final(self) == *old(self),
            },
    {
        if !is_authority(&self.authority, &self.admin_account) {
            return Err(MyErrorCode::Unauthorized);
        }
        self.admin_account.oracle_authority = oracle_authority;
        Ok(())
    }
}

/// The records that handing the administration over touches.
#[derive(Clone, Copy, Debug, PartialEq, Eq)]
pub struct SetAdminAuthority {
    pub authority: [u8; 32],
    pub admin_account: AdminAccount,
}

impl SetAdminAuthority {
    /// Names a new authority, for the current authority and for nobody
    /// else.
    pub fn process(&mut self, new_authority: [u8; 32]) -> (res: Result<(), MyErrorCode>)
        ensures
            final(self).authority == old(self).authority,
            final(self).admin_account.oracle_authority == old(self).admin_account.oracle_authority,
            final(self).admin_account.fee == old(self).admin_account.fee,
            res.is_ok() <==> old(self).authority@ == old(self).admin_account.authority@,
            match res {
                Ok(_) => final(self).admin_account.authority == new_authority,
                Err(e) => e == MyErrorCode::Unauthorized && *final(self) == *old(self),
            },
    {
        if !is_authority(&self.authority, &self.admin_account) {
            return Err(MyErrorCode::Unauthorized);
        }
        self.admin_account.authority = new_authority;
        Ok(())
    }
}

/// The records that withdrawing the fee balance touches.
#[derive(Clone, Copy, Debug, PartialEq, Eq)]
pub struct WithdrawFee {
    pub authority: [u8; 32],
    pub admin_account: AdminAccount,
}

impl WithdrawFee {
    /// Why a withdrawal is refused, if it is.
    pub open spec fn refusal(&self) -> Option<MyErrorCode> {
        if self.authority@ != self.admin_account.authority@ {
            Some(MyErrorCode::Unauthorized)
        } else if self.admin_account.fee == 0 {
            Some(MyErrorCode::NoFeeToWithdraw)
        } else {
            None
        }
    }

    /// Empties the fee balance, for the authority and for nobody else, and
    /// returns the amount that is to leave the pool. On refusal nothing has
    /// changed.
    pub fn process(&mut self) -> (res: Result<u64, MyErrorCode>)
        ensures
            match res {
                Ok(amount) => {
                    &&& old(self).refusal().is_none()
                    &&& amount == old(self).admin_account.fee
                    &&& amount > 0
                    &&& final(self).admin_account.fee == 0
                    &&& final(self).admin_account.authority == old(self).admin_account.authority
                    &&& final(self).admin_account.oracle_authority
                        == old(self).admin_account.oracle_authority
                    &&& final(self).authority == old(self).authority
                },
                Err(e) => {
                    &&& old(self).refusal() == Some(e)
                    &&& *final(self) == *old(self)
                },
            },
    {
        if !is_authority(&self.authority, &self.admin_account) {
            return Err(MyErrorCode::Unauthorized);
        }
        let fee = self.admin_account.fee;
        if fee == 0 {
            return Err(MyErrorCode::NoFeeToWithdraw);
        }
        self.admin_account.fee = 0;
        Ok(fee)
    }
}

} // verus!
