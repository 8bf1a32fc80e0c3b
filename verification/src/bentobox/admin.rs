use crate::bentobox::error::ErrorCode;
use crate::bentobox::state::{
    AccountInfo, BentoBox, Constants, MasterContractApproved, MasterContractWhitelisted, Total,
};
use crate::common::pubkey::Pubkey;
use crate::common::rebase::Rebase;
use crate::error::Error;
use vstd::prelude::*;

verus! {

/// Makes a vault owned by `authority`, with no strategy delay.
pub fn create(authority: Pubkey, minimum_share_balance: u64, max_target_percentage: u64) -> (r:
    BentoBox)
    ensures
        r == (BentoBox {
            authority,
            pending_authority: None,
            strategy_delay: 0,
            constants: Constants { minimum_share_balance, max_target_percentage },
        }),
{
    BentoBox {
        authority,
        pending_authority: None,
        strategy_delay: 0,
        constants: Constants { minimum_share_balance, max_target_percentage },
    }
}

/// Sets the seconds a queued strategy waits.
pub fn set_strategy_delay(bentobox_account: &mut BentoBox, delay: u64)
    ensures
        *final(bentobox_account) == (BentoBox { strategy_delay: delay, ..*old(bentobox_account) }),
{
    bentobox_account.strategy_delay = delay;
}

/// Makes the ledger of an asset, empty, for the vault's token account and
/// the asset's mint.
pub fn create_vault(bentobox_vault: Pubkey, mint: Pubkey) -> (r: Total)
    ensures
        r == (Total {
            mint_address: mint,
            amount: Rebase { base: 0, elastic: 0 },
            token_account: bentobox_vault,
        }),
{
    Total { mint_address: mint, amount: Rebase { base: 0, elastic: 0 }, token_account: bentobox_vault }
}

/// Registers a master contract, which has to belong to the program named.
pub fn create_master_contract_whitelist(
    master_contract_account: &AccountInfo,
    master_contract_program: &Pubkey,
    whitelisted: bool,
) -> (r: Result<MasterContractWhitelisted, Error>)
    ensures
        master_contract_account.owner == *master_contract_program ==> r == Ok::<
            MasterContractWhitelisted,
            Error,
        >(
            MasterContractWhitelisted {
                master_contract_account: master_contract_account.key,
                whitelisted,
            },
        ),
        master_contract_account.owner != *master_contract_program ==> r == Err::<
            MasterContractWhitelisted,
            Error,
        >(Error::Bentobox(ErrorCode::MasterContractAccountOwnerDoesNotMatchProgram)),
{
    if master_contract_account.owner != *master_contract_program {
        return Err(Error::Bentobox(ErrorCode::MasterContractAccountOwnerDoesNotMatchProgram));
    }
    Ok(
        MasterContractWhitelisted {
            master_contract_account: master_contract_account.key,
            whitelisted,
        },
    )
}

/// Switches a master contract's whitelisting on or off.
pub fn whitelist_master_contract(
    master_contract_whitelisted: &mut MasterContractWhitelisted,
    whitelisted: bool,
)
    ensures
        *final(master_contract_whitelisted) == (MasterContractWhitelisted {
            whitelisted,
            ..*old(master_contract_whitelisted)
        }),
{
    master_contract_whitelisted.whitelisted = whitelisted;
}

/// Fills in a holder's approval record.
pub fn create_contract_approval_internal(
    approved: bool,
    master_contract_approved: &mut MasterContractApproved,
    master_contract_whitelisted_key: Pubkey,
) -> (r: Result<(), Error>)
    ensures
        r is Ok,
        *final(master_contract_approved) == (MasterContractApproved {
            master_contract_whitelisted: master_contract_whitelisted_key,
            approved,
        }),
{
    master_contract_approved.master_contract_whitelisted = master_contract_whitelisted_key;
    master_contract_approved.approved = approved;
    Ok(())
}

/// Records a holder's approval of a master contract, which has to be
/// whitelisted. On an error the record is left as it was.
pub fn create_master_contract_approval(
    master_contract_approved: &mut MasterContractApproved,
    master_contract_whitelisted: &AccountInfo,
    whitelisted: &MasterContractWhitelisted,
    approved: bool,
) -> (r: Result<(), Error>)
    ensures
        whitelisted.whitelisted ==> r is Ok && *final(master_contract_approved) == (
        MasterContractApproved {
            master_contract_whitelisted: master_contract_whitelisted.key,
            approved,
        }),
        !whitelisted.whitelisted ==> r == Err::<(), Error>(
            Error::Bentobox(ErrorCode::MasterContractNotWhitelisted),
        ) && *final(master_contract_approved) == *old(master_contract_approved),
{
    if !whitelisted.whitelisted {
        return Err(Error::Bentobox(ErrorCode::MasterContractNotWhitelisted));
    }
    create_contract_approval_internal(
        approved,
        master_contract_approved,
        master_contract_whitelisted.key,
    )
}

/// Records the vault authority's own approval of a master contract, which
/// has to be whitelisted. On an error the record is left as it was.
pub fn create_bentobox_authority_master_contract_approval(
    master_contract_approved: &mut MasterContractApproved,
    master_contract_whitelisted: &AccountInfo,
    whitelisted: &MasterContractWhitelisted,
    approved: bool,
) -> (r: Result<(), Error>)
    ensures
        whitelisted.whitelisted ==> r is Ok && *final(master_contract_approved) == (
        MasterContractApproved {
            master_contract_whitelisted: master_contract_whitelisted.key,
            approved,
        }),
        !whitelisted.whitelisted ==> r == Err::<(), Error>(
            Error::Bentobox(ErrorCode::MasterContractNotWhitelisted),
        ) && *final(master_contract_approved) == *old(master_contract_approved),
{
    create_master_contract_approval(
        master_contract_approved,
        master_contract_whitelisted,
        whitelisted,
        approved,
    )
}

/// Gives or withdraws a holder's approval of a whitelisted master contract.
/// On an error the record is left as it was.
pub fn set_master_contract_approval(
    master_contract_approved: &mut MasterContractApproved,
    whitelisted: &MasterContractWhitelisted,
    approved: bool,
) -> (r: Result<(), Error>)
    ensures
        whitelisted.whitelisted ==> r is Ok && *final(master_contract_approved) == (
        MasterContractApproved { approved, ..*old(master_contract_approved) }),
        !whitelisted.whitelisted ==> r == Err::<(), Error>(
            Error::Bentobox(ErrorCode::MasterContractNotWhitelisted),
        ) && *final(master_contract_approved) == *old(master_contract_approved),
{
    if !whitelisted.whitelisted {
        return Err(Error::Bentobox(ErrorCode::MasterContractNotWhitelisted));
    }
    master_contract_approved.approved = approved;
    Ok(())
}

/// The vault after [`transfer_authority`].
///
/// The new owner may not be the present one. Handed over directly, the new
/// owner takes over at once and may be the empty address only where
/// `renounce` says so; otherwise the new owner is noted and has to claim.
pub open spec fn spec_transfer_authority(
    bentobox_account: BentoBox,
    new_authority: Pubkey,
    direct: bool,
    renounce: bool,
) -> Result<BentoBox, Error> {
    if new_authority == bentobox_account.authority {
        Err(Error::Bentobox(ErrorCode::SameAuthority))
    } else if direct {
        if new_authority == Pubkey::spec_default() && !renounce {
            Err(Error::Bentobox(ErrorCode::EmptyAuthorityAddress))
        } else {
            Ok(BentoBox { authority: new_authority, pending_authority: None, ..bentobox_account })
        }
    } else {
        Ok(BentoBox { pending_authority: Some(new_authority), ..bentobox_account })
    }
}

/// Hands the vault over to `new_authority`, at once or to be claimed. On an
/// error the vault is left as it was.
pub fn transfer_authority(
    bentobox_account: &mut BentoBox,
    new_authority: Pubkey,
    direct: bool,
    renounce: bool,
) -> (r: Result<(), Error>)
    ensures
        match r {
            Ok(_) => spec_transfer_authority(*old(bentobox_account), new_authority, direct, renounce)
                == Ok::<BentoBox, Error>(*final(bentobox_account)),
            Err(e) => spec_transfer_authority(
                *old(bentobox_account),
                new_authority,
                direct,
                renounce,
            ) == Err::<BentoBox, Error>(e) && *final(bentobox_account) == *old(bentobox_account),
        },
{
    if new_authority == bentobox_account.authority {
        return Err(Error::Bentobox(ErrorCode::SameAuthority));
    }
    if direct {
        if new_authority.is_default() && !renounce {
            return Err(Error::Bentobox(ErrorCode::EmptyAuthorityAddress));
        }
        bentobox_account.authority = new_authority;
        bentobox_account.pending_authority = None;
    } else {
        bentobox_account.pending_authority = Some(new_authority);
    }
    Ok(())
}

/// The vault after [`claim_authority`]: the caller has to be the owner
/// noted as pending.
pub open spec fn spec_claim_authority(bentobox_account: BentoBox, authority: Pubkey) -> Result<
    BentoBox,
    Error,
> {
    match bentobox_account.pending_authority {
        None => Err(Error::Bentobox(ErrorCode::EmptyPendingAuthorityAddress)),
        Some(pending) => if pending != authority {
            Err(Error::Bentobox(ErrorCode::InvalidClaimAuthority))
        } else {
            Ok(BentoBox { authority: pending, pending_authority: None, ..bentobox_account })
        },
    }
}

/// Lets the pending owner take the vault over. On an error the vault is left
/// as it was.
pub fn claim_authority(bentobox_account: &mut BentoBox, authority: &Pubkey) -> (r: Result<(), Error>)
    ensures
        match r {
            Ok(_) => spec_claim_authority(*old(bentobox_account), *authority) == Ok::<
                BentoBox,
                Error,
            >(*final(bentobox_account)),
            Err(e) => spec_claim_authority(*old(bentobox_account), *authority) == Err::<
                BentoBox,
                Error,
            >(e) && *final(bentobox_account) == *old(bentobox_account),
        },
{
    let pending_authority = match bentobox_account.pending_authority {
        Some(p) => p,
        None => {
            return Err(Error::Bentobox(ErrorCode::EmptyPendingAuthorityAddress));
        },
    };
    if pending_authority != *authority {
        return Err(Error::Bentobox(ErrorCode::InvalidClaimAuthority));
    }
    bentobox_account.authority = pending_authority;
    bentobox_account.pending_authority = None;
    Ok(())
}

} // verus!
