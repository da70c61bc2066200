use vstd::prelude::*;
use crate::config::is_admin;
use crate::state::{Identity, MintError, MintingAccount, UserMintingAccount, WhiteList};

verus! {

/// Creates the configuration, whose record address is fixed; fails if a
/// configuration already exists there.
pub fn initialize(
    existing: &Option<MintingAccount>,
    initializer: Identity,
    authorized_creator: Identity,
    max_supply: u64,
    og_max: u64,
    wl_max: u64,
    public_max: u64,
    og_price: u64,
    wl_price: u64,
    public_price: u64,
) -> (r: Result<MintingAccount, MintError>)
    ensures
        existing.is_some() <==> r == Err::<MintingAccount, MintError>(MintError::AlreadyInitialized),
        existing.is_none() <==> r is Ok,
        r matches Ok(a) ==> {
            &&& a.wf()
            &&& a.admin_key == initializer
            &&& a.authorized_creator == authorized_creator
            &&& !a.freeze_program
            &&& a.max_supply == max_supply
            &&& a.og_max == og_max
            &&& a.wl_max == wl_max
            &&& a.public_max == public_max
            &&& a.og_price == og_price
            &&& a.wl_price == wl_price
            &&& a.public_price == public_price
            &&& a.og_list@ == Seq::<Identity>::empty()
            &&& a.cur_num == 0
            &&& a.cur_stage == crate::state::Stage::Disabled
            &&& a.base_uri@ == Seq::<char>::empty()
        },
{
    if existing.is_some() {
        return Err(MintError::AlreadyInitialized);
    }
    Ok(
        MintingAccount::new(
            initializer,
            authorized_creator,
            max_supply,
            og_max,
            wl_max,
            public_max,
            og_price,
            wl_price,
            public_price,
        ),
    )
}

/// The allow-list record that `add_wl_list` creates.
pub open spec fn granted(user: Identity, config: Identity, admin: Identity) -> WhiteList {
    WhiteList { user, minting_account: config, initializer: admin, count: 1 }
}

/// Grants the WL tier to `user`: creates the allow-list record in `slot`,
/// the place its address names, which must be empty.
pub fn add_wl_list(
    acct: &MintingAccount,
    minting_address: Identity,
    signer: Identity,
    user: Identity,
    slot: &mut Option<WhiteList>,
) -> (r: Result<(), MintError>)
    ensures
        acct.admin_key != signer ==> r == Err::<(), MintError>(MintError::NotAuthorized),
        acct.admin_key == signer && old(slot).is_some() ==> r == Err::<(), MintError>(
            MintError::AlreadyExists,
        ),
        r is Err ==> *final(slot) == *old(slot),
        r is Ok <==> acct.admin_key == signer && old(slot).is_none(),
        r is Ok ==> *final(slot) == Some(granted(user, minting_address, signer)),
{
    is_admin(acct, signer)?;
    if slot.is_some() {
        return Err(MintError::AlreadyExists);
    }
    *slot = Some(WhiteList { user, minting_account: minting_address, initializer: signer, count: 1 });
    Ok(())
}

/// Whether `slot` holds a record of the configuration at `config` that
/// `admin` created.
pub open spec fn revocable(slot: Option<WhiteList>, admin: Identity, config: Identity) -> bool {
    match slot {
        Some(w) => w.initializer == admin && w.minting_account == config,
        None => false,
    }
}

/// Revokes an allow-list record; it must belong to this configuration and
/// have been created by the signing admin, who reclaims its storage.
pub fn remove_wl_list(
    acct: &MintingAccount,
    minting_address: Identity,
    signer: Identity,
    slot: &mut Option<WhiteList>,
) -> (r: Result<(), MintError>)
    ensures
        acct.admin_key != signer ==> r == Err::<(), MintError>(MintError::NotAuthorized),
        acct.admin_key == signer ==> (r == Err::<(), MintError>(MintError::NotFound) <==> !revocable(
            *old(slot),
            signer,
            minting_address,
        )),
        r is Ok <==> acct.admin_key == signer && revocable(*old(slot), signer, minting_address),
        r is Err ==> *final(slot) == *old(slot),
        r is Ok ==> *final(slot) == None::<WhiteList>,
{
    is_admin(acct, signer)?;
    match slot {
        Some(w) => {
            if w.initializer != signer || w.minting_account != minting_address {
                return Err(MintError::NotFound);
            }
        },
        None => {
            return Err(MintError::NotFound);
        },
    }
    *slot = None;
    Ok(())
}

/// The claimant's counter, created with no claims when it does not exist yet.
pub fn counter_or_new(existing: Option<UserMintingAccount>) -> (r: UserMintingAccount)
    ensures
        r == (match existing {
            Some(c) => c,
            None => UserMintingAccount { cur_num: 0 },
        }),
{
    match existing {
        Some(c) => c,
        None => UserMintingAccount { cur_num: 0 },
    }
}

} // verus!
