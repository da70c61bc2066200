use vstd::prelude::*;
use crate::state::{Identity, MintError, MintingAccount, Stage};

verus! {

/// The stage named by a raw stage code (0, 1, 2), if any.
pub open spec fn stage_of_code(code: i8) -> Option<Stage> {
    if code == 0 {
        Some(Stage::Disabled)
    } else if code == 1 {
        Some(Stage::Presale)
    } else if code == 2 {
        Some(Stage::Public)
    } else {
        None
    }
}

/// A partial update: zero keeps the current value, anything else replaces it.
pub open spec fn keep_or(current: u64, new: u64) -> u64 {
    if new > 0 {
        new
    } else {
        current
    }
}

impl Stage {
    pub fn from_code(code: i8) -> (r: Option<Stage>)
        ensures
            r == stage_of_code(code),
    {
        if code == 0 {
            Some(Stage::Disabled)
        } else if code == 1 {
            Some(Stage::Presale)
        } else if code == 2 {
            Some(Stage::Public)
        } else {
            None
        }
    }
}

/// Authorization predicate run at the top of every privileged operation.
pub fn is_admin(account: &MintingAccount, signer: Identity) -> (r: Result<(), MintError>)
    ensures
        r == (if account.admin_key == signer {
            Ok::<(), MintError>(())
        } else {
            Err(MintError::NotAuthorized)
        }),
{
    if account.admin_key != signer {
        return Err(MintError::NotAuthorized);
    }
    Ok(())
}

impl MintingAccount {
    /// A fresh configuration; the initializer becomes its admin.
    pub fn new(
        initializer: Identity,
        authorized_creator: Identity,
        max_supply: u64,
        og_max: u64,
        wl_max: u64,
        public_max: u64,
        og_price: u64,
        wl_price: u64,
        public_price: u64,
    ) -> (r: MintingAccount)
        ensures
            r.admin_key == initializer,
            r.authorized_creator == authorized_creator,
            !r.freeze_program,
            r.max_supply == max_supply,
            r.og_max == og_max,
            r.wl_max == wl_max,
            r.public_max == public_max,
            r.og_price == og_price,
            r.wl_price == wl_price,
            r.public_price == public_price,
            r.og_list@ == Seq::<Identity>::empty(),
            r.cur_num == 0,
            r.cur_stage == Stage::Disabled,
            r.base_uri@ == Seq::<char>::empty(),
            r.wf(),
    {
        MintingAccount {
            admin_key: initializer,
            authorized_creator,
            freeze_program: false,
            max_supply,
            og_max,
            wl_max,
            public_max,
            og_price,
            wl_price,
            public_price,
            og_list: Vec::new(),
            cur_num: 0,
            cur_stage: Stage::Disabled,
            base_uri: String::new(),
        }
    }

    /// Partial price update; a zero leaves that tier's price unchanged.
    pub fn update_price(
        &mut self,
        signer: Identity,
        new_og_price: u64,
        new_wl_price: u64,
        new_public_price: u64,
    ) -> (r: Result<(), MintError>)
        ensures
            old(self).admin_key != signer ==> r == Err::<(), MintError>(MintError::NotAuthorized)
                && *final(self) == *old(self),
            old(self).admin_key == signer ==> r is Ok && *final(self) == (MintingAccount {
                og_price: keep_or(old(self).og_price, new_og_price),
                wl_price: keep_or(old(self).wl_price, new_wl_price),
                public_price: keep_or(old(self).public_price, new_public_price),
                ..*old(self)
            }),
    {
        is_admin(self, signer)?;
        if new_og_price > 0 {
            self.og_price = new_og_price;
        }
        if new_wl_price > 0 {
            self.wl_price = new_wl_price;
        }
        if new_public_price > 0 {
            self.public_price = new_public_price;
        }
        Ok(())
    }

    /// Partial cap update; a zero leaves that tier's cap unchanged.
    pub fn update_amount(
        &mut self,
        signer: Identity,
        new_og_amount: u64,
        new_wl_amount: u64,
        new_public_amount: u64,
    ) -> (r: Result<(), MintError>)
        ensures
            old(self).admin_key != signer ==> r == Err::<(), MintError>(MintError::NotAuthorized)
                && *final(self) == *old(self),
            old(self).admin_key == signer ==> r is Ok && *final(self) == (MintingAccount {
                og_max: keep_or(old(self).og_max, new_og_amount),
                wl_max: keep_or(old(self).wl_max, new_wl_amount),
                public_max: keep_or(old(self).public_max, new_public_amount),
                ..*old(self)
            }),
    {
        is_admin(self, signer)?;
        if new_og_amount > 0 {
            self.og_max = new_og_amount;
        }
        if new_wl_amount > 0 {
            self.wl_max = new_wl_amount;
        }
        if new_public_amount > 0 {
            self.public_max = new_public_amount;
        }
        Ok(())
    }

    /// Moves the sale to the stage with code 0 (disabled), 1 (presale) or
    /// 2 (public); any other code is ignored without error.
    pub fn set_stage(&mut self, signer: Identity, new_stage: i8) -> (r: Result<(), MintError>)
        ensures
            old(self).admin_key != signer ==> r == Err::<(), MintError>(MintError::NotAuthorized)
                && *final(self) == *old(self),
            old(self).admin_key == signer ==> r is Ok && *final(self) == (match stage_of_code(
                new_stage,
            ) {
                Some(st) => MintingAccount { cur_stage: st, ..*old(self) },
                None => *old(self),
            }),
    {
        is_admin(self, signer)?;
        if let Some(st) = Stage::from_code(new_stage) {
            self.cur_stage = st;
        }
        Ok(())
    }

    /// Replaces the base URI of issued assets.
    pub fn set_uri(&mut self, signer: Identity, new_uri: String) -> (r: Result<(), MintError>)
        ensures
            old(self).admin_key != signer ==> r == Err::<(), MintError>(MintError::NotAuthorized)
                && *final(self) == *old(self),
            old(self).admin_key == signer ==> r is Ok && *final(self) == (MintingAccount {
                base_uri: new_uri,
                ..*old(self)
            }),
    {
        is_admin(self, signer)?;
        self.base_uri = new_uri;
        Ok(())
    }
}

} // verus!
