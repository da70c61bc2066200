use vstd::prelude::*;

verus! {

/// A 256-bit account key, held as four 64-bit words.
#[derive(Clone, Copy, Debug, PartialEq, Eq, Structural)]
pub struct Identity {
    pub w0: u64,
    pub w1: u64,
    pub w2: u64,
    pub w3: u64,
}

/// The sale's global phase.
#[derive(Clone, Copy, Debug, PartialEq, Eq, Structural)]
pub enum Stage {
    Disabled,
    Presale,
    Public,
}

/// Eligibility class of a claimant, each with its own cap and price.
#[derive(Clone, Copy, Debug, PartialEq, Eq, Structural)]
pub enum Tier {
    Og,
    Wl,
    Public,
}

/// Why an operation was refused. Every refusal leaves all records unchanged.
#[derive(Clone, Copy, Debug, PartialEq, Eq, Structural)]
pub enum MintError {
    /// The caller lacks admin or owner rights.
    NotAuthorized,
    /// The sale is disabled or frozen.
    NotActive,
    /// The stage is outside the enumerated set.
    InvalidStage,
    /// Supply, per-user cap, tier/stage mismatch or proceeds recipient failure.
    NotAllowed,
    /// The claimant's balance is below the price.
    InsufficientFunds,
    /// An allow-list record already exists for that user.
    AlreadyExists,
    /// The sale configuration already exists.
    AlreadyInitialized,
    /// The record addressed does not exist, or belongs elsewhere.
    NotFound,
    /// The asset issuer failed; the claim was rolled back.
    IssuanceFailed,
}

/// The global sale configuration.
pub struct MintingAccount {
    pub admin_key: Identity,
    pub authorized_creator: Identity,
    /// Global kill-switch: when set, every claim is refused.
    pub freeze_program: bool,
    pub max_supply: u64,
    pub og_max: u64,
    pub wl_max: u64,
    pub public_max: u64,
    pub og_price: u64,
    pub wl_price: u64,
    pub public_price: u64,
    /// The priority list: identities eligible for the OG tier during presale.
    pub og_list: Vec<Identity>,
    /// Units issued so far; also the serial number of the next unit.
    pub cur_num: u64,
    pub cur_stage: Stage,
    /// Prefix of each issued asset's descriptor location.
    pub base_uri: String,
}

/// An allow-list record granting the WL tier to `user` under one configuration.
#[derive(Clone, Copy, Debug, PartialEq, Eq, Structural)]
pub struct WhiteList {
    pub user: Identity,
    /// Address of the configuration the record is bound to.
    pub minting_account: Identity,
    /// The admin that created the record, and to whom its storage returns.
    pub initializer: Identity,
    pub count: u64,
}

/// How many units one claimant has claimed.
#[derive(Clone, Copy, Debug, PartialEq, Eq, Structural)]
pub struct UserMintingAccount {
    pub cur_num: u64,
}

impl MintingAccount {
    /// The configuration's invariant: issued units never exceed the supply,
    /// and the priority list holds each identity at most once.
    pub open spec fn wf(&self) -> bool {
        &&& self.cur_num <= self.max_supply
        &&& self.og_list@.no_duplicates()
    }

    pub open spec fn cap_of(&self, t: Tier) -> u64 {
        match t {
            Tier::Og => self.og_max,
            Tier::Wl => self.wl_max,
            Tier::Public => self.public_max,
        }
    }

    pub open spec fn price_of(&self, t: Tier) -> u64 {
        match t {
            Tier::Og => self.og_price,
            Tier::Wl => self.wl_price,
            Tier::Public => self.public_price,
        }
    }
}

} // verus!
