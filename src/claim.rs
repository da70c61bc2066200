use vstd::prelude::*;
use vstd::string::StringExecFns;
use crate::priority::is_listed;
use crate::state::{Identity, MintError, MintingAccount, Stage, Tier, UserMintingAccount, WhiteList};

verus! {

/// Decimal digit `d` as a character.
pub open spec fn digit_char(d: nat) -> char {
    if d == 0 {
        '0'
    } else if d == 1 {
        '1'
    } else if d == 2 {
        '2'
    } else if d == 3 {
        '3'
    } else if d == 4 {
        '4'
    } else if d == 5 {
        '5'
    } else if d == 6 {
        '6'
    } else if d == 7 {
        '7'
    } else if d == 8 {
        '8'
    } else {
        '9'
    }
}

/// Decimal notation of `n`, without leading zeros.
pub open spec fn decimal(n: nat) -> Seq<char>
    decreases n,
{
    if n < 10 {
        seq![digit_char(n)]
    } else {
        decimal(n / 10).push(digit_char(n % 10))
    }
}

/// Descriptor location of the unit with serial number `serial`.
pub open spec fn metadata_uri_of(base: Seq<char>, serial: nat) -> Seq<char> {
    base + decimal(serial) + ".json"@
}

fn digit_str(d: u64) -> (r: &'static str)
    requires
        d < 10,
    ensures
        r@ == seq![digit_char(d as nat)],
{
    proof {
        reveal_strlit("0");
        reveal_strlit("1");
        reveal_strlit("2");
        reveal_strlit("3");
        reveal_strlit("4");
        reveal_strlit("5");
        reveal_strlit("6");
        reveal_strlit("7");
        reveal_strlit("8");
        reveal_strlit("9");
    }
    if d == 0 {
        "0"
    } else if d == 1 {
        "1"
    } else if d == 2 {
        "2"
    } else if d == 3 {
        "3"
    } else if d == 4 {
        "4"
    } else if d == 5 {
        "5"
    } else if d == 6 {
        "6"
    } else if d == 7 {
        "7"
    } else if d == 8 {
        "8"
    } else {
        "9"
    }
}

fn append_decimal(s: &mut String, n: u64)
    ensures
        final(s)@ == old(s)@ + decimal(n as nat),
    decreases n,
{
    if n >= 10 {
        append_decimal(s, n / 10);
    }
    s.append(digit_str(n % 10));
    assert(s@ =~= old(s)@ + decimal(n as nat)) by {
        if n >= 10 {
            assert(decimal(n as nat) == decimal((n / 10) as nat).push(digit_char((n % 10) as nat)));
        }
    }
}

/// Descriptor location of the unit with serial number `serial`:
/// the base URI, the serial in decimal, then `.json`.
pub fn metadata_uri(base_uri: &String, serial: u64) -> (r: String)
    ensures
        r@ == metadata_uri_of(base_uri@, serial as nat),
{
    let mut uri = base_uri.clone();
    append_decimal(&mut uri, serial);
    uri.append(".json");
    proof {
        assert(uri@ =~= metadata_uri_of(base_uri@, serial as nat));
    }
    uri
}

/// The records a claim reads and writes: the configuration, the claimant's
/// allow-list record if one exists, the claimant's counter, and the balances
/// of the claimant (payer) and the proceeds recipient (owner).
pub struct MintNFT {
    pub minting_account: MintingAccount,
    /// Address of the configuration record.
    pub minting_address: Identity,
    pub whitelist: Option<WhiteList>,
    pub user_minting_counter_account: UserMintingAccount,
    pub payer: Identity,
    pub payer_lamports: u64,
    pub owner: Identity,
    pub owner_lamports: u64,
}

/// What an authorized claim pays and receives.
pub struct MintPlan {
    pub tier: Tier,
    pub price: u64,
    /// Serial number of the unit to issue.
    pub serial: u64,
    /// Descriptor location handed to the asset issuer.
    pub uri: String,
}

/// Whether `whitelist` grants the WL tier to `user` under the configuration
/// at `config`.
pub open spec fn grants_wl(whitelist: Option<WhiteList>, config: Identity, user: Identity) -> bool {
    match whitelist {
        Some(w) => w.user == user && w.minting_account == config && w.count == 1,
        None => false,
    }
}

/// The tier a claimant resolves to: outside presale always Public; during
/// presale OG for priority-list members, else WL for allow-list holders,
/// else Public.
pub open spec fn resolve_tier(acct: MintingAccount, claimant: Identity, allow_listed: bool) -> Tier {
    if acct.cur_stage == Stage::Presale {
        if acct.og_list@.contains(claimant) {
            Tier::Og
        } else if allow_listed {
            Tier::Wl
        } else {
            Tier::Public
        }
    } else {
        Tier::Public
    }
}

/// The stage in which a tier may claim: OG and WL in presale, Public in public.
pub open spec fn tier_matches_stage(t: Tier, stage: Stage) -> bool {
    match t {
        Tier::Og | Tier::Wl => stage == Stage::Presale,
        Tier::Public => stage == Stage::Public,
    }
}

/// The validation sequence of a claim, in order: the tier it resolves to,
/// or the first check that refuses it.
pub open spec fn claim_outcome(ctx: MintNFT) -> Result<Tier, MintError> {
    let acct = ctx.minting_account;
    let tier = resolve_tier(acct, ctx.payer, grants_wl(ctx.whitelist, ctx.minting_address, ctx.payer));
    if acct.freeze_program || acct.cur_stage == Stage::Disabled {
        Err(MintError::NotActive)
    } else if acct.cur_num >= acct.max_supply || !tier_matches_stage(tier, acct.cur_stage)
        || ctx.user_minting_counter_account.cur_num >= acct.cap_of(tier) {
        Err(MintError::NotAllowed)
    } else if acct.admin_key != ctx.owner {
        Err(MintError::NotAllowed)
    } else if ctx.payer_lamports < acct.price_of(tier) {
        Err(MintError::InsufficientFunds)
    } else {
        Ok(tier)
    }
}

/// The records after a committed claim of tier `t`: payment moved, both
/// counters one higher.
pub open spec fn after_claim(ctx: MintNFT, t: Tier) -> MintNFT {
    let price = ctx.minting_account.price_of(t);
    MintNFT {
        minting_account: MintingAccount {
            cur_num: (ctx.minting_account.cur_num + 1) as u64,
            ..ctx.minting_account
        },
        user_minting_counter_account: UserMintingAccount {
            cur_num: (ctx.user_minting_counter_account.cur_num + 1) as u64,
        },
        payer_lamports: (ctx.payer_lamports - price) as u64,
        owner_lamports: (ctx.owner_lamports + price) as u64,
        ..ctx
    }
}

fn grants_wl_exec(whitelist: &Option<WhiteList>, config: Identity, user: Identity) -> (r: bool)
    ensures
        r == grants_wl(*whitelist, config, user),
{
    match whitelist {
        Some(w) => w.user == user && w.minting_account == config && w.count == 1,
        None => false,
    }
}

/// Resolves the claimant's tier; see `resolve_tier`.
pub fn claimant_tier(acct: &MintingAccount, claimant: Identity, allow_listed: bool) -> (r: Tier)
    ensures
        r == resolve_tier(*acct, claimant, allow_listed),
{
    if acct.cur_stage == Stage::Presale {
        if is_listed(&acct.og_list, claimant) {
            Tier::Og
        } else if allow_listed {
            Tier::Wl
        } else {
            Tier::Public
        }
    } else {
        Tier::Public
    }
}

fn cap_for(acct: &MintingAccount, t: Tier) -> (r: u64)
    ensures
        r == acct.cap_of(t),
{
    match t {
        Tier::Og => acct.og_max,
        Tier::Wl => acct.wl_max,
        Tier::Public => acct.public_max,
    }
}

fn price_for(acct: &MintingAccount, t: Tier) -> (r: u64)
    ensures
        r == acct.price_of(t),
{
    match t {
        Tier::Og => acct.og_price,
        Tier::Wl => acct.wl_price,
        Tier::Public => acct.public_price,
    }
}

/// Runs the claim's checks without changing anything, and on success says
/// what the claim will pay and which unit it will receive.
pub fn prepare_mint(ctx: &MintNFT) -> (r: Result<MintPlan, MintError>)
    ensures
        match claim_outcome(*ctx) {
            Ok(t) => r matches Ok(p) && p.tier == t && p.price == ctx.minting_account.price_of(t)
                && p.serial == ctx.minting_account.cur_num && p.uri@ == metadata_uri_of(
                ctx.minting_account.base_uri@,
                ctx.minting_account.cur_num as nat,
            ),
            Err(e) => r matches Err(e2) && e2 == e,
        },
{
    let acct = &ctx.minting_account;
    if acct.freeze_program || acct.cur_stage == Stage::Disabled {
        return Err(MintError::NotActive);
    }
    let allow_listed = grants_wl_exec(&ctx.whitelist, ctx.minting_address, ctx.payer);
    let tier = claimant_tier(acct, ctx.payer, allow_listed);
    let stage_ok = match tier {
        Tier::Og | Tier::Wl => acct.cur_stage == Stage::Presale,
        Tier::Public => acct.cur_stage == Stage::Public,
    };
    if acct.cur_num >= acct.max_supply || !stage_ok
        || ctx.user_minting_counter_account.cur_num >= cap_for(acct, tier) {
        return Err(MintError::NotAllowed);
    }
    if acct.admin_key != ctx.owner {
        return Err(MintError::NotAllowed);
    }
    let price = price_for(acct, tier);
    if ctx.payer_lamports < price {
        return Err(MintError::InsufficientFunds);
    }
    let uri = metadata_uri(&acct.base_uri, acct.cur_num);
    Ok(MintPlan { tier, price, serial: acct.cur_num, uri })
}

/// The claim transaction. `issued` is the asset issuer's outcome for the
/// unit that `prepare_mint` named. The payment, the issued unit and both
/// counters commit together: a refused claim, or one whose issuance failed,
/// leaves every record and balance as it was.
pub fn mint_nft(ctx: &mut MintNFT, issued: bool) -> (r: Result<MintPlan, MintError>)
    requires
        old(ctx).payer_lamports + old(ctx).owner_lamports <= u64::MAX,
    ensures
        old(ctx).minting_account.wf() ==> final(ctx).minting_account.wf(),
        match claim_outcome(*old(ctx)) {
            Ok(t) => if issued {
                r matches Ok(p) && p.tier == t && p.price == old(ctx).minting_account.price_of(t)
                    && p.serial == old(ctx).minting_account.cur_num && p.uri@ == metadata_uri_of(
                    old(ctx).minting_account.base_uri@,
                    old(ctx).minting_account.cur_num as nat,
                ) && *final(ctx) == after_claim(*old(ctx), t)
            } else {
                r matches Err(e) && e == MintError::IssuanceFailed && *final(ctx) == *old(ctx)
            },
            Err(e) => r matches Err(e2) && e2 == e && *final(ctx) == *old(ctx),
        },
{
    let plan = prepare_mint(ctx)?;
    // the payment moves first; the transaction is undone if issuance fails
    ctx.payer_lamports = ctx.payer_lamports - plan.price;
    ctx.owner_lamports = ctx.owner_lamports + plan.price;
    if !issued {
        ctx.owner_lamports = ctx.owner_lamports - plan.price;
        ctx.payer_lamports = ctx.payer_lamports + plan.price;
        return Err(MintError::IssuanceFailed);
    }
    ctx.user_minting_counter_account.cur_num = ctx.user_minting_counter_account.cur_num + 1;
    ctx.minting_account.cur_num = ctx.minting_account.cur_num + 1;
    Ok(plan)
}

/// A disabled sale refuses every claim as not active, whatever the other
/// records hold.
pub proof fn law_disabled_refuses(ctx: MintNFT)
    requires
        ctx.minting_account.cur_stage == Stage::Disabled,
    ensures
        claim_outcome(ctx) == Err::<Tier, MintError>(MintError::NotActive),
{
}

/// Once the supply is exhausted, every claim on an active, unfrozen sale is
/// refused as not allowed.
pub proof fn law_supply_cap(ctx: MintNFT)
    requires
        ctx.minting_account.cur_num >= ctx.minting_account.max_supply,
        ctx.minting_account.cur_stage != Stage::Disabled,
        !ctx.minting_account.freeze_program,
    ensures
        claim_outcome(ctx) == Err::<Tier, MintError>(MintError::NotAllowed),
{
}

/// In the public stage, priority-list and allow-list membership play no part:
/// every claimant resolves to the Public tier, with its cap and price.
pub proof fn law_public_stage_single_tier(ctx: MintNFT)
    requires
        ctx.minting_account.cur_stage == Stage::Public,
    ensures
        resolve_tier(
            ctx.minting_account,
            ctx.payer,
            grants_wl(ctx.whitelist, ctx.minting_address, ctx.payer),
        ) == Tier::Public,
        claim_outcome(ctx) == claim_outcome(MintNFT { whitelist: None, ..ctx }),
{
}

/// During presale, a claimant on neither list is refused as not allowed.
pub proof fn law_presale_needs_eligibility(ctx: MintNFT)
    requires
        ctx.minting_account.cur_stage == Stage::Presale,
        !ctx.minting_account.freeze_program,
        !ctx.minting_account.og_list@.contains(ctx.payer),
        !grants_wl(ctx.whitelist, ctx.minting_address, ctx.payer),
    ensures
        claim_outcome(ctx) == Err::<Tier, MintError>(MintError::NotAllowed),
{
}

/// A claimant that has used up the cap of the tier it resolves to is refused
/// as not allowed on an active, unfrozen sale.
pub proof fn law_user_cap(ctx: MintNFT)
    requires
        ctx.minting_account.cur_stage != Stage::Disabled,
        !ctx.minting_account.freeze_program,
        ctx.user_minting_counter_account.cur_num >= ctx.minting_account.cap_of(
            resolve_tier(
                ctx.minting_account,
                ctx.payer,
                grants_wl(ctx.whitelist, ctx.minting_address, ctx.payer),
            ),
        ),
    ensures
        claim_outcome(ctx) == Err::<Tier, MintError>(MintError::NotAllowed),
{
}

/// A committed claim counts once: both counters rise by one and the price
/// moves from claimant to recipient. If it used up the claimant's cap for its
/// tier, the claimant's next claim is refused as not allowed.
pub proof fn law_claim_counts_once(ctx: MintNFT, t: Tier)
    requires
        claim_outcome(ctx) == Ok::<Tier, MintError>(t),
        ctx.payer_lamports + ctx.owner_lamports <= u64::MAX,
    ensures
        after_claim(ctx, t).minting_account.cur_num == ctx.minting_account.cur_num + 1,
        after_claim(ctx, t).user_minting_counter_account.cur_num
            == ctx.user_minting_counter_account.cur_num + 1,
        after_claim(ctx, t).payer_lamports == ctx.payer_lamports - ctx.minting_account.price_of(t),
        after_claim(ctx, t).owner_lamports == ctx.owner_lamports + ctx.minting_account.price_of(t),
        ctx.user_minting_counter_account.cur_num + 1 == ctx.minting_account.cap_of(t)
            ==> claim_outcome(after_claim(ctx, t)) == Err::<Tier, MintError>(MintError::NotAllowed),
{
}

} // verus!
