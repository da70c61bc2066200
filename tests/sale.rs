use nft_sale::claim::{metadata_uri, mint_nft, prepare_mint, MintNFT};
use nft_sale::priority::is_listed;
use nft_sale::records::{add_wl_list, counter_or_new, initialize, remove_wl_list};
use nft_sale::state::{Identity, MintError, MintingAccount, Stage, Tier, UserMintingAccount, WhiteList};

fn id(n: u64) -> Identity {
    Identity { w0: n, w1: 0, w2: 0, w3: 0 }
}

const ADMIN: u64 = 1;
const CONFIG: u64 = 99;

fn config(max_supply: u64) -> MintingAccount {
    initialize(&None, id(ADMIN), id(7), max_supply, 2, 3, 4, 50, 30, 70).unwrap()
}

fn ctx(acct: MintingAccount, payer: u64, balance: u64) -> MintNFT {
    MintNFT {
        minting_account: acct,
        minting_address: id(CONFIG),
        whitelist: None,
        user_minting_counter_account: counter_or_new(None),
        payer: id(payer),
        payer_lamports: balance,
        owner: id(ADMIN),
        owner_lamports: 0,
    }
}

fn count_of(list: &[Identity], x: Identity) -> usize {
    list.iter().filter(|y| **y == x).count()
}

#[test]
fn initialize_sets_fresh_state() {
    let a = config(100);
    assert_eq!(a.admin_key, id(ADMIN));
    assert_eq!(a.authorized_creator, id(7));
    assert_eq!(a.cur_num, 0);
    assert_eq!(a.cur_stage, Stage::Disabled);
    assert!(a.og_list.is_empty());
    assert_eq!((a.og_max, a.wl_max, a.public_max), (2, 3, 4));
    assert_eq!((a.og_price, a.wl_price, a.public_price), (50, 30, 70));
}

#[test]
fn initialize_twice_fails() {
    let a = config(100);
    let r = initialize(&Some(a), id(ADMIN), id(7), 1, 1, 1, 1, 1, 1, 1);
    assert!(matches!(r, Err(MintError::AlreadyInitialized)));
}

#[test]
fn adding_twice_keeps_one_occurrence() {
    let mut a = config(100);
    a.add_og_list(id(ADMIN), &vec![id(5)]).unwrap();
    a.add_og_list(id(ADMIN), &vec![id(5)]).unwrap();
    assert_eq!(count_of(&a.og_list, id(5)), 1);
    a.add_og_list(id(ADMIN), &vec![id(6), id(6), id(5)]).unwrap();
    assert_eq!(a.og_list, vec![id(5), id(6)]);
}

#[test]
fn removing_absent_identity_is_noop() {
    let mut a = config(100);
    a.add_og_list(id(ADMIN), &vec![id(5), id(6)]).unwrap();
    assert_eq!(a.remove_og_list(id(ADMIN), &vec![id(8)]), Ok(()));
    assert_eq!(a.og_list, vec![id(5), id(6)]);
    a.remove_og_list(id(ADMIN), &vec![id(5), id(8)]).unwrap();
    assert_eq!(a.og_list, vec![id(6)]);
    assert!(!is_listed(&a.og_list, id(5)));
    assert!(is_listed(&a.og_list, id(6)));
}

#[test]
fn list_changes_need_admin() {
    let mut a = config(100);
    assert_eq!(a.add_og_list(id(2), &vec![id(5)]), Err(MintError::NotAuthorized));
    assert!(a.og_list.is_empty());
    a.add_og_list(id(ADMIN), &vec![id(5)]).unwrap();
    assert_eq!(a.remove_og_list(id(2), &vec![id(5)]), Err(MintError::NotAuthorized));
    assert_eq!(a.og_list, vec![id(5)]);
}

#[test]
fn update_price_partial() {
    let mut a = config(100);
    a.update_price(id(ADMIN), 0, 5, 0).unwrap();
    assert_eq!((a.og_price, a.wl_price, a.public_price), (50, 5, 70));
    assert_eq!(a.update_price(id(3), 1, 1, 1), Err(MintError::NotAuthorized));
    assert_eq!((a.og_price, a.wl_price, a.public_price), (50, 5, 70));
}

#[test]
fn update_amount_partial() {
    let mut a = config(100);
    a.update_amount(id(ADMIN), 9, 0, 11).unwrap();
    assert_eq!((a.og_max, a.wl_max, a.public_max), (9, 3, 11));
    assert_eq!(a.max_supply, 100);
}

#[test]
fn set_stage_ignores_out_of_range() {
    let mut a = config(100);
    a.set_stage(id(ADMIN), 2).unwrap();
    assert_eq!(a.cur_stage, Stage::Public);
    assert_eq!(a.set_stage(id(ADMIN), 3), Ok(()));
    assert_eq!(a.cur_stage, Stage::Public);
    assert_eq!(a.set_stage(id(ADMIN), -1), Ok(()));
    assert_eq!(a.cur_stage, Stage::Public);
    a.set_stage(id(ADMIN), 1).unwrap();
    assert_eq!(a.cur_stage, Stage::Presale);
    a.set_stage(id(ADMIN), 0).unwrap();
    assert_eq!(a.cur_stage, Stage::Disabled);
    assert_eq!(a.set_stage(id(4), 2), Err(MintError::NotAuthorized));
    assert_eq!(a.cur_stage, Stage::Disabled);
}

#[test]
fn set_uri_replaces() {
    let mut a = config(100);
    a.set_uri(id(ADMIN), "ipfs://col/".to_string()).unwrap();
    assert_eq!(a.base_uri, "ipfs://col/");
    assert_eq!(a.set_uri(id(9), "x".to_string()), Err(MintError::NotAuthorized));
    assert_eq!(a.base_uri, "ipfs://col/");
}

#[test]
fn metadata_uri_appends_serial_and_suffix() {
    assert_eq!(metadata_uri(&"https://a.b/c/".to_string(), 42), "https://a.b/c/42.json");
    assert_eq!(metadata_uri(&"u/".to_string(), 0), "u/0.json");
    assert_eq!(metadata_uri(&String::new(), 1907), "1907.json");
    assert_eq!(metadata_uri(&String::new(), u64::MAX), "18446744073709551615.json");
}

#[test]
fn disabled_stage_refuses_claims() {
    let mut a = config(100);
    a.add_og_list(id(ADMIN), &vec![id(5)]).unwrap();
    let mut c = ctx(a, 5, 1000);
    assert!(matches!(mint_nft(&mut c, true), Err(MintError::NotActive)));
    assert_eq!(c.minting_account.cur_num, 0);
    assert_eq!(c.payer_lamports, 1000);
}

#[test]
fn frozen_sale_refuses_claims() {
    let mut a = config(100);
    a.set_stage(id(ADMIN), 2).unwrap();
    a.freeze_program = true;
    let mut c = ctx(a, 5, 1000);
    assert!(matches!(mint_nft(&mut c, true), Err(MintError::NotActive)));
}

#[test]
fn exhausted_supply_refuses_claims() {
    let mut a = config(10);
    a.set_stage(id(ADMIN), 2).unwrap();
    a.cur_num = 10;
    let mut c = ctx(a, 5, 1000);
    assert!(matches!(mint_nft(&mut c, true), Err(MintError::NotAllowed)));
    assert_eq!(c.minting_account.cur_num, 10);
    assert_eq!(c.payer_lamports, 1000);
}

#[test]
fn priority_member_in_public_stage_pays_public_price() {
    let mut a = config(100);
    a.add_og_list(id(ADMIN), &vec![id(5)]).unwrap();
    a.set_stage(id(ADMIN), 2).unwrap();
    let mut c = ctx(a, 5, 1000);
    let plan = mint_nft(&mut c, true).unwrap();
    assert_eq!(plan.tier, Tier::Public);
    assert_eq!(plan.price, 70);
    assert_eq!(c.payer_lamports, 930);
}

#[test]
fn presale_refuses_unlisted_claimant() {
    let mut a = config(100);
    a.set_stage(id(ADMIN), 1).unwrap();
    let mut c = ctx(a, 5, 1000);
    assert!(matches!(mint_nft(&mut c, true), Err(MintError::NotAllowed)));
}

#[test]
fn presale_allow_list_gets_wl_tier() {
    let mut a = config(100);
    a.set_stage(id(ADMIN), 1).unwrap();
    let mut slot = None;
    add_wl_list(&a, id(CONFIG), id(ADMIN), id(5), &mut slot).unwrap();
    let mut c = ctx(a, 5, 1000);
    c.whitelist = slot;
    let plan = mint_nft(&mut c, true).unwrap();
    assert_eq!(plan.tier, Tier::Wl);
    assert_eq!(plan.price, 30);
    assert_eq!(c.owner_lamports, 30);
    assert_eq!(c.user_minting_counter_account.cur_num, 1);
}

#[test]
fn priority_list_wins_over_allow_list() {
    let mut a = config(100);
    a.set_stage(id(ADMIN), 1).unwrap();
    a.add_og_list(id(ADMIN), &vec![id(5)]).unwrap();
    let mut slot = None;
    add_wl_list(&a, id(CONFIG), id(ADMIN), id(5), &mut slot).unwrap();
    let mut c = ctx(a, 5, 1000);
    c.whitelist = slot;
    let plan = prepare_mint(&c).unwrap();
    assert_eq!(plan.tier, Tier::Og);
    assert_eq!(plan.price, 50);
}

#[test]
fn wrong_recipient_refused() {
    let mut a = config(100);
    a.set_stage(id(ADMIN), 2).unwrap();
    let mut c = ctx(a, 5, 1000);
    c.owner = id(42);
    assert!(matches!(mint_nft(&mut c, true), Err(MintError::NotAllowed)));
}

#[test]
fn insufficient_funds_refused() {
    let mut a = config(100);
    a.set_stage(id(ADMIN), 2).unwrap();
    let mut c = ctx(a, 5, 69);
    assert!(matches!(mint_nft(&mut c, true), Err(MintError::InsufficientFunds)));
    assert_eq!(c.payer_lamports, 69);
    let mut c = ctx(config_public(), 5, 70);
    assert!(mint_nft(&mut c, true).is_ok());
    assert_eq!(c.payer_lamports, 0);
}

fn config_public() -> MintingAccount {
    let mut a = config(100);
    a.set_stage(id(ADMIN), 2).unwrap();
    a
}

#[test]
fn failed_issuance_rolls_back() {
    let mut c = ctx(config_public(), 5, 1000);
    c.owner_lamports = 12;
    c.user_minting_counter_account = UserMintingAccount { cur_num: 1 };
    assert!(matches!(mint_nft(&mut c, false), Err(MintError::IssuanceFailed)));
    assert_eq!(c.minting_account.cur_num, 0);
    assert_eq!(c.user_minting_counter_account.cur_num, 1);
    assert_eq!(c.payer_lamports, 1000);
    assert_eq!(c.owner_lamports, 12);
}

#[test]
fn public_cap_per_user() {
    let mut c = ctx(config_public(), 5, 1000);
    for i in 0..4u64 {
        let plan = mint_nft(&mut c, true).unwrap();
        assert_eq!(plan.serial, i);
    }
    assert!(matches!(mint_nft(&mut c, true), Err(MintError::NotAllowed)));
    assert_eq!(c.user_minting_counter_account.cur_num, 4);
    assert_eq!(c.minting_account.cur_num, 4);
    assert_eq!(c.payer_lamports, 1000 - 4 * 70);
}

#[test]
fn end_to_end_presale_og_claim() {
    let mut a = initialize(&None, id(ADMIN), id(7), 100, 1, 1, 1, 50, 1, 1).unwrap();
    a.add_og_list(id(ADMIN), &vec![id(5)]).unwrap();
    a.set_stage(id(ADMIN), 1).unwrap();
    a.set_uri(id(ADMIN), "https://n/".to_string()).unwrap();
    let mut c = ctx(a, 5, 500);
    let plan = mint_nft(&mut c, true).unwrap();
    assert_eq!(plan.price, 50);
    assert_eq!(plan.uri, "https://n/0.json");
    assert_eq!(c.payer_lamports, 450);
    assert_eq!(c.minting_account.cur_num, 1);
    assert_eq!(c.user_minting_counter_account.cur_num, 1);
    assert!(matches!(mint_nft(&mut c, true), Err(MintError::NotAllowed)));
    assert_eq!(c.minting_account.cur_num, 1);
    assert_eq!(c.payer_lamports, 450);
}

#[test]
fn allow_list_grant_and_revoke() {
    let a = config(100);
    let mut slot: Option<WhiteList> = None;
    assert_eq!(add_wl_list(&a, id(CONFIG), id(3), id(5), &mut slot), Err(MintError::NotAuthorized));
    assert!(slot.is_none());
    add_wl_list(&a, id(CONFIG), id(ADMIN), id(5), &mut slot).unwrap();
    let w = slot.unwrap();
    assert_eq!((w.user, w.minting_account, w.initializer, w.count), (id(5), id(CONFIG), id(ADMIN), 1));
    assert_eq!(add_wl_list(&a, id(CONFIG), id(ADMIN), id(5), &mut slot), Err(MintError::AlreadyExists));
    assert_eq!(remove_wl_list(&a, id(98), id(ADMIN), &mut slot), Err(MintError::NotFound));
    assert!(slot.is_some());
    assert_eq!(remove_wl_list(&a, id(CONFIG), id(3), &mut slot), Err(MintError::NotAuthorized));
    remove_wl_list(&a, id(CONFIG), id(ADMIN), &mut slot).unwrap();
    assert!(slot.is_none());
    assert_eq!(remove_wl_list(&a, id(CONFIG), id(ADMIN), &mut slot), Err(MintError::NotFound));
}

#[test]
fn counter_created_lazily() {
    assert_eq!(counter_or_new(None).cur_num, 0);
    assert_eq!(counter_or_new(Some(UserMintingAccount { cur_num: 3 })).cur_num, 3);
}
