use std::str::FromStr;

use auction_house::address::Address;
use auction_house::bid::{buy, Buy};
use auction_house::cancel::{cancel, Cancel};
use auction_house::derivation::{
    derive_associated_token_account, derive_auction_house, derive_escrow, derive_fee_account, derive_program_signer,
    derive_trade_state, derive_treasury, is_native_mint, u64_le_bytes, TradeKey,
};
use auction_house::errors::ErrorCode;
use auction_house::escrow::{close_escrow_account, deposit, verify_withdrawal, withdraw, CloseEscrowAccount, Deposit, Withdraw};
use auction_house::fees::split_price;
use auction_house::house::{create_auction_house, CreateAuctionHouse};
use auction_house::sale::{execute_sale, ExecuteSale};
use auction_house::sell::{sell, Sell};
use auction_house::state::{get_fee_payer, resolve_signer, AccountCell, AuctionHouse, FeePayer, Funds, Principal, TokenAccount};
use auction_house::trade_state::verify_trade_state;

const RENT: u64 = 897_840;
const ESCROW_RENT: u64 = 890_880;

fn addr(b: u8) -> Address {
    Address::new([b; 32])
}

fn program() -> Address {
    addr(200)
}

fn native() -> Address {
    Address::new(spl_token::native_mint::id().to_bytes())
}

fn cell(key: Address, is_signer: bool, lamports: u64) -> AccountCell {
    AccountCell { key, is_signer, lamports, data: Vec::new() }
}

struct Market {
    ah: AuctionHouse,
    key: Address,
    fee_account: Address,
    treasury: Address,
}

fn authority() -> Address {
    addr(1)
}

fn market_accounts() -> (CreateAuctionHouse, u8, u8) {
    let mint = native();
    let (key, _) = derive_auction_house(&authority(), &mint, &program()).unwrap();
    let (fee, fee_bump) = derive_fee_account(&key, &program()).unwrap();
    let (treasury, treasury_bump) = derive_treasury(&key, &program()).unwrap();
    let accounts = CreateAuctionHouse {
        treasury_mint: mint,
        authority: authority(),
        fee_withdrawal_destination: addr(2),
        treasury_withdrawal_destination: addr(3),
        treasury_withdrawal_destination_owner: addr(3),
        auction_house: key,
        auction_house_fee_account: fee,
        auction_house_treasury: treasury,
    };
    (accounts, fee_bump, treasury_bump)
}

fn market(requires_sign_off: bool, can_change_sale_price: bool, basis_points: u16) -> Market {
    let (accounts, fee_bump, treasury_bump) = market_accounts();
    let ah = create_auction_house(
        &accounts,
        &program(),
        fee_bump,
        treasury_bump,
        basis_points,
        requires_sign_off,
        can_change_sale_price,
    )
    .unwrap();
    Market { ah, key: accounts.auction_house, fee_account: accounts.auction_house_fee_account, treasury: accounts.auction_house_treasury }
}

fn seller() -> Address {
    addr(10)
}

fn buyer() -> Address {
    addr(20)
}

fn asset_mint() -> Address {
    addr(11)
}

fn asset_account() -> TokenAccount {
    let (ata, _) = derive_associated_token_account(&seller(), &asset_mint()).unwrap();
    TokenAccount { key: ata, mint: asset_mint(), owner: seller(), amount: 1, delegate: None, delegated_amount: 0 }
}

fn trade_key(wallet: Address, m: &Market, price: u64) -> TradeKey {
    TradeKey {
        wallet,
        auction_house: m.key,
        token_account: asset_account().key,
        treasury_mint: native(),
        token_mint: asset_mint(),
        price,
        size: 1,
    }
}

struct Listing {
    accounts: Sell,
    bump: u8,
    free_bump: u8,
    signer_bump: u8,
}

fn listing(m: &Market, price: u64, wallet_signs: bool, authority_signs: bool) -> Listing {
    let key = trade_key(seller(), m, price);
    let (ts, bump) = derive_trade_state(&key, &program()).unwrap();
    let (free, free_bump) = derive_trade_state(&TradeKey { price: 0, ..key }, &program()).unwrap();
    let (pas, signer_bump) = derive_program_signer(&program()).unwrap();
    let accounts = Sell {
        wallet: cell(seller(), wallet_signs, 10_000_000),
        token_account: asset_account(),
        authority: cell(authority(), authority_signs, 0),
        auction_house: m.ah,
        auction_house_key: m.key,
        auction_house_fee_account: cell(m.fee_account, false, 5_000_000),
        seller_trade_state: cell(ts, false, 0),
        free_seller_trade_state: cell(free, false, 0),
        program_as_signer: pas,
        rent_minimum: RENT,
    };
    Listing { accounts, bump, free_bump, signer_bump }
}

fn run_listing(l: &mut Listing, price: u64) -> Result<(), ErrorCode> {
    sell(&mut l.accounts, &program(), l.bump, l.free_bump, l.signer_bump, price, 1)
}

fn cancel_accounts(m: &Market, l: &Listing) -> Cancel {
    Cancel {
        wallet: cell(seller(), true, l.accounts.wallet.lamports),
        token_account: l.accounts.token_account,
        token_mint: asset_mint(),
        authority: cell(authority(), false, 0),
        auction_house: m.ah,
        auction_house_key: m.key,
        auction_house_fee_account: cell(m.fee_account, false, 5_000_000),
        trade_state: l.accounts.seller_trade_state.clone(),
    }
}

fn escrow_key(m: &Market) -> (Address, u8) {
    derive_escrow(&m.key, &buyer(), &program()).unwrap()
}

#[test]
fn fee_of_two_and_a_half_percent() {
    assert_eq!(split_price(1000, 250), Ok((25, 975)));
}

#[test]
fn fee_rounds_down() {
    assert_eq!(split_price(999, 250), Ok((24, 975)));
}

#[test]
fn fee_edges() {
    assert_eq!(split_price(0, 10000), Ok((0, 0)));
    assert_eq!(split_price(u64::MAX, 10000), Ok((u64::MAX, 0)));
    assert_eq!(split_price(u64::MAX, 0), Ok((0, u64::MAX)));
    assert_eq!(split_price(10000, 20000), Err(ErrorCode::NumericalOverflow));
}

#[test]
fn fee_and_proceeds_add_up() {
    for (price, bp) in [(1u64, 1u16), (12345, 9999), (u64::MAX, 3333), (7, 10000)] {
        let (fee, proceeds) = split_price(price, bp).unwrap();
        assert_eq!(fee + proceeds, price);
        assert_eq!(fee as u128, price as u128 * bp as u128 / 10000);
    }
}

#[test]
fn le_bytes_match_std() {
    let v: u64 = 0x0102_0304_0506_0708;
    assert_eq!(u64_le_bytes(v), v.to_le_bytes().to_vec());
}

#[test]
fn native_mint_is_recognised() {
    assert!(is_native_mint(&native()));
    assert!(!is_native_mint(&addr(5)));
}

#[test]
fn derivation_is_deterministic() {
    let m = market(false, false, 250);
    let key = trade_key(seller(), &m, 500);
    let (a, b) = derive_trade_state(&key, &program()).unwrap();
    let (c, d) = derive_trade_state(&key, &program()).unwrap();
    assert_eq!(a.bytes, c.bytes);
    assert_eq!(b, d);
}

#[test]
fn distinct_tuples_give_distinct_addresses() {
    let m = market(false, false, 250);
    let key = trade_key(seller(), &m, 500);
    let (base, _) = derive_trade_state(&key, &program()).unwrap();
    let variants = [
        TradeKey { price: 501, ..key },
        TradeKey { size: 2, ..key },
        TradeKey { wallet: buyer(), ..key },
        TradeKey { token_mint: addr(12), ..key },
        TradeKey { token_account: addr(13), ..key },
        TradeKey { auction_house: addr(14), ..key },
        TradeKey { treasury_mint: addr(15), ..key },
    ];
    for v in variants.iter() {
        let (other, _) = derive_trade_state(v, &program()).unwrap();
        assert_ne!(base.bytes, other.bytes);
    }
}

#[test]
fn create_rejects_rate_above_whole() {
    let (accounts, fee_bump, treasury_bump) = market_accounts();
    let r = create_auction_house(&accounts, &program(), fee_bump, treasury_bump, 10001, false, false);
    assert_eq!(r.err(), Some(ErrorCode::InvalidBasisPoints));
}

#[test]
fn create_rejects_non_canonical_salt() {
    let (accounts, fee_bump, treasury_bump) = market_accounts();
    let r = create_auction_house(&accounts, &program(), fee_bump.wrapping_sub(1), treasury_bump, 100, false, false);
    assert_eq!(r.err(), Some(ErrorCode::BumpSeedNotInHashMap));
}

#[test]
fn create_rejects_foreign_native_destination() {
    let (mut accounts, fee_bump, treasury_bump) = market_accounts();
    accounts.treasury_withdrawal_destination = addr(4);
    let r = create_auction_house(&accounts, &program(), fee_bump, treasury_bump, 100, false, false);
    assert_eq!(r.err(), Some(ErrorCode::PublicKeyMismatch));
}

#[test]
fn create_records_configuration() {
    let m = market(true, true, 250);
    assert_eq!(m.ah.seller_fee_basis_points, 250);
    assert!(m.ah.requires_sign_off);
    assert!(m.ah.can_change_sale_price);
    assert_eq!(m.ah.authority.bytes, authority().bytes);
    assert_eq!(m.ah.creator.bytes, authority().bytes);
    assert_eq!(m.ah.auction_house_treasury.bytes, m.treasury.bytes);
}

#[test]
fn fee_payer_resolution() {
    let m = market(true, false, 0);
    assert_eq!(get_fee_payer(&m.ah, true), FeePayer::FeeAccount);
    assert_eq!(get_fee_payer(&m.ah, false), FeePayer::Wallet);
    let n = market(false, false, 0);
    assert_eq!(get_fee_payer(&n.ah, true), FeePayer::Wallet);
}

#[test]
fn exactly_one_signer() {
    assert_eq!(resolve_signer(true, false), Ok(Principal::Wallet));
    assert_eq!(resolve_signer(false, true), Ok(Principal::Authority));
    assert_eq!(resolve_signer(true, true), Err(ErrorCode::NoValidSignerPresent));
    assert_eq!(resolve_signer(false, false), Err(ErrorCode::NoValidSignerPresent));
}

#[test]
fn listing_opens_record_and_delegates() {
    let m = market(false, false, 250);
    let mut l = listing(&m, 500, true, false);
    assert_eq!(run_listing(&mut l, 500), Ok(()));
    let key = trade_key(seller(), &m, 500);
    assert_eq!(verify_trade_state(&l.accounts.seller_trade_state, &key, &program()), Ok(l.bump));
    assert_eq!(l.accounts.seller_trade_state.data, vec![l.bump]);
    assert_eq!(l.accounts.seller_trade_state.lamports, RENT);
    assert_eq!(l.accounts.wallet.lamports, 10_000_000 - RENT);
    assert_eq!(l.accounts.token_account.delegate.unwrap().bytes, l.accounts.program_as_signer.bytes);
    assert_eq!(l.accounts.token_account.delegated_amount, 1);
}

#[test]
fn listing_with_sign_off_charges_fee_account() {
    let m = market(true, true, 250);
    let mut l = listing(&m, 0, false, true);
    assert_eq!(run_listing(&mut l, 0), Ok(()));
    assert_eq!(l.accounts.auction_house_fee_account.lamports, 5_000_000 - RENT);
    assert_eq!(l.accounts.wallet.lamports, 10_000_000);
    assert!(l.accounts.token_account.delegate.is_none());
}

#[test]
fn listing_with_both_signers_is_refused() {
    let m = market(false, true, 250);
    for price in [0u64, 500] {
        let mut l = listing(&m, price, true, true);
        assert_eq!(run_listing(&mut l, price), Err(ErrorCode::SaleRequiresExactlyOneSigner));
        assert!(l.accounts.seller_trade_state.data.is_empty());
    }
}

#[test]
fn authority_listing_needs_price_changes_allowed() {
    let m = market(false, false, 250);
    let mut l = listing(&m, 0, false, true);
    assert_eq!(run_listing(&mut l, 0), Err(ErrorCode::SaleRequiresSigner));
    let mut k = listing(&m, 500, false, true);
    k.accounts.free_seller_trade_state.data = vec![k.free_bump];
    assert_eq!(run_listing(&mut k, 500), Err(ErrorCode::SaleRequiresSigner));
}

#[test]
fn authority_listing_at_zero_succeeds() {
    let m = market(false, true, 250);
    let mut l = listing(&m, 0, false, true);
    assert_eq!(l.accounts.seller_trade_state.key.bytes, l.accounts.free_seller_trade_state.key.bytes);
    assert_eq!(run_listing(&mut l, 0), Ok(()));
    let key = trade_key(seller(), &m, 0);
    assert_eq!(verify_trade_state(&l.accounts.seller_trade_state, &key, &program()), Ok(l.bump));
    assert_eq!(l.accounts.seller_trade_state.data, vec![l.bump]);
    assert!(l.accounts.token_account.delegate.is_none());
}

#[test]
fn authority_listing_at_zero_over_existing_free_record_is_refused() {
    let m = market(false, true, 250);
    let mut l = listing(&m, 0, false, true);
    l.accounts.free_seller_trade_state.data = vec![l.free_bump];
    assert_eq!(run_listing(&mut l, 0), Err(ErrorCode::SaleRequiresSigner));
}

#[test]
fn authority_listing_at_price_is_refused() {
    let m = market(false, true, 250);
    let mut l = listing(&m, 500, false, true);
    assert_eq!(run_listing(&mut l, 500), Err(ErrorCode::SaleRequiresSigner));
    let mut k = listing(&m, 500, false, true);
    k.accounts.free_seller_trade_state.data = vec![k.free_bump];
    assert_eq!(run_listing(&mut k, 500), Err(ErrorCode::SaleRequiresSigner));
}

#[test]
fn listing_checks_salts_before_signers() {
    let m = market(false, false, 250);
    let mut l = listing(&m, 0, false, false);
    let bad = l.bump.wrapping_sub(1);
    assert_eq!(sell(&mut l.accounts, &program(), bad, l.free_bump, l.signer_bump, 0, 1), Err(ErrorCode::BumpSeedNotInHashMap));
    assert_eq!(run_listing(&mut l, 0), Err(ErrorCode::SaleRequiresSigner));
}

#[test]
fn relisting_keeps_record() {
    let m = market(false, false, 250);
    let mut l = listing(&m, 500, true, false);
    run_listing(&mut l, 500).unwrap();
    let lamports = l.accounts.wallet.lamports;
    assert_eq!(run_listing(&mut l, 500), Ok(()));
    assert_eq!(l.accounts.seller_trade_state.data, vec![l.bump]);
    assert_eq!(l.accounts.seller_trade_state.lamports, RENT);
    assert_eq!(l.accounts.wallet.lamports, lamports);
}

#[test]
fn listing_more_than_held_is_refused() {
    let m = market(false, false, 250);
    let mut l = listing(&m, 500, true, false);
    assert_eq!(sell(&mut l.accounts, &program(), l.bump, l.free_bump, l.signer_bump, 500, 2), Err(ErrorCode::DerivedKeyInvalid));
    let key = TradeKey { size: 2, ..trade_key(seller(), &m, 500) };
    let (ts, bump) = derive_trade_state(&key, &program()).unwrap();
    let (free, free_bump) = derive_trade_state(&TradeKey { price: 0, ..key }, &program()).unwrap();
    l.accounts.seller_trade_state.key = ts;
    l.accounts.free_seller_trade_state.key = free;
    assert_eq!(sell(&mut l.accounts, &program(), bump, free_bump, l.signer_bump, 500, 2), Err(ErrorCode::InvalidTokenAmount));
}

#[test]
fn listing_with_wrong_salt_is_refused() {
    let m = market(false, false, 250);
    let mut l = listing(&m, 500, true, false);
    let bad = l.bump.wrapping_sub(1);
    assert_eq!(sell(&mut l.accounts, &program(), bad, l.free_bump, l.signer_bump, 500, 1), Err(ErrorCode::BumpSeedNotInHashMap));
}

#[test]
fn listing_without_funds_for_storage_is_refused() {
    let m = market(false, false, 250);
    let mut l = listing(&m, 500, true, false);
    l.accounts.wallet.lamports = RENT - 1;
    assert_eq!(run_listing(&mut l, 500), Err(ErrorCode::InsufficientFunds));
    assert!(l.accounts.token_account.delegate.is_none());
}

#[test]
fn cancel_then_cancel() {
    let m = market(false, false, 250);
    let mut l = listing(&m, 500, true, false);
    run_listing(&mut l, 500).unwrap();
    let mut c = cancel_accounts(&m, &l);
    let before = c.wallet.lamports;
    assert_eq!(cancel(&mut c, &program(), 500, 1), Ok(()));
    assert_eq!(c.wallet.lamports, before + RENT);
    assert_eq!(c.trade_state.lamports, 0);
    assert!(c.trade_state.data.is_empty());
    assert!(c.token_account.delegate.is_none());
    assert_eq!(cancel(&mut c, &program(), 500, 1), Err(ErrorCode::TradeStateDoesNotExist));
}

#[test]
fn cancel_needs_one_signer() {
    let m = market(false, false, 250);
    let mut l = listing(&m, 500, true, false);
    run_listing(&mut l, 500).unwrap();
    let mut c = cancel_accounts(&m, &l);
    c.wallet.is_signer = false;
    assert_eq!(cancel(&mut c, &program(), 500, 1), Err(ErrorCode::NoValidSignerPresent));
    c.wallet.is_signer = true;
    c.authority.is_signer = true;
    assert_eq!(cancel(&mut c, &program(), 500, 1), Err(ErrorCode::NoValidSignerPresent));
    assert_eq!(c.trade_state.data, vec![l.bump]);
}

#[test]
fn cancel_checks_the_tuple() {
    let m = market(false, false, 250);
    let mut l = listing(&m, 500, true, false);
    run_listing(&mut l, 500).unwrap();
    let mut c = cancel_accounts(&m, &l);
    assert_eq!(cancel(&mut c, &program(), 501, 1), Err(ErrorCode::DerivedKeyInvalid));
    c.trade_state.data[0] = l.bump.wrapping_sub(1);
    assert_eq!(cancel(&mut c, &program(), 500, 1), Err(ErrorCode::BumpSeedNotInHashMap));
}

#[test]
fn cancel_by_authority_refunds_fee_account_under_sign_off() {
    let m = market(true, false, 250);
    let mut l = listing(&m, 500, true, false);
    run_listing(&mut l, 500).unwrap();
    let mut c = cancel_accounts(&m, &l);
    c.wallet.is_signer = false;
    c.authority.is_signer = true;
    assert_eq!(cancel(&mut c, &program(), 500, 1), Ok(()));
    assert_eq!(c.auction_house_fee_account.lamports, 5_000_000 + RENT);
    assert_eq!(c.token_account.delegated_amount, 1);
}

fn deposit_accounts(m: &Market, wallet_lamports: u64, escrow_lamports: u64) -> (Deposit, u8) {
    let (escrow, bump) = escrow_key(m);
    let d = Deposit {
        wallet: cell(buyer(), true, wallet_lamports),
        payment_account: Funds::Native(cell(buyer(), true, wallet_lamports)),
        escrow_payment_account: Funds::Native(cell(escrow, false, escrow_lamports)),
        treasury_mint: native(),
        authority: cell(authority(), false, 0),
        auction_house: m.ah,
        auction_house_key: m.key,
        auction_house_fee_account: cell(m.fee_account, false, 0),
        rent_minimum: ESCROW_RENT,
    };
    (d, bump)
}

#[test]
fn deposit_moves_funds_into_escrow() {
    let m = market(false, false, 250);
    let (mut d, bump) = deposit_accounts(&m, 5_000_000, 0);
    assert_eq!(deposit(&mut d, &program(), bump, 1_000_000), Ok(()));
    match (&d.payment_account, &d.escrow_payment_account) {
        (Funds::Native(p), Funds::Native(e)) => {
            assert_eq!(p.lamports, 4_000_000);
            assert_eq!(e.lamports, 1_000_000);
        },
        _ => panic!("currency kind changed"),
    }
    assert_eq!(d.wallet.lamports, 4_000_000);
}

#[test]
fn deposit_refuses_disagreeing_views() {
    let m = market(false, false, 250);
    let (mut d, bump) = deposit_accounts(&m, 5_000_000, 0);
    d.wallet.lamports = 4_999_999;
    assert_eq!(deposit(&mut d, &program(), bump, 1), Err(ErrorCode::AccountViewMismatch));
}

#[test]
fn deposit_keeps_source_minimum() {
    let m = market(false, false, 250);
    let (mut d, bump) = deposit_accounts(&m, 1_000_000 + ESCROW_RENT - 1, 0);
    assert_eq!(deposit(&mut d, &program(), bump, 1_000_000), Err(ErrorCode::InsufficientFunds));
    let (mut e, bump) = deposit_accounts(&m, 1_000_000 + ESCROW_RENT, 0);
    assert_eq!(deposit(&mut e, &program(), bump, 1_000_000), Ok(()));
}

#[test]
fn deposit_needs_wallet_signature() {
    let m = market(false, false, 250);
    let (mut d, bump) = deposit_accounts(&m, 5_000_000, 0);
    d.wallet.is_signer = false;
    assert_eq!(deposit(&mut d, &program(), bump, 1), Err(ErrorCode::NoValidSignerPresent));
}

fn withdraw_accounts(m: &Market, escrow_lamports: u64, wallet_signs: bool, authority_signs: bool) -> (Withdraw, u8) {
    let (escrow, bump) = escrow_key(m);
    let w = Withdraw {
        wallet: cell(buyer(), wallet_signs, 0),
        receipt_account: Funds::Native(cell(buyer(), wallet_signs, 0)),
        escrow_payment_account: Funds::Native(cell(escrow, false, escrow_lamports)),
        treasury_mint: native(),
        authority: cell(authority(), authority_signs, 0),
        auction_house: m.ah,
        auction_house_key: m.key,
        auction_house_fee_account: cell(m.fee_account, false, 0),
        rent_minimum: 100,
    };
    (w, bump)
}

fn balances(w: &Withdraw) -> (u64, u64) {
    match (&w.escrow_payment_account, &w.receipt_account) {
        (Funds::Native(e), Funds::Native(r)) => (e.lamports, r.lamports),
        _ => panic!("currency kind changed"),
    }
}

#[test]
fn withdraw_within_free_balance() {
    let m = market(false, false, 250);
    let (mut w, bump) = withdraw_accounts(&m, 1000, true, false);
    assert_eq!(withdraw(&mut w, &program(), bump, 900), Ok(()));
    assert_eq!(balances(&w), (100, 900));
    assert_eq!(w.wallet.lamports, 900);
}

#[test]
fn withdraw_refuses_disagreeing_views() {
    let m = market(false, false, 250);
    let (mut w, bump) = withdraw_accounts(&m, 1000, true, false);
    w.wallet.lamports = 7;
    assert_eq!(withdraw(&mut w, &program(), bump, 10), Err(ErrorCode::AccountViewMismatch));
}

#[test]
fn withdraw_reduced_by_rent_shortfall() {
    let m = market(false, false, 250);
    let (mut w, bump) = withdraw_accounts(&m, 1000, true, false);
    assert_eq!(withdraw(&mut w, &program(), bump, 950), Ok(()));
    assert_eq!(balances(&w), (100, 900));
}

#[test]
fn withdraw_more_than_balance_fails() {
    let m = market(false, false, 250);
    let (mut w, bump) = withdraw_accounts(&m, 1000, true, false);
    assert_eq!(withdraw(&mut w, &program(), bump, 1001), Err(ErrorCode::InsufficientFunds));
    assert_eq!(balances(&w), (1000, 0));
}

#[test]
fn withdraw_below_minimum_escrow_fails() {
    let m = market(false, false, 250);
    let (mut w, bump) = withdraw_accounts(&m, 50, false, true);
    assert_eq!(withdraw(&mut w, &program(), bump, 10), Err(ErrorCode::InsufficientFunds));
}

#[test]
fn withdraw_needs_exactly_one_signer() {
    let m = market(false, false, 250);
    let (mut w, bump) = withdraw_accounts(&m, 1000, true, true);
    assert_eq!(withdraw(&mut w, &program(), bump, 10), Err(ErrorCode::NoValidSignerPresent));
    let (mut v, bump) = withdraw_accounts(&m, 1000, false, false);
    assert_eq!(withdraw(&mut v, &program(), bump, 10), Err(ErrorCode::NoValidSignerPresent));
}

#[test]
fn shortfall_values() {
    assert_eq!(verify_withdrawal(1000, 900, 100), Ok(0));
    assert_eq!(verify_withdrawal(1000, 950, 100), Ok(50));
    assert_eq!(verify_withdrawal(1000, 1001, 100), Err(ErrorCode::InsufficientFunds));
    assert_eq!(verify_withdrawal(50, 10, 100), Ok(60));
}

#[test]
fn close_escrow_returns_everything() {
    let m = market(false, false, 250);
    let (escrow, bump) = escrow_key(&m);
    let mut c = CloseEscrowAccount {
        wallet: cell(buyer(), true, 10),
        escrow_payment_account: cell(escrow, false, 1234),
        auction_house: m.ah,
        auction_house_key: m.key,
    };
    assert_eq!(close_escrow_account(&mut c, &program(), bump), Ok(()));
    assert_eq!(c.wallet.lamports, 1244);
    assert_eq!(c.escrow_payment_account.lamports, 0);
    c.wallet.is_signer = false;
    assert_eq!(close_escrow_account(&mut c, &program(), bump), Err(ErrorCode::NoValidSignerPresent));
}

struct Trade {
    sale: ExecuteSale,
    escrow_bump: u8,
    signer_bump: u8,
}

/// Lists at `price`, funds the escrow with `escrow_lamports`, bids, and
/// gathers the accounts of the sale.
fn prepared_trade(m: &Market, price: u64, escrow_lamports: u64) -> Trade {
    let mut l = listing(m, price, true, false);
    run_listing(&mut l, price).unwrap();
    let (escrow, escrow_bump) = escrow_key(m);
    let bid_key = trade_key(buyer(), m, price);
    let (bts, bid_bump) = derive_trade_state(&bid_key, &program()).unwrap();
    let mut b = Buy {
        wallet: cell(buyer(), true, 10_000_000),
        token_account: l.accounts.token_account,
        escrow_payment_account: Funds::Native(cell(escrow, false, escrow_lamports)),
        treasury_mint: native(),
        authority: cell(authority(), false, 0),
        auction_house: m.ah,
        auction_house_key: m.key,
        auction_house_fee_account: cell(m.fee_account, false, 0),
        buyer_trade_state: cell(bts, false, 0),
        rent_minimum: RENT,
    };
    buy(&mut b, &program(), bid_bump, escrow_bump, price, 1).unwrap();
    let sale = ExecuteSale {
        buyer: b.wallet.clone(),
        seller: l.accounts.wallet.clone(),
        token_account: l.accounts.token_account,
        token_mint: asset_mint(),
        buyer_receipt_token_account: TokenAccount {
            key: addr(30),
            mint: asset_mint(),
            owner: buyer(),
            amount: 0,
            delegate: None,
            delegated_amount: 0,
        },
        escrow_payment_account: b.escrow_payment_account.clone(),
        seller_payment_receipt_account: Funds::Native(l.accounts.wallet.clone()),
        auction_house_treasury: Funds::Native(cell(m.treasury, false, 0)),
        treasury_mint: native(),
        authority: cell(authority(), false, 0),
        auction_house: m.ah,
        auction_house_key: m.key,
        auction_house_fee_account: cell(m.fee_account, false, 0),
        buyer_trade_state: b.buyer_trade_state.clone(),
        seller_trade_state: l.accounts.seller_trade_state.clone(),
        program_as_signer: l.accounts.program_as_signer,
    };
    Trade { sale, escrow_bump, signer_bump: l.signer_bump }
}

fn funds_balance(f: &Funds) -> u64 {
    match f {
        Funds::Native(c) => c.lamports,
        Funds::Token(t) => t.amount,
    }
}

#[test]
fn bid_needs_escrowed_price() {
    let m = market(false, false, 250);
    let (escrow, escrow_bump) = escrow_key(&m);
    let (bts, bid_bump) = derive_trade_state(&trade_key(buyer(), &m, 500), &program()).unwrap();
    let mut b = Buy {
        wallet: cell(buyer(), true, 10_000_000),
        token_account: asset_account(),
        escrow_payment_account: Funds::Native(cell(escrow, false, 499)),
        treasury_mint: native(),
        authority: cell(authority(), false, 0),
        auction_house: m.ah,
        auction_house_key: m.key,
        auction_house_fee_account: cell(m.fee_account, false, 0),
        buyer_trade_state: cell(bts, false, 0),
        rent_minimum: RENT,
    };
    assert_eq!(buy(&mut b, &program(), bid_bump, escrow_bump, 500, 1), Err(ErrorCode::InsufficientFunds));
    b.wallet.is_signer = false;
    assert_eq!(buy(&mut b, &program(), bid_bump, escrow_bump, 500, 1), Err(ErrorCode::NoValidSignerPresent));
}

#[test]
fn sale_settles_both_sides() {
    let m = market(false, false, 250);
    let mut t = prepared_trade(&m, 1_000_000, 1_500_000);
    let seller_before = t.sale.seller.lamports;
    let buyer_before = t.sale.buyer.lamports;
    assert_eq!(execute_sale(&mut t.sale, &program(), t.escrow_bump, t.signer_bump, 1_000_000, 1), Ok(()));
    assert_eq!(funds_balance(&t.sale.escrow_payment_account), 500_000);
    assert_eq!(funds_balance(&t.sale.seller_payment_receipt_account), seller_before + 975_000 + 2 * RENT);
    assert_eq!(funds_balance(&t.sale.auction_house_treasury), 25_000);
    assert_eq!(t.sale.token_account.amount, 0);
    assert!(t.sale.token_account.delegate.is_none());
    assert_eq!(t.sale.buyer_receipt_token_account.amount, 1);
    assert!(t.sale.seller_trade_state.data.is_empty());
    assert!(t.sale.buyer_trade_state.data.is_empty());
    assert_eq!(t.sale.seller.lamports, seller_before + 975_000 + 2 * RENT);
    assert_eq!(t.sale.buyer.lamports, buyer_before);
}

#[test]
fn sale_with_failed_asset_transfer_changes_nothing() {
    let m = market(false, false, 250);
    let mut t = prepared_trade(&m, 1_000_000, 1_500_000);
    t.sale.token_account.delegate = None;
    t.sale.token_account.delegated_amount = 0;
    let seller_before = t.sale.seller.lamports;
    let r = execute_sale(&mut t.sale, &program(), t.escrow_bump, t.signer_bump, 1_000_000, 1);
    assert_eq!(r, Err(ErrorCode::InvalidTokenAmount));
    assert_eq!(funds_balance(&t.sale.escrow_payment_account), 1_500_000);
    assert_eq!(funds_balance(&t.sale.seller_payment_receipt_account), seller_before);
    assert_eq!(t.sale.seller_trade_state.data.len(), 1);
    assert_eq!(t.sale.buyer_trade_state.data.len(), 1);
    assert_eq!(t.sale.seller_trade_state.lamports, RENT);
}

#[test]
fn sale_without_escrowed_price_fails() {
    let m = market(false, false, 250);
    let mut t = prepared_trade(&m, 1_000_000, 1_500_000);
    t.sale.escrow_payment_account = match &t.sale.escrow_payment_account {
        Funds::Native(c) => Funds::Native(AccountCell { lamports: 999_999, ..c.clone() }),
        Funds::Token(x) => Funds::Token(*x),
    };
    let r = execute_sale(&mut t.sale, &program(), t.escrow_bump, t.signer_bump, 1_000_000, 1);
    assert_eq!(r, Err(ErrorCode::InsufficientFunds));
    assert_eq!(t.sale.buyer_trade_state.data.len(), 1);
}

#[test]
fn sale_at_other_price_is_refused() {
    let m = market(false, false, 250);
    let mut t = prepared_trade(&m, 1_000_000, 1_500_000);
    let r = execute_sale(&mut t.sale, &program(), t.escrow_bump, t.signer_bump, 900_000, 1);
    assert_eq!(r, Err(ErrorCode::DerivedKeyInvalid));
}

#[test]
fn sale_requires_sign_off_when_configured() {
    let m = market(true, false, 250);
    let mut t = prepared_trade(&m, 1_000_000, 1_500_000);
    let r = execute_sale(&mut t.sale, &program(), t.escrow_bump, t.signer_bump, 1_000_000, 1);
    assert_eq!(r, Err(ErrorCode::RequiresSignOff));
    t.sale.authority.is_signer = true;
    let fee_before = t.sale.auction_house_fee_account.lamports;
    let seller_before = t.sale.seller.lamports;
    let r = execute_sale(&mut t.sale, &program(), t.escrow_bump, t.signer_bump, 1_000_000, 1);
    assert_eq!(r, Ok(()));
    assert_eq!(t.sale.auction_house_fee_account.lamports, fee_before + 2 * RENT);
    assert_eq!(t.sale.seller.lamports, seller_before + 975_000);
}

#[test]
fn sale_refuses_disagreeing_seller_views() {
    let m = market(false, false, 250);
    let mut t = prepared_trade(&m, 1_000_000, 1_500_000);
    t.sale.seller_payment_receipt_account = Funds::Native(cell(seller(), false, 0));
    let r = execute_sale(&mut t.sale, &program(), t.escrow_bump, t.signer_bump, 1_000_000, 1);
    assert_eq!(r, Err(ErrorCode::AccountViewMismatch));
}

#[test]
fn associated_account_matches_runtime_derivation() {
    let owner = seller();
    let mint = asset_mint();
    let (ata, _) = derive_associated_token_account(&owner, &mint).unwrap();
    let program = solana_program::pubkey::Pubkey::from_str("ATokenGPvbdGVxr1b2hvZbsiqW5xWH25efTNsLJA8knL").unwrap();
    let (expected, _) = solana_program::pubkey::Pubkey::find_program_address(
        &[&owner.bytes, spl_token::id().as_ref(), &mint.bytes],
        &program,
    );
    assert_eq!(ata.bytes, expected.to_bytes());
}

fn fungible_mint() -> Address {
    addr(50)
}

fn fungible_market() -> Market {
    let mint = fungible_mint();
    let (key, _) = derive_auction_house(&authority(), &mint, &program()).unwrap();
    let (fee, fee_bump) = derive_fee_account(&key, &program()).unwrap();
    let (treasury, treasury_bump) = derive_treasury(&key, &program()).unwrap();
    let (destination, _) = derive_associated_token_account(&addr(3), &mint).unwrap();
    let accounts = CreateAuctionHouse {
        treasury_mint: mint,
        authority: authority(),
        fee_withdrawal_destination: addr(2),
        treasury_withdrawal_destination: destination,
        treasury_withdrawal_destination_owner: addr(3),
        auction_house: key,
        auction_house_fee_account: fee,
        auction_house_treasury: treasury,
    };
    let ah = create_auction_house(&accounts, &program(), fee_bump, treasury_bump, 100, false, false).unwrap();
    Market { ah, key, fee_account: fee, treasury }
}

fn fungible_withdraw(m: &Market, escrowed: u64) -> (Withdraw, u8) {
    let (escrow, bump) = escrow_key(m);
    let (receipt, _) = derive_associated_token_account(&buyer(), &fungible_mint()).unwrap();
    let w = Withdraw {
        wallet: cell(buyer(), true, 0),
        receipt_account: Funds::Token(TokenAccount {
            key: receipt,
            mint: fungible_mint(),
            owner: buyer(),
            amount: 5,
            delegate: None,
            delegated_amount: 0,
        }),
        escrow_payment_account: Funds::Token(TokenAccount {
            key: escrow,
            mint: fungible_mint(),
            owner: m.key,
            amount: escrowed,
            delegate: None,
            delegated_amount: 0,
        }),
        treasury_mint: fungible_mint(),
        authority: cell(authority(), false, 0),
        auction_house: m.ah,
        auction_house_key: m.key,
        auction_house_fee_account: cell(m.fee_account, false, 0),
        rent_minimum: 100,
    };
    (w, bump)
}

#[test]
fn create_fungible_needs_canonical_destination() {
    let m = fungible_market();
    assert_eq!(m.ah.treasury_mint.bytes, fungible_mint().bytes);
    let (mut accounts, _, _) = market_accounts();
    let mint = fungible_mint();
    let (key, _) = derive_auction_house(&authority(), &mint, &program()).unwrap();
    let (fee, fee_bump2) = derive_fee_account(&key, &program()).unwrap();
    let (treasury, treasury_bump2) = derive_treasury(&key, &program()).unwrap();
    accounts.treasury_mint = mint;
    accounts.auction_house = key;
    accounts.auction_house_fee_account = fee;
    accounts.auction_house_treasury = treasury;
    let r = create_auction_house(&accounts, &program(), fee_bump2, treasury_bump2, 100, false, false);
    assert_eq!(r.err(), Some(ErrorCode::PublicKeyMismatch));
}

#[test]
fn fungible_withdraw_moves_whole_amount() {
    let m = fungible_market();
    let (mut w, bump) = fungible_withdraw(&m, 1000);
    assert_eq!(withdraw(&mut w, &program(), bump, 1000), Ok(()));
    assert_eq!(funds_balance(&w.escrow_payment_account), 0);
    assert_eq!(funds_balance(&w.receipt_account), 1005);
}

#[test]
fn fungible_withdraw_refuses_delegated_receipt() {
    let m = fungible_market();
    let (mut w, bump) = fungible_withdraw(&m, 1000);
    if let Funds::Token(t) = &mut w.receipt_account {
        t.delegate = Some(addr(99));
        t.delegated_amount = 1;
    }
    assert_eq!(withdraw(&mut w, &program(), bump, 10), Err(ErrorCode::BuyerATACannotHaveDelegate));
    assert_eq!(funds_balance(&w.escrow_payment_account), 1000);
}

#[test]
fn fungible_withdraw_refuses_native_holder() {
    let m = fungible_market();
    let (mut w, bump) = fungible_withdraw(&m, 1000);
    w.receipt_account = Funds::Native(cell(buyer(), true, 0));
    assert_eq!(withdraw(&mut w, &program(), bump, 10), Err(ErrorCode::PublicKeyMismatch));
}

#[test]
fn fungible_withdraw_more_than_escrowed_fails() {
    let m = fungible_market();
    let (mut w, bump) = fungible_withdraw(&m, 1000);
    assert_eq!(withdraw(&mut w, &program(), bump, 1001), Err(ErrorCode::InsufficientFunds));
}
