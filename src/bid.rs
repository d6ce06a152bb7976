use vstd::prelude::*;

use crate::address::Address;
use crate::derivation::{derive_escrow, escrow_seeds, is_native_mint, native_mint_bytes, program_address, TradeKey};
use crate::errors::ErrorCode;
use crate::escrow::{funds_kind_matches, kind_matches};
use crate::house::{check_auction_house, house_check};
use crate::state::{fee_payer_of, get_fee_payer, AccountCell, AuctionHouse, FeePayer, Funds, TokenAccount};
use crate::trade_state::{allocation_cost, check_derivation, derivation_check, is_open_record, open_outcome, open_trade_state};

verus! {

/// The accounts a bid reads and writes.
#[derive(Clone, Debug)]
pub struct Buy {
    pub wallet: AccountCell,
    pub token_account: TokenAccount,
    pub escrow_payment_account: Funds,
    pub treasury_mint: Address,
    pub authority: AccountCell,
    pub auction_house: AuctionHouse,
    pub auction_house_key: Address,
    pub auction_house_fee_account: AccountCell,
    pub buyer_trade_state: AccountCell,
    /// Minimum balance a one-byte record must hold.
    pub rent_minimum: u64,
}

/// The tuple of the bid that `a` places at `price`.
pub open spec fn bid_key(a: Buy, price: u64, size: u64) -> TradeKey {
    TradeKey {
        wallet: a.wallet.key,
        auction_house: a.auction_house_key,
        token_account: a.token_account.key,
        treasury_mint: a.auction_house.treasury_mint,
        token_mint: a.token_account.mint,
        price,
        size,
    }
}

pub open spec fn bid_payer_balance(a: Buy) -> u64 {
    if fee_payer_of(a.auction_house.requires_sign_off, a.authority.is_signer) == FeePayer::FeeAccount {
        a.auction_house_fee_account.lamports
    } else {
        a.wallet.lamports
    }
}

/// The error a bid stops at, if any, in the order the checks run.
pub open spec fn buy_error(
    a: Buy,
    program: Seq<u8>,
    trade_state_bump: u8,
    escrow_payment_bump: u8,
    price: u64,
    size: u64,
) -> Option<ErrorCode> {
    let house = house_check(a.auction_house, a.auction_house_key@, a.authority.key@, a.auction_house_fee_account.key@, program);
    let esc = derivation_check(
        program_address(escrow_seeds(a.auction_house_key@, a.wallet.key@), program),
        a.escrow_payment_account.key_view(),
        escrow_payment_bump,
    );
    let open = open_outcome(a.buyer_trade_state, bid_key(a, price, size), program, trade_state_bump, bid_payer_balance(a), a.rent_minimum);
    if !a.wallet.is_signer && !(a.authority.is_signer && a.auction_house.requires_sign_off) {
        Some(ErrorCode::NoValidSignerPresent)
    } else if house is Err {
        Some(house->Err_0)
    } else if a.treasury_mint@ != a.auction_house.treasury_mint@ {
        Some(ErrorCode::PublicKeyMismatch)
    } else if esc is Err {
        Some(esc->Err_0)
    } else if !kind_matches(a.treasury_mint@ == native_mint_bytes(), a.escrow_payment_account) {
        Some(ErrorCode::PublicKeyMismatch)
    } else if size > a.token_account.amount {
        Some(ErrorCode::InvalidTokenAmount)
    } else if a.escrow_payment_account.balance() < price {
        Some(ErrorCode::InsufficientFunds)
    } else if open is Err {
        Some(open->Err_0)
    } else {
        None
    }
}

/// Places a bid of `price` for `size` units of an asset account: the buyer
/// signs (or the authority signs for a marketplace that requires sign-off),
/// the buyer's escrow must already hold the price, and the bid's trade state
/// record is opened, paid for by the resolved fee payer. On any error nothing
/// changes.
pub fn buy(
    accounts: &mut Buy,
    program_id: &Address,
    trade_state_bump: u8,
    escrow_payment_bump: u8,
    buyer_price: u64,
    token_size: u64,
) -> (r: Result<(), ErrorCode>)
    ensures
        ({
            let e = buy_error(*old(accounts), program_id@, trade_state_bump, escrow_payment_bump, buyer_price, token_size);
            &&& e is Some ==> r == Err::<(), ErrorCode>(e->Some_0) && *final(accounts) == *old(accounts)
            &&& e is None ==> r is Ok
        }),
        r is Ok ==> ({
            let o = *old(accounts);
            let n = *final(accounts);
            let cost = allocation_cost(o.buyer_trade_state, o.rent_minimum);
            &&& is_open_record(n.buyer_trade_state, bid_key(o, buyer_price, token_size), program_id@)
            &&& n.buyer_trade_state.key == o.buyer_trade_state.key
            &&& n.buyer_trade_state.lamports == o.buyer_trade_state.lamports + cost
            &&& n.buyer_trade_state.data@[0] == trade_state_bump
            &&& (if fee_payer_of(o.auction_house.requires_sign_off, o.authority.is_signer) == FeePayer::FeeAccount {
                n.auction_house_fee_account.lamports == o.auction_house_fee_account.lamports - cost
                    && n.wallet == o.wallet
            } else {
                n.wallet.lamports == o.wallet.lamports - cost && n.auction_house_fee_account
                    == o.auction_house_fee_account
            })
            &&& n.token_account == o.token_account && n.escrow_payment_account == o.escrow_payment_account
            &&& n.authority == o.authority && n.treasury_mint == o.treasury_mint
            &&& n.auction_house == o.auction_house && n.auction_house_key == o.auction_house_key
            &&& n.rent_minimum == o.rent_minimum
        }),
{
    if !accounts.wallet.is_signer && !(accounts.authority.is_signer && accounts.auction_house.requires_sign_off) {
        return Err(ErrorCode::NoValidSignerPresent);
    }
    match check_auction_house(
        &accounts.auction_house,
        &accounts.auction_house_key,
        &accounts.authority.key,
        &accounts.auction_house_fee_account.key,
        program_id,
    ) {
        Err(e) => {
            return Err(e);
        },
        Ok(_) => {},
    }
    if !accounts.treasury_mint.same(&accounts.auction_house.treasury_mint) {
        return Err(ErrorCode::PublicKeyMismatch);
    }
    let escrow_key = accounts.escrow_payment_account.key();
    match check_derivation(
        derive_escrow(&accounts.auction_house_key, &accounts.wallet.key, program_id),
        &escrow_key,
        escrow_payment_bump,
    ) {
        Err(e) => {
            return Err(e);
        },
        Ok(_) => {},
    }
    let native = is_native_mint(&accounts.treasury_mint);
    if !funds_kind_matches(native, &accounts.escrow_payment_account) {
        return Err(ErrorCode::PublicKeyMismatch);
    }
    if token_size > accounts.token_account.amount {
        return Err(ErrorCode::InvalidTokenAmount);
    }
    if accounts.escrow_payment_account.get_balance() < buyer_price {
        return Err(ErrorCode::InsufficientFunds);
    }
    let key = TradeKey {
        wallet: accounts.wallet.key,
        auction_house: accounts.auction_house_key,
        token_account: accounts.token_account.key,
        treasury_mint: accounts.auction_house.treasury_mint,
        token_mint: accounts.token_account.mint,
        price: buyer_price,
        size: token_size,
    };
    let fee_payer = get_fee_payer(&accounts.auction_house, accounts.authority.is_signer);
    let payer_lamports = match fee_payer {
        FeePayer::FeeAccount => accounts.auction_house_fee_account.lamports,
        FeePayer::Wallet => accounts.wallet.lamports,
    };
    let paid = match open_trade_state(
        &mut accounts.buyer_trade_state,
        &key,
        program_id,
        trade_state_bump,
        payer_lamports,
        accounts.rent_minimum,
    ) {
        Err(e) => {
            return Err(e);
        },
        Ok(p) => p,
    };
    match fee_payer {
        FeePayer::FeeAccount => {
            accounts.auction_house_fee_account.lamports = paid;
        },
        FeePayer::Wallet => {
            accounts.wallet.lamports = paid;
        },
    }
    Ok(())
}

} // verus!
