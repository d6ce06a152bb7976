use vstd::prelude::*;

use crate::address::Address;
use crate::derivation::TradeKey;
use crate::errors::ErrorCode;
use crate::house::{check_auction_house, house_check};
use crate::state::{fee_payer_of, get_fee_payer, resolve_signer, signer_of, AccountCell, AuctionHouse, FeePayer, TokenAccount};
use crate::trade_state::{
    close_trade_state, is_closed_record, is_open_record, lemma_verify_iff_open, verify_outcome, verify_trade_state,
};

verus! {

/// The accounts a cancellation reads and writes.
#[derive(Clone, Debug)]
pub struct Cancel {
    pub wallet: AccountCell,
    pub token_account: TokenAccount,
    pub token_mint: Address,
    pub authority: AccountCell,
    pub auction_house: AuctionHouse,
    pub auction_house_key: Address,
    pub auction_house_fee_account: AccountCell,
    pub trade_state: AccountCell,
}

/// The tuple of the ask or bid that `a` cancels.
pub open spec fn cancel_key(a: Cancel, price: u64, size: u64) -> TradeKey {
    TradeKey {
        wallet: a.wallet.key,
        auction_house: a.auction_house_key,
        token_account: a.token_account.key,
        treasury_mint: a.auction_house.treasury_mint,
        token_mint: a.token_account.mint,
        price,
        size,
    }
}

pub open spec fn cancel_payer_balance(a: Cancel) -> u64 {
    if fee_payer_of(a.auction_house.requires_sign_off, a.authority.is_signer) == FeePayer::FeeAccount {
        a.auction_house_fee_account.lamports
    } else {
        a.wallet.lamports
    }
}

/// The error a cancellation stops at, if any, in the order the checks run.
pub open spec fn cancel_error(a: Cancel, program: Seq<u8>, price: u64, size: u64) -> Option<ErrorCode> {
    let v = verify_outcome(a.trade_state, cancel_key(a, price, size), program);
    let house = house_check(a.auction_house, a.auction_house_key@, a.authority.key@, a.auction_house_fee_account.key@, program);
    if v is Err {
        Some(v->Err_0)
    } else if house is Err {
        Some(house->Err_0)
    } else if a.token_mint@ != a.token_account.mint@ {
        Some(ErrorCode::PublicKeyMismatch)
    } else if signer_of(a.wallet.is_signer, a.authority.is_signer) is Err {
        Some(ErrorCode::NoValidSignerPresent)
    } else if cancel_payer_balance(a) + a.trade_state.lamports > u64::MAX {
        Some(ErrorCode::NumericalOverflow)
    } else {
        None
    }
}

/// Cancels an open ask or bid: authenticates the record against the tuple,
/// requires exactly one of the wallet and the authority to sign, revokes the
/// asset delegation when the wallet owns the asset account and signs, and
/// closes the record, crediting its balance to the resolved fee payer. On any
/// error nothing changes.
pub fn cancel(accounts: &mut Cancel, program_id: &Address, buyer_price: u64, token_size: u64) -> (r: Result<(), ErrorCode>)
    ensures
        ({
            let e = cancel_error(*old(accounts), program_id@, buyer_price, token_size);
            &&& e is Some ==> r == Err::<(), ErrorCode>(e->Some_0) && *final(accounts) == *old(accounts)
            &&& e is None ==> r is Ok
        }),
        r is Ok ==> ({
            let o = *old(accounts);
            let n = *final(accounts);
            &&& is_closed_record(n.trade_state)
            &&& n.trade_state.key == o.trade_state.key
            &&& (if fee_payer_of(o.auction_house.requires_sign_off, o.authority.is_signer) == FeePayer::FeeAccount {
                n.auction_house_fee_account.lamports == o.auction_house_fee_account.lamports + o.trade_state.lamports
                    && n.wallet == o.wallet
            } else {
                n.wallet.lamports == o.wallet.lamports + o.trade_state.lamports && n.auction_house_fee_account
                    == o.auction_house_fee_account
            })
            &&& n.token_account == (if o.token_account.owner@ == o.wallet.key@ && o.wallet.is_signer {
                TokenAccount { delegate: None, delegated_amount: 0, ..o.token_account }
            } else {
                o.token_account
            })
            &&& n.authority == o.authority && n.token_mint == o.token_mint
            &&& n.auction_house == o.auction_house && n.auction_house_key == o.auction_house_key
        }),
{
    let key = TradeKey {
        wallet: accounts.wallet.key,
        auction_house: accounts.auction_house_key,
        token_account: accounts.token_account.key,
        treasury_mint: accounts.auction_house.treasury_mint,
        token_mint: accounts.token_account.mint,
        price: buyer_price,
        size: token_size,
    };
    match verify_trade_state(&accounts.trade_state, &key, program_id) {
        Err(e) => {
            return Err(e);
        },
        Ok(_) => {},
    }
    match check_auction_house(
        &accounts.auction_house,
        &accounts.auction_house_key,
        &accounts.authority.key,
        &accounts.auction_house_fee_account.key,
        program_id,
    ) {
        Err(e) => {
            return Err(e);
        },
        Ok(_) => {},
    }
    if !accounts.token_mint.same(&accounts.token_account.mint) {
        return Err(ErrorCode::PublicKeyMismatch);
    }
    match resolve_signer(accounts.wallet.is_signer, accounts.authority.is_signer) {
        Err(e) => {
            return Err(e);
        },
        Ok(_) => {},
    }
    let fee_payer = get_fee_payer(&accounts.auction_house, accounts.authority.is_signer);
    let payer_lamports = match fee_payer {
        FeePayer::FeeAccount => accounts.auction_house_fee_account.lamports,
        FeePayer::Wallet => accounts.wallet.lamports,
    };
    let paid = match close_trade_state(&mut accounts.trade_state, payer_lamports) {
        Err(e) => {
            return Err(e);
        },
        Ok(p) => p,
    };
    match fee_payer {
        FeePayer::FeeAccount => {
            accounts.auction_house_fee_account.lamports = paid;
        },
        FeePayer::Wallet => {
            accounts.wallet.lamports = paid;
        },
    }
    if accounts.token_account.owner.same(&accounts.wallet.key) && accounts.wallet.is_signer {
        accounts.token_account.delegate = None;
        accounts.token_account.delegated_amount = 0;
    }
    Ok(())
}

/// Cancelling an open record of the tuple, on an authentic instance with the
/// asset's mint, one signer and a refund that fits the payer's balance,
/// succeeds; its contract then leaves the record closed.
pub proof fn lemma_cancel_open_record(a: Cancel, program: Seq<u8>, price: u64, size: u64)
    requires
        is_open_record(a.trade_state, cancel_key(a, price, size), program),
        house_check(a.auction_house, a.auction_house_key@, a.authority.key@, a.auction_house_fee_account.key@, program) is Ok,
        a.token_mint@ == a.token_account.mint@,
        signer_of(a.wallet.is_signer, a.authority.is_signer) is Ok,
        cancel_payer_balance(a) + a.trade_state.lamports <= u64::MAX,
    ensures
        cancel_error(a, program, price, size) is None,
{
    lemma_verify_iff_open(a.trade_state, cancel_key(a, price, size), program);
}

/// Once a cancellation has closed a record, cancelling the same tuple again
/// fails with `TradeStateDoesNotExist`.
pub proof fn lemma_cancel_after_close(a: Cancel, program: Seq<u8>, price: u64, size: u64)
    requires
        is_closed_record(a.trade_state),
    ensures
        cancel_error(a, program, price, size) == Some(ErrorCode::TradeStateDoesNotExist),
{
}

} // verus!
