use vstd::prelude::*;

use crate::address::Address;
use crate::derivation::{
    derive_escrow, derive_program_signer, escrow_seeds, is_native_mint, native_mint_bytes, program_address,
    program_signer_seeds, TradeKey,
};
use crate::errors::ErrorCode;
use crate::escrow::{funds_kind_matches, kind_matches};
use crate::fees::{split_outcome, split_price};
use crate::house::{check_auction_house, house_check};
use crate::state::{fee_payer_of, funds_mirror, get_fee_payer, mirrors, AccountCell, AuctionHouse, FeePayer, Funds, TokenAccount};
use crate::trade_state::{check_derivation, derivation_check, is_closed_record, verify_outcome, verify_trade_state};

verus! {

/// The accounts a sale reads and writes.
#[derive(Clone, Debug)]
pub struct ExecuteSale {
    pub buyer: AccountCell,
    pub seller: AccountCell,
    /// The seller's asset account.
    pub token_account: TokenAccount,
    pub token_mint: Address,
    pub buyer_receipt_token_account: TokenAccount,
    pub escrow_payment_account: Funds,
    pub seller_payment_receipt_account: Funds,
    pub auction_house_treasury: Funds,
    pub treasury_mint: Address,
    pub authority: AccountCell,
    pub auction_house: AuctionHouse,
    pub auction_house_key: Address,
    pub auction_house_fee_account: AccountCell,
    pub buyer_trade_state: AccountCell,
    pub seller_trade_state: AccountCell,
    pub program_as_signer: Address,
}

/// The tuple of one side of the trade: the ask for the seller, the bid for
/// the buyer. Both name the same asset account, instance and quantity.
pub open spec fn side_key(a: ExecuteSale, wallet: Address, price: u64, size: u64) -> TradeKey {
    TradeKey {
        wallet,
        auction_house: a.auction_house_key,
        token_account: a.token_account.key,
        treasury_mint: a.auction_house.treasury_mint,
        token_mint: a.token_account.mint,
        price,
        size,
    }
}

/// Whether a funds holder can receive payment for `owner`.
pub open spec fn receives_for(native: bool, f: Funds, owner: Seq<u8>, mint: Seq<u8>) -> bool {
    match f {
        Funds::Native(c) => native && c.key@ == owner,
        Funds::Token(t) => !native && t.owner@ == owner && t.mint@ == mint,
    }
}

pub fn funds_receive_for(native: bool, f: &Funds, owner: &Address, mint: &Address) -> (r: bool)
    ensures
        r == receives_for(native, *f, owner@, mint@),
{
    match f {
        Funds::Native(c) => native && c.key.same(owner),
        Funds::Token(t) => !native && t.owner.same(owner) && t.mint.same(mint),
    }
}

/// The delegation granted at listing covers moving `size` units.
pub open spec fn can_move_asset(t: TokenAccount, delegate: Seq<u8>, size: u64) -> bool {
    &&& t.amount >= size
    &&& t.delegate is Some
    &&& t.delegate->Some_0@ == delegate
    &&& t.delegated_amount >= size
}

/// What retiring both records credits, as (fee account, seller): both
/// records' balances go to the one fee payer resolved for the call, which is
/// the fee account under sign-off and the seller's wallet otherwise.
pub open spec fn rent_refunds(a: ExecuteSale) -> (int, int) {
    if fee_payer_of(a.auction_house.requires_sign_off, a.authority.is_signer) == FeePayer::FeeAccount {
        (a.seller_trade_state.lamports + a.buyer_trade_state.lamports, 0)
    } else {
        (0, a.seller_trade_state.lamports + a.buyer_trade_state.lamports)
    }
}

/// The error a sale stops at, if any, in the order the checks run.
pub open spec fn sale_error(
    a: ExecuteSale,
    program: Seq<u8>,
    escrow_payment_bump: u8,
    program_as_signer_bump: u8,
    price: u64,
    size: u64,
) -> Option<ErrorCode> {
    let house = house_check(a.auction_house, a.auction_house_key@, a.authority.key@, a.auction_house_fee_account.key@, program);
    let ask = verify_outcome(a.seller_trade_state, side_key(a, a.seller.key, price, size), program);
    let bid = verify_outcome(a.buyer_trade_state, side_key(a, a.buyer.key, price, size), program);
    let esc = derivation_check(
        program_address(escrow_seeds(a.auction_house_key@, a.buyer.key@), program),
        a.escrow_payment_account.key_view(),
        escrow_payment_bump,
    );
    let pas = derivation_check(program_address(program_signer_seeds(), program), a.program_as_signer@, program_as_signer_bump);
    let native = a.treasury_mint@ == native_mint_bytes();
    let split = split_outcome(price, a.auction_house.seller_fee_basis_points);
    let refunds = rent_refunds(a);
    if house is Err {
        Some(house->Err_0)
    } else if a.treasury_mint@ != a.auction_house.treasury_mint@ || a.auction_house_treasury.key_view()
        != a.auction_house.auction_house_treasury@ || a.token_mint@ != a.token_account.mint@ {
        Some(ErrorCode::PublicKeyMismatch)
    } else if a.auction_house.requires_sign_off && !a.authority.is_signer {
        Some(ErrorCode::RequiresSignOff)
    } else if ask is Err {
        Some(ask->Err_0)
    } else if bid is Err {
        Some(bid->Err_0)
    } else if esc is Err {
        Some(esc->Err_0)
    } else if pas is Err {
        Some(pas->Err_0)
    } else if !kind_matches(native, a.escrow_payment_account) || !kind_matches(native, a.auction_house_treasury)
        || !receives_for(native, a.seller_payment_receipt_account, a.seller.key@, a.treasury_mint@) {
        Some(ErrorCode::PublicKeyMismatch)
    } else if native && !mirrors(a.seller, a.seller_payment_receipt_account) {
        Some(ErrorCode::AccountViewMismatch)
    } else if a.buyer_receipt_token_account.owner@ != a.buyer.key@ || a.buyer_receipt_token_account.mint@
        != a.token_account.mint@ {
        Some(ErrorCode::PublicKeyMismatch)
    } else if !can_move_asset(a.token_account, a.program_as_signer@, size) {
        Some(ErrorCode::InvalidTokenAmount)
    } else if a.escrow_payment_account.balance() < price {
        Some(ErrorCode::InsufficientFunds)
    } else if split is Err {
        Some(split->Err_0)
    } else if a.auction_house_treasury.balance() + split->Ok_0.0 > u64::MAX
        || a.buyer_receipt_token_account.amount + size > u64::MAX
        || a.seller_trade_state.lamports + a.buyer_trade_state.lamports > u64::MAX
        || a.auction_house_fee_account.lamports + refunds.0 > u64::MAX
        || (native && a.seller.lamports + split->Ok_0.1 + refunds.1 > u64::MAX)
        || (!native && (a.seller_payment_receipt_account.balance() + split->Ok_0.1 > u64::MAX
        || a.seller.lamports + refunds.1 > u64::MAX)) {
        Some(ErrorCode::NumericalOverflow)
    } else {
        None
    }
}

/// Adds `amount` to a balance, refusing to overflow.
fn checked_credit(balance: u64, amount: u64) -> (r: Result<u64, ErrorCode>)
    ensures
        balance + amount <= u64::MAX ==> r == Ok::<u64, ErrorCode>((balance + amount) as u64),
        balance + amount > u64::MAX ==> r == Err::<u64, ErrorCode>(ErrorCode::NumericalOverflow),
{
    if balance > u64::MAX - amount {
        Err(ErrorCode::NumericalOverflow)
    } else {
        Ok(balance + amount)
    }
}

/// Matches an ask with a bid at `price` for `size` units: authenticates both
/// records and every derived account, pays the seller the price less the
/// marketplace fee and the treasury the fee out of the buyer's escrow, moves
/// the asset to the buyer under the delegation granted at listing and revokes
/// it, and closes both records, refunding both balances to the one fee payer
/// resolved for the call (the fee account under sign-off, else the seller).
/// With the native currency the seller's receipt account is a second view of
/// the seller's cell and receives proceeds and refund together. Every check runs before anything moves: on any error nothing changes.
pub fn execute_sale(
    accounts: &mut ExecuteSale,
    program_id: &Address,
    escrow_payment_bump: u8,
    program_as_signer_bump: u8,
    buyer_price: u64,
    token_size: u64,
) -> (r: Result<(), ErrorCode>)
    ensures
        ({
            let e = sale_error(*old(accounts), program_id@, escrow_payment_bump, program_as_signer_bump, buyer_price, token_size);
            &&& e is Some ==> r == Err::<(), ErrorCode>(e->Some_0) && *final(accounts) == *old(accounts)
            &&& e is None ==> r is Ok
        }),
        r is Ok ==> ({
            let o = *old(accounts);
            let n = *final(accounts);
            let split = split_outcome(buyer_price, o.auction_house.seller_fee_basis_points)->Ok_0;
            let refunds = rent_refunds(o);
            &&& n.escrow_payment_account == o.escrow_payment_account.with_balance(
                (o.escrow_payment_account.balance() - buyer_price) as u64,
            )
            &&& (if o.treasury_mint@ == native_mint_bytes() {
                &&& n.seller.lamports == o.seller.lamports + split.1 + refunds.1
                &&& n.seller_payment_receipt_account == o.seller_payment_receipt_account.with_balance(
                    n.seller.lamports,
                )
            } else {
                &&& n.seller.lamports == o.seller.lamports + refunds.1
                &&& n.seller_payment_receipt_account == o.seller_payment_receipt_account.with_balance(
                    (o.seller_payment_receipt_account.balance() + split.1) as u64,
                )
            })
            &&& n.auction_house_treasury == o.auction_house_treasury.with_balance(
                (o.auction_house_treasury.balance() + split.0) as u64,
            )
            &&& n.token_account == TokenAccount {
                amount: (o.token_account.amount - token_size) as u64,
                delegate: None,
                delegated_amount: 0,
                ..o.token_account
            }
            &&& n.buyer_receipt_token_account == TokenAccount {
                amount: (o.buyer_receipt_token_account.amount + token_size) as u64,
                ..o.buyer_receipt_token_account
            }
            &&& is_closed_record(n.seller_trade_state) && n.seller_trade_state.key == o.seller_trade_state.key
            &&& is_closed_record(n.buyer_trade_state) && n.buyer_trade_state.key == o.buyer_trade_state.key
            &&& n.auction_house_fee_account.lamports == o.auction_house_fee_account.lamports + refunds.0
            &&& n.seller.key == o.seller.key && n.seller.is_signer == o.seller.is_signer
            &&& n.seller.data == o.seller.data && n.buyer == o.buyer
            &&& n.auction_house == o.auction_house && n.auction_house_key == o.auction_house_key
            &&& n.authority == o.authority && n.program_as_signer == o.program_as_signer
        }),
{
    match check_auction_house(
        &accounts.auction_house,
        &accounts.auction_house_key,
        &accounts.authority.key,
        &accounts.auction_house_fee_account.key,
        program_id,
    ) {
        Err(e) => {
            return Err(e);
        },
        Ok(_) => {},
    }
    let treasury_key = accounts.auction_house_treasury.key();
    if !accounts.treasury_mint.same(&accounts.auction_house.treasury_mint) || !treasury_key.same(
        &accounts.auction_house.auction_house_treasury,
    ) || !accounts.token_mint.same(&accounts.token_account.mint) {
        return Err(ErrorCode::PublicKeyMismatch);
    }
    if accounts.auction_house.requires_sign_off && !accounts.authority.is_signer {
        return Err(ErrorCode::RequiresSignOff);
    }
    let ask = TradeKey {
        wallet: accounts.seller.key,
        auction_house: accounts.auction_house_key,
        token_account: accounts.token_account.key,
        treasury_mint: accounts.auction_house.treasury_mint,
        token_mint: accounts.token_account.mint,
        price: buyer_price,
        size: token_size,
    };
    let bid = TradeKey { wallet: accounts.buyer.key, ..ask };
    match verify_trade_state(&accounts.seller_trade_state, &ask, program_id) {
        Err(e) => {
            return Err(e);
        },
        Ok(_) => {},
    }
    match verify_trade_state(&accounts.buyer_trade_state, &bid, program_id) {
        Err(e) => {
            return Err(e);
        },
        Ok(_) => {},
    }
    let escrow_key = accounts.escrow_payment_account.key();
    match check_derivation(
        derive_escrow(&accounts.auction_house_key, &accounts.buyer.key, program_id),
        &escrow_key,
        escrow_payment_bump,
    ) {
        Err(e) => {
            return Err(e);
        },
        Ok(_) => {},
    }
    match check_derivation(derive_program_signer(program_id), &accounts.program_as_signer, program_as_signer_bump) {
        Err(e) => {
            return Err(e);
        },
        Ok(_) => {},
    }
    let native = is_native_mint(&accounts.treasury_mint);
    if !funds_kind_matches(native, &accounts.escrow_payment_account) || !funds_kind_matches(
        native,
        &accounts.auction_house_treasury,
    ) || !funds_receive_for(
        native,
        &accounts.seller_payment_receipt_account,
        &accounts.seller.key,
        &accounts.treasury_mint,
    ) {
        return Err(ErrorCode::PublicKeyMismatch);
    }
    if native && !funds_mirror(&accounts.seller, &accounts.seller_payment_receipt_account) {
        return Err(ErrorCode::AccountViewMismatch);
    }
    if !accounts.buyer_receipt_token_account.owner.same(&accounts.buyer.key)
        || !accounts.buyer_receipt_token_account.mint.same(&accounts.token_account.mint) {
        return Err(ErrorCode::PublicKeyMismatch);
    }
    let delegated = match accounts.token_account.delegate {
        Some(d) => d.same(&accounts.program_as_signer),
        None => false,
    };
    if accounts.token_account.amount < token_size || !delegated || accounts.token_account.delegated_amount
        < token_size {
        return Err(ErrorCode::InvalidTokenAmount);
    }
    let escrow_balance = accounts.escrow_payment_account.get_balance();
    if escrow_balance < buyer_price {
        return Err(ErrorCode::InsufficientFunds);
    }
    let (fee, proceeds) = match split_price(buyer_price, accounts.auction_house.seller_fee_basis_points) {
        Err(e) => {
            return Err(e);
        },
        Ok(s) => s,
    };
    let fee_payer = get_fee_payer(&accounts.auction_house, accounts.authority.is_signer);
    let treasury_paid = match checked_credit(accounts.auction_house_treasury.get_balance(), fee) {
        Err(e) => {
            return Err(e);
        },
        Ok(b) => b,
    };
    let buyer_assets = match checked_credit(accounts.buyer_receipt_token_account.amount, token_size) {
        Err(e) => {
            return Err(e);
        },
        Ok(b) => b,
    };
    let refund = match checked_credit(accounts.seller_trade_state.lamports, accounts.buyer_trade_state.lamports) {
        Err(e) => {
            return Err(e);
        },
        Ok(b) => b,
    };
    let (fee_account_after, seller_refund) = match fee_payer {
        FeePayer::FeeAccount => match checked_credit(accounts.auction_house_fee_account.lamports, refund) {
            Err(e) => {
                return Err(e);
            },
            Ok(b) => (b, 0u64),
        },
        FeePayer::Wallet => (accounts.auction_house_fee_account.lamports, refund),
    };
    let (seller_after, receipt_after) = if native {
        let paid = match checked_credit(accounts.seller.lamports, proceeds) {
            Err(e) => {
                return Err(e);
            },
            Ok(b) => b,
        };
        match checked_credit(paid, seller_refund) {
            Err(e) => {
                return Err(e);
            },
            Ok(b) => (b, b),
        }
    } else {
        let refunded = match checked_credit(accounts.seller.lamports, seller_refund) {
            Err(e) => {
                return Err(e);
            },
            Ok(b) => b,
        };
        match checked_credit(accounts.seller_payment_receipt_account.get_balance(), proceeds) {
            Err(e) => {
                return Err(e);
            },
            Ok(b) => (refunded, b),
        }
    };
    accounts.escrow_payment_account.set_balance(escrow_balance - buyer_price);
    accounts.seller_payment_receipt_account.set_balance(receipt_after);
    accounts.auction_house_treasury.set_balance(treasury_paid);
    accounts.token_account.amount = accounts.token_account.amount - token_size;
    accounts.token_account.delegate = None;
    accounts.token_account.delegated_amount = 0;
    accounts.buyer_receipt_token_account.amount = buyer_assets;
    accounts.seller_trade_state.lamports = 0;
    accounts.seller_trade_state.data = Vec::new();
    accounts.buyer_trade_state.lamports = 0;
    accounts.buyer_trade_state.data = Vec::new();
    accounts.auction_house_fee_account.lamports = fee_account_after;
    accounts.seller.lamports = seller_after;
    Ok(())
}

} // verus!
