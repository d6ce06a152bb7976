use vstd::prelude::*;

use crate::address::Address;
use crate::derivation::{auction_house_seeds, derive_auction_house, derive_escrow, escrow_seeds, is_native_mint, native_mint_bytes, program_address};
use crate::errors::ErrorCode;
use crate::house::{check_auction_house, house_check};
use crate::sell::{ata_error, check_associated_token_account};
use crate::state::{funds_mirror, mirrors, resolve_signer, signer_of, AccountCell, AuctionHouse, Funds};
use crate::trade_state::{check_derivation, derivation_check};

verus! {

pub open spec fn shortfall_outcome(balance: u64, amount: u64, rent_minimum: u64) -> Result<u64, ErrorCode> {
    if balance < amount {
        Err(ErrorCode::InsufficientFunds)
    } else if balance - amount < rent_minimum {
        Ok((rent_minimum - (balance - amount)) as u64)
    } else {
        Ok(0)
    }
}

/// How far withdrawing `amount` would take a native balance below the minimum
/// it must retain; withdrawing more than the balance is refused.
pub fn verify_withdrawal(balance: u64, amount: u64, rent_minimum: u64) -> (r: Result<u64, ErrorCode>)
    ensures
        r == shortfall_outcome(balance, amount, rent_minimum),
{
    if balance < amount {
        return Err(ErrorCode::InsufficientFunds);
    }
    let remaining = balance - amount;
    if remaining < rent_minimum {
        Ok(rent_minimum - remaining)
    } else {
        Ok(0)
    }
}

/// What a native withdrawal of `amount` actually moves: the amount less the
/// rent shortfall, refused when the shortfall exceeds the amount.
pub open spec fn native_withdrawal(balance: u64, amount: u64, rent_minimum: u64) -> Result<u64, ErrorCode> {
    match shortfall_outcome(balance, amount, rent_minimum) {
        Err(e) => Err(e),
        Ok(s) => if s > amount {
            Err(ErrorCode::InsufficientFunds)
        } else {
            Ok((amount - s) as u64)
        },
    }
}

/// A native withdrawal never leaves the escrow below its minimum retained
/// balance and never moves more than was asked; asking for more than the
/// balance, or withdrawing from an escrow already below the minimum, fails
/// with `InsufficientFunds`.
pub proof fn lemma_withdrawal_keeps_minimum(balance: u64, amount: u64, rent_minimum: u64)
    ensures
        native_withdrawal(balance, amount, rent_minimum) is Ok ==> ({
            let w = native_withdrawal(balance, amount, rent_minimum)->Ok_0;
            w <= amount && balance - w >= rent_minimum
        }),
        amount > balance ==> native_withdrawal(balance, amount, rent_minimum) == Err::<u64, ErrorCode>(
            ErrorCode::InsufficientFunds,
        ),
        balance < rent_minimum ==> native_withdrawal(balance, amount, rent_minimum) == Err::<u64, ErrorCode>(
            ErrorCode::InsufficientFunds,
        ),
{
}

/// The funds holder matches the currency kind.
pub open spec fn kind_matches(native: bool, f: Funds) -> bool {
    if native {
        f is Native
    } else {
        f is Token
    }
}

pub fn funds_kind_matches(native: bool, f: &Funds) -> (r: bool)
    ensures
        r == kind_matches(native, *f),
{
    match f {
        Funds::Native(_) => native,
        Funds::Token(_) => !native,
    }
}

/// The accounts a withdrawal reads and writes. With the native currency the
/// receipt account is a second view of the wallet's own cell, and both views
/// are updated together.
#[derive(Clone, Debug)]
pub struct Withdraw {
    pub wallet: AccountCell,
    pub receipt_account: Funds,
    pub escrow_payment_account: Funds,
    pub treasury_mint: Address,
    pub authority: AccountCell,
    pub auction_house: AuctionHouse,
    pub auction_house_key: Address,
    pub auction_house_fee_account: AccountCell,
    /// Minimum balance the escrow cell must retain.
    pub rent_minimum: u64,
}

/// The checks of a withdrawal that follow authentication of the escrow account.
pub open spec fn withdraw_logic_outcome(a: Withdraw, program: Seq<u8>, amount: u64) -> Result<u64, ErrorCode> {
    let house = house_check(a.auction_house, a.auction_house_key@, a.authority.key@, a.auction_house_fee_account.key@, program);
    let native = a.treasury_mint@ == native_mint_bytes();
    if house is Err {
        Err(house->Err_0)
    } else if a.treasury_mint@ != a.auction_house.treasury_mint@ {
        Err(ErrorCode::PublicKeyMismatch)
    } else if signer_of(a.wallet.is_signer, a.authority.is_signer) is Err {
        Err(ErrorCode::NoValidSignerPresent)
    } else if !kind_matches(native, a.receipt_account) || !kind_matches(native, a.escrow_payment_account) {
        Err(ErrorCode::PublicKeyMismatch)
    } else if !native {
        let rec = a.receipt_account->Token_0;
        if ata_error(rec, a.wallet.key@) is Some {
            Err(ata_error(rec, a.wallet.key@)->Some_0)
        } else if rec.mint@ != a.treasury_mint@ {
            Err(ErrorCode::PublicKeyMismatch)
        } else if rec.delegate is Some {
            Err(ErrorCode::BuyerATACannotHaveDelegate)
        } else if a.escrow_payment_account.balance() < amount {
            Err(ErrorCode::InsufficientFunds)
        } else if rec.amount + amount > u64::MAX {
            Err(ErrorCode::NumericalOverflow)
        } else {
            Ok(amount)
        }
    } else if a.receipt_account.key_view() != a.wallet.key@ {
        Err(ErrorCode::PublicKeyMismatch)
    } else if !mirrors(a.wallet, a.receipt_account) {
        Err(ErrorCode::AccountViewMismatch)
    } else {
        match native_withdrawal(a.escrow_payment_account.balance(), amount, a.rent_minimum) {
            Err(e) => Err(e),
            Ok(w) => if a.receipt_account.balance() + w > u64::MAX {
                Err(ErrorCode::NumericalOverflow)
            } else {
                Ok(w)
            },
        }
    }
}

/// The amount a withdrawal moves out of escrow, or the error it stops at, in
/// the order the checks run.
pub open spec fn withdraw_outcome(a: Withdraw, program: Seq<u8>, escrow_payment_bump: u8, amount: u64) -> Result<u64, ErrorCode> {
    let esc = derivation_check(
        program_address(escrow_seeds(a.auction_house_key@, a.wallet.key@), program),
        a.escrow_payment_account.key_view(),
        escrow_payment_bump,
    );
    if esc is Err {
        Err(esc->Err_0)
    } else {
        withdraw_logic_outcome(a, program, amount)
    }
}

/// Withdraws `amount` from a buyer's escrow to the buyer's receipt account,
/// authorised by exactly one of the buyer and the authority. With the native
/// currency the amount is reduced by the rent shortfall so that the escrow
/// keeps its minimum balance. On any error nothing changes.
pub fn withdraw(accounts: &mut Withdraw, program_id: &Address, escrow_payment_bump: u8, amount: u64) -> (r: Result<(), ErrorCode>)
    ensures
        withdraw_outcome(*old(accounts), program_id@, escrow_payment_bump, amount) is Err ==> r
            == Err::<(), ErrorCode>(withdraw_outcome(*old(accounts), program_id@, escrow_payment_bump, amount)->Err_0)
            && *final(accounts) == *old(accounts),
        withdraw_outcome(*old(accounts), program_id@, escrow_payment_bump, amount) is Ok ==> r is Ok,
        r is Ok ==> ({
            let o = *old(accounts);
            let n = *final(accounts);
            let w = withdraw_outcome(o, program_id@, escrow_payment_bump, amount)->Ok_0;
            &&& n.escrow_payment_account == o.escrow_payment_account.with_balance(
                (o.escrow_payment_account.balance() - w) as u64,
            )
            &&& n.receipt_account == o.receipt_account.with_balance((o.receipt_account.balance() + w) as u64)
            &&& n.wallet == (if o.treasury_mint@ == native_mint_bytes() {
                AccountCell { lamports: (o.receipt_account.balance() + w) as u64, ..o.wallet }
            } else {
                o.wallet
            })
            &&& n.authority == o.authority && n.treasury_mint == o.treasury_mint
            &&& n.auction_house == o.auction_house && n.auction_house_key == o.auction_house_key
            &&& n.auction_house_fee_account == o.auction_house_fee_account && n.rent_minimum == o.rent_minimum
        }),
{
    let escrow_key = accounts.escrow_payment_account.key();
    match check_derivation(
        derive_escrow(&accounts.auction_house_key, &accounts.wallet.key, program_id),
        &escrow_key,
        escrow_payment_bump,
    ) {
        Err(e) => {
            return Err(e);
        },
        Ok(_) => {},
    }
    match withdraw_logic(accounts, program_id, amount) {
        Err(e) => Err(e),
        Ok(_) => Ok(()),
    }
}

/// The part of a withdrawal that follows authentication of the escrow account.
fn withdraw_logic(accounts: &mut Withdraw, program_id: &Address, amount: u64) -> (r: Result<u64, ErrorCode>)
    ensures
        ({
            let o = *old(accounts);
            let expected = withdraw_logic_outcome(o, program_id@, amount);
            &&& r == expected
            &&& r is Err ==> *final(accounts) == o
            &&& r is Ok ==> ({
                let n = *final(accounts);
                let w = r->Ok_0;
                &&& n.escrow_payment_account == o.escrow_payment_account.with_balance(
                    (o.escrow_payment_account.balance() - w) as u64,
                )
                &&& n.receipt_account == o.receipt_account.with_balance((o.receipt_account.balance() + w) as u64)
                &&& n.wallet == (if o.treasury_mint@ == native_mint_bytes() {
                    AccountCell { lamports: (o.receipt_account.balance() + w) as u64, ..o.wallet }
                } else {
                    o.wallet
                })
                &&& n.authority == o.authority && n.treasury_mint == o.treasury_mint
                &&& n.auction_house == o.auction_house && n.auction_house_key == o.auction_house_key
                &&& n.auction_house_fee_account == o.auction_house_fee_account && n.rent_minimum == o.rent_minimum
            })
        }),
{
    match check_auction_house(
        &accounts.auction_house,
        &accounts.auction_house_key,
        &accounts.authority.key,
        &accounts.auction_house_fee_account.key,
        program_id,
    ) {
        Err(e) => {
            return Err(e);
        },
        Ok(_) => {},
    }
    if !accounts.treasury_mint.same(&accounts.auction_house.treasury_mint) {
        return Err(ErrorCode::PublicKeyMismatch);
    }
    match resolve_signer(accounts.wallet.is_signer, accounts.authority.is_signer) {
        Err(e) => {
            return Err(e);
        },
        Ok(_) => {},
    }
    let native = is_native_mint(&accounts.treasury_mint);
    if !funds_kind_matches(native, &accounts.receipt_account) || !funds_kind_matches(
        native,
        &accounts.escrow_payment_account,
    ) {
        return Err(ErrorCode::PublicKeyMismatch);
    }
    let moved: u64 = if !native {
        let rec = match &accounts.receipt_account {
            Funds::Token(t) => *t,
            Funds::Native(_) => {
                return Err(ErrorCode::PublicKeyMismatch);
            },
        };
        match check_associated_token_account(&rec, &accounts.wallet.key) {
            Err(e) => {
                return Err(e);
            },
            Ok(_) => {},
        }
        if !rec.mint.same(&accounts.treasury_mint) {
            return Err(ErrorCode::PublicKeyMismatch);
        }
        if rec.delegate.is_some() {
            return Err(ErrorCode::BuyerATACannotHaveDelegate);
        }
        if accounts.escrow_payment_account.get_balance() < amount {
            return Err(ErrorCode::InsufficientFunds);
        }
        if rec.amount > u64::MAX - amount {
            return Err(ErrorCode::NumericalOverflow);
        }
        amount
    } else {
        let receipt_key = accounts.receipt_account.key();
        if !receipt_key.same(&accounts.wallet.key) {
            return Err(ErrorCode::PublicKeyMismatch);
        }
        if !funds_mirror(&accounts.wallet, &accounts.receipt_account) {
            return Err(ErrorCode::AccountViewMismatch);
        }
        let shortfall = match verify_withdrawal(
            accounts.escrow_payment_account.get_balance(),
            amount,
            accounts.rent_minimum,
        ) {
            Err(e) => {
                return Err(e);
            },
            Ok(s) => s,
        };
        if shortfall > amount {
            return Err(ErrorCode::InsufficientFunds);
        }
        let checked_amount = amount - shortfall;
        if accounts.receipt_account.get_balance() > u64::MAX - checked_amount {
            return Err(ErrorCode::NumericalOverflow);
        }
        checked_amount
    };
    let escrow_balance = accounts.escrow_payment_account.get_balance();
    let receipt_balance = accounts.receipt_account.get_balance();
    accounts.escrow_payment_account.set_balance(escrow_balance - moved);
    accounts.receipt_account.set_balance(receipt_balance + moved);
    if native {
        accounts.wallet.lamports = receipt_balance + moved;
    }
    Ok(moved)
}

/// A successful native withdrawal leaves the escrow holding at least its
/// minimum retained balance.
pub proof fn lemma_withdraw_keeps_escrow_minimum(a: Withdraw, program: Seq<u8>, escrow_payment_bump: u8, amount: u64)
    requires
        a.treasury_mint@ == native_mint_bytes(),
    ensures
        withdraw_outcome(a, program, escrow_payment_bump, amount) is Ok ==> a.escrow_payment_account.balance()
            - withdraw_outcome(a, program, escrow_payment_bump, amount)->Ok_0 >= a.rent_minimum,
{
    lemma_withdrawal_keeps_minimum(a.escrow_payment_account.balance(), amount, a.rent_minimum);
}

/// The accounts a deposit reads and writes. With the native currency the
/// payment account is a second view of the wallet's own cell, and both views
/// are updated together.
#[derive(Clone, Debug)]
pub struct Deposit {
    pub wallet: AccountCell,
    pub payment_account: Funds,
    pub escrow_payment_account: Funds,
    pub treasury_mint: Address,
    pub authority: AccountCell,
    pub auction_house: AuctionHouse,
    pub auction_house_key: Address,
    pub auction_house_fee_account: AccountCell,
    /// Minimum balance the paying cell must retain.
    pub rent_minimum: u64,
}

/// The error a deposit stops at, if any, in the order the checks run.
pub open spec fn deposit_error(a: Deposit, program: Seq<u8>, escrow_payment_bump: u8, amount: u64) -> Option<ErrorCode> {
    let esc = derivation_check(
        program_address(escrow_seeds(a.auction_house_key@, a.wallet.key@), program),
        a.escrow_payment_account.key_view(),
        escrow_payment_bump,
    );
    let house = house_check(a.auction_house, a.auction_house_key@, a.authority.key@, a.auction_house_fee_account.key@, program);
    let native = a.treasury_mint@ == native_mint_bytes();
    if esc is Err {
        Some(esc->Err_0)
    } else if house is Err {
        Some(house->Err_0)
    } else if a.treasury_mint@ != a.auction_house.treasury_mint@ {
        Some(ErrorCode::PublicKeyMismatch)
    } else if !a.wallet.is_signer {
        Some(ErrorCode::NoValidSignerPresent)
    } else if !kind_matches(native, a.payment_account) || !kind_matches(native, a.escrow_payment_account) {
        Some(ErrorCode::PublicKeyMismatch)
    } else if native && a.payment_account.key_view() != a.wallet.key@ {
        Some(ErrorCode::PublicKeyMismatch)
    } else if native && !mirrors(a.wallet, a.payment_account) {
        Some(ErrorCode::AccountViewMismatch)
    } else if native && a.payment_account.balance() < amount + a.rent_minimum {
        Some(ErrorCode::InsufficientFunds)
    } else if !native && (a.payment_account->Token_0.owner@ != a.wallet.key@
        || a.payment_account->Token_0.mint@ != a.treasury_mint@) {
        Some(ErrorCode::PublicKeyMismatch)
    } else if !native && a.payment_account.balance() < amount {
        Some(ErrorCode::InsufficientFunds)
    } else if a.escrow_payment_account.balance() + amount > u64::MAX {
        Some(ErrorCode::NumericalOverflow)
    } else {
        None
    }
}

/// Moves `amount` from the buyer's funding source into the buyer's escrow.
/// With the native currency the source must keep its minimum balance. On any
/// error nothing changes.
pub fn deposit(accounts: &mut Deposit, program_id: &Address, escrow_payment_bump: u8, amount: u64) -> (r: Result<(), ErrorCode>)
    ensures
        ({
            let e = deposit_error(*old(accounts), program_id@, escrow_payment_bump, amount);
            &&& e is Some ==> r == Err::<(), ErrorCode>(e->Some_0) && *final(accounts) == *old(accounts)
            &&& e is None ==> r is Ok
        }),
        r is Ok ==> ({
            let o = *old(accounts);
            let n = *final(accounts);
            &&& n.payment_account == o.payment_account.with_balance((o.payment_account.balance() - amount) as u64)
            &&& n.escrow_payment_account == o.escrow_payment_account.with_balance(
                (o.escrow_payment_account.balance() + amount) as u64,
            )
            &&& n.wallet == (if o.treasury_mint@ == native_mint_bytes() {
                AccountCell { lamports: (o.payment_account.balance() - amount) as u64, ..o.wallet }
            } else {
                o.wallet
            })
            &&& n.authority == o.authority && n.treasury_mint == o.treasury_mint
            &&& n.auction_house == o.auction_house && n.auction_house_key == o.auction_house_key
            &&& n.auction_house_fee_account == o.auction_house_fee_account && n.rent_minimum == o.rent_minimum
        }),
{
    let escrow_key = accounts.escrow_payment_account.key();
    match check_derivation(
        derive_escrow(&accounts.auction_house_key, &accounts.wallet.key, program_id),
        &escrow_key,
        escrow_payment_bump,
    ) {
        Err(e) => {
            return Err(e);
        },
        Ok(_) => {},
    }
    match check_auction_house(
        &accounts.auction_house,
        &accounts.auction_house_key,
        &accounts.authority.key,
        &accounts.auction_house_fee_account.key,
        program_id,
    ) {
        Err(e) => {
            return Err(e);
        },
        Ok(_) => {},
    }
    if !accounts.treasury_mint.same(&accounts.auction_house.treasury_mint) {
        return Err(ErrorCode::PublicKeyMismatch);
    }
    if !accounts.wallet.is_signer {
        return Err(ErrorCode::NoValidSignerPresent);
    }
    let native = is_native_mint(&accounts.treasury_mint);
    if !funds_kind_matches(native, &accounts.payment_account) || !funds_kind_matches(
        native,
        &accounts.escrow_payment_account,
    ) {
        return Err(ErrorCode::PublicKeyMismatch);
    }
    let source = accounts.payment_account.get_balance();
    if native {
        let payment_key = accounts.payment_account.key();
        if !payment_key.same(&accounts.wallet.key) {
            return Err(ErrorCode::PublicKeyMismatch);
        }
        if !funds_mirror(&accounts.wallet, &accounts.payment_account) {
            return Err(ErrorCode::AccountViewMismatch);
        }
        if source < amount || source - amount < accounts.rent_minimum {
            return Err(ErrorCode::InsufficientFunds);
        }
    } else {
        match &accounts.payment_account {
            Funds::Token(t) => {
                if !t.owner.same(&accounts.wallet.key) || !t.mint.same(&accounts.treasury_mint) {
                    return Err(ErrorCode::PublicKeyMismatch);
                }
            },
            Funds::Native(_) => {
                return Err(ErrorCode::PublicKeyMismatch);
            },
        }
        if source < amount {
            return Err(ErrorCode::InsufficientFunds);
        }
    }
    let escrow_balance = accounts.escrow_payment_account.get_balance();
    if escrow_balance > u64::MAX - amount {
        return Err(ErrorCode::NumericalOverflow);
    }
    accounts.payment_account.set_balance(source - amount);
    accounts.escrow_payment_account.set_balance(escrow_balance + amount);
    if native {
        accounts.wallet.lamports = source - amount;
    }
    Ok(())
}

/// The accounts closing an escrow reads and writes.
#[derive(Clone, Debug)]
pub struct CloseEscrowAccount {
    pub wallet: AccountCell,
    pub escrow_payment_account: AccountCell,
    pub auction_house: AuctionHouse,
    pub auction_house_key: Address,
}

/// The error closing an escrow stops at, if any, in the order the checks run.
pub open spec fn close_escrow_error(a: CloseEscrowAccount, program: Seq<u8>, escrow_payment_bump: u8) -> Option<ErrorCode> {
    let esc = derivation_check(
        program_address(escrow_seeds(a.auction_house_key@, a.wallet.key@), program),
        a.escrow_payment_account.key@,
        escrow_payment_bump,
    );
    let house = derivation_check(
        program_address(auction_house_seeds(a.auction_house.creator@, a.auction_house.treasury_mint@), program),
        a.auction_house_key@,
        a.auction_house.bump,
    );
    if !a.wallet.is_signer {
        Some(ErrorCode::NoValidSignerPresent)
    } else if esc is Err {
        Some(esc->Err_0)
    } else if house is Err {
        Some(house->Err_0)
    } else if a.wallet.lamports + a.escrow_payment_account.lamports > u64::MAX {
        Some(ErrorCode::NumericalOverflow)
    } else {
        None
    }
}

/// Sweeps a buyer's whole escrow balance back to the buyer, who must sign,
/// and removes the escrow cell. On any error nothing changes.
pub fn close_escrow_account(accounts: &mut CloseEscrowAccount, program_id: &Address, escrow_payment_bump: u8) -> (r: Result<(), ErrorCode>)
    ensures
        ({
            let e = close_escrow_error(*old(accounts), program_id@, escrow_payment_bump);
            &&& e is Some ==> r == Err::<(), ErrorCode>(e->Some_0) && *final(accounts) == *old(accounts)
            &&& e is None ==> r is Ok
        }),
        r is Ok ==> ({
            let o = *old(accounts);
            let n = *final(accounts);
            &&& n.wallet.lamports == o.wallet.lamports + o.escrow_payment_account.lamports
            &&& n.wallet.key == o.wallet.key && n.wallet.is_signer == o.wallet.is_signer
            &&& n.wallet.data == o.wallet.data
            &&& n.escrow_payment_account.lamports == 0 && n.escrow_payment_account.data@.len() == 0
            &&& n.escrow_payment_account.key == o.escrow_payment_account.key
            &&& n.auction_house == o.auction_house && n.auction_house_key == o.auction_house_key
        }),
{
    if !accounts.wallet.is_signer {
        return Err(ErrorCode::NoValidSignerPresent);
    }
    match check_derivation(
        derive_escrow(&accounts.auction_house_key, &accounts.wallet.key, program_id),
        &accounts.escrow_payment_account.key,
        escrow_payment_bump,
    ) {
        Err(e) => {
            return Err(e);
        },
        Ok(_) => {},
    }
    match check_derivation(
        derive_auction_house(&accounts.auction_house.creator, &accounts.auction_house.treasury_mint, program_id),
        &accounts.auction_house_key,
        accounts.auction_house.bump,
    ) {
        Err(e) => {
            return Err(e);
        },
        Ok(_) => {},
    }
    let balance = accounts.escrow_payment_account.lamports;
    if accounts.wallet.lamports > u64::MAX - balance {
        return Err(ErrorCode::NumericalOverflow);
    }
    accounts.wallet.lamports = accounts.wallet.lamports + balance;
    accounts.escrow_payment_account.lamports = 0;
    accounts.escrow_payment_account.data = Vec::new();
    Ok(())
}

} // verus!
