use vstd::prelude::*;

use crate::address::Address;
use crate::derivation::{
    associated_token_program_bytes, associated_token_seeds, derive_associated_token_account,
    derive_program_signer, derive_trade_state, program_address, program_signer_seeds, trade_state_seeds, TradeKey,
};
use crate::errors::ErrorCode;
use crate::house::{check_auction_house, house_check};
use crate::state::{fee_payer_of, get_fee_payer, AccountCell, AuctionHouse, FeePayer, TokenAccount};
use crate::trade_state::{allocation_cost, check_derivation, derivation_check, is_open_record, open_trade_state};

verus! {

/// The accounts a listing reads and writes.
#[derive(Clone, Debug)]
pub struct Sell {
    pub wallet: AccountCell,
    pub token_account: TokenAccount,
    pub authority: AccountCell,
    pub auction_house: AuctionHouse,
    pub auction_house_key: Address,
    pub auction_house_fee_account: AccountCell,
    pub seller_trade_state: AccountCell,
    pub free_seller_trade_state: AccountCell,
    pub program_as_signer: Address,
    /// Minimum balance a one-byte record must hold.
    pub rent_minimum: u64,
}

/// The tuple of the ask that `a` lists at `price`.
pub open spec fn ask_key(a: Sell, price: u64, size: u64) -> TradeKey {
    TradeKey {
        wallet: a.wallet.key,
        auction_house: a.auction_house_key,
        token_account: a.token_account.key,
        treasury_mint: a.auction_house.treasury_mint,
        token_mint: a.token_account.mint,
        price,
        size,
    }
}

/// The signer rule of a listing: a non-zero price needs the wallet's
/// signature; without it a listing needs a zero price, an empty free companion
/// record, the authority's signature and a marketplace that lets prices
/// change; never both signers.
pub open spec fn sell_signer_error(wallet_signs: bool, authority_signs: bool, price: u64, free_empty: bool, can_change_sale_price: bool) -> Option<ErrorCode> {
    if !wallet_signs && (price != 0 || !free_empty || !authority_signs || !can_change_sale_price) {
        Some(ErrorCode::SaleRequiresSigner)
    } else if wallet_signs && authority_signs {
        Some(ErrorCode::SaleRequiresExactlyOneSigner)
    } else {
        None
    }
}

pub open spec fn payer_balance(a: Sell) -> u64 {
    if fee_payer_of(a.auction_house.requires_sign_off, a.authority.is_signer) == FeePayer::FeeAccount {
        a.auction_house_fee_account.lamports
    } else {
        a.wallet.lamports
    }
}

/// Whether a token account is the owner's canonical receiving account for its mint.
pub open spec fn ata_error(t: TokenAccount, owner: Seq<u8>) -> Option<ErrorCode> {
    let d = program_address(associated_token_seeds(owner, t.mint@), associated_token_program_bytes());
    if t.owner@ != owner {
        Some(ErrorCode::PublicKeyMismatch)
    } else if d is None {
        Some(ErrorCode::DerivedKeyInvalid)
    } else if d->Some_0.0 != t.key@ {
        Some(ErrorCode::PublicKeyMismatch)
    } else {
        None
    }
}

/// Checks that a token account belongs to `owner` and sits at the owner's
/// canonical receiving address for its mint.
pub fn check_associated_token_account(t: &TokenAccount, owner: &Address) -> (r: Result<(), ErrorCode>)
    ensures
        ata_error(*t, owner@) is None ==> r is Ok,
        ata_error(*t, owner@) is Some ==> r == Err::<(), ErrorCode>(ata_error(*t, owner@)->Some_0),
{
    if !t.owner.same(owner) {
        return Err(ErrorCode::PublicKeyMismatch);
    }
    match derive_associated_token_account(owner, &t.mint) {
        None => Err(ErrorCode::DerivedKeyInvalid),
        Some((k, _)) => if !k.same(&t.key) {
            Err(ErrorCode::PublicKeyMismatch)
        } else {
            Ok(())
        },
    }
}

/// The error a listing stops at, if any, in the order the checks run.
pub open spec fn sell_accounts_error(
    a: Sell,
    program: Seq<u8>,
    trade_state_bump: u8,
    free_trade_state_bump: u8,
    program_as_signer_bump: u8,
    price: u64,
    size: u64,
) -> Option<ErrorCode> {
    let house = house_check(a.auction_house, a.auction_house_key@, a.authority.key@, a.auction_house_fee_account.key@, program);
    let ts = derivation_check(program_address(trade_state_seeds(ask_key(a, price, size)), program), a.seller_trade_state.key@, trade_state_bump);
    let free = derivation_check(program_address(trade_state_seeds(ask_key(a, 0, size)), program), a.free_seller_trade_state.key@, free_trade_state_bump);
    let pas = derivation_check(program_address(program_signer_seeds(), program), a.program_as_signer@, program_as_signer_bump);
    if house is Err {
        Some(house->Err_0)
    } else if ts is Err {
        Some(ts->Err_0)
    } else if free is Err {
        Some(free->Err_0)
    } else if pas is Err {
        Some(pas->Err_0)
    } else {
        None
    }
}

/// The error a listing stops at once its accounts are authentic, if any.
pub open spec fn sell_logic_error(a: Sell, price: u64, size: u64) -> Option<ErrorCode> {
    let signer = sell_signer_error(
        a.wallet.is_signer,
        a.authority.is_signer,
        price,
        a.free_seller_trade_state.is_empty(),
        a.auction_house.can_change_sale_price,
    );
    if signer is Some {
        signer
    } else if ata_error(a.token_account, a.wallet.key@) is Some {
        ata_error(a.token_account, a.wallet.key@)
    } else if size > a.token_account.amount {
        Some(ErrorCode::InvalidTokenAmount)
    } else if payer_balance(a) < allocation_cost(a.seller_trade_state, a.rent_minimum) {
        Some(ErrorCode::InsufficientFunds)
    } else {
        None
    }
}

/// The error a listing stops at, if any, in the order the checks run: first
/// the instance and the three derivation salts, then the signer rule, the
/// asset account and the payer's funds.
pub open spec fn sell_error(
    a: Sell,
    program: Seq<u8>,
    trade_state_bump: u8,
    free_trade_state_bump: u8,
    program_as_signer_bump: u8,
    price: u64,
    size: u64,
) -> Option<ErrorCode> {
    let accounts = sell_accounts_error(a, program, trade_state_bump, free_trade_state_bump, program_as_signer_bump, price, size);
    if accounts is Some {
        accounts
    } else {
        sell_logic_error(a, price, size)
    }
}

/// Lists `size` units of the wallet's asset at `price`: authenticates every
/// derived account, authorises the call by the signer rule, checks the asset
/// account, delegates `size` units to the program's signing address when the
/// wallet signs, and opens the ask's trade state record, paid for by the
/// resolved fee payer. On any error nothing changes.
pub fn sell(
    accounts: &mut Sell,
    program_id: &Address,
    trade_state_bump: u8,
    free_trade_state_bump: u8,
    program_as_signer_bump: u8,
    buyer_price: u64,
    token_size: u64,
) -> (r: Result<(), ErrorCode>)
    ensures
        ({
            let e = sell_error(*old(accounts), program_id@, trade_state_bump, free_trade_state_bump, program_as_signer_bump, buyer_price, token_size);
            &&& e is Some ==> r == Err::<(), ErrorCode>(e->Some_0) && *final(accounts) == *old(accounts)
            &&& e is None ==> r is Ok
        }),
        r is Ok ==> ({
            let o = *old(accounts);
            let n = *final(accounts);
            let cost = allocation_cost(o.seller_trade_state, o.rent_minimum);
            &&& is_open_record(n.seller_trade_state, ask_key(o, buyer_price, token_size), program_id@)
            &&& n.seller_trade_state.key == o.seller_trade_state.key
            &&& n.seller_trade_state.lamports == o.seller_trade_state.lamports + cost
            &&& n.seller_trade_state.data@ == (if o.seller_trade_state.data@.len() == 0 {
                seq![trade_state_bump]
            } else {
                o.seller_trade_state.data@.update(0, trade_state_bump)
            })
            &&& (if fee_payer_of(o.auction_house.requires_sign_off, o.authority.is_signer) == FeePayer::FeeAccount {
                n.auction_house_fee_account.lamports == o.auction_house_fee_account.lamports - cost
                    && n.wallet == o.wallet
            } else {
                n.wallet.lamports == o.wallet.lamports - cost && n.auction_house_fee_account
                    == o.auction_house_fee_account
            })
            &&& n.token_account == (if o.wallet.is_signer {
                TokenAccount { delegate: Some(o.program_as_signer), delegated_amount: token_size, ..o.token_account }
            } else {
                o.token_account
            })
            &&& n.authority == o.authority && n.free_seller_trade_state == o.free_seller_trade_state
            &&& n.auction_house == o.auction_house && n.auction_house_key == o.auction_house_key
            &&& n.program_as_signer == o.program_as_signer && n.rent_minimum == o.rent_minimum
        }),
{
    match check_auction_house(
        &accounts.auction_house,
        &accounts.auction_house_key,
        &accounts.authority.key,
        &accounts.auction_house_fee_account.key,
        program_id,
    ) {
        Err(e) => {
            return Err(e);
        },
        Ok(_) => {},
    }
    let key = TradeKey {
        wallet: accounts.wallet.key,
        auction_house: accounts.auction_house_key,
        token_account: accounts.token_account.key,
        treasury_mint: accounts.auction_house.treasury_mint,
        token_mint: accounts.token_account.mint,
        price: buyer_price,
        size: token_size,
    };
    let free_key = TradeKey { price: 0, ..key };
    match check_derivation(derive_trade_state(&key, program_id), &accounts.seller_trade_state.key, trade_state_bump) {
        Err(e) => {
            return Err(e);
        },
        Ok(_) => {},
    }
    match check_derivation(
        derive_trade_state(&free_key, program_id),
        &accounts.free_seller_trade_state.key,
        free_trade_state_bump,
    ) {
        Err(e) => {
            return Err(e);
        },
        Ok(_) => {},
    }
    match check_derivation(derive_program_signer(program_id), &accounts.program_as_signer, program_as_signer_bump) {
        Err(e) => {
            return Err(e);
        },
        Ok(_) => {},
    }
    sell_logic(accounts, program_id, &key, buyer_price, trade_state_bump, token_size)
}

/// The part of a listing that follows authentication of its accounts.
fn sell_logic(
    accounts: &mut Sell,
    program_id: &Address,
    key: &TradeKey,
    buyer_price: u64,
    trade_state_bump: u8,
    token_size: u64,
) -> (r: Result<(), ErrorCode>)
    requires
        derivation_check(program_address(trade_state_seeds(*key), program_id@), old(accounts).seller_trade_state.key@, trade_state_bump) is Ok,
        key.size == token_size,
        key.price == buyer_price,
        key.wallet@ == old(accounts).wallet.key@,
    ensures
        ({
            let o = *old(accounts);
            let e = sell_logic_error(o, buyer_price, token_size);
            &&& e is Some ==> r == Err::<(), ErrorCode>(e->Some_0) && *final(accounts) == o
            &&& e is None ==> r is Ok
        }),
        r is Ok ==> ({
            let o = *old(accounts);
            let n = *final(accounts);
            let cost = allocation_cost(o.seller_trade_state, o.rent_minimum);
            &&& is_open_record(n.seller_trade_state, *key, program_id@)
            &&& n.seller_trade_state.key == o.seller_trade_state.key
            &&& n.seller_trade_state.lamports == o.seller_trade_state.lamports + cost
            &&& n.seller_trade_state.data@ == (if o.seller_trade_state.data@.len() == 0 {
                seq![trade_state_bump]
            } else {
                o.seller_trade_state.data@.update(0, trade_state_bump)
            })
            &&& (if fee_payer_of(o.auction_house.requires_sign_off, o.authority.is_signer) == FeePayer::FeeAccount {
                n.auction_house_fee_account.lamports == o.auction_house_fee_account.lamports - cost
                    && n.wallet == o.wallet
            } else {
                n.wallet.lamports == o.wallet.lamports - cost && n.auction_house_fee_account
                    == o.auction_house_fee_account
            })
            &&& n.token_account == (if o.wallet.is_signer {
                TokenAccount { delegate: Some(o.program_as_signer), delegated_amount: token_size, ..o.token_account }
            } else {
                o.token_account
            })
            &&& n.authority == o.authority && n.free_seller_trade_state == o.free_seller_trade_state
            &&& n.auction_house == o.auction_house && n.auction_house_key == o.auction_house_key
            &&& n.program_as_signer == o.program_as_signer && n.rent_minimum == o.rent_minimum
        }),
{
    let wallet_signs = accounts.wallet.is_signer;
    let authority_signs = accounts.authority.is_signer;
    if !wallet_signs && (buyer_price != 0 || !accounts.free_seller_trade_state.data_is_empty() || !authority_signs
        || !accounts.auction_house.can_change_sale_price) {
        return Err(ErrorCode::SaleRequiresSigner);
    }
    if wallet_signs && authority_signs {
        return Err(ErrorCode::SaleRequiresExactlyOneSigner);
    }
    let fee_payer = get_fee_payer(&accounts.auction_house, accounts.authority.is_signer);
    match check_associated_token_account(&accounts.token_account, &accounts.wallet.key) {
        Err(e) => {
            return Err(e);
        },
        Ok(_) => {},
    }
    if token_size > accounts.token_account.amount {
        return Err(ErrorCode::InvalidTokenAmount);
    }
    let payer_lamports = match fee_payer {
        FeePayer::FeeAccount => accounts.auction_house_fee_account.lamports,
        FeePayer::Wallet => accounts.wallet.lamports,
    };
    let paid = match open_trade_state(
        &mut accounts.seller_trade_state,
        key,
        program_id,
        trade_state_bump,
        payer_lamports,
        accounts.rent_minimum,
    ) {
        Err(e) => {
            return Err(e);
        },
        Ok(p) => p,
    };
    match fee_payer {
        FeePayer::FeeAccount => {
            accounts.auction_house_fee_account.lamports = paid;
        },
        FeePayer::Wallet => {
            accounts.wallet.lamports = paid;
        },
    }
    if accounts.wallet.is_signer {
        accounts.token_account.delegate = Some(accounts.program_as_signer);
        accounts.token_account.delegated_amount = token_size;
    }
    Ok(())
}

/// A listing with authentic accounts that both the wallet and the authority
/// sign is refused with `SaleRequiresExactlyOneSigner`, whatever its price.
pub proof fn lemma_sell_double_signer(a: Sell, program: Seq<u8>, tsb: u8, ftsb: u8, pasb: u8, price: u64, size: u64)
    requires
        sell_accounts_error(a, program, tsb, ftsb, pasb, price, size) is None,
        a.wallet.is_signer,
        a.authority.is_signer,
    ensures
        sell_error(a, program, tsb, ftsb, pasb, price, size) == Some(ErrorCode::SaleRequiresExactlyOneSigner),
{
}

/// A listing at price zero that only the authority signs, on a marketplace
/// that lets prices change, succeeds when its accounts are authentic, the
/// asset account holds the quantity and the payer can fund the record; the
/// same listing on a marketplace that does not let prices change is refused
/// with `SaleRequiresSigner`.
pub proof fn lemma_sell_free_listing_by_authority(a: Sell, program: Seq<u8>, tsb: u8, ftsb: u8, pasb: u8, size: u64)
    requires
        sell_accounts_error(a, program, tsb, ftsb, pasb, 0, size) is None,
        !a.wallet.is_signer,
        a.authority.is_signer,
        a.free_seller_trade_state.is_empty(),
    ensures
        a.auction_house.can_change_sale_price && ata_error(a.token_account, a.wallet.key@) is None && size
            <= a.token_account.amount && payer_balance(a) >= allocation_cost(a.seller_trade_state, a.rent_minimum)
            ==> sell_error(a, program, tsb, ftsb, pasb, 0, size) is None,
        !a.auction_house.can_change_sale_price ==> sell_error(a, program, tsb, ftsb, pasb, 0, size) == Some(
            ErrorCode::SaleRequiresSigner,
        ),
{
}

/// A listing at a non-zero price with authentic accounts that the wallet does
/// not sign is refused with `SaleRequiresSigner`.
pub proof fn lemma_sell_priced_listing_needs_wallet(a: Sell, program: Seq<u8>, tsb: u8, ftsb: u8, pasb: u8, price: u64, size: u64)
    requires
        sell_accounts_error(a, program, tsb, ftsb, pasb, price, size) is None,
        !a.wallet.is_signer,
        price != 0,
    ensures
        sell_error(a, program, tsb, ftsb, pasb, price, size) == Some(ErrorCode::SaleRequiresSigner),
{
}

} // verus!
