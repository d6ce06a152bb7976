use vstd::prelude::*;

use crate::address::Address;
use crate::derivation::{
    associated_token_program_bytes, associated_token_seeds, auction_house_seeds, derive_associated_token_account,
    derive_auction_house, derive_fee_account, derive_treasury, fee_account_seeds, is_native_mint,
    native_mint_bytes, program_address, treasury_seeds,
};
use crate::errors::ErrorCode;
use crate::state::AuctionHouse;
use crate::trade_state::{check_derivation, derivation_check};

verus! {

pub open spec fn house_check(
    ah: AuctionHouse,
    ah_key: Seq<u8>,
    authority: Seq<u8>,
    fee_account: Seq<u8>,
    program: Seq<u8>,
) -> Result<(), ErrorCode> {
    if derivation_check(program_address(auction_house_seeds(ah.creator@, ah.treasury_mint@), program), ah_key, ah.bump) is Err {
        derivation_check(program_address(auction_house_seeds(ah.creator@, ah.treasury_mint@), program), ah_key, ah.bump)
    } else if authority != ah.authority@ || fee_account != ah.auction_house_fee_account@ {
        Err(ErrorCode::PublicKeyMismatch)
    } else {
        derivation_check(program_address(fee_account_seeds(ah_key), program), fee_account, ah.fee_payer_bump)
    }
}

/// Checks that an instance sits at its derived address and that the authority
/// and fee account handed in are the ones it records.
pub fn check_auction_house(
    ah: &AuctionHouse,
    ah_key: &Address,
    authority: &Address,
    fee_account: &Address,
    program_id: &Address,
) -> (r: Result<(), ErrorCode>)
    ensures
        r == house_check(*ah, ah_key@, authority@, fee_account@, program_id@),
{
    let found = derive_auction_house(&ah.creator, &ah.treasury_mint, program_id);
    match check_derivation(found, ah_key, ah.bump) {
        Err(e) => {
            return Err(e);
        },
        Ok(_) => {},
    }
    if !authority.same(&ah.authority) || !fee_account.same(&ah.auction_house_fee_account) {
        return Err(ErrorCode::PublicKeyMismatch);
    }
    let fee = derive_fee_account(ah_key, program_id);
    check_derivation(fee, fee_account, ah.fee_payer_bump)
}

/// The addresses that creating an instance reads.
#[derive(Clone, Copy, Debug)]
pub struct CreateAuctionHouse {
    pub treasury_mint: Address,
    pub authority: Address,
    pub fee_withdrawal_destination: Address,
    pub treasury_withdrawal_destination: Address,
    pub treasury_withdrawal_destination_owner: Address,
    pub auction_house: Address,
    pub auction_house_fee_account: Address,
    pub auction_house_treasury: Address,
}

/// The configuration a successful creation records.
pub open spec fn created_house(
    a: CreateAuctionHouse,
    bump: u8,
    fee_payer_bump: u8,
    treasury_bump: u8,
    seller_fee_basis_points: u16,
    requires_sign_off: bool,
    can_change_sale_price: bool,
) -> AuctionHouse {
    AuctionHouse {
        auction_house_fee_account: a.auction_house_fee_account,
        auction_house_treasury: a.auction_house_treasury,
        treasury_withdrawal_destination: a.treasury_withdrawal_destination,
        fee_withdrawal_destination: a.fee_withdrawal_destination,
        treasury_mint: a.treasury_mint,
        authority: a.authority,
        creator: a.authority,
        bump,
        treasury_bump,
        fee_payer_bump,
        seller_fee_basis_points,
        requires_sign_off,
        can_change_sale_price,
    }
}

/// The error creation stops at, if any, in the order the checks run.
pub open spec fn create_error(
    a: CreateAuctionHouse,
    program: Seq<u8>,
    fee_payer_bump: u8,
    treasury_bump: u8,
    seller_fee_basis_points: u16,
) -> Option<ErrorCode> {
    let house = program_address(auction_house_seeds(a.authority@, a.treasury_mint@), program);
    let fee = derivation_check(program_address(fee_account_seeds(a.auction_house@), program), a.auction_house_fee_account@, fee_payer_bump);
    let treasury = derivation_check(program_address(treasury_seeds(a.auction_house@), program), a.auction_house_treasury@, treasury_bump);
    let ata = program_address(
        associated_token_seeds(a.treasury_withdrawal_destination_owner@, a.treasury_mint@),
        associated_token_program_bytes(),
    );
    if house is None || house->Some_0.0 != a.auction_house@ {
        Some(ErrorCode::DerivedKeyInvalid)
    } else if fee is Err {
        Some(fee->Err_0)
    } else if treasury is Err {
        Some(treasury->Err_0)
    } else if seller_fee_basis_points > 10000 {
        Some(ErrorCode::InvalidBasisPoints)
    } else if a.treasury_mint@ == native_mint_bytes() {
        if a.treasury_withdrawal_destination@ != a.treasury_withdrawal_destination_owner@ {
            Some(ErrorCode::PublicKeyMismatch)
        } else {
            None
        }
    } else if ata is None {
        Some(ErrorCode::DerivedKeyInvalid)
    } else if ata->Some_0.0 != a.treasury_withdrawal_destination@ {
        Some(ErrorCode::PublicKeyMismatch)
    } else {
        None
    }
}

/// Creates a marketplace instance: the instance, its fee account and its
/// treasury must sit at their derived addresses with the supplied salts, the
/// fee rate must be at most ten thousand basis points, and the treasury's
/// withdrawal destination must be its owner (native currency) or the owner's
/// canonical receiving account (fungible currency).
pub fn create_auction_house(
    accounts: &CreateAuctionHouse,
    program_id: &Address,
    fee_payer_bump: u8,
    treasury_bump: u8,
    seller_fee_basis_points: u16,
    requires_sign_off: bool,
    can_change_sale_price: bool,
) -> (r: Result<AuctionHouse, ErrorCode>)
    ensures
        create_error(*accounts, program_id@, fee_payer_bump, treasury_bump, seller_fee_basis_points) is Some
            ==> r == Err::<AuctionHouse, ErrorCode>(
            create_error(*accounts, program_id@, fee_payer_bump, treasury_bump, seller_fee_basis_points)->Some_0,
        ),
        create_error(*accounts, program_id@, fee_payer_bump, treasury_bump, seller_fee_basis_points) is None
            ==> r is Ok && r->Ok_0 == created_house(
            *accounts,
            program_address(auction_house_seeds(accounts.authority@, accounts.treasury_mint@), program_id@)->Some_0.1,
            fee_payer_bump,
            treasury_bump,
            seller_fee_basis_points,
            requires_sign_off,
            can_change_sale_price,
        ),
        r is Ok ==> r->Ok_0.wf(),
{
    let bump: u8 = match derive_auction_house(&accounts.authority, &accounts.treasury_mint, program_id) {
        None => {
            return Err(ErrorCode::DerivedKeyInvalid);
        },
        Some((k, b)) => {
            if !k.same(&accounts.auction_house) {
                return Err(ErrorCode::DerivedKeyInvalid);
            }
            b
        },
    };
    let fee = derive_fee_account(&accounts.auction_house, program_id);
    match check_derivation(fee, &accounts.auction_house_fee_account, fee_payer_bump) {
        Err(e) => {
            return Err(e);
        },
        Ok(_) => {},
    }
    let treasury = derive_treasury(&accounts.auction_house, program_id);
    match check_derivation(treasury, &accounts.auction_house_treasury, treasury_bump) {
        Err(e) => {
            return Err(e);
        },
        Ok(_) => {},
    }
    if seller_fee_basis_points > 10000 {
        return Err(ErrorCode::InvalidBasisPoints);
    }
    if is_native_mint(&accounts.treasury_mint) {
        if !accounts.treasury_withdrawal_destination.same(&accounts.treasury_withdrawal_destination_owner) {
            return Err(ErrorCode::PublicKeyMismatch);
        }
    } else {
        match derive_associated_token_account(&accounts.treasury_withdrawal_destination_owner, &accounts.treasury_mint) {
            None => {
                return Err(ErrorCode::DerivedKeyInvalid);
            },
            Some((k, _)) => {
                if !k.same(&accounts.treasury_withdrawal_destination) {
                    return Err(ErrorCode::PublicKeyMismatch);
                }
            },
        }
    }
    Ok(AuctionHouse {
        auction_house_fee_account: accounts.auction_house_fee_account,
        auction_house_treasury: accounts.auction_house_treasury,
        treasury_withdrawal_destination: accounts.treasury_withdrawal_destination,
        fee_withdrawal_destination: accounts.fee_withdrawal_destination,
        treasury_mint: accounts.treasury_mint,
        authority: accounts.authority,
        creator: accounts.authority,
        bump,
        treasury_bump,
        fee_payer_bump,
        seller_fee_basis_points,
        requires_sign_off,
        can_change_sale_price,
    })
}

} // verus!
