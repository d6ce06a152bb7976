use vstd::prelude::*;

use crate::address::Address;
use crate::errors::ErrorCode;

verus! {

/// Configuration of one marketplace instance.
#[derive(Clone, Copy, Debug)]
pub struct AuctionHouse {
    pub auction_house_fee_account: Address,
    pub auction_house_treasury: Address,
    pub treasury_withdrawal_destination: Address,
    pub fee_withdrawal_destination: Address,
    pub treasury_mint: Address,
    pub authority: Address,
    pub creator: Address,
    pub bump: u8,
    pub treasury_bump: u8,
    pub fee_payer_bump: u8,
    pub seller_fee_basis_points: u16,
    pub requires_sign_off: bool,
    pub can_change_sale_price: bool,
}

impl AuctionHouse {
    /// The fee rate never exceeds the whole price.
    pub open spec fn wf(self) -> bool {
        self.seller_fee_basis_points <= 10000
    }
}

/// A state cell of the ledger as one call sees it.
#[derive(Clone, Debug)]
pub struct AccountCell {
    pub key: Address,
    pub is_signer: bool,
    pub lamports: u64,
    pub data: Vec<u8>,
}

impl AccountCell {
    /// The cell holds no data: nothing lives at its address.
    pub open spec fn is_empty(self) -> bool {
        self.data@.len() == 0
    }

    pub fn data_is_empty(&self) -> (r: bool)
        ensures
            r == self.is_empty(),
    {
        self.data.len() == 0
    }
}

/// A fungible-asset account of the ledger as one call sees it.
#[derive(Clone, Copy, Debug)]
pub struct TokenAccount {
    pub key: Address,
    pub mint: Address,
    pub owner: Address,
    pub amount: u64,
    pub delegate: Option<Address>,
    pub delegated_amount: u64,
}

/// A holder of funds in the marketplace's currency: a plain cell when the
/// currency is the native one, a fungible-asset account otherwise.
#[derive(Clone, Debug)]
pub enum Funds {
    Native(AccountCell),
    Token(TokenAccount),
}

impl Funds {
    pub open spec fn key_view(self) -> Seq<u8> {
        match self {
            Funds::Native(c) => c.key@,
            Funds::Token(t) => t.key@,
        }
    }

    /// The balance that the currency counts.
    pub open spec fn balance(self) -> u64 {
        match self {
            Funds::Native(c) => c.lamports,
            Funds::Token(t) => t.amount,
        }
    }

    /// The same holder with another balance.
    pub open spec fn with_balance(self, b: u64) -> Funds {
        match self {
            Funds::Native(c) => Funds::Native(AccountCell { lamports: b, ..c }),
            Funds::Token(t) => Funds::Token(TokenAccount { amount: b, ..t }),
        }
    }

    pub fn key(&self) -> (r: Address)
        ensures
            r@ == self.key_view(),
    {
        match self {
            Funds::Native(c) => c.key,
            Funds::Token(t) => t.key,
        }
    }

    pub fn get_balance(&self) -> (r: u64)
        ensures
            r == self.balance(),
    {
        match self {
            Funds::Native(c) => c.lamports,
            Funds::Token(t) => t.amount,
        }
    }

    pub fn set_balance(&mut self, b: u64)
        ensures
            *final(self) == old(self).with_balance(b),
    {
        match self {
            Funds::Native(c) => {
                c.lamports = b;
            },
            Funds::Token(t) => {
                t.amount = b;
            },
        }
    }
}

/// With the native currency a funds holder can be a second view of a
/// wallet's own cell: both views must then name the cell and agree on its
/// balance.
pub open spec fn mirrors(c: AccountCell, f: Funds) -> bool {
    match f {
        Funds::Native(x) => x.key@ == c.key@ && x.lamports == c.lamports,
        Funds::Token(_) => false,
    }
}

pub fn funds_mirror(c: &AccountCell, f: &Funds) -> (r: bool)
    ensures
        r == mirrors(*c, *f),
{
    match f {
        Funds::Native(x) => x.key.same(&c.key) && x.lamports == c.lamports,
        Funds::Token(_) => false,
    }
}

/// Who bears storage costs in one call.
#[derive(Clone, Copy, Debug, PartialEq, Eq, Structural)]
pub enum FeePayer {
    Wallet,
    FeeAccount,
}

/// Who authorised one call.
#[derive(Clone, Copy, Debug, PartialEq, Eq, Structural)]
pub enum Principal {
    Wallet,
    Authority,
}

pub open spec fn fee_payer_of(requires_sign_off: bool, authority_signs: bool) -> FeePayer {
    if requires_sign_off && authority_signs {
        FeePayer::FeeAccount
    } else {
        FeePayer::Wallet
    }
}

/// The marketplace's fee account pays when the marketplace requires sign-off
/// and its authority signed; the wallet pays otherwise.
pub fn get_fee_payer(auction_house: &AuctionHouse, authority_signs: bool) -> (r: FeePayer)
    ensures
        r == fee_payer_of(auction_house.requires_sign_off, authority_signs),
{
    if auction_house.requires_sign_off && authority_signs {
        FeePayer::FeeAccount
    } else {
        FeePayer::Wallet
    }
}

pub open spec fn signer_of(wallet_signs: bool, authority_signs: bool) -> Result<Principal, ErrorCode> {
    if wallet_signs && !authority_signs {
        Ok(Principal::Wallet)
    } else if authority_signs && !wallet_signs {
        Ok(Principal::Authority)
    } else {
        Err(ErrorCode::NoValidSignerPresent)
    }
}

/// Exactly one of the wallet and the marketplace authority must have signed.
pub fn resolve_signer(wallet_signs: bool, authority_signs: bool) -> (r: Result<Principal, ErrorCode>)
    ensures
        r == signer_of(wallet_signs, authority_signs),
{
    if wallet_signs && !authority_signs {
        Ok(Principal::Wallet)
    } else if authority_signs && !wallet_signs {
        Ok(Principal::Authority)
    } else {
        Err(ErrorCode::NoValidSignerPresent)
    }
}

} // verus!
