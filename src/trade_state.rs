use vstd::prelude::*;

use crate::address::Address;
use crate::derivation::{derivation_view, derive_trade_state, program_address, trade_state_seeds, TradeKey};
use crate::errors::ErrorCode;
use crate::state::AccountCell;

verus! {

/// Whether an address and salt are the canonical derivation `d` of some seeds.
pub open spec fn derivation_check(d: Option<(Seq<u8>, u8)>, key: Seq<u8>, bump: u8) -> Result<(), ErrorCode> {
    match d {
        None => Err(ErrorCode::DerivedKeyInvalid),
        Some((a, b)) => if a != key {
            Err(ErrorCode::DerivedKeyInvalid)
        } else if b != bump {
            Err(ErrorCode::BumpSeedNotInHashMap)
        } else {
            Ok(())
        },
    }
}

/// Holds a found derivation against an account's address and a supplied salt.
pub fn check_derivation(found: Option<(Address, u8)>, key: &Address, bump: u8) -> (r: Result<(), ErrorCode>)
    ensures
        r == derivation_check(derivation_view(found), key@, bump),
{
    match found {
        None => Err(ErrorCode::DerivedKeyInvalid),
        Some((a, b)) => {
            if !a.same(key) {
                Err(ErrorCode::DerivedKeyInvalid)
            } else if b != bump {
                Err(ErrorCode::BumpSeedNotInHashMap)
            } else {
                Ok(())
            }
        },
    }
}

/// The cell is the open record of the tuple: it holds data, sits at the
/// tuple's derived address, and its first byte is the canonical salt.
pub open spec fn is_open_record(cell: AccountCell, t: TradeKey, program: Seq<u8>) -> bool {
    &&& cell.data@.len() > 0
    &&& program_address(trade_state_seeds(t), program) is Some
    &&& cell.key@ == program_address(trade_state_seeds(t), program)->Some_0.0
    &&& cell.data@[0] == program_address(trade_state_seeds(t), program)->Some_0.1
}

pub open spec fn verify_outcome(cell: AccountCell, t: TradeKey, program: Seq<u8>) -> Result<u8, ErrorCode> {
    if cell.data@.len() == 0 {
        Err(ErrorCode::TradeStateDoesNotExist)
    } else {
        match derivation_check(program_address(trade_state_seeds(t), program), cell.key@, cell.data@[0]) {
            Ok(_) => Ok(cell.data@[0]),
            Err(e) => Err(e),
        }
    }
}

/// Authenticates a trade state record against the tuple it should stand for,
/// returning its salt.
pub fn verify_trade_state(cell: &AccountCell, t: &TradeKey, program_id: &Address) -> (r: Result<u8, ErrorCode>)
    ensures
        r == verify_outcome(*cell, *t, program_id@),
{
    if cell.data.len() == 0 {
        return Err(ErrorCode::TradeStateDoesNotExist);
    }
    let bump = cell.data[0];
    let found = derive_trade_state(t, program_id);
    match check_derivation(found, &cell.key, bump) {
        Ok(_) => Ok(bump),
        Err(e) => Err(e),
    }
}

/// The cell once its record is closed: no balance and no data.
pub open spec fn is_closed_record(cell: AccountCell) -> bool {
    cell.lamports == 0 && cell.data@.len() == 0
}

/// Drains a record's balance into `payer_lamports`, wipes its storage and
/// removes it; returns the payer's new balance.
pub fn close_trade_state(cell: &mut AccountCell, payer_lamports: u64) -> (r: Result<u64, ErrorCode>)
    ensures
        payer_lamports + old(cell).lamports <= u64::MAX ==> r == Ok::<u64, ErrorCode>((payer_lamports + old(cell).lamports) as u64),
        payer_lamports + old(cell).lamports > u64::MAX ==> r == Err::<u64, ErrorCode>(ErrorCode::NumericalOverflow),
        r is Ok ==> is_closed_record(*final(cell)) && final(cell).key == old(cell).key
            && final(cell).is_signer == old(cell).is_signer,
        r is Err ==> *final(cell) == *old(cell),
{
    if cell.lamports > u64::MAX - payer_lamports {
        return Err(ErrorCode::NumericalOverflow);
    }
    let paid = payer_lamports + cell.lamports;
    cell.lamports = 0;
    cell.data = Vec::new();
    Ok(paid)
}

pub open spec fn open_check(cell: AccountCell, t: TradeKey, program: Seq<u8>, bump: u8) -> Result<(), ErrorCode> {
    derivation_check(program_address(trade_state_seeds(t), program), cell.key@, bump)
}

/// What a fresh record draws from its payer: the part of the minimum balance
/// the cell does not already hold.
pub open spec fn allocation_cost(cell: AccountCell, rent_minimum: u64) -> int {
    if cell.data@.len() == 0 && cell.lamports < rent_minimum {
        rent_minimum - cell.lamports
    } else {
        0
    }
}

pub open spec fn open_outcome(cell: AccountCell, t: TradeKey, program: Seq<u8>, bump: u8, payer_lamports: u64, rent_minimum: u64) -> Result<u64, ErrorCode> {
    match open_check(cell, t, program, bump) {
        Err(e) => Err(e),
        Ok(_) => if payer_lamports < allocation_cost(cell, rent_minimum) {
            Err(ErrorCode::InsufficientFunds)
        } else {
            Ok((payer_lamports - allocation_cost(cell, rent_minimum)) as u64)
        },
    }
}

/// Opens the record of a tuple at `cell` with the supplied salt: checks the
/// address and salt, allocates one byte (drawing the minimum balance from the
/// payer) when the cell is empty, and writes the salt; returns the payer's new
/// balance.
pub fn open_trade_state(
    cell: &mut AccountCell,
    t: &TradeKey,
    program_id: &Address,
    bump: u8,
    payer_lamports: u64,
    rent_minimum: u64,
) -> (r: Result<u64, ErrorCode>)
    ensures
        r == open_outcome(*old(cell), *t, program_id@, bump, payer_lamports, rent_minimum),
        r is Ok ==> is_open_record(*final(cell), *t, program_id@),
        r is Ok ==> final(cell).key == old(cell).key && final(cell).is_signer == old(cell).is_signer
            && final(cell).lamports == old(cell).lamports + allocation_cost(*old(cell), rent_minimum)
            && final(cell).data@ == (if old(cell).data@.len() == 0 {
                seq![bump]
            } else {
                old(cell).data@.update(0, bump)
            }),
        r is Err ==> *final(cell) == *old(cell),
{
    let found = derive_trade_state(t, program_id);
    match check_derivation(found, &cell.key, bump) {
        Err(e) => {
            return Err(e);
        },
        Ok(_) => {},
    }
    if cell.data.len() == 0 {
        let cost: u64 = if cell.lamports < rent_minimum {
            rent_minimum - cell.lamports
        } else {
            0
        };
        if payer_lamports < cost {
            return Err(ErrorCode::InsufficientFunds);
        }
        cell.lamports = cell.lamports + cost;
        cell.data.push(bump);
        assert(cell.data@ =~= seq![bump]);
        Ok(payer_lamports - cost)
    } else {
        cell.data.set(0, bump);
        Ok(payer_lamports)
    }
}

/// A record is open for a tuple exactly when verifying it against the tuple
/// succeeds; a record that was closed verifies against no tuple.
pub proof fn lemma_verify_iff_open(cell: AccountCell, t: TradeKey, program: Seq<u8>)
    ensures
        verify_outcome(cell, t, program) is Ok <==> is_open_record(cell, t, program),
        is_closed_record(cell) ==> verify_outcome(cell, t, program) == Err::<u8, ErrorCode>(
            ErrorCode::TradeStateDoesNotExist,
        ),
{
}

} // verus!
