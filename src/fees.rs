use vstd::prelude::*;

use crate::errors::ErrorCode;

verus! {

/// The marketplace's cut of a price: `price * basis_points / 10000`, rounded down.
pub open spec fn fee_of(price: u64, basis_points: u16) -> int {
    (price as int * basis_points as int) / 10000
}

/// What reaches the seller once the fee is taken.
pub open spec fn proceeds_of(price: u64, basis_points: u16) -> int {
    price as int - fee_of(price, basis_points)
}

pub open spec fn split_outcome(price: u64, basis_points: u16) -> Result<(u64, u64), ErrorCode> {
    if fee_of(price, basis_points) <= price as int {
        Ok((fee_of(price, basis_points) as u64, proceeds_of(price, basis_points) as u64))
    } else {
        Err(ErrorCode::NumericalOverflow)
    }
}

/// Splits a price into the marketplace fee and the seller's proceeds; a fee
/// above the price is an arithmetic error.
pub fn split_price(price: u64, basis_points: u16) -> (r: Result<(u64, u64), ErrorCode>)
    ensures
        r == split_outcome(price, basis_points),
{
    assert((price as int) * (basis_points as int) <= 0xffff_ffff_ffff_ffff * 0xffff) by (nonlinear_arith)
        requires
            price <= 0xffff_ffff_ffff_ffffu64,
            basis_points <= 0xffffu16,
    ;
    let product: u128 = (price as u128) * (basis_points as u128);
    let fee: u128 = product / 10000;
    assert(fee == fee_of(price, basis_points));
    if fee > price as u128 {
        return Err(ErrorCode::NumericalOverflow);
    }
    let fee64: u64 = fee as u64;
    Ok((fee64, price - fee64))
}

/// For a rate of at most ten thousand basis points, the fee is the floor of
/// `price * basis_points / 10000`, never exceeds the price, and the fee and
/// the seller's proceeds add up to the price.
pub proof fn lemma_fee_split(price: u64, basis_points: u16)
    requires
        basis_points <= 10000,
    ensures
        0 <= fee_of(price, basis_points) <= price,
        fee_of(price, basis_points) * 10000 <= price as int * basis_points as int,
        (price as int * basis_points as int) < (fee_of(price, basis_points) + 1) * 10000,
        split_outcome(price, basis_points) is Ok,
        split_outcome(price, basis_points)->Ok_0.0 + split_outcome(price, basis_points)->Ok_0.1
            == price,
{
    let p = price as int;
    let b = basis_points as int;
    assert(p * b <= p * 10000) by (nonlinear_arith)
        requires
            0 <= p,
            0 <= b <= 10000,
    ;
    assert(0 <= (p * b) / 10000 <= p) by (nonlinear_arith)
        requires
            0 <= p * b <= p * 10000,
    ;
    assert(((p * b) / 10000) * 10000 <= p * b < ((p * b) / 10000 + 1) * 10000) by (nonlinear_arith)
        requires
            0 <= p * b,
    ;
}

} // verus!
