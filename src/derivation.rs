use vstd::prelude::*;

use crate::address::Address;

verus! {

/// Seed that opens every derivation of the marketplace.
pub open spec fn prefix_seed_bytes() -> Seq<u8> {
    seq![97u8, 117, 99, 116, 105, 111, 110, 95, 104, 111, 117, 115, 101]
}

/// Seed that opens every derivation of the marketplace.
pub fn prefix_seed() -> (r: Vec<u8>)
    ensures
        r@ == prefix_seed_bytes(),
{
    let r: Vec<u8> = vec![97u8, 117, 99, 116, 105, 111, 110, 95, 104, 111, 117, 115, 101];
    assert(r@ =~= prefix_seed_bytes());
    r
}

/// Seed naming a marketplace's fee account.
pub open spec fn fee_payer_seed_bytes() -> Seq<u8> {
    seq![102u8, 101, 101, 95, 112, 97, 121, 101, 114]
}

/// Seed naming a marketplace's fee account.
pub fn fee_payer_seed() -> (r: Vec<u8>)
    ensures
        r@ == fee_payer_seed_bytes(),
{
    let r: Vec<u8> = vec![102u8, 101, 101, 95, 112, 97, 121, 101, 114];
    assert(r@ =~= fee_payer_seed_bytes());
    r
}

/// Seed naming a marketplace's treasury.
pub open spec fn treasury_seed_bytes() -> Seq<u8> {
    seq![116u8, 114, 101, 97, 115, 117, 114, 121]
}

/// Seed naming a marketplace's treasury.
pub fn treasury_seed() -> (r: Vec<u8>)
    ensures
        r@ == treasury_seed_bytes(),
{
    let r: Vec<u8> = vec![116u8, 114, 101, 97, 115, 117, 114, 121];
    assert(r@ =~= treasury_seed_bytes());
    r
}

/// Seed naming the program's own signing address.
pub open spec fn signer_seed_bytes() -> Seq<u8> {
    seq![115u8, 105, 103, 110, 101, 114]
}

/// Seed naming the program's own signing address.
pub fn signer_seed() -> (r: Vec<u8>)
    ensures
        r@ == signer_seed_bytes(),
{
    let r: Vec<u8> = vec![115u8, 105, 103, 110, 101, 114];
    assert(r@ =~= signer_seed_bytes());
    r
}

/// The wrapped-native-currency mint, `So11111111111111111111111111111111111111112`.
pub open spec fn native_mint_bytes() -> Seq<u8> {
    seq![6u8, 155, 136, 87, 254, 171, 129, 132, 251, 104, 127, 99, 70, 24, 192, 53, 218, 196, 57, 220, 26, 235, 59, 85, 152, 160, 240, 0, 0, 0, 0, 1]
}

/// The fungible-asset program, `TokenkegQfeZyiNwAJbNbGKPFXCWuBvf9Ss623VQ5DA`.
pub open spec fn token_program_bytes() -> Seq<u8> {
    seq![6u8, 221, 246, 225, 215, 101, 161, 147, 217, 203, 225, 70, 206, 235, 121, 172, 28, 180, 133, 237, 95, 91, 55, 145, 58, 140, 245, 133, 126, 255, 0, 169]
}

/// The associated-account program, `ATokenGPvbdGVxr1b2hvZbsiqW5xWH25efTNsLJA8knL`.
pub open spec fn associated_token_program_bytes() -> Seq<u8> {
    seq![140u8, 151, 37, 143, 78, 36, 137, 241, 187, 61, 16, 41, 20, 142, 13, 131, 11, 90, 19, 153, 218, 255, 16, 132, 4, 142, 123, 216, 219, 233, 248, 89]
}

/// The associated-account program's address.
pub fn associated_token_program_id() -> (r: Address)
    ensures
        r@ == associated_token_program_bytes(),
{
    let r = Address { bytes: [140u8, 151, 37, 143, 78, 36, 137, 241, 187, 61, 16, 41, 20, 142, 13, 131, 11, 90, 19, 153, 218, 255, 16, 132, 4, 142, 123, 216, 219, 233, 248, 89] };
    assert(r@ =~= associated_token_program_bytes());
    r
}

/// The derived address and canonical salt of a list of seeds under a program,
/// or `None` when no salt gives an address outside the curve.
pub uninterp spec fn program_address(seeds: Seq<Seq<u8>>, program: Seq<u8>) -> Option<(Seq<u8>, u8)>;

pub open spec fn seeds_view(seeds: Seq<Vec<u8>>) -> Seq<Seq<u8>> {
    seeds.map_values(|s: Vec<u8>| s@)
}

pub open spec fn derivation_view(d: Option<(Address, u8)>) -> Option<(Seq<u8>, u8)> {
    match d {
        Some((a, b)) => Some((a@, b)),
        None => None,
    }
}

/// Relies on `Pubkey::try_find_program_address` of solana-program: the address
/// and salt it finds depend on the seeds and the program alone.
#[verifier::external_body]
fn try_find_program_address(seeds: &Vec<Vec<u8>>, program_id: &Address) -> (r: Option<(Address, u8)>)
    ensures
        derivation_view(r) == program_address(seeds_view(seeds@), program_id@),
{
    let refs: Vec<&[u8]> = seeds.iter().map(|s| s.as_slice()).collect();
    let program = solana_program::pubkey::Pubkey::new_from_array(program_id.bytes);
    solana_program::pubkey::Pubkey::try_find_program_address(&refs, &program).map(
        |(k, b)| (Address { bytes: k.to_bytes() }, b),
    )
}

/// Relies on `spl_token::native_mint::id`, declared as
/// `So11111111111111111111111111111111111111112`.
#[verifier::external_body]
fn native_mint_id() -> (r: Address)
    ensures
        r@ == native_mint_bytes(),
{
    Address { bytes: spl_token::native_mint::id().to_bytes() }
}

/// Relies on `spl_token::id`, declared as
/// `TokenkegQfeZyiNwAJbNbGKPFXCWuBvf9Ss623VQ5DA`.
#[verifier::external_body]
fn token_program_id() -> (r: Address)
    ensures
        r@ == token_program_bytes(),
{
    Address { bytes: spl_token::id().to_bytes() }
}

/// Whether a mint is the wrapped native currency.
pub fn is_native_mint(mint: &Address) -> (r: bool)
    ensures
        r == (mint@ == native_mint_bytes()),
{
    let native = native_mint_id();
    mint.same(&native)
}

/// The eight little-endian bytes of an integer.
pub open spec fn le_bytes(v: u64) -> Seq<u8> {
    seq![
        v as u8,
        (v >> 8) as u8,
        (v >> 16) as u8,
        (v >> 24) as u8,
        (v >> 32) as u8,
        (v >> 40) as u8,
        (v >> 48) as u8,
        (v >> 56) as u8,
    ]
}

pub fn u64_le_bytes(v: u64) -> (r: Vec<u8>)
    ensures
        r@ == le_bytes(v),
{
    let r: Vec<u8> = vec![
        v as u8,
        (v >> 8u64) as u8,
        (v >> 16u64) as u8,
        (v >> 24u64) as u8,
        (v >> 32u64) as u8,
        (v >> 40u64) as u8,
        (v >> 48u64) as u8,
        (v >> 56u64) as u8,
    ];
    assert(r@ =~= le_bytes(v));
    r
}

/// Distinct integers have distinct little-endian encodings.
pub proof fn lemma_le_bytes_injective(a: u64, b: u64)
    requires
        le_bytes(a) == le_bytes(b),
    ensures
        a == b,
{
    assert(le_bytes(a)[0] == le_bytes(b)[0]);
    assert(le_bytes(a)[1] == le_bytes(b)[1]);
    assert(le_bytes(a)[2] == le_bytes(b)[2]);
    assert(le_bytes(a)[3] == le_bytes(b)[3]);
    assert(le_bytes(a)[4] == le_bytes(b)[4]);
    assert(le_bytes(a)[5] == le_bytes(b)[5]);
    assert(le_bytes(a)[6] == le_bytes(b)[6]);
    assert(le_bytes(a)[7] == le_bytes(b)[7]);
    assert(a == b) by (bit_vector)
        requires
            a as u8 == b as u8,
            (a >> 8) as u8 == (b >> 8) as u8,
            (a >> 16) as u8 == (b >> 16) as u8,
            (a >> 24) as u8 == (b >> 24) as u8,
            (a >> 32) as u8 == (b >> 32) as u8,
            (a >> 40) as u8 == (b >> 40) as u8,
            (a >> 48) as u8 == (b >> 48) as u8,
            (a >> 56) as u8 == (b >> 56) as u8,
    ;
}

/// The seed tuple that identifies one open ask or bid.
#[derive(Clone, Copy, Debug)]
pub struct TradeKey {
    pub wallet: Address,
    pub auction_house: Address,
    pub token_account: Address,
    pub treasury_mint: Address,
    pub token_mint: Address,
    pub price: u64,
    pub size: u64,
}

impl TradeKey {
    /// Two tuples agree in every field.
    pub open spec fn same_as(self, o: TradeKey) -> bool {
        &&& self.wallet@ == o.wallet@
        &&& self.auction_house@ == o.auction_house@
        &&& self.token_account@ == o.token_account@
        &&& self.treasury_mint@ == o.treasury_mint@
        &&& self.token_mint@ == o.token_mint@
        &&& self.price == o.price
        &&& self.size == o.size
    }
}

pub open spec fn trade_state_seeds(t: TradeKey) -> Seq<Seq<u8>> {
    seq![
        prefix_seed_bytes(),
        t.wallet@,
        t.auction_house@,
        t.token_account@,
        t.treasury_mint@,
        t.token_mint@,
        le_bytes(t.price),
        le_bytes(t.size),
    ]
}

pub open spec fn escrow_seeds(auction_house: Seq<u8>, wallet: Seq<u8>) -> Seq<Seq<u8>> {
    seq![prefix_seed_bytes(), auction_house, wallet]
}

pub open spec fn fee_account_seeds(auction_house: Seq<u8>) -> Seq<Seq<u8>> {
    seq![prefix_seed_bytes(), auction_house, fee_payer_seed_bytes()]
}

pub open spec fn treasury_seeds(auction_house: Seq<u8>) -> Seq<Seq<u8>> {
    seq![prefix_seed_bytes(), auction_house, treasury_seed_bytes()]
}

pub open spec fn auction_house_seeds(creator: Seq<u8>, treasury_mint: Seq<u8>) -> Seq<Seq<u8>> {
    seq![prefix_seed_bytes(), creator, treasury_mint]
}

pub open spec fn program_signer_seeds() -> Seq<Seq<u8>> {
    seq![prefix_seed_bytes(), signer_seed_bytes()]
}

pub open spec fn associated_token_seeds(owner: Seq<u8>, mint: Seq<u8>) -> Seq<Seq<u8>> {
    seq![owner, token_program_bytes(), mint]
}

/// The seeds of a trade state record, as handed to the runtime.
pub fn trade_state_seed_list(t: &TradeKey) -> (r: Vec<Vec<u8>>)
    ensures
        seeds_view(r@) == trade_state_seeds(*t),
{
    let mut seeds: Vec<Vec<u8>> = Vec::new();
    seeds.push(prefix_seed());
    seeds.push(t.wallet.to_vec());
    seeds.push(t.auction_house.to_vec());
    seeds.push(t.token_account.to_vec());
    seeds.push(t.treasury_mint.to_vec());
    seeds.push(t.token_mint.to_vec());
    seeds.push(u64_le_bytes(t.price));
    seeds.push(u64_le_bytes(t.size));
    assert(seeds_view(seeds@) =~= trade_state_seeds(*t));
    seeds
}

/// The canonical address and salt of a trade state record.
pub fn derive_trade_state(t: &TradeKey, program_id: &Address) -> (r: Option<(Address, u8)>)
    ensures
        derivation_view(r) == program_address(trade_state_seeds(*t), program_id@),
{
    let seeds = trade_state_seed_list(t);
    try_find_program_address(&seeds, program_id)
}

/// The seeds of a buyer's escrow account, as handed to the runtime.
pub fn escrow_seed_list(auction_house: &Address, wallet: &Address) -> (r: Vec<Vec<u8>>)
    ensures
        seeds_view(r@) == escrow_seeds(auction_house@, wallet@),
{
    let mut seeds: Vec<Vec<u8>> = Vec::new();
    seeds.push(prefix_seed());
    seeds.push(auction_house.to_vec());
    seeds.push(wallet.to_vec());
    assert(seeds_view(seeds@) =~= escrow_seeds(auction_house@, wallet@));
    seeds
}

/// The canonical address and salt of a buyer's escrow account.
pub fn derive_escrow(auction_house: &Address, wallet: &Address, program_id: &Address) -> (r: Option<(Address, u8)>)
    ensures
        derivation_view(r) == program_address(escrow_seeds(auction_house@, wallet@), program_id@),
{
    let seeds = escrow_seed_list(auction_house, wallet);
    try_find_program_address(&seeds, program_id)
}

/// The seeds of a marketplace's fee account, as handed to the runtime.
pub fn fee_account_seed_list(auction_house: &Address) -> (r: Vec<Vec<u8>>)
    ensures
        seeds_view(r@) == fee_account_seeds(auction_house@),
{
    let mut seeds: Vec<Vec<u8>> = Vec::new();
    seeds.push(prefix_seed());
    seeds.push(auction_house.to_vec());
    seeds.push(fee_payer_seed());
    assert(seeds_view(seeds@) =~= fee_account_seeds(auction_house@));
    seeds
}

/// The canonical address and salt of a marketplace's fee account.
pub fn derive_fee_account(auction_house: &Address, program_id: &Address) -> (r: Option<(Address, u8)>)
    ensures
        derivation_view(r) == program_address(fee_account_seeds(auction_house@), program_id@),
{
    let seeds = fee_account_seed_list(auction_house);
    try_find_program_address(&seeds, program_id)
}

/// The canonical address and salt of a marketplace's treasury.
pub fn derive_treasury(auction_house: &Address, program_id: &Address) -> (r: Option<(Address, u8)>)
    ensures
        derivation_view(r) == program_address(treasury_seeds(auction_house@), program_id@),
{
    let mut seeds: Vec<Vec<u8>> = Vec::new();
    seeds.push(prefix_seed());
    seeds.push(auction_house.to_vec());
    seeds.push(treasury_seed());
    assert(seeds_view(seeds@) =~= treasury_seeds(auction_house@));
    try_find_program_address(&seeds, program_id)
}

/// The seeds of a marketplace instance, as handed to the runtime.
pub fn auction_house_seed_list(creator: &Address, treasury_mint: &Address) -> (r: Vec<Vec<u8>>)
    ensures
        seeds_view(r@) == auction_house_seeds(creator@, treasury_mint@),
{
    let mut seeds: Vec<Vec<u8>> = Vec::new();
    seeds.push(prefix_seed());
    seeds.push(creator.to_vec());
    seeds.push(treasury_mint.to_vec());
    assert(seeds_view(seeds@) =~= auction_house_seeds(creator@, treasury_mint@));
    seeds
}

/// The canonical address and salt of a marketplace instance.
pub fn derive_auction_house(creator: &Address, treasury_mint: &Address, program_id: &Address) -> (r: Option<(Address, u8)>)
    ensures
        derivation_view(r) == program_address(auction_house_seeds(creator@, treasury_mint@), program_id@),
{
    let seeds = auction_house_seed_list(creator, treasury_mint);
    try_find_program_address(&seeds, program_id)
}

/// The canonical address and salt the program signs with as a delegate.
pub fn derive_program_signer(program_id: &Address) -> (r: Option<(Address, u8)>)
    ensures
        derivation_view(r) == program_address(program_signer_seeds(), program_id@),
{
    let mut seeds: Vec<Vec<u8>> = Vec::new();
    seeds.push(prefix_seed());
    seeds.push(signer_seed());
    assert(seeds_view(seeds@) =~= program_signer_seeds());
    try_find_program_address(&seeds, program_id)
}

/// The canonical receiving account of an owner for a mint.
pub fn derive_associated_token_account(owner: &Address, mint: &Address) -> (r: Option<(Address, u8)>)
    ensures
        derivation_view(r) == program_address(
            associated_token_seeds(owner@, mint@),
            associated_token_program_bytes(),
        ),
{
    let mut seeds: Vec<Vec<u8>> = Vec::new();
    seeds.push(owner.to_vec());
    seeds.push(token_program_id().to_vec());
    seeds.push(mint.to_vec());
    assert(seeds_view(seeds@) =~= associated_token_seeds(owner@, mint@));
    let program = associated_token_program_id();
    try_find_program_address(&seeds, &program)
}

/// Deriving a trade state is deterministic, and two seed tuples give the same
/// seeds exactly when they agree in every field, so distinct tuples never hand
/// the same input to the address hash.
pub proof fn lemma_trade_state_derivation(t1: TradeKey, t2: TradeKey, program: Seq<u8>)
    ensures
        t1.same_as(t2) ==> program_address(trade_state_seeds(t1), program) == program_address(
            trade_state_seeds(t2),
            program,
        ),
        trade_state_seeds(t1) == trade_state_seeds(t2) <==> t1.same_as(t2),
{
    if trade_state_seeds(t1) == trade_state_seeds(t2) {
        assert(trade_state_seeds(t1)[1] == trade_state_seeds(t2)[1]);
        assert(trade_state_seeds(t1)[2] == trade_state_seeds(t2)[2]);
        assert(trade_state_seeds(t1)[3] == trade_state_seeds(t2)[3]);
        assert(trade_state_seeds(t1)[4] == trade_state_seeds(t2)[4]);
        assert(trade_state_seeds(t1)[5] == trade_state_seeds(t2)[5]);
        assert(trade_state_seeds(t1)[6] == trade_state_seeds(t2)[6]);
        assert(trade_state_seeds(t1)[7] == trade_state_seeds(t2)[7]);
        lemma_le_bytes_injective(t1.price, t2.price);
        lemma_le_bytes_injective(t1.size, t2.size);
    }
    if t1.same_as(t2) {
        assert(trade_state_seeds(t1) =~= trade_state_seeds(t2));
    }
}

/// The bytes the address hash reads for a trade state, before the salt and
/// the program: the seeds laid end to end.
pub open spec fn trade_state_preimage(t: TradeKey) -> Seq<u8> {
    prefix_seed_bytes() + t.wallet@ + t.auction_house@ + t.token_account@ + t.treasury_mint@ + t.token_mint@
        + le_bytes(t.price) + le_bytes(t.size)
}

proof fn lemma_flatten_from(s: Seq<Seq<u8>>, k: int)
    requires
        0 <= k < s.len(),
    ensures
        s.subrange(k, s.len() as int).flatten() == s[k] + s.subrange(k + 1, s.len() as int).flatten(),
{
    assert(s.subrange(k, s.len() as int).drop_first() =~= s.subrange(k + 1, s.len() as int));
}

proof fn lemma_preimage_fields(t: TradeKey)
    ensures
        trade_state_seeds(t).flatten() == trade_state_preimage(t),
        trade_state_preimage(t).len() == 189,
        trade_state_preimage(t).subrange(13, 45) == t.wallet@,
        trade_state_preimage(t).subrange(45, 77) == t.auction_house@,
        trade_state_preimage(t).subrange(77, 109) == t.token_account@,
        trade_state_preimage(t).subrange(109, 141) == t.treasury_mint@,
        trade_state_preimage(t).subrange(141, 173) == t.token_mint@,
        trade_state_preimage(t).subrange(173, 181) == le_bytes(t.price),
        trade_state_preimage(t).subrange(181, 189) == le_bytes(t.size),
{
    let s = trade_state_seeds(t);
    lemma_flatten_from(s, 0);
    lemma_flatten_from(s, 1);
    lemma_flatten_from(s, 2);
    lemma_flatten_from(s, 3);
    lemma_flatten_from(s, 4);
    lemma_flatten_from(s, 5);
    lemma_flatten_from(s, 6);
    lemma_flatten_from(s, 7);
    assert(s.subrange(8, 8).flatten() =~= Seq::<u8>::empty());
    assert(s.subrange(0, 8) =~= s);
    let f = trade_state_preimage(t);
    assert(s.flatten() =~= f);
    assert(f.subrange(13, 45) =~= t.wallet@);
    assert(f.subrange(45, 77) =~= t.auction_house@);
    assert(f.subrange(77, 109) =~= t.token_account@);
    assert(f.subrange(109, 141) =~= t.treasury_mint@);
    assert(f.subrange(141, 173) =~= t.token_mint@);
    assert(f.subrange(173, 181) =~= le_bytes(t.price));
    assert(f.subrange(181, 189) =~= le_bytes(t.size));
}

/// Two trade tuples that differ in any field hand different bytes to the
/// address hash: the seeds laid end to end determine the tuple.
pub proof fn lemma_trade_state_preimage_injective(t1: TradeKey, t2: TradeKey)
    ensures
        trade_state_seeds(t1).flatten() == trade_state_seeds(t2).flatten() <==> t1.same_as(t2),
{
    lemma_preimage_fields(t1);
    lemma_preimage_fields(t2);
    if trade_state_seeds(t1).flatten() == trade_state_seeds(t2).flatten() {
        lemma_le_bytes_injective(t1.price, t2.price);
        lemma_le_bytes_injective(t1.size, t2.size);
    }
    if t1.same_as(t2) {
        assert(trade_state_seeds(t1) =~= trade_state_seeds(t2));
    }
}

} // verus!
