use vstd::prelude::*;
use crate::address::Address;
use crate::error::PredictionMarketError;

verus! {

/// The address that the ledger derives for a program from a list of seeds,
/// with the bump seed that made it valid; none where no bump seed does, or
/// where the seeds are too many or too long.
pub uninterp spec fn program_address(seeds: Seq<Seq<u8>>, program_id: Seq<u8>) -> Option<
    (Seq<u8>, u8),
>;

/// Calls `Pubkey::try_find_program_address` of the ledger's SDK.
///
/// Not proved: that what comes back is the derived address of exactly these
/// seeds and this program. The derivation hashes its arguments and searches
/// the bump seeds downwards, so it is a function of the arguments alone; it
/// returns none instead of failing.
#[verifier::external_body]
fn find_program_address(seeds: &Vec<Vec<u8>>, program_id: &[u8; 32]) -> (found: Option<
    ([u8; 32], u8),
>)
    ensures
        match found {
            Some((key, bump)) => program_address(seeds.deep_view(), program_id@) == Some(
                (key@, bump),
            ),
            None => program_address(seeds.deep_view(), program_id@) is None,
        },
{
    let parts: Vec<&[u8]> = seeds.iter().map(|seed| seed.as_slice()).collect();
    let program = anchor_lang::prelude::Pubkey::new_from_array(*program_id);
    match anchor_lang::prelude::Pubkey::try_find_program_address(&parts, &program) {
        Some((key, bump)) => Some((key.to_bytes(), bump)),
        None => None,
    }
}

/// The `width` low bytes of `value`, lowest first.
pub open spec fn le_bytes(value: nat, width: nat) -> Seq<u8>
    decreases width,
{
    if width == 0 {
        Seq::empty()
    } else {
        seq![(value % 256) as u8] + le_bytes(value / 256, (width - 1) as nat)
    }
}

/// A signed 64-bit number as the unsigned number with the same bits.
pub open spec fn as_unsigned(value: i64) -> nat {
    if value >= 0 {
        value as nat
    } else {
        (value + 0x1_0000_0000_0000_0000) as nat
    }
}

/// The eight bytes of `value`, lowest first.
pub fn u64_le_bytes(value: u64) -> (bytes: Vec<u8>)
    ensures
        bytes@ == le_bytes(value as nat, 8),
{
    let mut bytes: Vec<u8> = Vec::new();
    let mut rest: u64 = value;
    let mut i: usize = 0;
    while i < 8
        invariant
            i <= 8,
            bytes@ + le_bytes(rest as nat, (8 - i) as nat) == le_bytes(value as nat, 8),
        decreases 8 - i,
    {
        let ghost before = bytes@;
        bytes.push((rest % 256) as u8);
        proof {
            assert(bytes@ + le_bytes((rest / 256) as nat, (8 - i - 1) as nat) =~= before
                + le_bytes(rest as nat, (8 - i) as nat));
        }
        rest = rest / 256;
        i += 1;
    }
    assert(bytes@ + le_bytes(rest as nat, 0) =~= bytes@);
    bytes
}

/// The eight bytes of `value` in two's complement, lowest first.
pub fn i64_le_bytes(value: i64) -> (bytes: Vec<u8>)
    ensures
        bytes@ == le_bytes(as_unsigned(value), 8),
{
    let bits: u64 = if value >= 0 {
        value as u64
    } else {
        ((value + i64::MAX + 1) as u64) + 0x8000_0000_0000_0000
    };
    u64_le_bytes(bits)
}

/// The tag that starts the seeds of a market's address.
pub open spec fn market_tag() -> Seq<u8> {
    seq![109u8, 97u8, 114u8, 107u8, 101u8, 116u8]
}

/// The seeds from which a market's address is derived: the tag, the
/// creator, the hash of the title, the deadline and the nonce.
pub open spec fn market_id_seeds(
    creator: Address,
    title_hash: Seq<u8>,
    end_time: i64,
    nonce: u64,
) -> Seq<Seq<u8>> {
    seq![
        market_tag(),
        creator@,
        title_hash,
        le_bytes(as_unsigned(end_time), 8),
        le_bytes(nonce as nat, 8),
    ]
}

/// A copy of `bytes` as a list.
fn to_list<const N: usize>(bytes: &[u8; N]) -> (list: Vec<u8>)
    ensures
        list@ == bytes@,
{
    let mut list: Vec<u8> = Vec::new();
    let mut i: usize = 0;
    while i < N
        invariant
            i <= N,
            list@ == bytes@.take(i as int),
        decreases N - i,
    {
        list.push(bytes[i]);
        i += 1;
        assert(list@ =~= bytes@.take(i as int));
    }
    assert(bytes@.take(N as int) =~= bytes@);
    list
}

/// Builds the seeds of a market's address.
pub fn build_market_id_seeds(creator: &Address, title_hash: &[u8; 32], end_time: i64, nonce: u64) -> (seeds:
    Vec<Vec<u8>>)
    ensures
        seeds.deep_view() == market_id_seeds(*creator, title_hash@, end_time, nonce),
{
    let mut tag: Vec<u8> = Vec::new();
    tag.push(109u8);
    tag.push(97u8);
    tag.push(114u8);
    tag.push(107u8);
    tag.push(101u8);
    tag.push(116u8);
    assert(tag@ =~= market_tag());
    let mut seeds: Vec<Vec<u8>> = Vec::new();
    seeds.push(tag);
    seeds.push(to_list(&creator.bytes));
    seeds.push(to_list(title_hash));
    seeds.push(i64_le_bytes(end_time));
    seeds.push(u64_le_bytes(nonce));
    assert(seeds.deep_view() =~~= market_id_seeds(*creator, title_hash@, end_time, nonce));
    seeds
}

/// The market address in the result of a derivation, if it found one.
pub fn market_id_of(found: Option<([u8; 32], u8)>) -> (id: Option<Address>)
    ensures
        id == (match found {
            Some((key, _)) => Some(Address { bytes: key }),
            None => None,
        }),
{
    match found {
        Some((key, _)) => Some(Address { bytes: key }),
        None => None,
    }
}

/// The address derived for a market from [`market_id_seeds`], without the
/// bump seed that made it valid.
pub open spec fn market_address(
    creator: Address,
    title_hash: Seq<u8>,
    end_time: i64,
    nonce: u64,
    program_id: Address,
) -> Option<Seq<u8>> {
    match program_address(market_id_seeds(creator, title_hash, end_time, nonce), program_id@) {
        Some((key, _)) => Some(key),
        None => None,
    }
}

/// The address of the market that `creator` opens under `program_id` with
/// this title hash, deadline and nonce: the program address derived from
/// [`market_id_seeds`]. None in the improbable case that the seeds derive
/// no valid address.
pub fn generate_market_id(
    creator: &Address,
    title_hash: &[u8; 32],
    end_time: i64,
    nonce: u64,
    program_id: &Address,
) -> (id: Option<Address>)
    ensures
        match id {
            Some(address) => market_address(*creator, title_hash@, end_time, nonce, *program_id)
                == Some(address@),
            None => market_address(*creator, title_hash@, end_time, nonce, *program_id) is None,
        },
{
    let seeds = build_market_id_seeds(creator, title_hash, end_time, nonce);
    let found = find_program_address(&seeds, &program_id.bytes);
    market_id_of(found)
}

/// The message that an oracle signs to resolve a market: the market's
/// address, one byte for the outcome, and the time.
pub open spec fn oracle_message_bytes(market_id: Address, outcome: bool, timestamp: i64) -> Seq<
    u8,
> {
    market_id@ + seq![if outcome {
        1u8
    } else {
        0u8
    }] + le_bytes(as_unsigned(timestamp), 8)
}

/// Builds the message that an oracle signs to resolve a market.
pub fn oracle_message(market_id: &Address, outcome: bool, timestamp: i64) -> (message: Vec<u8>)
    ensures
        message@ == oracle_message_bytes(*market_id, outcome, timestamp),
{
    let mut message = to_list(&market_id.bytes);
    message.push(if outcome {
        1u8
    } else {
        0u8
    });
    let time = i64_le_bytes(timestamp);
    let mut i: usize = 0;
    let ghost head = message@;
    while i < time.len()
        invariant
            i <= time.len(),
            message@ == head + time@.take(i as int),
        decreases time.len() - i,
    {
        message.push(time[i]);
        i += 1;
        assert(message@ =~= head + time@.take(i as int));
    }
    assert(time@.take(i as int) =~= time@);
    message
}

/// Whether a resolution signed by `oracle_pubkey` can be accepted at all:
/// the oracle must be a real identity, not the all-zero one. The signature
/// itself is left to the ledger, which checks it before the engine is
/// called.
pub fn validate_oracle_signature(
    oracle_pubkey: &Address,
    market_id: &Address,
    outcome: bool,
    timestamp: i64,
    signature: &[u8; 64],
) -> (r: Result<bool, PredictionMarketError>)
    ensures
        r == Ok::<bool, PredictionMarketError>(!oracle_pubkey.is_zero()),
{
    Ok(!oracle_pubkey.is_default())
}

} // verus!
