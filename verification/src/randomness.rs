use vstd::prelude::*;
use vstd::bytes::spec_u64_from_le_bytes;
use switchboard_on_demand::RandomnessAccountData;

verus! {

/// Length of a serialized randomness account: discriminator and body.
pub const RANDOMNESS_ACCOUNT_LEN: usize = 408;

/// What the lottery reads of a randomness account.
#[derive(Clone, Copy, Debug)]
pub struct RandomnessReading {
    /// Slot whose hash seeded the randomness.
    pub seed_slot: u64,
    /// Slot at which the value was revealed.
    pub reveal_slot: u64,
    /// The revealed random value.
    pub value: [u8; 32],
}

/// The discriminator bytes of a randomness account.
pub open spec fn randomness_discriminator() -> Seq<u8> {
    seq![10u8, 66u8, 229u8, 135u8, 220u8, 239u8, 217u8, 114u8]
}

/// Whether `data` starts with the randomness account discriminator.
pub open spec fn has_randomness_discriminator(data: Seq<u8>) -> bool {
    data.len() >= 8 && data.subrange(0, 8) == randomness_discriminator()
}

/// Whether `r` holds the fields of the serialized randomness account `data`,
/// each at its offset.
pub open spec fn is_layout_of(r: RandomnessReading, data: Seq<u8>) -> bool {
    &&& r.seed_slot == account_seed_slot(data)
    &&& r.reveal_slot == account_reveal_slot(data)
    &&& r.value@ == data.subrange(152, 184)
}

/// Whether `data` is long enough for a randomness account and starts with its
/// discriminator: the shape without which no parse succeeds.
pub open spec fn has_randomness_shape(data: Seq<u8>) -> bool {
    data.len() >= RANDOMNESS_ACCOUNT_LEN && has_randomness_discriminator(data)
}

/// The seed slot recorded in the serialized randomness account `data`.
pub open spec fn account_seed_slot(data: Seq<u8>) -> u64 {
    spec_u64_from_le_bytes(data.subrange(104, 112))
}

/// The reveal slot recorded in the serialized randomness account `data`.
pub open spec fn account_reveal_slot(data: Seq<u8>) -> u64 {
    spec_u64_from_le_bytes(data.subrange(144, 152))
}

/// The first byte of the random value in the serialized randomness account
/// `data`.
pub open spec fn account_value_byte(data: Seq<u8>) -> u8 {
    data[152]
}

impl RandomnessReading {
    /// The random value, when it was revealed in `slot`: the value is only
    /// current in the slot of its reveal.
    pub fn value_at(&self, slot: u64) -> (r: Option<[u8; 32]>)
        ensures
            r == (if slot == self.reveal_slot { Some(self.value) } else { None::<[u8; 32]> }),
    {
        if slot != self.reveal_slot {
            return None;
        }
        Some(self.value)
    }
}

/// Reads a randomness account with `RandomnessAccountData::parse` of
/// switchboard-on-demand, after copying the bytes to an 8-byte-aligned
/// place, as the Solana runtime aligns account data. The contract claims
/// that the parse succeeds exactly on data at least as long as the account
/// that starts with its discriminator, and that it yields the fields at their
/// offsets, read little-endian (the byte order of the Solana runtime and of
/// the hosts it is built for).
#[verifier::external_body]
fn parse_randomness_account(data: &[u8]) -> (r: Option<RandomnessReading>)
    ensures
        r is Some <==> has_randomness_shape(data@),
        r matches Some(x) ==> is_layout_of(x, data@),
{
    let mut buf: Vec<u8> = vec![0u8; 8];
    buf.extend_from_slice(data);
    let start = buf.as_ptr().align_offset(8);
    buf.copy_within(8.., start);
    let cell = std::cell::RefCell::new(&mut buf[start..][..data.len()]);
    let parsed = RandomnessAccountData::parse(cell.borrow());
    match parsed {
        Ok(d) => Some(RandomnessReading { seed_slot: d.seed_slot, reveal_slot: d.reveal_slot, value: d.value }),
        Err(_) => None,
    }
}

/// Reads the parts of a randomness account that the lottery uses; `None`
/// exactly when the data is too short or lacks the account's discriminator.
pub fn read_randomness(data: &[u8]) -> (r: Option<RandomnessReading>)
    ensures
        r is Some <==> has_randomness_shape(data@),
        r matches Some(x) ==> is_layout_of(x, data@),
{
    parse_randomness_account(data)
}

} // verus!
