use vstd::prelude::*;

verus! {

/// An account address: the 32 bytes of an ed25519 public key or of a
/// program-derived address.
#[derive(Clone, Copy, Debug)]
pub struct Pubkey {
    pub bytes: [u8; 32],
}

impl Pubkey {
    /// The address made of the given bytes.
    pub fn new_from_array(bytes: [u8; 32]) -> (k: Pubkey)
        ensures
            k.bytes == bytes,
    {
        Pubkey { bytes }
    }

    /// The all-zero address, which stands for "no account".
    pub fn zeroed() -> (k: Pubkey)
        ensures
            is_zero_key(k),
    {
        Pubkey { bytes: [0u8; 32] }
    }

    /// The bytes of the address.
    pub fn to_bytes(&self) -> (b: [u8; 32])
        ensures
            b == self.bytes,
    {
        self.bytes
    }

    /// Whether two addresses are the same.
    pub fn same_as(&self, other: &Pubkey) -> (r: bool)
        ensures
            r == (*self == *other),
    {
        let mut i: usize = 0;
        while i < 32
            invariant
                0 <= i <= 32,
                forall|j: int| 0 <= j < i ==> self.bytes[j] == other.bytes[j],
            decreases 32 - i,
        {
            if self.bytes[i] != other.bytes[i] {
                return false;
            }
            i = i + 1;
        }
        assert(self.bytes =~= other.bytes);
        true
    }
}

/// Whether `k` is the all-zero address.
pub open spec fn is_zero_key(k: Pubkey) -> bool {
    forall|i: int| 0 <= i < 32 ==> k.bytes[i] == 0
}

/// The state of the lottery, held in its program-derived account.
#[derive(Clone, Copy, Debug)]
pub struct TokenLottery {
    /// Bump of the account's program-derived address.
    pub bump: u8,
    /// Number of the winning ticket, once drawn.
    pub winner: u64,
    /// Whether the winner has been drawn.
    pub winner_chosed: bool,
    /// First slot in which tickets are sold.
    pub start_time: u64,
    /// Last slot in which tickets are sold.
    pub end_time: u64,
    /// Lamports collected from ticket sales and not yet paid out.
    pub lottery_pot_amount: u64,
    /// Number of tickets sold; tickets are numbered from zero.
    pub total_tickets: u64,
    /// Price of one ticket in lamports.
    pub ticket_price: u64,
    /// Account that configured the lottery and may draw the winner.
    pub authority: Pubkey,
    /// Randomness account the draw must use.
    pub randomness_account: Pubkey,
}

/// Length of the account discriminator that precedes the serialized state.
pub const ANCHOR_DISCRIMINATOR: usize = 8;

/// Length of the serialized `TokenLottery`: the sum of its fields' lengths.
pub const INIT_SPACE: usize = 114;

} // verus!
