use vstd::prelude::*;
use vstd::bytes::{spec_u64_to_le_bytes, u64_to_le_bytes};
use crate::errors::CustomErrors;
use crate::metadata::{CollectionRef, MetadataPlan, is_ticket_metadata, ticket_metadata};
use crate::randomness::{
    RandomnessReading, account_reveal_slot, account_seed_slot, account_value_byte,
    has_randomness_shape, is_layout_of, read_randomness,
};
use crate::state::{Pubkey, TokenLottery, is_zero_key};
use crate::ticket::ticket_name_of;

verus! {

// ----------------------------------------------------------------------
// Configuration
// ----------------------------------------------------------------------

/// Whether `l` is a freshly configured lottery: nothing sold, no winner, no
/// randomness account yet.
pub open spec fn is_fresh_lottery(
    l: TokenLottery,
    start_time: u64,
    end_time: u64,
    ticket_price: u64,
    authority: Pubkey,
    bump: u8,
) -> bool {
    &&& l.bump == bump
    &&& l.winner == 0
    &&& !l.winner_chosed
    &&& l.start_time == start_time
    &&& l.end_time == end_time
    &&& l.lottery_pot_amount == 0
    &&& l.total_tickets == 0
    &&& l.ticket_price == ticket_price
    &&& l.authority == authority
    &&& is_zero_key(l.randomness_account)
}

/// The state of a new lottery that sells tickets at `ticket_price` from slot
/// `start_time` to slot `end_time`, configured by `authority`.
pub fn initialize_config(
    start_time: u64,
    end_time: u64,
    ticket_price: u64,
    authority: Pubkey,
    bump: u8,
) -> (l: TokenLottery)
    ensures
        is_fresh_lottery(l, start_time, end_time, ticket_price, authority, bump),
{
    TokenLottery {
        bump,
        winner: 0,
        winner_chosed: false,
        start_time,
        end_time,
        lottery_pot_amount: 0,
        total_tickets: 0,
        ticket_price,
        authority,
        randomness_account: Pubkey::zeroed(),
    }
}

// ----------------------------------------------------------------------
// Ticket sale
// ----------------------------------------------------------------------

/// Whether tickets are on sale in `slot`.
pub open spec fn sale_open(l: TokenLottery, slot: u64) -> bool {
    l.start_time <= slot && slot <= l.end_time
}

/// Whether one more sale keeps the pot and the ticket count in range.
pub open spec fn sale_fits(l: TokenLottery) -> bool {
    &&& l.lottery_pot_amount + l.ticket_price <= u64::MAX
    &&& l.total_tickets + 1 <= u64::MAX
}

/// The state after one ticket is sold: the price goes into the pot and the
/// ticket count grows by one.
pub open spec fn after_sale(l: TokenLottery) -> TokenLottery {
    TokenLottery {
        lottery_pot_amount: (l.lottery_pot_amount + l.ticket_price) as u64,
        total_tickets: (l.total_tickets + 1) as u64,
        ..l
    }
}

/// What a purchase in `slot` does to the lottery.
pub open spec fn buy_outcome(l: TokenLottery, slot: u64) -> Result<TokenLottery, CustomErrors> {
    if sale_open(l, slot) {
        Ok(after_sale(l))
    } else {
        Err(CustomErrors::OutOfTime)
    }
}

/// What the program does for the buyer of a ticket: take the price, and
/// mint the ticket under its seed with its metadata.
#[derive(Debug)]
pub struct TicketPurchase {
    /// Number of the ticket sold.
    pub ticket_number: u64,
    /// Lamports the buyer pays into the lottery account.
    pub price: u64,
    /// Seed of the ticket's mint address: the ticket number, little-endian.
    pub mint_seed: Vec<u8>,
    /// Metadata of the ticket.
    pub metadata: MetadataPlan,
    /// Collection authority record with which the ticket is set and
    /// verified as an item of the collection.
    pub collection_authority_record: Option<Pubkey>,
}

/// The seed of the mint address of ticket number `n`: the number,
/// little-endian. The winner's claim finds the winning ticket's mint by it.
pub fn ticket_mint_seed(n: u64) -> (s: Vec<u8>)
    ensures
        s@ == spec_u64_to_le_bytes(n),
{
    u64_to_le_bytes(n)
}

/// Whether `p` is the purchase of the next ticket of `l`.
pub open spec fn is_purchase_of(p: TicketPurchase, l: TokenLottery, collection_mint: Pubkey) -> bool {
    &&& p.ticket_number == l.total_tickets
    &&& p.price == l.ticket_price
    &&& p.mint_seed@ == spec_u64_to_le_bytes(l.total_tickets)
    &&& is_ticket_metadata(p.metadata, l.total_tickets, collection_mint)
    &&& p.collection_authority_record.is_none()
}

/// Sells the next ticket in `slot`, refused outside the sale window.
pub fn buy_ticket(lottery: &mut TokenLottery, slot: u64, collection_mint: Pubkey) -> (r: Result<
    TicketPurchase,
    CustomErrors,
>)
    requires
        sale_open(*old(lottery), slot) ==> sale_fits(*old(lottery)),
    ensures
        match buy_outcome(*old(lottery), slot) {
            Ok(next) => {
                &&& *final(lottery) == next
                &&& r matches Ok(p) && is_purchase_of(p, *old(lottery), collection_mint)
            },
            Err(e) => {
                &&& *final(lottery) == *old(lottery)
                &&& r matches Err(f) && f == e
            },
        },
{
    if slot < lottery.start_time || slot > lottery.end_time {
        return Err(CustomErrors::OutOfTime);
    }
    let number: u64 = lottery.total_tickets;
    let price: u64 = lottery.ticket_price;
    lottery.lottery_pot_amount = lottery.lottery_pot_amount + price;
    let purchase = TicketPurchase {
        ticket_number: number,
        price,
        mint_seed: ticket_mint_seed(number),
        metadata: ticket_metadata(number, collection_mint),
        collection_authority_record: None,
    };
    lottery.total_tickets = number + 1;
    Ok(purchase)
}

// ----------------------------------------------------------------------
// Randomness commitment
// ----------------------------------------------------------------------

/// What a commitment by `signer` to randomness seeded in `seed_slot` gives
/// in `slot`: only the authority commits, and only to randomness seeded in
/// the slot before.
pub open spec fn commit_outcome(l: TokenLottery, signer: Pubkey, seed_slot: u64, slot: u64) -> Result<(), CustomErrors> {
    if l.authority != signer {
        Err(CustomErrors::UnauthorizedAction)
    } else if seed_slot != slot - 1 {
        Err(CustomErrors::RandomnessAlreadyRevealed)
    } else {
        Ok(())
    }
}

/// Checks a commitment to `randomness` in `slot`. The lottery is left as
/// it is: in particular the randomness account is not recorded, so a later
/// draw accepts only the all-zero randomness account that the configuration
/// set.
pub fn commit_randomness(lottery: &TokenLottery, signer: Pubkey, randomness: &RandomnessReading, slot: u64) -> (r: Result<(), CustomErrors>)
    requires
        lottery.authority == signer ==> slot > 0,
    ensures
        r == commit_outcome(*lottery, signer, randomness.seed_slot, slot),
{
    if !lottery.authority.same_as(&signer) {
        return Err(CustomErrors::UnauthorizedAction);
    }
    if randomness.seed_slot != slot - 1 {
        return Err(CustomErrors::RandomnessAlreadyRevealed);
    }
    Ok(())
}

/// Checks a commitment to the randomness account serialized in `data`.
/// `None` exactly where the program aborts: the signer is the authority and
/// the account does not parse or the slot is the first one.
pub fn commit_randomness_account(lottery: &TokenLottery, signer: Pubkey, data: &[u8], slot: u64) -> (r: Option<Result<(), CustomErrors>>)
    ensures
        lottery.authority != signer ==> r == Some(Err::<(), CustomErrors>(CustomErrors::UnauthorizedAction)),
        r is None <==> (lottery.authority == signer && (slot == 0 || !has_randomness_shape(data@))),
        r matches Some(res) ==> res == commit_outcome(*lottery, signer, account_seed_slot(data@), slot),
{
    if !lottery.authority.same_as(&signer) {
        return Some(Err(CustomErrors::UnauthorizedAction));
    }
    let randomness = match read_randomness(data) {
        Some(x) => x,
        None => return None,
    };
    if slot == 0 {
        return None;
    }
    Some(commit_randomness(lottery, signer, &randomness, slot))
}

// ----------------------------------------------------------------------
// Winner draw
// ----------------------------------------------------------------------

/// Why a draw by `signer` with `randomness_account` in `slot` is refused
/// before the randomness is read, if it is.
pub open spec fn reveal_refusal(l: TokenLottery, signer: Pubkey, randomness_account: Pubkey, slot: u64) -> Option<CustomErrors> {
    if l.authority != signer {
        Some(CustomErrors::UnauthorizedAction)
    } else if l.randomness_account != randomness_account {
        Some(CustomErrors::IncorrectRandomness)
    } else if l.winner_chosed {
        Some(CustomErrors::WinnerChosen)
    } else if !(slot < l.end_time) {
        Some(CustomErrors::OutOfTime)
    } else {
        None
    }
}

/// The state after the draw with the first random byte `value_byte`: the
/// winner is that byte modulo the number of tickets.
pub open spec fn drawn(l: TokenLottery, value_byte: u8) -> TokenLottery {
    TokenLottery {
        winner: (value_byte as int % l.total_tickets as int) as u64,
        winner_chosed: true,
        ..l
    }
}

/// What a draw does to the lottery, given the reveal slot and first random
/// byte of the randomness account.
pub open spec fn reveal_outcome(
    l: TokenLottery,
    signer: Pubkey,
    randomness_account: Pubkey,
    reveal_slot: u64,
    value_byte: u8,
    slot: u64,
) -> Result<TokenLottery, CustomErrors> {
    match reveal_refusal(l, signer, randomness_account, slot) {
        Some(e) => Err(e),
        None => if slot != reveal_slot {
            Err(CustomErrors::RandomnessNotResolved)
        } else {
            Ok(drawn(l, value_byte))
        },
    }
}

/// Why a draw is refused, computed.
fn check_reveal(l: &TokenLottery, signer: &Pubkey, randomness_account: &Pubkey, slot: u64) -> (r: Option<CustomErrors>)
    ensures
        r == reveal_refusal(*l, *signer, *randomness_account, slot),
{
    if !l.authority.same_as(signer) {
        Some(CustomErrors::UnauthorizedAction)
    } else if !l.randomness_account.same_as(randomness_account) {
        Some(CustomErrors::IncorrectRandomness)
    } else if l.winner_chosed {
        Some(CustomErrors::WinnerChosen)
    } else if !(slot < l.end_time) {
        Some(CustomErrors::OutOfTime)
    } else {
        None
    }
}

/// Draws the winner from `randomness`, read from the account
/// `randomness_account`, in `slot`.
pub fn reveal_winner(
    lottery: &mut TokenLottery,
    signer: Pubkey,
    randomness_account: Pubkey,
    randomness: &RandomnessReading,
    slot: u64,
) -> (r: Result<(), CustomErrors>)
    requires
        reveal_refusal(*old(lottery), signer, randomness_account, slot) is None
            && slot == randomness.reveal_slot ==> old(lottery).total_tickets > 0,
    ensures
        match reveal_outcome(*old(lottery), signer, randomness_account, randomness.reveal_slot, randomness.value[0], slot) {
            Ok(next) => r is Ok && *final(lottery) == next,
            Err(e) => r == Err::<(), CustomErrors>(e) && *final(lottery) == *old(lottery),
        },
{
    if let Some(e) = check_reveal(lottery, &signer, &randomness_account, slot) {
        return Err(e);
    }
    let value = match randomness.value_at(slot) {
        Some(v) => v,
        None => return Err(CustomErrors::RandomnessNotResolved),
    };
    let winner: u64 = value[0] as u64 % lottery.total_tickets;
    lottery.winner = winner;
    lottery.winner_chosed = true;
    Ok(())
}

/// Draws the winner from the randomness account serialized in `data`.
/// `None` exactly where the program aborts: the draw is not refused and the
/// account does not parse, or the randomness is current and no ticket was
/// sold; the lottery is then left as it is.
pub fn reveal_winner_account(
    lottery: &mut TokenLottery,
    signer: Pubkey,
    randomness_account: Pubkey,
    data: &[u8],
    slot: u64,
) -> (r: Option<Result<(), CustomErrors>>)
    ensures
        reveal_refusal(*old(lottery), signer, randomness_account, slot) matches Some(e)
            ==> r == Some(Err::<(), CustomErrors>(e)),
        r is None <==> (reveal_refusal(*old(lottery), signer, randomness_account, slot) is None && (
            !has_randomness_shape(data@) || (slot == account_reveal_slot(data@)
                && old(lottery).total_tickets == 0))),
        r is None ==> *final(lottery) == *old(lottery),
        r matches Some(res) ==> match reveal_outcome(
            *old(lottery),
            signer,
            randomness_account,
            account_reveal_slot(data@),
            account_value_byte(data@),
            slot,
        ) {
            Ok(next) => res is Ok && *final(lottery) == next,
            Err(e) => res == Err::<(), CustomErrors>(e) && *final(lottery) == *old(lottery),
        },
{
    if let Some(e) = check_reveal(lottery, &signer, &randomness_account, slot) {
        return Some(Err(e));
    }
    let randomness = match read_randomness(data) {
        Some(x) => x,
        None => return None,
    };
    proof {
        assert(randomness.value[0] == randomness.value@[0]);
    }
    if slot == randomness.reveal_slot && lottery.total_tickets == 0 {
        return None;
    }
    Some(reveal_winner(lottery, signer, randomness_account, &randomness, slot))
}

// ----------------------------------------------------------------------
// Claim
// ----------------------------------------------------------------------

/// What the claim reads of the metadata of the claimant's ticket.
#[derive(Debug)]
pub struct TicketMetadata {
    pub collection: Option<CollectionRef>,
    pub name: String,
}

/// Whether the claim gets as far as the ticket's collection.
pub open spec fn claim_reaches_metadata(l: TokenLottery, ticket_amount: u64) -> bool {
    ticket_amount > 0 && l.winner_chosed
}

/// Why a claim by the holder of `ticket_amount` tokens of the ticket
/// described by `m` is refused, if it is.
pub open spec fn claim_refusal(l: TokenLottery, ticket_amount: u64, m: TicketMetadata, collection_mint: Pubkey) -> Option<CustomErrors> {
    if ticket_amount == 0 {
        Some(CustomErrors::NoTicket)
    } else if !l.winner_chosed {
        Some(CustomErrors::WinnerNotChosen)
    } else if !m.collection.unwrap().verified {
        Some(CustomErrors::TokenNotVerified)
    } else if m.collection.unwrap().key != collection_mint {
        Some(CustomErrors::IncorrectTicket)
    } else if m.name@ != ticket_name_of(l.winner as nat) {
        Some(CustomErrors::IncorrectTicket)
    } else {
        None
    }
}

/// The state after the pot is paid out.
pub open spec fn paid_out(l: TokenLottery) -> TokenLottery {
    TokenLottery { lottery_pot_amount: 0, ..l }
}

/// What a claim does: on success it pays the whole pot to the claimant.
pub open spec fn claim_outcome(l: TokenLottery, ticket_amount: u64, m: TicketMetadata, collection_mint: Pubkey) -> Result<(u64, TokenLottery), CustomErrors> {
    match claim_refusal(l, ticket_amount, m, collection_mint) {
        Some(e) => Err(e),
        None => Ok((l.lottery_pot_amount, paid_out(l))),
    }
}

/// The winner's claim: the holder of `ticket_amount` tokens of the ticket
/// described by `metadata`, in the collection `collection_mint`. Gives the
/// lamports to pay to the claimant.
pub fn claim_tokens(
    lottery: &mut TokenLottery,
    ticket_amount: u64,
    metadata: &TicketMetadata,
    collection_mint: Pubkey,
) -> (r: Result<u64, CustomErrors>)
    requires
        claim_reaches_metadata(*old(lottery), ticket_amount) ==> metadata.collection is Some,
    ensures
        match claim_outcome(*old(lottery), ticket_amount, *metadata, collection_mint) {
            Ok((payout, next)) => r == Ok::<u64, CustomErrors>(payout) && *final(lottery) == next,
            Err(e) => r == Err::<u64, CustomErrors>(e) && *final(lottery) == *old(lottery),
        },
{
    if ticket_amount == 0 {
        return Err(CustomErrors::NoTicket);
    }
    if !lottery.winner_chosed {
        return Err(CustomErrors::WinnerNotChosen);
    }
    let collection = match &metadata.collection {
        Some(c) => *c,
        None => return Err(CustomErrors::TokenNotVerified),
    };
    if !collection.verified {
        return Err(CustomErrors::TokenNotVerified);
    }
    if !collection.key.same_as(&collection_mint) {
        return Err(CustomErrors::IncorrectTicket);
    }
    let expected = crate::ticket::ticket_name(lottery.winner);
    if !(metadata.name == expected) {
        return Err(CustomErrors::IncorrectTicket);
    }
    let pot: u64 = lottery.lottery_pot_amount;
    lottery.lottery_pot_amount = 0;
    Ok(pot)
}

} // verus!
