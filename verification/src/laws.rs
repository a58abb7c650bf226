use vstd::prelude::*;
use vstd::bytes::{lemma_auto_spec_u64_to_from_le_bytes, spec_u64_to_le_bytes};
use crate::errors::CustomErrors;
use crate::lottery::{
    TicketMetadata, TicketPurchase, buy_outcome, claim_outcome, claim_refusal, commit_outcome,
    is_fresh_lottery, is_purchase_of, reveal_outcome, sale_fits,
};
use crate::metadata::CollectionRef;
use crate::state::{Pubkey, TokenLottery};
use crate::ticket::{NAME, decimal, lemma_ticket_names_distinct, ticket_name_of};

verus! {

/// The pot holds exactly the price of every ticket sold.
pub open spec fn pot_matches_sales(l: TokenLottery) -> bool {
    l.lottery_pot_amount == l.ticket_price * l.total_tickets
}

/// A drawn winner is the number of a ticket that was sold.
pub open spec fn winner_is_sold_ticket(l: TokenLottery) -> bool {
    l.winner_chosed ==> l.winner < l.total_tickets
}

/// A freshly configured lottery has an empty pot for no tickets, and no
/// winner.
pub proof fn lemma_fresh_lottery_invariants(
    l: TokenLottery,
    start_time: u64,
    end_time: u64,
    ticket_price: u64,
    authority: Pubkey,
    bump: u8,
)
    requires
        is_fresh_lottery(l, start_time, end_time, ticket_price, authority, bump),
    ensures
        pot_matches_sales(l),
        winner_is_sold_ticket(l),
{
    assert(ticket_price * 0 == 0) by (nonlinear_arith);
}

/// Each sale adds the ticket price to the pot, so the pot keeps holding the
/// price of every ticket sold.
pub proof fn lemma_sale_keeps_pot_accounting(l: TokenLottery, slot: u64)
    requires
        pot_matches_sales(l),
        sale_fits(l),
    ensures
        buy_outcome(l, slot) matches Ok(next) ==> pot_matches_sales(next),
{
    if let Ok(next) = buy_outcome(l, slot) {
        let p: int = l.ticket_price as int;
        let t: int = l.total_tickets as int;
        assert(p * (t + 1) == p * t + p) by (nonlinear_arith);
    }
}

/// Sales (those that fit in range), draws and claims all keep the drawn
/// winner among the tickets sold.
pub proof fn lemma_winner_stays_a_sold_ticket(
    l: TokenLottery,
    slot: u64,
    signer: Pubkey,
    randomness_account: Pubkey,
    reveal_slot: u64,
    value_byte: u8,
    ticket_amount: u64,
    m: TicketMetadata,
    collection_mint: Pubkey,
)
    requires
        winner_is_sold_ticket(l),
    ensures
        sale_fits(l) ==> (buy_outcome(l, slot) matches Ok(next) ==> winner_is_sold_ticket(next)),
        reveal_outcome(l, signer, randomness_account, reveal_slot, value_byte, slot) matches Ok(next)
            ==> l.total_tickets > 0 ==> winner_is_sold_ticket(next),
        claim_outcome(l, ticket_amount, m, collection_mint) matches Ok((payout, next))
            ==> winner_is_sold_ticket(next),
{
}

/// The draw picks the first random byte modulo the number of tickets, which
/// is the number of a sold ticket.
pub proof fn lemma_draw_picks_a_sold_ticket(
    l: TokenLottery,
    signer: Pubkey,
    randomness_account: Pubkey,
    reveal_slot: u64,
    value_byte: u8,
    slot: u64,
)
    requires
        l.total_tickets > 0,
    ensures
        reveal_outcome(l, signer, randomness_account, reveal_slot, value_byte, slot) matches Ok(next)
            ==> next.winner_chosed && next.winner < next.total_tickets
                && next.winner == value_byte as int % l.total_tickets as int,
{
}

/// Once the winner is drawn it stays: every later draw is refused, and
/// sales and claims leave the winner as it is.
pub proof fn lemma_draw_is_final(
    l: TokenLottery,
    signer: Pubkey,
    randomness_account: Pubkey,
    slot: u64,
    signer2: Pubkey,
    randomness_account2: Pubkey,
    reveal_slot2: u64,
    value_byte2: u8,
    slot2: u64,
    ticket_amount: u64,
    m: TicketMetadata,
    collection_mint: Pubkey,
)
    requires
        l.winner_chosed,
    ensures
        reveal_outcome(l, signer2, randomness_account2, reveal_slot2, value_byte2, slot2) is Err,
        l.authority == signer2 && l.randomness_account == randomness_account2 ==>
            reveal_outcome(l, signer2, randomness_account2, reveal_slot2, value_byte2, slot2)
                == Err::<TokenLottery, CustomErrors>(CustomErrors::WinnerChosen),
        buy_outcome(l, slot) matches Ok(next) ==> next.winner_chosed && next.winner == l.winner,
        claim_outcome(l, ticket_amount, m, collection_mint) matches Ok((payout, next))
            ==> next.winner_chosed && next.winner == l.winner,
{
}

/// A successful claim pays out the whole pot and empties it in the
/// lottery's state, so a repeated claim on that state pays nothing. The
/// program's claim instruction takes the lottery account read-only, so it
/// does not store the emptied pot.
pub proof fn lemma_claim_pays_pot_once(l: TokenLottery, ticket_amount: u64, m: TicketMetadata, collection_mint: Pubkey)
    ensures
        claim_outcome(l, ticket_amount, m, collection_mint) matches Ok((payout, next)) ==> {
            &&& payout == l.lottery_pot_amount
            &&& next.lottery_pot_amount == 0
            &&& claim_outcome(next, ticket_amount, m, collection_mint) == Ok::<(u64, TokenLottery), CustomErrors>((0u64, next))
        },
{
}

/// Only the winning ticket claims: the claimant's ticket is named after the
/// winner, and the ticket of any other number is refused.
pub proof fn lemma_only_winning_ticket_claims(
    l: TokenLottery,
    ticket_amount: u64,
    m: TicketMetadata,
    collection_mint: Pubkey,
    ticket: nat,
)
    requires
        m.name@ == ticket_name_of(ticket),
    ensures
        claim_outcome(l, ticket_amount, m, collection_mint) is Ok ==> ticket == l.winner,
        ticket != l.winner ==> claim_outcome(l, ticket_amount, m, collection_mint) is Err,
{
    if claim_outcome(l, ticket_amount, m, collection_mint) is Ok {
        lemma_ticket_names_distinct(ticket, l.winner as nat);
    }
}

/// Distinct tickets are minted under distinct seeds, hence at distinct
/// addresses.
pub proof fn lemma_ticket_seeds_distinct(a: u64, b: u64)
    requires
        a != b,
    ensures
        spec_u64_to_le_bytes(a) != spec_u64_to_le_bytes(b),
{
    lemma_auto_spec_u64_to_from_le_bytes();
}

/// Configuration stores its arguments as given: the price, the window and
/// the authority, with an empty pot, no tickets and no winner; the first
/// sale in the window then puts exactly the configured price into the pot.
pub proof fn lemma_configuration_keeps_its_arguments(
    l: TokenLottery,
    start_time: u64,
    end_time: u64,
    ticket_price: u64,
    authority: Pubkey,
    bump: u8,
    slot: u64,
)
    requires
        is_fresh_lottery(l, start_time, end_time, ticket_price, authority, bump),
    ensures
        l.ticket_price == ticket_price,
        l.start_time == start_time,
        l.end_time == end_time,
        l.authority == authority,
        l.bump == bump,
        l.lottery_pot_amount == 0,
        l.total_tickets == 0,
        !l.winner_chosed,
        start_time <= slot <= end_time ==> (buy_outcome(l, slot) matches Ok(next)
            && next.lottery_pot_amount == ticket_price && next.total_tickets == 1
            && next.ticket_price == ticket_price),
{
}

/// The authority's commitment is accepted exactly when the randomness was
/// seeded in the slot just before, and refused as already revealed
/// otherwise; anyone else is refused as unauthorized.
pub proof fn lemma_commitment_needs_previous_slot(l: TokenLottery, signer: Pubkey, seed_slot: u64, slot: u64)
    requires
        slot > 0,
    ensures
        l.authority == signer && seed_slot as int == slot as int - 1
            ==> commit_outcome(l, signer, seed_slot, slot) == Ok::<(), CustomErrors>(()),
        l.authority == signer && seed_slot as int != slot as int - 1
            ==> commit_outcome(l, signer, seed_slot, slot)
                == Err::<(), CustomErrors>(CustomErrors::RandomnessAlreadyRevealed),
        l.authority != signer ==> commit_outcome(l, signer, seed_slot, slot)
            == Err::<(), CustomErrors>(CustomErrors::UnauthorizedAction),
{
}

/// A draw that passes the checks on signer, account, earlier winner and end
/// slot, made in the reveal slot with tickets sold, always succeeds: the
/// winner is the first random byte modulo the number of tickets, whatever the
/// byte, and nothing else changes.
pub proof fn lemma_draw_succeeds_in_reveal_slot(
    l: TokenLottery,
    signer: Pubkey,
    randomness_account: Pubkey,
    reveal_slot: u64,
    value_byte: u8,
    slot: u64,
)
    requires
        l.authority == signer,
        l.randomness_account == randomness_account,
        !l.winner_chosed,
        slot < l.end_time,
        slot == reveal_slot,
        l.total_tickets > 0,
    ensures
        reveal_outcome(l, signer, randomness_account, reveal_slot, value_byte, slot) matches Ok(next) && {
            &&& next.winner as int == value_byte as int % l.total_tickets as int
            &&& next.winner_chosed
            &&& next.total_tickets == l.total_tickets
            &&& next.lottery_pot_amount == l.lottery_pot_amount
            &&& next.ticket_price == l.ticket_price
            &&& next.start_time == l.start_time
            &&& next.end_time == l.end_time
            &&& next.authority == l.authority
            &&& next.randomness_account == l.randomness_account
            &&& next.bump == l.bump
        },
{
}

/// A claim by a holder of the ticket that is verified in the lottery's
/// collection and named after the drawn winner, whatever its number, is paid
/// the whole pot, which is then empty.
pub proof fn lemma_winning_ticket_is_paid(
    l: TokenLottery,
    ticket_amount: u64,
    m: TicketMetadata,
    collection_mint: Pubkey,
)
    requires
        l.winner_chosed,
        ticket_amount > 0,
        m.collection == Some(CollectionRef { verified: true, key: collection_mint }),
        m.name@ == NAME@ + decimal(l.winner as nat),
    ensures
        claim_outcome(l, ticket_amount, m, collection_mint) matches Ok((payout, next)) && {
            &&& payout == l.lottery_pot_amount
            &&& next.lottery_pot_amount == 0
            &&& next.winner == l.winner
            &&& next.winner_chosed
            &&& next.total_tickets == l.total_tickets
            &&& next.ticket_price == l.ticket_price
        },
{
}

/// A purchased ticket is named after its own number in decimal, so the
/// names of tickets with different numbers differ, and when that ticket is
/// drawn its holder's claim is not refused on the name.
pub proof fn lemma_purchase_names_its_ticket(
    p: TicketPurchase,
    l: TokenLottery,
    collection_mint: Pubkey,
    later: TokenLottery,
    ticket_amount: u64,
    m: TicketMetadata,
)
    requires
        is_purchase_of(p, l, collection_mint),
        later.winner_chosed,
        later.winner == p.ticket_number,
        ticket_amount > 0,
        m.collection == Some(CollectionRef { verified: true, key: collection_mint }),
        m.name@ == p.metadata.name@,
    ensures
        p.ticket_number == l.total_tickets,
        p.metadata.name@ == NAME@ + decimal(l.total_tickets as nat),
        claim_refusal(later, ticket_amount, m, collection_mint) is None,
{
}

/// Two purchases of tickets with different numbers carry different names.
pub proof fn lemma_purchases_named_apart(
    p: TicketPurchase,
    l: TokenLottery,
    q: TicketPurchase,
    k: TokenLottery,
    collection_mint: Pubkey,
)
    requires
        is_purchase_of(p, l, collection_mint),
        is_purchase_of(q, k, collection_mint),
        p.ticket_number != q.ticket_number,
    ensures
        p.metadata.name@ != q.metadata.name@,
{
    if p.metadata.name@ == q.metadata.name@ {
        lemma_ticket_names_distinct(p.ticket_number as nat, q.ticket_number as nat);
    }
}

} // verus!
