use token_lottery::errors::CustomErrors;
use token_lottery::lottery::{
    buy_ticket, claim_tokens, commit_randomness, commit_randomness_account, initialize_config,
    reveal_winner, reveal_winner_account, TicketMetadata,
};
use token_lottery::metadata::{collection_metadata, ticket_metadata, CollectionRef};
use token_lottery::randomness::{read_randomness, RandomnessReading, RANDOMNESS_ACCOUNT_LEN};
use token_lottery::state::{Pubkey, TokenLottery, ANCHOR_DISCRIMINATOR, INIT_SPACE};
use token_lottery::ticket::{ticket_name, NAME, SYMBOL, URI};

fn key(b: u8) -> Pubkey {
    Pubkey::new_from_array([b; 32])
}

fn lottery() -> TokenLottery {
    initialize_config(100, 200, 5, key(1), 254)
}

fn randomness_data(seed_slot: u64, reveal_slot: u64, first_byte: u8) -> Vec<u8> {
    let mut data = vec![0u8; RANDOMNESS_ACCOUNT_LEN];
    data[..8].copy_from_slice(&[10, 66, 229, 135, 220, 239, 217, 114]);
    data[104..112].copy_from_slice(&seed_slot.to_le_bytes());
    data[144..152].copy_from_slice(&reveal_slot.to_le_bytes());
    data[152] = first_byte;
    for i in 153..184 {
        data[i] = i as u8;
    }
    data
}

fn reading(seed_slot: u64, reveal_slot: u64, first_byte: u8) -> RandomnessReading {
    let mut value = [7u8; 32];
    value[0] = first_byte;
    RandomnessReading { seed_slot, reveal_slot, value }
}

fn drawn_lottery(tickets: u64, winner_byte: u8) -> TokenLottery {
    let mut l = lottery();
    for _ in 0..tickets {
        buy_ticket(&mut l, 150, key(9)).unwrap();
    }
    let account = l.randomness_account;
    reveal_winner(&mut l, key(1), account, &reading(149, 160, winner_byte), 160).unwrap();
    l
}

fn metadata(verified: bool, collection: Pubkey, name: String) -> TicketMetadata {
    TicketMetadata { collection: Some(CollectionRef { verified, key: collection }), name }
}

#[test]
fn error_codes_and_messages() {
    assert_eq!(CustomErrors::OutOfTime.code(), 6000);
    assert_eq!(CustomErrors::NoTicket.code(), 6009);
    assert_eq!(CustomErrors::IncorrectTicket.code(), 6008);
    assert_eq!(CustomErrors::OutOfTime.message(), "Out of time to buy the ticket.");
    assert_eq!(CustomErrors::WinnerChosen.message(), "Winner already chosen.");
    assert_eq!(CustomErrors::NoTicket.message(), "No tickets yet.");
}

#[test]
fn account_space() {
    assert_eq!(ANCHOR_DISCRIMINATOR + INIT_SPACE, 122);
}

#[test]
fn fresh_lottery() {
    let l = lottery();
    assert_eq!(l.bump, 254);
    assert_eq!(l.winner, 0);
    assert!(!l.winner_chosed);
    assert_eq!((l.start_time, l.end_time, l.ticket_price), (100, 200, 5));
    assert_eq!((l.lottery_pot_amount, l.total_tickets), (0, 0));
    assert!(l.authority.same_as(&key(1)));
    assert_eq!(l.randomness_account.to_bytes(), [0u8; 32]);
}

#[test]
fn keys_compare_bytewise() {
    let mut b = [3u8; 32];
    assert!(key(3).same_as(&Pubkey::new_from_array(b)));
    b[31] = 4;
    assert!(!key(3).same_as(&Pubkey::new_from_array(b)));
}

#[test]
fn ticket_names_are_decimal() {
    assert_eq!(ticket_name(0), "Token Lottery Ticket #0");
    assert_eq!(ticket_name(1234), "Token Lottery Ticket #1234");
    assert_eq!(ticket_name(u64::MAX), "Token Lottery Ticket #18446744073709551615");
    assert_eq!(ticket_name(42), format!("{}{}", NAME, 42));
}

#[test]
fn buying_a_ticket() {
    let mut l = lottery();
    let p = buy_ticket(&mut l, 150, key(9)).unwrap();
    assert_eq!(p.ticket_number, 0);
    assert_eq!(p.price, 5);
    assert_eq!(p.mint_seed, 0u64.to_le_bytes().to_vec());
    assert_eq!(p.metadata.name, "Token Lottery Ticket #0");
    assert_eq!(p.metadata.symbol, SYMBOL);
    assert_eq!(p.metadata.uri, URI);
    assert_eq!(p.metadata.creators.len(), 1);
    assert!(p.metadata.creators[0].address.same_as(&key(9)));
    assert_eq!(p.metadata.creators[0].share, 100);
    assert!(p.metadata.creators[0].verified);
    assert_eq!(p.metadata.max_supply, Some(0));
    assert_eq!(p.metadata.collection_size, None);
    assert_eq!(p.metadata.mint_amount, 1);
    assert!(p.metadata.collection.is_none());
    assert!(p.metadata.uses.is_none());
    assert!(p.metadata.is_mutable);
    assert!(p.metadata.update_authority_is_signer);
    assert!(p.collection_authority_record.is_none());
    assert_eq!((l.lottery_pot_amount, l.total_tickets), (5, 1));
    let q = buy_ticket(&mut l, 150, key(9)).unwrap();
    assert_eq!(q.ticket_number, 1);
    assert_eq!(q.mint_seed, vec![1, 0, 0, 0, 0, 0, 0, 0]);
    assert_eq!(q.metadata.name, "Token Lottery Ticket #1");
    assert_eq!((l.lottery_pot_amount, l.total_tickets), (10, 2));
}

#[test]
fn sale_window_is_inclusive() {
    let mut l = lottery();
    assert!(buy_ticket(&mut l, 100, key(9)).is_ok());
    assert!(buy_ticket(&mut l, 200, key(9)).is_ok());
    assert_eq!(l.total_tickets, 2);
}

#[test]
fn sale_outside_window_is_refused() {
    let mut l = lottery();
    assert_eq!(buy_ticket(&mut l, 99, key(9)).unwrap_err(), CustomErrors::OutOfTime);
    assert_eq!(buy_ticket(&mut l, 201, key(9)).unwrap_err(), CustomErrors::OutOfTime);
    assert_eq!((l.lottery_pot_amount, l.total_tickets), (0, 0));
}

#[test]
fn pot_holds_every_ticket_price() {
    let mut l = initialize_config(0, 10, 7, key(1), 1);
    for i in 0..13u64 {
        let p = buy_ticket(&mut l, 5, key(2)).unwrap();
        assert_eq!(p.ticket_number, i);
        assert_eq!(l.lottery_pot_amount, l.ticket_price * l.total_tickets);
    }
    assert_eq!(l.lottery_pot_amount, 91);
}

#[test]
fn ticket_seeds_differ() {
    let mut l = lottery();
    let a = buy_ticket(&mut l, 150, key(9)).unwrap();
    let b = buy_ticket(&mut l, 150, key(9)).unwrap();
    assert_ne!(a.mint_seed, b.mint_seed);
    assert_ne!(a.metadata.name, b.metadata.name);
}

#[test]
fn collection_metadata_splits_royalties() {
    let m = collection_metadata(key(4), key(5));
    assert_eq!(m.name, NAME);
    assert_eq!(m.symbol, SYMBOL);
    assert_eq!(m.uri, URI);
    assert_eq!(m.seller_fee_basis_points, 0);
    assert_eq!(m.creators.len(), 2);
    assert!(m.creators[0].address.same_as(&key(4)));
    assert!(m.creators[1].address.same_as(&key(5)));
    assert_eq!((m.creators[0].share, m.creators[1].share), (50, 50));
    assert!(!m.creators[0].verified && !m.creators[1].verified);
    assert_eq!(m.collection_size, Some(0));
    assert_eq!(m.max_supply, None);
    assert_eq!(m.mint_amount, 1);
    assert!(m.collection.is_none());
    assert!(m.uses.is_none());
    assert!(m.is_mutable);
    assert!(m.update_authority_is_signer);
    let t = ticket_metadata(7, key(4));
    assert_eq!(t.name, "Token Lottery Ticket #7");
}

#[test]
fn reading_a_randomness_account() {
    let data = randomness_data(41, 43, 200);
    let r = read_randomness(&data).unwrap();
    assert_eq!(r.seed_slot, 41);
    assert_eq!(r.reveal_slot, 43);
    assert_eq!(r.value[0], 200);
    assert_eq!(r.value[31], 183);
}

#[test]
fn malformed_randomness_accounts_do_not_parse() {
    let mut data = randomness_data(41, 43, 200);
    data[0] = 11;
    assert!(read_randomness(&data).is_none());
    let data = randomness_data(41, 43, 200);
    assert!(read_randomness(&data[..RANDOMNESS_ACCOUNT_LEN - 1]).is_none());
    assert!(read_randomness(&data[..4]).is_none());
}

#[test]
fn commitment_rules() {
    let l = lottery();
    assert_eq!(
        commit_randomness(&l, key(2), &reading(9, 0, 0), 10),
        Err(CustomErrors::UnauthorizedAction)
    );
    assert_eq!(
        commit_randomness(&l, key(1), &reading(8, 0, 0), 10),
        Err(CustomErrors::RandomnessAlreadyRevealed)
    );
    assert_eq!(commit_randomness(&l, key(1), &reading(9, 0, 0), 10), Ok(()));
}

#[test]
fn commitment_from_account_data() {
    let l = lottery();
    let data = randomness_data(9, 0, 0);
    assert_eq!(commit_randomness_account(&l, key(1), &data, 10), Some(Ok(())));
    assert_eq!(
        commit_randomness_account(&l, key(1), &data, 11),
        Some(Err(CustomErrors::RandomnessAlreadyRevealed))
    );
    assert_eq!(
        commit_randomness_account(&l, key(2), &data[..3], 10),
        Some(Err(CustomErrors::UnauthorizedAction))
    );
    assert_eq!(commit_randomness_account(&l, key(1), &data[..3], 10), None);
    assert_eq!(commit_randomness_account(&l, key(1), &data, 0), None);
}

#[test]
fn draw_refusals() {
    let mut l = lottery();
    buy_ticket(&mut l, 150, key(9)).unwrap();
    let zero = l.randomness_account;
    let r = reading(0, 160, 3);
    assert_eq!(reveal_winner(&mut l, key(2), zero, &r, 160), Err(CustomErrors::UnauthorizedAction));
    assert_eq!(reveal_winner(&mut l, key(1), key(8), &r, 160), Err(CustomErrors::IncorrectRandomness));
    assert_eq!(reveal_winner(&mut l, key(1), zero, &r, 200), Err(CustomErrors::OutOfTime));
    assert_eq!(reveal_winner(&mut l, key(1), zero, &r, 161), Err(CustomErrors::RandomnessNotResolved));
    assert!(!l.winner_chosed);
    assert_eq!(reveal_winner(&mut l, key(1), zero, &r, 160), Ok(()));
    assert_eq!(reveal_winner(&mut l, key(1), zero, &r, 160), Err(CustomErrors::WinnerChosen));
}

#[test]
fn draw_takes_first_byte_modulo_tickets() {
    let l = drawn_lottery(7, 200);
    assert!(l.winner_chosed);
    assert_eq!(l.winner, 200 % 7);
    assert!(l.winner < l.total_tickets);
    let l = drawn_lottery(1, 255);
    assert_eq!(l.winner, 0);
}

#[test]
fn draw_from_account_data() {
    let mut l = lottery();
    for _ in 0..3 {
        buy_ticket(&mut l, 150, key(9)).unwrap();
    }
    let zero = l.randomness_account;
    let data = randomness_data(10, 170, 11);
    assert_eq!(reveal_winner_account(&mut l, key(1), zero, &data, 171), Some(Err(CustomErrors::RandomnessNotResolved)));
    assert_eq!(reveal_winner_account(&mut l, key(1), zero, &data[..20], 170), None);
    assert!(!l.winner_chosed);
    assert_eq!(reveal_winner_account(&mut l, key(1), zero, &data, 170), Some(Ok(())));
    assert_eq!(l.winner, 11 % 3);
    assert_eq!(reveal_winner_account(&mut l, key(1), zero, &data, 170), Some(Err(CustomErrors::WinnerChosen)));
}

#[test]
fn draw_without_tickets_aborts() {
    let mut l = lottery();
    let zero = l.randomness_account;
    let data = randomness_data(10, 170, 11);
    assert_eq!(reveal_winner_account(&mut l, key(1), zero, &data, 170), None);
    assert!(!l.winner_chosed);
}

#[test]
fn sales_after_the_draw_keep_the_winner() {
    let mut l = drawn_lottery(4, 6);
    assert_eq!(l.winner, 2);
    buy_ticket(&mut l, 190, key(9)).unwrap();
    assert_eq!(l.winner, 2);
    assert!(l.winner_chosed);
    assert_eq!(l.total_tickets, 5);
}

#[test]
fn claim_refusals() {
    let mut undrawn = lottery();
    buy_ticket(&mut undrawn, 150, key(9)).unwrap();
    let good = metadata(true, key(9), ticket_name(0));
    assert_eq!(claim_tokens(&mut undrawn, 1, &good, key(9)), Err(CustomErrors::WinnerNotChosen));

    let mut l = drawn_lottery(3, 4);
    let winner_name = ticket_name(l.winner);
    assert_eq!(claim_tokens(&mut l, 0, &metadata(true, key(9), winner_name.clone()), key(9)), Err(CustomErrors::NoTicket));
    assert_eq!(claim_tokens(&mut l, 1, &metadata(false, key(9), winner_name.clone()), key(9)), Err(CustomErrors::TokenNotVerified));
    assert_eq!(claim_tokens(&mut l, 1, &metadata(true, key(8), winner_name.clone()), key(9)), Err(CustomErrors::IncorrectTicket));
    assert_eq!(claim_tokens(&mut l, 1, &metadata(true, key(9), ticket_name(0)), key(9)), Err(CustomErrors::IncorrectTicket));
    assert_eq!(l.lottery_pot_amount, 15);
}

#[test]
fn claim_pays_the_pot_once() {
    let mut l = drawn_lottery(3, 4);
    assert_eq!(l.winner, 1);
    let m = metadata(true, key(9), "Token Lottery Ticket #1".to_string());
    assert_eq!(claim_tokens(&mut l, 1, &m, key(9)), Ok(15));
    assert_eq!(l.lottery_pot_amount, 0);
    assert_eq!(claim_tokens(&mut l, 1, &m, key(9)), Ok(0));
    assert_eq!(l.total_tickets, 3);
}

#[test]
fn randomness_parses_wherever_it_lies_in_memory() {
    let data = randomness_data(41, 43, 200);
    for shift in 0..9 {
        let mut buf = vec![0u8; shift];
        buf.extend_from_slice(&data);
        let r = read_randomness(&buf[shift..]).unwrap();
        assert_eq!((r.seed_slot, r.reveal_slot, r.value[0]), (41, 43, 200));
    }
}

#[test]
fn longer_randomness_data_still_parses() {
    let mut data = randomness_data(5, 6, 9);
    data.extend_from_slice(&[1, 2, 3]);
    let r = read_randomness(&data).unwrap();
    assert_eq!((r.seed_slot, r.reveal_slot, r.value[0]), (5, 6, 9));
}
