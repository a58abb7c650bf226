# token_lottery

A verified library for a ticket lottery that runs as a Solana program, and
the program around it.

- `src/` holds the rules, verified with Verus:
  - `state.rs`: account addresses and the lottery's state;
  - `lottery.rs`: configuration, ticket sales, randomness commitment,
    the winner's draw and the winner's claim, each as a function from the
    state and the instruction's inputs to the next state and what the
    program must do;
  - `ticket.rs`: ticket names (the collection's name and the ticket's
    number in decimal);
  - `metadata.rs`: the metadata of the collection and of each ticket;
  - `randomness.rs`: reading a Switchboard randomness account;
  - `errors.rs`: the refusals, with their codes and messages;
  - `laws.rs`: properties that span instructions (the pot holds every
    ticket's price, the winner is a sold ticket and is drawn once, a claim
    empties the pot in the state, only the winning ticket claims). The
    program's claim takes the lottery account read-only, so it does not
    store the emptied pot.
- `app/` is the Anchor program: account validation, clock reads and the
  cross-program invocations, calling the library for every decision.
- `tests/` runs the library on concrete cases.
