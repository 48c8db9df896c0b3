# project_comments

Discussion threads, comments, replies and reactions attached to posts of
other Solana programs, with every instruction's decision logic written in
Verus and proved against its contract.

- `src/` is the verified library:
  - `key`: 32-byte addresses and this program's own address;
  - `state`, `events`, `error`: the accounts, the events and the refusals;
  - `accounts`: what each instruction sees of its accounts, with the
    accounts it creates as `None` until they exist and the reactions it
    closes as `None` once their lamports have gone to their destination;
  - `checks`: the validators (signer, pause, lock, body, reaction kind,
    eligibility, metadata, owner, pinned program);
  - `metadata`: decoding of the post and user metadata that source programs
    publish, bare or behind an account discriminator;
  - `pda`: canonical derived addresses, found through the framework;
  - `sysvar`: the instructions sysvar checks, made through the framework;
  - `instructions`: the eleven instructions, each a function from accounts,
    arguments and the current time to updated accounts and an event, or a
    refusal;
  - `laws`: properties that span the instructions (pause, lock,
    authorization, accounts never created twice, one thread per post, one
    live reaction per user and kind, removal undoing addition, reaction
    totals counting live reactions, comment ids in call order, metadata
    round trips).
- `app/` is the on-chain program: it reads accounts and the clock, calls the
  library, writes the accounts back, closes the reactions that the library
  closed, and emits the events.
- `tests/` runs the library on concrete accounts.
