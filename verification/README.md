# academy

A learning platform whose progress, XP rewards and credentials live in
on-chain accounts, with its rules verified by Verus.

- `src/` is the verified library. Each instruction (`initialize`,
  `register_minter`, `revoke_minter`, `update_config`, `create_course`,
  `update_course`, `finalize_course`, `enroll`, `complete_lesson`,
  `close_enrollment`, `issue_credential`, `upgrade_credential`) is a function
  over the accounts it reads, held as plain values. Its contract says, for
  every input, which error comes (in the order the checks run) or what the
  accounts become and which XP mint, event, or credential creation (frozen,
  with its attributes) or update is left to do.
  `progress.rs` models the 256-lesson completion bitmap; `laws.rs` holds the
  properties that span instructions.
- `app/` is the on-chain program around it: account validation and PDA seeds,
  the clock, XP token mints and credential assets.
- `tests/` runs the library on concrete accounts.
