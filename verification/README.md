# pass

The logic of the Proton Pass command line tools, written in Verus.

- `src/` is the library. Every function in it carries a contract that
  Verus proves: the item model (`domain`), the validation of the move
  command and the sequence of API calls it needs (`move_item`), the choice
  of SSH keys and passphrases for the agent (`ssh_agent`), the content of
  new SSH key and alias items and the alias requests (`ssh_key_item`,
  `alias`), session locking and login messages (`session`), credentials
  (`credentials`), user information (`info`), and cross-cutting properties
  (`laws`).
- `app/` holds what talks to the outside world: clap argument types, the
  JSON shapes of the Pass API, and the commands that call the API.
- `tests/` exercises the library on concrete values.

The library calls two outside functions it cannot see into:
`str::to_lowercase` and the `ssh_key` crate (parsing, inspecting and
decrypting OpenSSH private keys). Their contracts are trusted and stated
next to the wrappers in `src/text.rs` and `src/ssh_agent.rs`.
