# openvtc

The logic of a terminal client for Open Verifiable Trust Communities, verified with Verus.

A user holds one account with a trust agent (VTA). Under it stand personas, each with a DID
of its own, and memberships in communities (VTCs), each presented by one persona. Two
personas can also have a relationship, over which they exchange messages and credentials
(VRCs).

## Layout

- `src/` is the verified library.
  - What an account holds: `account`, `config`, `ledger`, `keyed`, `vrc`.
  - What the screen shows: `state`, `main_page`, `menu`, `content`, `setup`, `join`, `sync`,
    `display`, `redact`.
  - What the user does: `actions`, `nav`, `communities`, `inbox_actions`,
    `relationship_actions`, `credential_actions`, `settings_actions`, `did_manager`, `vic`.
  - What arrives: `didcomm`, `message_dispatch`, `events`, `session_manager`.
  - The flows: `launch`, `setup_wizard`, `setup_config`, `setup_did_git_sign`, `join_flow`,
    `create_persona`, `vta`.
  - The loop: `runtime`, `background_dispatch`, `dispatch_util`, `save_coalesce`.
  - The ground: `text`, `sort`, `codec`, `json`, `clock`, `clipboard`, `git_sign`.
- `tests/` runs the library on concrete values.
- `app/` is the program around it: the command line, the store, the network and the loop
  that performs what the library decides. `app/remote.rs` holds every call into the
  network packages.

## Reading the contracts

Handlers that change the state come with a predicate over the state before and after, such
as `rejected_effect` or `join_launched`; what a handler leaves to be done outside is its
result. Public proof functions named `law_..` state what holds across handlers. What is not
proved is what calls out: the functions marked `external_body`, and `String::push`, whose
contract `text` assumes. Their doc comments say what is taken on trust.
