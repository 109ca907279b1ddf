# bp_primitives (taproot)

Bitcoin taproot primitives. The contracts of the library's functions are
proved, except those of the few trusted wrappers that call into
`commit_verify`, `secp256k1` and `amplify`: those contracts are assumed, and
each wrapper's doc comment says what it claims of the outside function.

- `src/taproot.rs`: leaf versions, tapscripts and their opcodes, leaf
  scripts, TapLeaf/TapBranch/TapTweak hashes, internal keys and their output
  keys, pay-to-taproot output scripts, and the laws that relate them.
- `src/script.rs`: script byte strings (kept in amplify's confined vector),
  witness versions and output scripts.
- `src/keys.rs`: x-only secp256k1 keys and their tweak (calls into
  `secp256k1`).
- `src/digest.rs`: the tagged SHA-256 hash (calls into `commit_verify`).
- `src/bytes.rs`: lexicographic order and little-endian lengths.
- `src/opcodes.rs`: the script opcodes used here.
- `app/lib.rs`: strict encoding (`strict_encoding`) and hexadecimal/text
  formatting of the library's types, on wrapping copies of them.
