# ethink

The decisions of the ethink pallet, which proxies transactions coming from the Ethereum RPC to
a contracts engine, as a verified library:

- `src/primitives.rs`: addresses, hashes and 256-bit integers.
- `src/transaction.rs`: legacy, EIP-2930 and EIP-1559 transactions, legacy signatures and
  their validity, message and transaction hashes.
- `src/crypto.rs`: Keccak-256 and secp256k1 public-key recovery, from `sp-io`.
- `src/validity.rs`: the verdicts handed to the transaction pool.
- `src/pallet.rs`: origins, signer recovery, the self-contained checks, and the planning and
  reporting of a dispatched transaction.
- `src/laws.rs`: properties across these functions.

`app/` is the FRAME pallet around the library: storage, events, dispatch, the runtime API,
and the codec and type information that FRAME asks of its types.
