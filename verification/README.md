# psp22_asset_extension

A chain extension for the contracts pallet that gives ink! contracts the
PSP22 operations of the assets pallet: create, mint, burn, transfer,
approve, approved transfer, balance, total supply, allowance and metadata.

- `src/` is verified with Verus. `request` holds the function ids and the
  SCALE layout of each request and decodes them into a pallet operation;
  `errors` holds the errors reported to contracts, what each runtime error
  becomes, and their encoding; `scale` holds the compact-length byte strings
  of the SCALE codec; `extension` decides, for a call, which operation runs
  (`Psp22AssetExtension::plan`) and what the contract is answered
  (`Psp22AssetExtension::respond`).
- `app/` implements the contracts pallet's `ChainExtension` trait: it reads
  the input, runs the chosen operation on the assets pallet, converts the
  runtime's errors, and writes the answer.
- `tests/` runs the library on concrete requests and outcomes.
