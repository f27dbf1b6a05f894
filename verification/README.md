# rp_binary_info

The 'Binary Info' records that `picotool` reads out of an RP2040 / RP2350
image: the header block, string / integer / pointer entries, and the pin
entries with their packed encodings, written in Verus.

- `src/consts.rs`: tags, IDs and the GPIO function numbers.
- `src/types.rs`: the entry types, the pin mask of `PinsWithName` and the
  pin encodings of `PinsWithFunction`, with their contracts.
- `src/names.rs`: joining pin names with `|` into one label.
- `src/laws.rs`: what the encodings give back, field by field, and which pin
  lists are accepted.

Addresses are held as plain `usize` numbers.
