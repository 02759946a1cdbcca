# libriichi (verified core)

Verified helpers of a three-player riichi mahjong (sanma) engine, written in
Verus:

- `consts`: action-space and observation-shape constants of the model interface.
- `rankings`: final placement of the three players.
- `action`: mapping between the canonical 47-slot action layout and the trained
  44-slot layout, with the laws that relate the two directions.
- `hand`: tallying tile ids into a 34-kind hand.
- `arena`: seeds and seating of a batch of three-engine arena games, drawn from a
  ChaCha8 generator.
- `wasm`: values in the shape the JavaScript bindings hand out.

`app/` holds the `wasm-bindgen` bindings.
