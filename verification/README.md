# torchflower

The verified core of the TorchFlower Bedrock bot engine, written in Verus.

- `src/` is the library. It holds the wire encodings (varints, framing,
  packets), the observation parsers, batch compression and encryption, the
  protocol adapter's pipeline and handshake, and the bot's decision rules:
  terrain and target choice, the teleport, break, pickup and movement
  steps, and the validation loop's handling of what the server sends. Each
  public function states its result in its contract, and the laws that span
  functions are proof functions.
- `tests/` runs the library on concrete values.
- `app/` is the command-line front end: it reads files and the environment,
  calls the library, and prints what comes back.
