# sih26141

The verified core of the quantum-secured pipeline server (six-state QKD with a
Hoeffding-bound threat detector, key distillation and HMAC authentication).

`src/` is a Verus library:

- `limits` — request defaults and limits, the run-request settings, refusal texts
- `progress` — progress batches and what the streaming loop does after each qubit
- `seeds` — per-scenario seeds of a run
- `divergence` — first index where Bob's and Alice's sifted keys differ
- `verdict` — the authenticity decision and its explanation
- `distill` — the key-distillation steps (secret, tag, check) as a state machine
- `notices` — labels and error texts the server sends
- `clock` — the time-based seed for runs that name none
- `ports` — fallback ports tried when the requested one is refused
- `decimal` — decimal rendering used by the texts

`app/` is the HTTP/SSE server around it, with the floating-point threshold
arithmetic of the detector; `tests/` exercises the library.
