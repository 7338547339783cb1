# aqua_gateway

The rules of a gateway that gathers several AI services behind one API, written in Verus:
who is let in, which upstream serves a model, what is sent to it, what follows from its
reply, and what a caller is told. A few tools (subnets, text statistics, Base64, dice,
UUIDs, timestamps) need no upstream at all.

- `src/` is the library. Every function states what it returns, and Verus proves it. What
  holds across functions stands in public proof functions whose names begin with `law_`.
- `tests/` runs the library on concrete values.
- `app/` is the worker around it: it reads requests, calls upstreams, waits, keeps records
  and draws random numbers, and asks the library for each next step.

Calls that are not instantaneous are split into steps. A chat through the pool of keys, for
instance, is `pool::begin`, then `pool::pick` with what the pool answered, then
`pool::settle` with what the upstream replied, until one of them ends it.

JSON documents are those of `serde_json`, and contracts speak of what they hold
(`json::JsonView`). Base64 comes from the `base64` crate.
