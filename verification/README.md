# edge_config

Configuration of a media edge node: the data model, its validation, the split
between operational settings and secrets, and the encryption of the secrets at
rest. The library under `src/` is verified with Verus; `app/` is the ordinary
Rust around it (files, environment, JSON).

## How the rules are stated

Every check is a function from the configuration to the message of the first
failure, or none (`..._fault`). The executable check returns exactly that
message. `validation::config_fault` is the whole rule book, and
`validation::laws` says what holds of every configuration that passes it:
identifiers are unique, references resolve, no input, output or port is used
twice, the legs of a bond and the programs and streams that a flow assembles are
told apart, and every relayed leg of a bond is encrypted exactly once.

## Modules

| Module | What it holds |
| --- | --- |
| `models`, `auth`, `manager`, `tunnel`, `audio_transcode`, `srt_filter` | the data model |
| `defaults`, `kinds`, `accessors` | defaults and small questions about single settings |
| `validation` | the rules, by protocol and for media, sockets, bonds, assembled streams and single bounds, and the laws |
| `lookup`, `resolve` | finding definitions, and a flow with all that it names |
| `secrets`, `persistence`, `crypto` | the two files and what is in them |
| `env_compat` | environment variables that fields have replaced |
| `webrtc` | encoding blocks for browsers |
| `pid_keys`, `id_map` | maps |
| `addr`, `number`, `binary`, `ratio`, `text`, `error` | addresses, numbers and text |

## What is trusted

The cryptographic primitives (`hmac`, `sha2`, `aes-gcm`, `base64`, `rand`), the
UUID parser and two functions of the standard library stand behind wrappers in
`crypto`, `validation::tunnels` and `text`; the comment above each says what is
taken for granted.

Numbers with a fraction are held by their bits together with the text that
messages show them by. What the SRT protocol library reads in a packet filter,
and what the transcoding engine says of a block, are part of the data: `app/`
fills them in.
