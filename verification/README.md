# InternalVoice

A system-health narrator: it samples the machine, decides when something is worth
saying, asks Gemini for a short spoken summary, and plays or speaks the answer.

The decisions are a Verus-verified library (`src/`); the program around it (`app/`)
does the I/O.

## Library (`src/`)

- `polling`: the polling loop's steps: when the cache is consulted, when Gemini is
  asked, what is done with a reply, when it is cached, and when the loop stops.
- `policy`: when the narrator speaks (alerts, resource pressure, periodic updates,
  debounce), the bounded state and message histories, the system instruction, and
  what is done with the model's decision.
- `alerts`, `ranking`, `model`: threshold and platform alerts, process ranking, and
  floating-point readings as order keys.
- `breaker`, `gemini`, `sse`, `live`, `json`: the circuit breaker, HTTP status
  handling, server-sent-event decoding, Live-session framing and the JSON messages.
- `security`, `config`, `cache`, `audio`, `setup`, `tools`, `tts`: key lookup order,
  configuration defaults and location, prompt-cache keys and freshness, PCM framing,
  the setup wizard's answers, tool dispatch and the Windows speech command.
- `advisor`, `probe`: the local-LLM tier table and the parsing of hardware reports.
- `text`: string operations with exact specifications.

Laws that span several calls are public proof functions named `law_*`.

## Program (`app/`)

`main` runs the Live WebSocket session, or polls with streaming HTTP requests when it
cannot connect. Sampling uses `sysinfo`, audio uses `cpal` and `rodio`, the prompt
cache is SQLite, the key may come from the OS keyring.

## Configuration

`INTERNALVOICE_CONFIG` names the configuration file; when it is unset or missing,
`./config.toml`, then `./config/InternalVoice.example.toml`, then the user's
configuration directory are used. Run with `--setup` for the interactive wizard.
