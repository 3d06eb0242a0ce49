# sfu_kit

The decision core of a multi-client WebRTC selective forwarding unit (SFU),
written in Verus and proved against its contracts.

## Layout

- `src/` — the verified library (`sfu_kit`):
  - `av1`, `vfm` — RTP header-extension parsers (AV1 dependency descriptor,
    RFC 9626 frame marking).
  - `ids` — simulcast layer ids (RID), media ids (MID) and payload types,
    stored space-padded exactly as the WebRTC engine stores them.
  - `bwe` — the per-subscriber hysteretic layer pacer (`hysteresis`, its
    laws in `pacer_laws`, thresholds in `pacer_config`), the GoogCC AIMD
    controller, the loss window and the bounded send-time map.
  - `layer_selector` — best-fit simulcast layer selection.
  - `client` — per-subscriber forwarding state and the packet filter, the
    pre-registered DataChannels, keyframe-request throttling.
  - `registry` — pacer-action events, publisher layer hints, fanout routing.
  - `sframe` — the SFrame key-epoch header extension wire format.
  - `config` — runtime configuration and port parsing.
- `tests/` — tests of the library run with the real engine crates linked.
- `app/` — ordinary Rust around the library: the str0m `Rtc` per peer, the
  tokio UDP loop, Prometheus metrics, the dominant-speaker detector,
  environment variables and the floating-point bandwidth estimators.
