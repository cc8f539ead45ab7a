# rrr

Verified core of a small rocket flight computer (ESP32 firmware, web front end
and desktop 3D viewer).

- `src/` — the library, verified with Verus:
  - `api` — Wi-Fi credentials and connection configuration, start-up choice.
  - `nvs` — layout of the credentials in the key-value flash store: the write
    and wipe plans, the read-back steps, and proofs that a completed write
    reads back unchanged while an interrupted write or wipe reads back as
    "no credentials".
  - `wifi` — radio bring-up steps with the fallback access point; proofs that
    the published state never holds a password.
  - `ota` — firmware update steps: call order, error mapping, download size,
    interrupted and oversized downloads.
  - `pixel` — the WS2812 driver of `ws2812-esp32-rmt-driver` with a record of
    the channel, pin and frames handed to it.
  - `led` — the status LED and its colours.
  - `server` — routes, content types and command replies of the web server.
  - `cone` — triangle list of the cone mesh, with its index bounds proved.
  - `ui` — front-end tab visibility.
- `app/` — the firmware's `main` and its platform drivers (ESP-IDF), the
  serde copies of the JSON types, the bevy viewer and the yew components.
- `tests/` — tests of the library.
