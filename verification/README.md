# voicetastic_web

The core of a browser client for Meshtastic radios: voice messages, text and settings
over Web Serial and Web Bluetooth. `src/` is a Verus library. It works on plain values
and decides what is to be done; `app/` owns the browser's handles, the protobuf
conversions and the background tasks, and does it.

| Module     | What it holds                                                            |
|------------|--------------------------------------------------------------------------|
| `serial`   | framing of the USB stream, and the deframer for arbitrary chunks         |
| `codec`    | cutting clips into Codec2 frames and back                                |
| `amrnb`    | cutting clips into AMR-NB frames                                         |
| `text`     | numbers as text                                                          |
| `state`    | what the radio has reported                                              |
| `settings` | the settings snapshot, and the admin messages that write a section       |
| `events`   | event objects for the page                                               |
| `ble`      | the flags of a Bluetooth link: drains, polling, reconnect campaigns      |
| `voice`    | what becomes of a voice frame                                            |
| `sending`  | a voice message from the captured clip to the last frame                 |
| `client`   | the client of one connection: packet ids, plans, start and teardown      |
| `util`     | random numbers                                                           |

Contracts speak of the mathematical views of the types. Beside them stand the laws of
the library as public proof functions, for example that a framed stream is read back as
exactly its payloads however it is cut into chunks (`serial`), that writing back a
settings section just as it was read changes nothing (`settings`), and that two drains
of a Bluetooth radio's outbox never overlap (`ble`).

The library takes one thing on trust: of the `codec2` crate's coder, its frame sizes and
which frames it was given. Of the random numbers that it draws through the `getrandom`
crate it assumes nothing.
