# AutoBridge Win

The Windows end of a transparent tunnel. ISTA, a diagnostic client on the local network,
talks to a BMW that AutoBridge Mac reaches; a relay stands between the two machines. The
protocol runs end to end between ISTA and the vehicle: this end passes on raw bytes, each
message to the relay being one byte for the channel (`0x00` TCP stream, `0x01` UDP datagram)
followed by the bytes.

`src/` is the library, verified with Verus. It takes the decisions; of the outside world it
reads only the local time, for the log.

| module       | content                                                                  |
|--------------|--------------------------------------------------------------------------|
| `frame`      | the framing, and the decoding of base64 payloads                          |
| `json`       | JSON text, read and written by `serde_json`                               |
| `message`    | the text messages of the relay                                            |
| `session`    | what a session needs, the join handshake, what each step reports          |
| `setup`      | the way from a configuration to a running tunnel                          |
| `tunnel`     | the steps of the tasks of a running tunnel                                |
| `state`      | configuration, status, log, start and end of a connection                 |
| `interfaces` | the network interfaces offered to the user                                |
| `relay_test` | the test whether the relay can be reached                                 |
| `text`       | operations on text                                                        |
| `laws`       | what holds of the library as a whole                                      |

`app/` is the Tauri application around it: sockets, clock, user interface. It performs the
actions that the library asks for and reports back what came of them.
