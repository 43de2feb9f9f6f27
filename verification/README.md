# Bluefang Player

A program that turns a computer into a Bluetooth speaker, with the media keys and the media
controls of the platform as its remote control.

What the player decides is a library whose behaviour is stated in contracts and proved with
Verus. The library takes messages and reports as plain values and answers with the effects to
carry out; the program around it carries them out.

| Where | What |
| --- | --- |
| `src/player.rs` | the player as a whole, from its start to the closing of its window |
| `src/states/running.rs` | the player at work: links, pairing, known devices, the screen |
| `src/states/devices.rs` | the devices that the player knows |
| `src/states/link_setup.rs` | securing a link that was made from here |
| `src/states/servers.rs` | what is served, and the loop of the servers |
| `src/states/remote_control.rs` | the playing device and the media controls |
| `src/states/session.rs` | the conversation with the playing device |
| `src/states/laws.rs` | what holds over any number of messages |
| `src/audio.rs` | from packets to the samples that are played |
| `src/bluetooth.rs` | bringing up the controller, and its firmware files |
| `src/config.rs` | the settings |
| `src/time.rs`, `src/text.rs`, `src/hci.rs` | times, decimal text, and the controller's vocabulary |
| `app/` | the window, the Bluetooth stack, the sound device and the files |
| `tests/` | the library on concrete values |

The volume and the resampler work on floating-point numbers and stay in `app/`, and so does the SBC
decoder that feeds them. Where the library carries a floating-point number, it carries the bit
pattern.

The program reads its icon and its icon font from `assets/` in the working directory.
