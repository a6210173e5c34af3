# checkin_embedded

A check-in kiosk for HackGT built on a Raspberry Pi (two HT16K33 LED
matrices, a buzzer and an NFC reader), and the manager server that approves
kiosks and assigns them check-in tags.

`src/` is the verified library:

- `glyph`, `display`: the matrix font, the frame buffer, the columns a text is
  drawn as and the frames of a text scrolling across the displays.
- `crypto`, `hexfmt`: the kiosk's ed25519 key pair, hashing and hex text.
- `manager`: the kiosk's side of the manager protocol (signed requests,
  statuses, credential replies, tag updates, start-up decisions).
- `auth`: the server's check of signed requests.
- `server`, `order`: what each manager request does to the stored device
  record and what it answers; tag listings in order.
- `admin`: sign-in to the manager's pages.
- `checkin`: the check-in service's login cookie and check-in mutation.
- `relative_time`: how long ago a check-in happened, in words.
- `reader`: which NFC readers to watch and when a card counts as a tap.
- `kiosk`: what the kiosk shows and plays when a badge is tapped.
- `legacy`: the first version of the device status.

`app/` holds the programs (the kiosk and the web server): network, disk,
hardware and threads.
