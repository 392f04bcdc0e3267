# hello_graphics

Firmware logic of the Cyber Ægg conference badge, verified with Verus.

* `src/` — the verified library: the menu carousel and overlays (toast,
  date picker, lock), the BornPets game rules (icon navigation, input
  routing, display animation, friends list and beacons, pet selection,
  the hidden cheat sequence), and the byte-level formats used by the
  flash bond store, the NFC Type 4 tag, the BLE companion link and the
  MeshCore message display.  Every public function carries a contract;
  the `lemma_*` proof functions state the properties that hold across
  calls (round trips of the codecs, cursor invariants, pairing gates).
* `tests/` — executable tests of the library.
* `app/` — the code around it: shared state behind locks, drawing with
  embedded-graphics, the TicKV bond store, and the NFC, BLE and buzzer
  loops over small transport traits.
