# game_core

The rules of a two-player card auto-battler, written in Verus with their
contracts proved.

- `src/` is the verified library. Server side: the per-player economy
  (`economy`, `economy_system`), the card catalog and per-player card pools
  with their seeded draws (`card`, `pool`, `pool_system`, `draws`, `seeded`),
  the round state machine and its timers (`rsm`, `timer`), objective
  counters (`objective`) and board tokens (`board`). Client side: the
  shop/auction panel state and its transitions (`auction`, `panels`,
  `shop_auction`, `shop_auction_input`, `purchases`, `offering`, `inspect`),
  the text and view models the panels show (`labels`, `panel_views`,
  `text`), the lobby (`lobby`, `room_code`), accessibility settings
  (`settings`) and phase notices (`notices`). Laws that span several calls
  are public proof functions named `law_*`.
- `tests/` runs the library on concrete values.
- `app/` is the Bevy shell: resources, plugins and systems that feed the
  library with frame time, keyboard input and stored preferences, the serde
  form of the preferences, and the floating-point parts (shop draw weights,
  board projection, fades).
