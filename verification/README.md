# babblebot

A Twitch chat bot with a web dashboard. The decisions the bot makes are a
library verified with Verus; the program around it talks to the outside
world.

- `src/` is the verified library. Each decision is a function from plain
  values (what the store, the chat line or a web service said) to the
  actions the bot takes (`action::Action`: store commands, chat lines, web
  requests, log lines), with a contract over the actions' models.
  `store.rs` models the key-value store and proves what later reads give
  back of the bot's writes.
- `app/` is the program: the chat connections (`chat.rs`), the periodic
  jobs (`workers.rs`), the dashboard (`site.rs`), the desktop agent
  (`desk.rs`), filling message variables (`fill.rs`), the store connection
  (`db.rs`) and carrying out actions (`act.rs`). `wire.rs` holds the
  serde and form copies of the library's records.
- `tests/` runs the library on concrete values.

The dashboard renders its pages with `rocket_dyn_templates`, which carries
the template support that `rocket_contrib` gave earlier Rocket versions
into Rocket 0.5.
