# vpn_bot_tg

A Telegram bot that sells and manages VPN subscriptions of a Remnawave
panel: a trial subscription, paid tariffs through the Platega payment
provider, and the devices bound to a subscription.

`src/` is the verified library, checked by Verus:

- `tariff`: the catalogue of tariffs, its rules and its display order.
- `trial`, `activation`: the issuing of a trial and the activation of a paid
  order, as state machines that take the outcome of each database or panel
  call and say what to do next.
- `device`: stable device tokens, ownership checks, the ordered device list
  and the confirmation of a deletion.
- `payment`, `webhook`: the transaction sent to the provider and the answer
  to each provider callback.
- `database`, `config`, `remnawave`: the rules behind the stored rows, the
  settings and the panel's data.
- `ui`, `bot`: every text and keyboard the bot shows.
- `text`, `time`, `url`: strings, dates and URLs.

`app/` is the program around it: the Telegram dispatcher, the HTTP endpoint
of the provider, PostgreSQL, the panel's HTTP API and the environment.
