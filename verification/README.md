# ratma_tg_types

Update delivery for a Telegram bot, with its decisions verified by Verus.

- `src/poller.rs`: long polling. `LongPoller` keeps the `getUpdates` offset;
  a batch is delivered in order and moves it one past the greatest update id,
  a failed call ends the stream with its error.
- `src/webhook.rs`: the webhook's configuration, its secret token, and the
  `setWebhook` / `deleteWebhook` calls it makes.
- `src/secret.rs`: the random bytes of the secret token and their UUID text
  (through `rand` and `uuid`).
- `src/listener.rs`: what the listener does with one incoming request.
- `src/startup.rs`: bringing a webhook up, and taking it down again when
  registration fails.
- `src/stream.rs`: the update stream of a running webhook, which ends with one
  error after removing the webhook once the listener task has ended.
- `app/`: the network side (Telegram client calls, TCP listener, hyper
  service, async streams), which performs the actions the library decides.
