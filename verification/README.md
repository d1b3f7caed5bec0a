# myzero2prod

The domain and mail-request logic of a newsletter service, verified with Verus.

- `src/domain/subscriber_email.rs`: `SubscriberEmail`, an address accepted by the
  `validator` crate's e-mail check; `parse` is accepted exactly on the texts that check
  accepts, keeps the text unchanged, and otherwise answers with a message naming the text.
- `src/email_client.rs`: `EmailClient`, which holds the sender, the API's base URL and the
  credentials (the key sealed in a `secrecy::SecretString`) and builds each send request:
  the URL `<base>/mail/send` and the six-field form, in order.
- `app/lib.rs`: the HTTP side, which posts the request with `reqwest`.
