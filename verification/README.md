# solace_semp_client

Configuration models of the SEMP v2 API of a Solace PubSub+ broker: a Message VPN, its
Client Profiles, Client Usernames, JNDI Connection Factories, REST Consumers and Topic
Endpoints. Every attribute is optional; each model offers, per attribute, a setter, a
builder-style `with_` method, a getter and a `reset_` method.

- `src/` is the verified library. Each model has an abstract view (its attributes as
  mathematical values), and every method's contract states its exact effect on that view.
  Beside each model stand the proved laws of its accessors: a read after a write gives the
  value written, the later of two writes wins, a write touches only its own attribute, a reset
  undoes a write to an absent attribute, resets are idempotent, and a fresh value is empty.
- `app/` holds the JSON side: for each model a twin type with the serde derives that give the
  attributes their SEMP names, with `From` conversions in both directions.
- `tests/` exercises every accessor of every model.
