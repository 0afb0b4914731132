# epsilon_core

The typed field values of a messaging protocol, verified with Verus.

- `src/data_types.rs`: the field identifiers (`DataTypes`), their numbers,
  names, the kind of value each carries, and parsing a name back into an
  identifier without regard to case or underscores.
- `src/data_container.rs`: field values (`DataValue`), their kinds, the
  accessors, conversion to and from a `BTreeMap`, equality (the three
  spellings of a boolean compare by truth value) and a hash consistent with
  it.
- `src/framing.rs`: the length prefix of a message on a stream.
- `src/text.rs`: lowercasing and underscore removal used by parsing.
- `app/`: WebTransport client, host and message streams (network I/O).
