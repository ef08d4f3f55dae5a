# customer_auth

HTTP services for customer records and user accounts, with their decisions
verified in Verus.

- `src/` is the verified library: decimal numerals and JSON string quoting
  (`text`), replies (`reply`), DynamoDB-style items and requests (`store`),
  customer records (`customer`), user roles (`role`), bcrypt password hashing
  (`credentials`), signed session tokens (`token`), and registration, login and
  user details (`account`). Each endpoint is split into the request it makes of
  the store and the reply it gives to the store's answer.
- `app/` runs the endpoints with actix-web, talks to DynamoDB through rusoto,
  keeps tokens in cookie sessions, and reads secrets from the environment.
- `tests/` exercises the library on concrete values.
