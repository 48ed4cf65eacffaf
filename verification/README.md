# authn_kit

Framework- and protocol-agnostic authentication for web services, with its rules proved in Verus.

- `src/` holds the rules: what credential a request presents, which authenticator answers for it, what
  an identity provider is asked and what its reply means, what is cached and for how long, how a login
  is begun and completed, and how a failure is rendered. Contracts say what the functions return, and
  the public proof functions state what holds of several of them together: that the chain fails
  closed and never invents a principal, that an anonymous pass needs a public scope, that a cached
  principal is never served for another key, that a login is taken up only by the callback that
  belongs to it and rests on an ID token with the nonce minted for it.
- `app/` holds the I/O around the rules: the HTTP requests, the clocks, the environment, and the
  adapters for actix-web and axum.
- `tests/` runs the library on concrete values.

Nothing in `src/` waits. Where an authenticator has to ask an identity provider, one function says what
to ask for and another takes the reply, so the same rules serve any web framework and HTTP client.

What the library takes from other crates (base64, BLAKE3, JSON, URLs, constant-time comparison, random
tokens, the signatures of ID tokens) is called through small functions whose contracts are not proved.
Each names the outside function and says what is taken to hold of it.
