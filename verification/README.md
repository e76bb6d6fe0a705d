# sekai

A client library for the game API, verified with Verus.

- `src/crypto/aes.rs`: the body encryption of the API (PKCS#7 padding, AES-128 in CBC
  mode under the API key and vector), with the proof that decryption undoes encryption.
  The AES block permutation itself comes from the `aes` crate.
- `src/crypto/aes_msgpack.rs`: encrypting and decrypting MessagePack-encoded bodies.
- `src/api/headers.rs`: the header state of a client (app version, hash and platform,
  the CloudFront cookie, the session token) and the headers that its requests carry.
- `src/api/sekai_client.rs`: the app description, and the decisions of the client
  (which URL provider serves a server, how a refused request is reported, when and
  where the signature request goes).
- `src/subcommands/`: the jobs that the assetbundle commands hand to their runner.
- `src/constants/header/`: header names and values.
- `src/constants/strings/`: the messages of the library and of its commands.
- `app/`: the HTTP client, the MessagePack encoding of the models, and the
  command-line arguments, around the library.
