# seco

The rules of Secondhand, a marketplace for used goods, as a Verus library.

- `src/` is the verified library. For every request of the web API it
  decides what is checked, what is written and what is answered: cart lines,
  wishlists, delivery addresses, offers, orders and their status moves, seller
  verification uploads, product forms, image file names, the admin actions on
  accounts, and the responses. It also seals and opens seller data
  (AES-256-GCM in Base64), hashes refresh tokens (SHA-256) and writes public
  ids as UUID text. Each public function states its result in its `ensures`;
  the laws that span functions are public proof functions named `law_*`.
- `tests/` runs the library on concrete values.
- `app/` is the web application around it: routes, the database, storage,
  multipart reading, text recognition on ID cards, and the framework's traits.
  Each handler reads what its request needs, asks the library what to do,
  performs it and answers.
