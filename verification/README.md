# code_terroir

The business rules of Code Terroir, a traceability service for artisan food producers,
written in Verus: every rule has a contract, and Verus proves the code against it.

- `src/` is the verified library: roles and the write-permission matrix, authentication
  decisions (password hashing, the brute-force counter, token lifetimes, login and
  registration refusals), product normalization (Nutri-Score, EU allergens), reference lists,
  batch states and lot codes, quality-check kinds, recipes and their versions, QR tags and
  their images, numbered boxes, the ingredient catalog, the public traceability page, the
  configuration read at start-up, and the answers of every record endpoint. Registration is
  closed once a first account exists and always creates the administrator; catalog and
  producer writes stay within the caller's producer; internal failures reach the client
  only as a neutral message, their cause staying in the logs.
- `tests/` runs the library on concrete values.
- `app/` is the HTTP service around it: Warp routes, PostgreSQL through SQLx, Redis, JSON
  Web Tokens, and the few computations on floating-point measures.
