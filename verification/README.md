# hbp

The core of a small personal web site (markdown pages, tiny URLs, users,
a files API), written in Verus.

- `src/` is the verified library: error values and status phrases
  (`errors`, `status`, `api`), the data models (`models`), text and path
  helpers (`text`, `paths`, `hex`), markdown header parsing and the page
  entities (`header`, `markdown`), access decisions and the random-file
  search (`files`), sign-up and sign-in rules (`users`), page helpers and
  the answers to a sign-in and to a tiny URL (`pages`), the decisions for
  markdown pages and signed links (`views`), and the routing tables with
  the default catcher (`routes`).
- `tests/` runs the library on concrete values.
- `app/` is the Rocket server around it: request handling, the sled record
  stores and the JSON forms of the library's types. Pages that need the
  site's HTML templates or its markdown renderer answer 501, since neither
  is part of this code base.
