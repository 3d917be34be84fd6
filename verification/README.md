# plegosa

A search tool for the fediverse: it watches timelines of a Mastodon-compatible
server and writes the statuses that match its filters to the standard output
or to a Discord webhook.

- `src/` is the verified library: the configuration checks, the text
  normalization, the filters (repeats, authors, terms, regular expressions),
  the decision taken for each received status, and what the loggers write.
- `app/` is the program around it: reading the configuration file, the
  connection to the server, the token generation, and the HTTP posts.
- `tests/` exercises the library on concrete statuses.
