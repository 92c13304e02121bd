# portfolio_api

A small HTTP API that serves the sections of a portfolio profile (about,
education, experience, skills, projects, testimonials) from a DynamoDB table,
with an in-memory cache and Cognito access-token checks.

- `src/` is the verified library (Verus): the section cache and its time to
  live, cache keys, the two steps around a table read, the profile object,
  the stable ordering of listed items, skill logo resolution, error codes and
  messages, the settings schema, the JWKS key cache and the token checks.
- `app/` is the server around it: actix-web routes, DynamoDB and Secrets
  Manager calls, HTTP fetches of the key set, serde copies of the documents,
  and tracing setup.
- `tests/` exercises the library on concrete values.
