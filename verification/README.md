# lib_srgx

A verified client library for the 神人高校 review community (srgaoxiao.com) and
its degree query service, written in Verus.

- `src/` is the library, verified by Verus:
  - `api_data`: the answers of the query endpoint and their accessors;
    `api_data::errors` classifies the service's error messages.
  - `request`: the request URL and the check made on every answer of the
    query service before it is decoded.
  - `legacy_api`: the bearer header and the answer check of the review service;
    `school_comments` holds the review pages and their processing (newest review
    per author, authors' ids, reviews of one author), `review_laws` the proved
    properties of that processing.
  - `text_order`: the string order used to compare review times.
  - `json`: the calls into `serde_json` that read single members of a JSON body.
- `app/` holds the HTTP clients (reqwest), JSON decoding into copies of the
  library's types that carry serde's derives, and the types no logic reads.
- `tests/` runs the library on concrete answers.
