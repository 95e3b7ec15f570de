# ipgeolocation

A client for the IPGeolocation.io IP Location API (`/v3/ipgeo` and
`/v3/ipgeo-bulk`), written in Verus.

`src/` is the verified library. Every rule that a configuration or a request
must meet, the building of each HTTP request (query, headers, bulk body), and
the reading of each response (status, metadata, API error messages, bulk items)
carry contracts that Verus proves. The request's own `user_agent` replaces
any `User-Agent` header of the request, in whatever letter case; outgoing
header names and values are checked against what the HTTP layer accepts before
they are sent. Each client call that passes its checks hands its transport
exactly the request it built, and gives back what the transport answered: the
transport's error as it is, data and metadata for a 2xx response, else an API
error with the status and the body's message (for typed bulk calls, one item
per element of the JSON array).

- `text.rs`: Unicode trimming, line breaks, ASCII case folding, `u32` parsing.
- `str_map.rs`: a `String`-keyed map kept in key order, with read-after-write laws.
- `config.rs`, `requests.rs`: the configuration and request rules.
- `building.rs`, `client.rs`: request building and the client's calls.
- `responses.rs`, `json.rs`, `transport.rs`: response handling and the
  outgoing header check.
- `url_parts.rs`: URL parsing and query building through `reqwest::Url`.
- `laws.rs`: properties that span several functions.

`app/` holds what needs I/O or serde's derives: the blocking `reqwest`
transport, the typed response models, and the typed lookups that read
response bodies into them.
