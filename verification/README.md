# storage_credentials

Caller-supplied cloud storage credentials that are refreshed as they expire, and the object stores
that are built from them. The library under `src/` is written in Verus: what each function returns
is stated in its contract and proved.

| module | what it holds |
| --- | --- |
| `credentials` | credentials, and the source that produces and caches them |
| `providers` | the current credential in the shape that each cloud's store expects |
| `sas`, `text` | splitting a shared access signature into its query pairs |
| `storage`, `builders` | choosing and configuring the store for a URL |
| `string_map` | the map behind the URL handlers and their options |
| `storage_credential` | credentials that a foreign callback supplies |
| `clock` | the monotonic clock |
| `error` | the error type |

The modules whose names end in `_laws` hold what is true of several functions together.

`app/` is the engine side: the mutex around a source, the registry of URL handlers, the providers
that object stores call, and the foreign callback.
