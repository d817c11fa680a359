# signal_bot

The verified core of a Signal bot that answers messages with a language model, bills users through
Stripe or prepaid credits, and comes with a proxy that registers phone numbers with Signal.

`src/` is a Verus library. Every function in it is verified against its contract, apart from the
declarations around outside crates (AES-GCM, HMAC, SHA-256, base64, percent encoding, dates, random
bytes, the global rate limiter) and a few functions of the standard library. Each of these carries a
doc comment that says what is taken on trust.

| module | what it holds |
| --- | --- |
| `bot::commands` | the commands, and the chat as a state machine with laws on all its runs |
| `bot::group` | the modes of group chats |
| `bot::payments` | who may send, and what is recorded |
| `bot::bot_config` | the configuration of each bot account, kept for five minutes |
| `bot::startup` | tools, payment provider, replies |
| `stripe::store` | subscriptions and daily usage, key derivation, the encrypted file |
| `stripe::client` | requests to Stripe, webhook signatures, event data |
| `stripe::webhooks` | what each event does to the store |
| `stripe::laws` | what holds of the payment system as a whole |
| `proxy::auth` | tokens |
| `proxy::registration` | registering a number, as a state machine |
| `proxy::registry`, `proxy::handlers` | who may do what, and the responses |
| `proxy::middleware` | rate limits |
| `proxy::alerts` | alerts that are forwarded over Signal |
| `clock`, `codec`, `crypto`, `json`, `table`, `text` | the base |

`app/` is the program around the library: HTTP servers and clients, files, and the services that the
bot works with. It does the work that the library's actions ask for and hands back how it ended.

`tests/` runs the library from outside.
