# local_user

Account requests of a link-sharing server, as verified machines: logging in, captchas, settings,
passwords, mail addresses, administrators, bans, blocks, replies, mentions and counts.

A request never touches the database, the mail or the clock. It says which piece of work it needs
next (`effect::Action`), waits in a state of its own, and is handed the outcome (`effect::Reply`).
`machine::Perform` and `machine::Resume` are the two ends of that exchange; their contracts fix each
step exactly. `run` follows a request over all its steps, and the laws in the modules of the
requests say what holds of every such run: who may do what, what is written and when, what the
answer is.

* `src/` holds the library. What is trusted of the crates it calls stands in `password` (bcrypt),
  `challenge` (captcha, uuid), `clock` (chrono) and `text` (trimming).
* `app/` runs requests on a server, of which it knows only a trait.
* `tests/` plays out requests on concrete outcomes.
