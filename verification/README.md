# clipbrain

The core of ClipBrain, a clipboard assistant, as a verified library: every function in
`src/` carries a contract, and Verus proves each of them except the small wrappers that
call other crates or the standard library (`#[verifier::external_body]`, most of them in
`src/foreign.rs`). Their contracts, and the names given to what those calls return, are
assumed from the crates' documentation and source, not proved.

- `src/classifier.rs` — rule-based detection of the content type of clipboard text.
- `src/actions/` — the built-in actions (formatting, table conversion, masking, link
  previews, model prompts), plugin actions and the plugin store, and the registry that
  lists the actions offered for a content type.
- `src/clipboard/` — the monitor's decisions: what one poll of the clipboard reports (an
  image first, then a file list, then text), what is recorded of it, and its preview.
- `src/config/` — the configuration, its edits, and the privacy rules (applications whose
  clipboard is skipped, and content kept from remote models).
- `src/model/` — inference backends: request and response data, the backend registry,
  OpenAI-compatible request building, streamed answers, the local model catalogue.
- `src/storage/` — the decoding of what the database returns for the history, tags,
  prompts and statistics, and the statements that carry logic (the advanced history
  search, the retention modifier); the plain statements are written in `app/`.
- `src/commands/` — what each command of the panel decides.
- `src/foreign.rs` — the calls into other crates (regex, serde, sha2, dirs), each with the
  contract its documentation supports.

`app/` holds the parts that wait on the outside world: files, the database, the system
keychain (API keys), HTTP, the system clipboard, and expression evaluation.
