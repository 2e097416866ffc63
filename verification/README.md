# MD RedPen

A terminal reader for Markdown that attaches highlighted, numbered endnotes to
selected prose, written by hand or drafted by a Codex CLI session, and saves
them atomically in the same file.

## Layout

- `src/` is the verified library. Every function there carries a contract
  that Verus proves, except the small wrappers marked
  `#[verifier::external_body]` that call `pulldown_cmark`,
  `unicode_segmentation`, `unicode_width`, `uuid` or the standard library:
  their contracts state what those outside functions do and are believed,
  not proved, and each one's doc comment says what it claims. The modules:
  - `text` — UTF-8, white-space, grapheme and search helpers.
  - `events`, `markdown` — the CommonMark event stream and its projection to
    source-backed rendered graphemes.
  - `annotation_context`, `annotation` — the rules that accept or refuse a
    selection, and the byte-exact body link and managed endnote that an
    accepted one produces.
  - `editor` — cursor, selection, word and paragraph navigation.
  - `app` — the application state machine: keys, mouse actions and the
    outcome of outside work, with the laws it obeys.
  - `screen` — layout classes, labels, status text, document lines, scroll
    arithmetic and the cell colors that map a click back to a grapheme.
  - `codex`, `storage`, `terminal`, `messages`, `app_error`, `cli` — prompts,
    process and persistence decisions, and error messages.
- `app/` is the program: terminal I/O, Ratatui drawing, the Codex process,
  file locking and atomic writes. It performs what the state machine asks for
  and reports back.
- `tests/` exercises the library on concrete inputs.
