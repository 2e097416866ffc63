//! Command-line contract.

use std::path::PathBuf;

use vstd::prelude::*;

verus! {

/// Key summary printed after the command-line help.
pub const KEY_HELP: &'static str = "Keys:
  v  start visual selection
  a  add manual highlighted endnote
  c  choose a Codex revision or endnote
  w  select current word
  Up/Down or j/k  move by paragraph
  Left/Right or h/l  move by grapheme
  mouse drag  select rendered text
  mouse wheel  scroll the document
  Enter  follow annotation link
  b  return from endnote
  q  quit";

/// MD RedPen command-line options.
#[derive(Debug)]
pub struct Cli {
    /// Markdown file to open.
    pub markdown: PathBuf,
}

} // verus!
