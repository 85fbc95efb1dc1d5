//! A resume generator: reads a structured resume tree and renders it into
//! plain text, Markdown, a public Markdown variant, and typeset-document
//! markup.  The heart of the crate is the text-layout engine — greedy
//! word-wrapping with hanging indents, centering and two-sided alignment —
//! shared by the renderers, together with the per-format escaping and
//! structural rules.
//!
//! Every renderer's output is pinned down by a specification function over
//! the data model, and the layout laws (words are never split across lines,
//! fitting text is returned unchanged, centering strips back to the
//! original, escaping never compounds) are proved in their modules.
//! Reading input files, writing output files and invoking the external
//! typesetting compiler happen outside this crate.

pub mod strutil;
pub mod layout;
pub mod config;
pub mod util;
pub mod data;
pub mod markdown_renderer;
pub mod github_renderer;
pub mod text_renderer;
pub mod latex_doc;
pub mod pdf_renderer;
pub mod renderer;
