//! The intermediate typeset-document tree, and the trusted boundary to the
//! `latex` crate that holds and serializes it.
//!
//! A document is modeled as a sequence of preamble entries and a sequence of
//! body blocks; `print_doc` states, block by block, the text that the crate's
//! serializer emits for them.  The wrappers below are the only places the
//! `latex` crate is touched.

use vstd::prelude::*;
use crate::strutil::seq_views;

verus! {

/// One body block of the typeset document, as the renderers use them: a raw
/// line, a bare paragraph, or a named environment with its lines.
pub enum TexBlock {
    UserDefined(Seq<char>),
    Paragraph(Seq<char>),
    Environment(Seq<char>, Seq<Seq<char>>),
}

/// One preamble entry: a package import with an optional argument, or a raw
/// line.
pub enum TexPreambleBlock {
    UsePackage(Seq<char>, Option<Seq<char>>),
    UserDefined(Seq<char>),
}

/// The serialized form of an environment's lines: each line on its own.
pub open spec fn print_env_lines(lines: Seq<Seq<char>>) -> Seq<char>
    decreases lines.len(),
{
    if lines.len() == 0 {
        Seq::empty()
    } else {
        print_env_lines(lines.drop_last()) + lines.last() + "\n"@
    }
}

/// The serialized form of one body block.
pub open spec fn print_block(b: TexBlock) -> Seq<char> {
    match b {
        TexBlock::UserDefined(s) => s + "\n"@,
        TexBlock::Paragraph(s) => s + "\n"@,
        TexBlock::Environment(name, lines) => "\\begin{"@ + name + "}\n"@ + print_env_lines(lines)
            + "\\end{"@ + name + "}\n"@,
    }
}

/// The serialized form of a sequence of body blocks.
pub open spec fn print_blocks(bs: Seq<TexBlock>) -> Seq<char>
    decreases bs.len(),
{
    if bs.len() == 0 {
        Seq::empty()
    } else {
        print_blocks(bs.drop_last()) + print_block(bs.last())
    }
}

/// The serialized form of one preamble entry.
pub open spec fn print_preamble_block(p: TexPreambleBlock) -> Seq<char> {
    match p {
        TexPreambleBlock::UsePackage(pkg, None) => "\\usepackage{"@ + pkg + "}\n"@,
        TexPreambleBlock::UsePackage(pkg, Some(arg)) => "\\usepackage["@ + arg + "]{"@ + pkg
            + "}\n"@,
        TexPreambleBlock::UserDefined(s) => s + "\n"@,
    }
}

/// The serialized form of the preamble.
pub open spec fn print_preamble(ps: Seq<TexPreambleBlock>) -> Seq<char>
    decreases ps.len(),
{
    if ps.len() == 0 {
        Seq::empty()
    } else {
        print_preamble(ps.drop_last()) + print_preamble_block(ps.last())
    }
}

/// The serialized form of a whole article-class document: the class line,
/// the preamble, and the body blocks between `\begin{document}` and
/// `\end{document}`.
pub open spec fn print_doc(pre: Seq<TexPreambleBlock>, els: Seq<TexBlock>) -> Seq<char> {
    "\\documentclass{article}\n"@ + print_preamble(pre) + "\\begin{document}\n"@ + print_blocks(
        els,
    ) + "\\end{document}\n"@
}

#[verifier::external_type_specification]
#[verifier::external_body]
pub struct ExDocument(latex::Document);

#[verifier::external_type_specification]
#[verifier::external_body]
pub struct ExElement(latex::Element);

/// The body blocks a `latex::Document` holds, in order.
pub uninterp spec fn doc_elements(d: latex::Document) -> Seq<TexBlock>;

/// The preamble entries a `latex::Document` holds, in order.
pub uninterp spec fn doc_preamble(d: latex::Document) -> Seq<TexPreambleBlock>;

/// Relies on `latex::Document::default`: a fresh article-class document with
/// an empty preamble and no elements.
#[verifier::external_body]
pub(crate) fn new_document() -> (d: latex::Document)
    ensures
        doc_elements(d) == Seq::<TexBlock>::empty(),
        doc_preamble(d) == Seq::<TexPreambleBlock>::empty(),
{
    latex::Document::default()
}

/// Relies on `latex::Document::push` with `Element::UserDefined`: appends
/// one raw line to the body, leaving everything else unchanged.
#[verifier::external_body]
pub(crate) fn push_user_defined(d: &mut latex::Document, s: &str)
    ensures
        doc_elements(*final(d)) == doc_elements(*old(d)).push(TexBlock::UserDefined(s@)),
        doc_preamble(*final(d)) == doc_preamble(*old(d)),
{
    d.push(latex::Element::UserDefined(s.to_string()));
}

/// Relies on `latex::Document::push` with `Element::Para` built by
/// `Paragraph::from`: appends one plain paragraph to the body.
#[verifier::external_body]
pub(crate) fn push_paragraph(d: &mut latex::Document, s: &str)
    ensures
        doc_elements(*final(d)) == doc_elements(*old(d)).push(TexBlock::Paragraph(s@)),
        doc_preamble(*final(d)) == doc_preamble(*old(d)),
{
    d.push(latex::Paragraph::from(s));
}

/// Relies on `latex::Document::push` with `Element::Environment`: appends an
/// environment with the given name and lines to the body.
#[verifier::external_body]
pub(crate) fn push_environment(d: &mut latex::Document, name: &str, lines: Vec<String>)
    ensures
        doc_elements(*final(d)) == doc_elements(*old(d)).push(
            TexBlock::Environment(name@, seq_views(lines@)),
        ),
        doc_preamble(*final(d)) == doc_preamble(*old(d)),
{
    d.push(latex::Element::Environment(name.to_string(), lines));
}

/// Relies on `latex::Document::push_doc`: appends the other document's body
/// blocks, one by one, leaving the preamble unchanged.
#[verifier::external_body]
pub(crate) fn push_doc(d: &mut latex::Document, other: &latex::Document)
    ensures
        doc_elements(*final(d)) == doc_elements(*old(d)) + doc_elements(*other),
        doc_preamble(*final(d)) == doc_preamble(*old(d)),
{
    d.push_doc(other);
}

/// Relies on `latex::Preamble::use_package`: appends a package import
/// without an argument to the preamble.
#[verifier::external_body]
pub(crate) fn preamble_use_package(d: &mut latex::Document, pkg: &str)
    ensures
        doc_preamble(*final(d)) == doc_preamble(*old(d)).push(
            TexPreambleBlock::UsePackage(pkg@, None),
        ),
        doc_elements(*final(d)) == doc_elements(*old(d)),
{
    d.preamble.use_package(pkg);
}

/// Relies on `latex::Preamble::push` with `PreambleElement::UsePackage`:
/// appends a package import with an argument to the preamble.
#[verifier::external_body]
pub(crate) fn preamble_use_package_arg(d: &mut latex::Document, pkg: &str, arg: &str)
    ensures
        doc_preamble(*final(d)) == doc_preamble(*old(d)).push(
            TexPreambleBlock::UsePackage(pkg@, Some(arg@)),
        ),
        doc_elements(*final(d)) == doc_elements(*old(d)),
{
    d.preamble.push(
        latex::PreambleElement::UsePackage {
            package: pkg.to_string(),
            argument: Some(arg.to_string()),
        },
    );
}

/// Relies on `latex::Preamble::push` with `PreambleElement::UserDefined`:
/// appends one raw line to the preamble.
#[verifier::external_body]
pub(crate) fn preamble_user_defined(d: &mut latex::Document, s: &str)
    ensures
        doc_preamble(*final(d)) == doc_preamble(*old(d)).push(TexPreambleBlock::UserDefined(s@)),
        doc_elements(*final(d)) == doc_elements(*old(d)),
{
    d.preamble.push(latex::PreambleElement::UserDefined(s.to_string()));
}

/// Relies on `latex::print`: serializes the document as [`print_doc`]
/// states.  The serializer only writes into an in-memory byte buffer, which
/// cannot fail, and only valid text reaches the buffer, so the call always
/// succeeds; the error arm is kept to mirror the crate's signature.
#[verifier::external_body]
pub(crate) fn print_document(d: &latex::Document) -> (r: Result<String, String>)
    ensures
        r is Ok,
        r matches Ok(s) ==> s@ == print_doc(doc_preamble(*d), doc_elements(*d)),
{
    match latex::print(d) {
        Ok(s) => Ok(s),
        Err(e) => Err(
            format!("An error occurred while rendering the LaTeX document to a string: {}", e),
        ),
    }
}

} // verus!
