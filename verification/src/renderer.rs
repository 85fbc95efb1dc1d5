//! The rendering orchestrator: runs every renderer against the same resume
//! tree and hands the produced documents back as strings.  Writing them to
//! disk, and compiling the typeset markup, happen outside the library.

use vstd::prelude::*;
use crate::config::Config;
use crate::data::Resume;
use crate::github_renderer::{GitHubRenderer, gh_resume};
use crate::latex_doc::print_doc;
use crate::markdown_renderer::{MarkdownRenderer, md_resume};
use crate::pdf_renderer::{
    PdfRenderer, pdf_cover_letter_blocks, pdf_preamble_blocks, pdf_resume_blocks,
};
use crate::text_renderer::{TextRenderer, txt_cover_letter, txt_resume};
use crate::util::date_string;

verus! {

/// Every document produced for one resume: the plain-text and typeset
/// renderings with their optional cover letters, and the two Markdown
/// variants.
#[derive(Debug)]
pub struct Renderings {
    pub text: String,
    pub text_cover_letter: Option<String>,
    pub markdown: String,
    pub github: String,
    pub tex: String,
    pub tex_cover_letter: Option<String>,
}

/// All renderings succeeded and hold exactly the documents the per-format
/// specifications give for the date `d`.
pub open spec fn renderings_ok(r: Resume, config: Config, d: Seq<char>, out: Renderings) -> bool {
    let tw = config.format_config.text_config.width as int;
    let mw = config.format_config.markdown_config.width as int;
    let margin = config.format_config.pdf_config.margin@;
    &&& txt_resume(r, tw, d) matches Ok(t) && out.text@ == t
    &&& match r.cover_letter {
        Some(c) => out.text_cover_letter matches Some(s) && s@ == txt_cover_letter(c, tw, d),
        None => out.text_cover_letter is None,
    }
    &&& md_resume(r, mw, d) matches Ok(t) && out.markdown@ == t
    &&& gh_resume(r, mw, d) matches Ok(t) && out.github@ == t
    &&& pdf_resume_blocks(r) matches Ok(b) && out.tex@ == print_doc(
        pdf_preamble_blocks(margin, d),
        b,
    )
    &&& match r.cover_letter {
        Some(c) => out.tex_cover_letter matches Some(s) && s@ == print_doc(
            pdf_preamble_blocks(margin, d),
            pdf_cover_letter_blocks(c),
        ),
        None => out.tex_cover_letter is None,
    }
}

/// The first failing renderer, in the order the orchestrator runs them —
/// plain text, typeset, Markdown, then the public variant — failed for the
/// date `d`, and `m` is exactly its error: the batch stops at the first
/// failure.
pub open spec fn renderings_failed(r: Resume, config: Config, d: Seq<char>, m: Seq<char>) -> bool {
    let tw = config.format_config.text_config.width as int;
    let mw = config.format_config.markdown_config.width as int;
    match txt_resume(r, tw, d) {
        Err(e) => m == e,
        Ok(_) => match pdf_resume_blocks(r) {
            Err(e) => m == e,
            Ok(_) => match md_resume(r, mw, d) {
                Err(e) => m == e,
                Ok(_) => gh_resume(r, mw, d) matches Err(e) && m == e,
            },
        },
    }
}

/// Wraps one renderer's error as the orchestrator's result.
fn render_failure(resume: &Resume, config: &Config, e: String, Ghost(d): Ghost<Seq<char>>) -> (r:
    Result<Renderings, String>)
    requires
        renderings_failed(*resume, *config, d, e@),
    ensures
        r matches Err(m) && m@ == e@,
        r matches Err(m) ==> exists|dd: Seq<char>| #[trigger] renderings_failed(
            *resume,
            *config,
            dd,
            m@,
        ),
{
    let ghost ev = e@;
    let res: Result<Renderings, String> = Err(e);
    proof {
        assert(res matches Err(m) && m@ == ev);
        let m0 = res->Err_0@;
        assert(m0 == ev);
        assert(renderings_failed(*resume, *config, d, m0));
        assert(exists|dd: Seq<char>| #[trigger] renderings_failed(*resume, *config, dd, m0)) by {
            assert(renderings_failed(*resume, *config, d, m0));
        }
    }
    res
}

/// Runs every renderer against the resume, for today's date.  On success
/// each produced document is exactly what that renderer's specification
/// gives; the first failing renderer decides the error.
#[verifier::rlimit(80)]
#[verifier::spinoff_prover]
pub fn render_resume(resume: &Resume, config: &Config) -> (r: Result<Renderings, String>)
    ensures
        r matches Ok(out) ==> exists|d: Seq<char>| #[trigger] renderings_ok(*resume, *config, d, out),
        r matches Err(m) ==> exists|d: Seq<char>| #[trigger] renderings_failed(*resume, *config, d, m@),
{
    let date = date_string();
    let ghost d = date@;
    let text_renderer = TextRenderer::new();
    let pdf_renderer = PdfRenderer::new();
    let md_renderer = MarkdownRenderer::new();
    let gh_renderer = GitHubRenderer::new();

    let text_cover_letter: Option<String> = match &resume.cover_letter {
        Some(c) => {
            match text_renderer.render_cover_letter(c, config, date.as_str()) {
                Ok(s) => Some(s),
                Err(e) => {
                    proof {
                        assert(false);
                    }
                    return Err(e);
                },
            }
        },
        None => None,
    };
    let text = match text_renderer.render(resume, config, date.as_str()) {
        Ok(s) => s,
        Err(e) => {
            return render_failure(resume, config, e, Ghost(d));
        },
    };
    let tex_cover_letter: Option<String> = match &resume.cover_letter {
        Some(c) => {
            match pdf_renderer.render_cover_letter(c, config, date.as_str()) {
                Ok(s) => Some(s),
                Err(e) => {
                    proof {
                        assert(false);
                    }
                    return Err(e);
                },
            }
        },
        None => None,
    };
    let tex = match pdf_renderer.render(resume, config, date.as_str()) {
        Ok(s) => s,
        Err(e) => {
            return render_failure(resume, config, e, Ghost(d));
        },
    };
    let markdown = match md_renderer.render(resume, config, date.as_str()) {
        Ok(s) => s,
        Err(e) => {
            return render_failure(resume, config, e, Ghost(d));
        },
    };
    let github = match gh_renderer.render(resume, config, date.as_str()) {
        Ok(s) => s,
        Err(e) => {
            return render_failure(resume, config, e, Ghost(d));
        },
    };
    let out = Renderings { text, text_cover_letter, markdown, github, tex, tex_cover_letter };
    proof {
        assert(exists|dd: Seq<char>| #[trigger] renderings_ok(*resume, *config, dd, out)) by {
            assert(renderings_ok(*resume, *config, d, out));
        }
    }
    Ok(out)
}

} // verus!
