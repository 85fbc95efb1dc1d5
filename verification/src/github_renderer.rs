//! The public Markdown variant: the Markdown rendering with contact-detail
//! lines suppressed.  Lines holding the contact email, or containing
//! "linkedin" in any letter case, are filtered out of the contact block.

use vstd::prelude::*;
use vstd::string::StringExecFns;
use crate::config::Config;
use crate::data::{
    Objective, OtherExperience, PersonalInfo, ProjectInfo, Resume, Technologies,
    projects_for_github_spec,
};
use crate::markdown_renderer::{
    MarkdownRenderer, md_footer, md_objective, md_personal_info, md_project, md_projects_error,
    md_technologies,
};
use crate::strutil::{
    chars_to_string, contains_chars, contains_sub, join_line_vecs, join_sep, split_lines,
    split_newlines, str_to_chars, vec_views,
};

verus! {

/// What `str::to_lowercase` returns for the given characters.  The mapping
/// is fixed by Unicode, so the result is a function of the characters alone;
/// it is not spelled out here.
pub uninterp spec fn lower_of(s: Seq<char>) -> Seq<char>;

/// Relies on `str::to_lowercase`: the lowercase mapping of `s`, a function
/// of the characters alone.
#[verifier::external_body]
fn lowercase(s: &str) -> (r: String)
    ensures
        r@ == lower_of(s@),
{
    s.to_lowercase()
}

/// A line that may not appear in the public rendering: it holds the contact
/// email, or "linkedin" in any letter case.
pub open spec fn line_hidden(line: Seq<char>, email: Seq<char>) -> bool {
    contains_sub(line, email) || contains_sub(lower_of(line), "linkedin"@)
}

/// The lines that remain once the hidden ones are dropped, in order.
pub open spec fn visible_lines(lines: Seq<Seq<char>>, email: Seq<char>) -> Seq<Seq<char>>
    decreases lines.len(),
{
    if lines.len() == 0 {
        Seq::empty()
    } else {
        let rest = visible_lines(lines.drop_last(), email);
        if line_hidden(lines.last(), email) {
            rest
        } else {
            rest.push(lines.last())
        }
    }
}

/// The public contact block: the Markdown contact block with hidden lines
/// dropped.
pub open spec fn gh_personal_info(p: PersonalInfo) -> Result<Seq<char>, Seq<char>> {
    match md_personal_info(p) {
        Err(m) => Err(m),
        Ok(t) => Ok(join_sep(visible_lines(split_lines(t), p.email@), "\n"@)),
    }
}

/// The public projects section: only projects flagged for the public
/// listing, rendered as Markdown bullets.  No eligible project is an error.
pub open spec fn gh_other_experience(o: OtherExperience, width: int) -> Result<
    Seq<char>,
    Seq<char>,
> {
    let sel = projects_for_github_spec(o.projects@);
    if sel.len() == 0 {
        Err(md_projects_error())
    } else {
        Ok(
            "## Projects"@ + "\n"@ + join_sep(
                sel.map_values(|p: ProjectInfo| md_project(p, width)),
                "\n"@,
            ),
        )
    }
}

/// The whole public rendering for the given date: title, objective, filtered
/// contact block, then the optional public projects and technologies, and
/// the footer.
pub open spec fn gh_resume(r: Resume, width: int, date: Seq<char>) -> Result<
    Seq<char>,
    Seq<char>,
> {
    let head = "# "@ + r.name@ + "\n\n"@ + md_objective(r.objective, width) + "\n\n"@;
    match gh_personal_info(r.personal_info) {
        Err(m) => Err(m),
        Ok(pi) => {
            let upto_pi = head + pi;
            match r.other_experience {
                Some(oe) => match gh_other_experience(oe, width) {
                    Err(m) => Err(m),
                    Ok(pr) => Ok(gh_resume_tail(upto_pi + "\n\n"@ + pr, r.technologies, date)),
                },
                None => Ok(gh_resume_tail(upto_pi, r.technologies, date)),
            }
        },
    }
}

/// The optional technologies section, then the footer.
pub open spec fn gh_resume_tail(text: Seq<char>, tech: Option<Technologies>, date: Seq<char>) -> Seq<
    char,
> {
    let with_tech = match tech {
        Some(t) => text + "\n\n"@ + md_technologies(t),
        None => text,
    };
    with_tech + md_footer(date)
}

/// Renders the resume data model as the public Markdown variant.
#[derive(Debug)]
pub struct GitHubRenderer {
    md: MarkdownRenderer,
}

impl GitHubRenderer {
    /// A new public-variant renderer.
    pub fn new() -> GitHubRenderer {
        GitHubRenderer { md: MarkdownRenderer::new() }
    }

    /// Renders the contact block with email and "linkedin" lines dropped.
    pub fn render_personal_info(&self, element: &PersonalInfo, config: &Config) -> (r: Result<
        String,
        String,
    >)
        ensures
            match gh_personal_info(*element) {
                Ok(t) => r matches Ok(v) && v@ == t,
                Err(m) => r matches Err(v) && v@ == m,
            },
    {
        let info = match self.md.render_personal_info(element, config) {
            Ok(t) => t,
            Err(e) => {
                return Err(e);
            },
        };
        let iv = str_to_chars(info.as_str());
        let lines = split_newlines(&iv);
        let ghost lviews = split_lines(info@);
        let email = str_to_chars(element.email.as_str());
        let linkedin = str_to_chars("linkedin");
        let mut kept: Vec<Vec<char>> = Vec::new();
        let mut i: usize = 0;
        while i < lines.len()
            invariant
                i <= lines@.len(),
                lviews == split_lines(info@),
                vec_views(lines@) == lviews,
                email@ == element.email@,
                linkedin@ == "linkedin"@,
                vec_views(kept@) == visible_lines(lviews.subrange(0, i as int), element.email@),
            decreases lines@.len() - i,
        {
            proof {
                let pre = lviews.subrange(0, i + 1 as int);
                assert(pre.drop_last() =~= lviews.subrange(0, i as int));
                assert(pre.last() == lviews[i as int]);
                assert(lines@[i as int]@ == lviews[i as int]);
            }
            let line = &lines[i];
            let lower = lowercase(chars_to_string(line).as_str());
            let lower_v = str_to_chars(lower.as_str());
            let hide = contains_chars(line, &email) || contains_chars(&lower_v, &linkedin);
            proof {
                assert(hide == line_hidden(lviews[i as int], element.email@));
            }
            if !hide {
                kept.push(line.clone());
                proof {
                    assert(vec_views(kept@) =~= visible_lines(
                        lviews.subrange(0, i + 1 as int),
                        element.email@,
                    ));
                }
            } else {
                proof {
                    assert(vec_views(kept@) =~= visible_lines(
                        lviews.subrange(0, i + 1 as int),
                        element.email@,
                    ));
                }
            }
            i = i + 1;
        }
        proof {
            assert(lviews.subrange(0, lviews.len() as int) =~= lviews);
        }
        let joined = join_line_vecs(&kept);
        Ok(chars_to_string(&joined))
    }

    /// Renders the objective, exactly as the Markdown renderer does.
    pub fn render_objective(&self, element: &Objective, config: &Config) -> (r: Result<
        String,
        String,
    >)
        ensures
            r matches Ok(t) && t@ == md_objective(
                *element,
                config.format_config.markdown_config.width as int,
            ),
    {
        self.md.render_objective(element, config)
    }

    /// Renders one project, exactly as the Markdown renderer does.
    pub fn render_project_info(&self, element: &ProjectInfo, config: &Config) -> (r: Result<
        String,
        String,
    >)
        ensures
            r matches Ok(t) && t@ == md_project(
                *element,
                config.format_config.markdown_config.width as int,
            ),
    {
        self.md.render_project_info(element, config)
    }

    /// Renders the projects section from the projects flagged for the public
    /// listing.
    pub fn render_other_experience(&self, element: &OtherExperience, config: &Config) -> (r:
        Result<String, String>)
        ensures
            match gh_other_experience(
                *element,
                config.format_config.markdown_config.width as int,
            ) {
                Ok(t) => r matches Ok(v) && v@ == t,
                Err(m) => r matches Err(v) && v@ == m,
            },
    {
        let ghost w = config.format_config.markdown_config.width as int;
        let sel = element.get_projects_for_github();
        if sel.len() == 0 {
            return Err(
                String::from_str(
                    "An error occurred while rendering other experience to markdown.",
                ),
            );
        }
        let ghost items = projects_for_github_spec(element.projects@).map_values(
            |p: ProjectInfo| md_project(p, w),
        );
        let first = match self.render_project_info(sel[0], config) {
            Ok(t) => t,
            Err(e) => {
                return Err(e);
            },
        };
        let mut acc: String = first;
        proof {
            assert(items.subrange(0, 1)[0] == items[0]);
            assert(acc@ == join_sep(items.subrange(0, 1), "\n"@));
        }
        let mut i: usize = 1;
        while i < sel.len()
            invariant
                1 <= i <= sel@.len(),
                w == config.format_config.markdown_config.width as int,
                sel@.len() == projects_for_github_spec(element.projects@).len(),
                forall|k: int|
                    0 <= k < sel@.len() ==> *sel@[k] == projects_for_github_spec(
                        element.projects@,
                    )[k],
                items == projects_for_github_spec(element.projects@).map_values(
                    |p: ProjectInfo| md_project(p, w),
                ),
                acc@ == join_sep(items.subrange(0, i as int), "\n"@),
            decreases sel@.len() - i,
        {
            let item = match self.render_project_info(sel[i], config) {
                Ok(t) => t,
                Err(e) => {
                    return Err(e);
                },
            };
            acc = acc.concat("\n").concat(item.as_str());
            proof {
                let pre = items.subrange(0, i + 1 as int);
                assert(pre.drop_last() =~= items.subrange(0, i as int));
                assert(pre.last() == items[i as int]);
            }
            i = i + 1;
        }
        proof {
            assert(items.subrange(0, items.len() as int) =~= items);
        }
        Ok(String::from_str("## Projects").concat("\n").concat(acc.as_str()))
    }

    /// Renders the technologies section, exactly as the Markdown renderer
    /// does.
    pub fn render_technologies(&self, element: &Technologies, config: &Config) -> (r: Result<
        String,
        String,
    >)
        ensures
            r matches Ok(t) && t@ == md_technologies(*element),
    {
        self.md.render_technologies(element, config)
    }

    /// Renders the whole public variant for the given date string.
    #[verifier::rlimit(100)]
    #[verifier::spinoff_prover]
    pub fn render(&self, element: &Resume, config: &Config, date: &str) -> (r: Result<
        String,
        String,
    >)
        ensures
            match gh_resume(*element, config.format_config.markdown_config.width as int, date@) {
                Ok(t) => r matches Ok(v) && v@ == t,
                Err(m) => r matches Err(v) && v@ == m,
            },
    {
        let obj = match self.render_objective(&element.objective, config) {
            Ok(t) => t,
            Err(e) => {
                return Err(e);
            },
        };
        let pi = match self.render_personal_info(&element.personal_info, config) {
            Ok(t) => t,
            Err(e) => {
                return Err(e);
            },
        };
        let mut text = String::from_str("# ").concat(element.name.as_str()).concat(
            "\n\n",
        ).concat(obj.as_str()).concat("\n\n").concat(pi.as_str());
        match &element.other_experience {
            Some(oe) => {
                let pr = match self.render_other_experience(oe, config) {
                    Ok(t) => t,
                    Err(e) => {
                        return Err(e);
                    },
                };
                text = text.concat("\n\n").concat(pr.as_str());
            },
            None => {},
        }
        match &element.technologies {
            Some(t) => {
                let tch = match self.render_technologies(t, config) {
                    Ok(v) => v,
                    Err(e) => {
                        return Err(e);
                    },
                };
                text = text.concat("\n\n").concat(tch.as_str());
            },
            None => {},
        }
        let text = text.concat("\n\n---\n\n").concat(
            crate::util::FooterText::new_with_date(date).prefix.as_str(),
        ).concat(" [").concat("github.com/spencewenski/resume_generator").concat("](").concat(
            crate::util::add_https_to_url("github.com/spencewenski/resume_generator").as_str(),
        ).concat(")").concat("\n");
        Ok(text)
    }
}

} // verus!
