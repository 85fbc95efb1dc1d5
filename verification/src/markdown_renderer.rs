//! The Markdown renderer: heading markers per section, link syntax for URLs,
//! bullet lists; long lines are wrapped at the configured Markdown width.

use vstd::prelude::*;
use vstd::string::StringExecFns;
use crate::config::Config;
use crate::data::{
    Education, Objective, OtherExperience, OtherPersonalInfo, PersonalInfo,
    ProfessionalExperience, ProjectInfo, Resume, Technologies, projects_for_resume_spec,
};
use crate::layout::wrap_spec;
use crate::strutil::{join_sep, join_strings, seq_views};
use crate::util::{add_https_spec, add_https_to_url, footer_prefix_of, footer_url};

verus! {

/// One labeled link of the contact block, as a Markdown bullet.
pub open spec fn md_other_personal_info(o: OtherPersonalInfo) -> Seq<char> {
    match o.url {
        Some(u) => "- "@ + o.item@ + ": ["@ + u@ + "]("@ + add_https_spec(u@) + ")"@,
        None => "- "@ + o.item@,
    }
}

/// The labeled links, one bullet per line.
pub open spec fn md_other_personal_infos(v: Seq<OtherPersonalInfo>) -> Seq<Seq<char>> {
    v.map_values(|o: OtherPersonalInfo| md_other_personal_info(o))
}

/// The error reported when the list of further links is present but empty.
pub open spec fn md_personal_info_error() -> Seq<char> {
    "An error occurred while rendering personal info to markdown"@
}

/// The contact block: email and GitHub links, then any further links.  A
/// present-but-empty list of further links is an error.
pub open spec fn md_personal_info(p: PersonalInfo) -> Result<Seq<char>, Seq<char>> {
    let base = "## Find me here"@ + "\n- Email: ["@ + p.email@ + "](mailto:"@ + p.email@ + ")"@
        + "\n- GitHub: ["@ + p.github@ + "]("@ + add_https_spec(p.github@) + ")"@;
    match p.other {
        None => Ok(base),
        Some(v) => if v.len() == 0 {
            Err(md_personal_info_error())
        } else {
            Ok(base + "\n"@ + join_sep(md_other_personal_infos(v@), "\n"@))
        },
    }
}

/// The objective, wrapped at the Markdown width with no prefixes.
pub open spec fn md_objective(o: Objective, width: int) -> Seq<char> {
    wrap_spec(o.objective@, width, Seq::empty(), Seq::empty())
}

/// The error reported when an experience list cannot be reduced.
pub open spec fn md_experience_error() -> Seq<char> {
    "An error occurred while rendering professional experience to markdown."@
}

/// One job entry: optional organization heading, a code block with position
/// and time range, then one wrapped bullet per accomplishment.  An entry
/// without accomplishments is an error.
pub open spec fn md_experience_item(e: ProfessionalExperience, width: int) -> Result<
    Seq<char>,
    Seq<char>,
> {
    let head = match (e.organization, e.location) {
        (Some(o), Some(l)) => "### "@ + o@ + " - "@ + l@,
        _ => Seq::<char>::empty(),
    };
    let body = head + "\n```\n"@ + e.position@ + "\n"@ + e.start@ + " - "@ + e.end@ + "\n```"@;
    if e.experience.len() == 0 {
        Err(md_experience_error())
    } else {
        Ok(body + "\n"@ + join_sep(md_bullets(seq_views(e.experience@), width), "\n"@))
    }
}

/// Each accomplishment wrapped as a `- ` bullet with a hanging indent.
pub open spec fn md_bullets(items: Seq<Seq<char>>, width: int) -> Seq<Seq<char>> {
    items.map_values(|s: Seq<char>| wrap_spec(s, width, "- "@, "  "@))
}

/// The experience section: every job entry under one heading, blank lines
/// between entries.  An empty list, or any entry without accomplishments, is
/// an error.
pub open spec fn md_experience_list(es: Seq<ProfessionalExperience>, width: int) -> Result<
    Seq<char>,
    Seq<char>,
> {
    if es.len() == 0 || exists|k: int| 0 <= k < es.len() && es[k].experience.len() == 0 {
        Err(md_experience_error())
    } else {
        Ok(
            "## Experience"@ + "\n"@ + join_sep(
                es.map_values(|e: ProfessionalExperience| md_experience_item(e, width)->Ok_0),
                "\n\n"@,
            ),
        )
    }
}

/// One side project: a link and its description, wrapped as a bullet.
pub open spec fn md_project(p: ProjectInfo, width: int) -> Seq<char> {
    wrap_spec(
        "["@ + p.project_name@ + "]("@ + add_https_spec(p.url@) + ") - "@ + p.description@,
        width,
        "- "@,
        "  "@,
    )
}

/// The error reported when no project is flagged for the resume.
pub open spec fn md_projects_error() -> Seq<char> {
    "An error occurred while rendering other experience to markdown."@
}

/// The projects section: only projects flagged for the resume, one bullet
/// each.  No eligible project is an error.
pub open spec fn md_other_experience(o: OtherExperience, width: int) -> Result<
    Seq<char>,
    Seq<char>,
> {
    let sel = projects_for_resume_spec(o.projects@);
    if sel.len() == 0 {
        Err(md_projects_error())
    } else {
        Ok(
            "## Projects"@ + "\n"@ + join_sep(
                sel.map_values(|p: ProjectInfo| md_project(p, width)),
                "\n"@,
            ),
        )
    }
}

/// The technologies section: the tags on one line, comma-separated.
pub open spec fn md_technologies(t: Technologies) -> Seq<char> {
    "## Technologies\n"@ + join_sep(seq_views(t.technologies@), ", "@)
}

/// The education section: school heading and a code block with major,
/// graduation (when present) and location.
pub open spec fn md_education(e: Education) -> Seq<char> {
    let head = "## University\n### "@ + e.school@;
    match e.graduation {
        Some(g) => head + "\n```\n"@ + e.major@ + "\n"@ + g@ + "\n"@ + e.location@ + "\n```"@,
        None => head + "\n```\n"@ + e.major@ + "\n"@ + e.location@ + "\n```"@,
    }
}

/// The footer line: the generated-by text with the URL as a link.
pub open spec fn md_footer(date: Seq<char>) -> Seq<char> {
    "\n\n---\n\n"@ + footer_prefix_of(date) + " ["@ + footer_url() + "]("@ + add_https_spec(
        footer_url(),
    ) + ")"@ + "\n"@
}

/// The whole resume in Markdown, for the given date: title, objective,
/// contact block, experience, then the optional sections, and the footer.
/// The first failing section decides the error.
pub open spec fn md_resume(r: Resume, width: int, date: Seq<char>) -> Result<
    Seq<char>,
    Seq<char>,
> {
    let head = "# "@ + r.name@ + "\n\n"@ + md_objective(r.objective, width) + "\n\n"@;
    match md_personal_info(r.personal_info) {
        Err(m) => Err(m),
        Ok(pi) => match md_experience_list(r.professional_experience@, width) {
            Err(m) => Err(m),
            Ok(ex) => {
                let upto_ex = head + pi + "\n\n"@ + ex;
                match r.other_experience {
                    Some(oe) => match md_other_experience(oe, width) {
                        Err(m) => Err(m),
                        Ok(pr) => Ok(
                            md_resume_tail(upto_ex + "\n\n"@ + pr, r.technologies, r.education, date),
                        ),
                    },
                    None => Ok(md_resume_tail(upto_ex, r.technologies, r.education, date)),
                }
            },
        },
    }
}

/// The optional technologies and education sections, then the footer.
pub open spec fn md_resume_tail(
    text: Seq<char>,
    tech: Option<Technologies>,
    edu: Option<Education>,
    date: Seq<char>,
) -> Seq<char> {
    let with_tech = match tech {
        Some(t) => text + "\n\n"@ + md_technologies(t),
        None => text,
    };
    let with_edu = match edu {
        Some(e) => with_tech + "\n\n"@ + md_education(e),
        None => with_tech,
    };
    with_edu + md_footer(date)
}

/// Renders the resume data model as Markdown.
#[derive(Debug)]
pub struct MarkdownRenderer;

impl MarkdownRenderer {
    /// A new Markdown renderer.
    pub fn new() -> MarkdownRenderer {
        MarkdownRenderer
    }

    /// Renders one labeled link of the contact block.
    pub fn render_other_personal_info(&self, element: &OtherPersonalInfo, _config: &Config) -> (r:
        Result<String, String>)
        ensures
            r matches Ok(t) && t@ == md_other_personal_info(*element),
    {
        let text: String = match &element.url {
            Some(u) => {
                String::from_str("- ").concat(element.item.as_str()).concat(": [").concat(
                    u.as_str(),
                ).concat("](").concat(add_https_to_url(u.as_str()).as_str()).concat(")")
            },
            None => String::from_str("- ").concat(element.item.as_str()),
        };
        Ok(text)
    }

    /// Renders the contact block.
    pub fn render_personal_info(&self, element: &PersonalInfo, config: &Config) -> (r: Result<
        String,
        String,
    >)
        ensures
            match md_personal_info(*element) {
                Ok(t) => r matches Ok(v) && v@ == t,
                Err(m) => r matches Err(v) && v@ == m,
            },
    {
        let base = String::from_str("## Find me here").concat("\n- Email: [").concat(
            element.email.as_str(),
        ).concat("](mailto:").concat(element.email.as_str()).concat(")").concat(
            "\n- GitHub: [",
        ).concat(element.github.as_str()).concat("](").concat(
            add_https_to_url(element.github.as_str()).as_str(),
        ).concat(")");
        match &element.other {
            None => Ok(base),
            Some(v) => {
                if v.len() == 0 {
                    return Err(
                        String::from_str(
                            "An error occurred while rendering personal info to markdown",
                        ),
                    );
                }
                let first = match self.render_other_personal_info(&v[0], config) {
                    Ok(t) => t,
                    Err(e) => {
                        return Err(e);
                    },
                };
                let mut acc: String = first;
                proof {
                    assert(md_other_personal_infos(v@).subrange(0, 1)[0]
                        == md_other_personal_info(v@[0]));
                    assert(acc@ == join_sep(md_other_personal_infos(v@).subrange(0, 1), "\n"@));
                }
                let mut i: usize = 1;
                while i < v.len()
                    invariant
                        1 <= i <= v@.len(),
                        acc@ == join_sep(md_other_personal_infos(v@).subrange(0, i as int), "\n"@),
                    decreases v@.len() - i,
                {
                    let item = match self.render_other_personal_info(&v[i], config) {
                        Ok(t) => t,
                        Err(e) => {
                            return Err(e);
                        },
                    };
                    acc = acc.concat("\n").concat(item.as_str());
                    proof {
                        let pre = md_other_personal_infos(v@).subrange(0, i + 1 as int);
                        assert(pre.drop_last() =~= md_other_personal_infos(v@).subrange(
                            0,
                            i as int,
                        ));
                        assert(pre.last() == md_other_personal_info(v@[i as int]));
                    }
                    i = i + 1;
                }
                proof {
                    assert(md_other_personal_infos(v@).subrange(
                        0,
                        md_other_personal_infos(v@).len() as int,
                    ) =~= md_other_personal_infos(v@));
                }
                Ok(base.concat("\n").concat(acc.as_str()))
            },
        }
    }

    /// Renders the objective.
    pub fn render_objective(&self, element: &Objective, config: &Config) -> (r: Result<
        String,
        String,
    >)
        ensures
            r matches Ok(t) && t@ == md_objective(
                *element,
                config.format_config.markdown_config.width as int,
            ),
    {
        Ok(
            crate::layout::split_string_across_lines(
                element.objective.as_str(),
                config.format_config.markdown_config.width,
                None,
                None,
            ),
        )
    }

    /// Renders one job entry.
    pub fn render_professional_experience(
        &self,
        element: &ProfessionalExperience,
        config: &Config,
    ) -> (r: Result<String, String>)
        ensures
            match md_experience_item(
                *element,
                config.format_config.markdown_config.width as int,
            ) {
                Ok(t) => r matches Ok(v) && v@ == t,
                Err(m) => r matches Err(v) && v@ == m,
            },
    {
        let width = config.format_config.markdown_config.width;
        let head: String = match (&element.organization, &element.location) {
            (Some(o), Some(l)) => {
                String::from_str("### ").concat(o.as_str()).concat(" - ").concat(l.as_str())
            },
            _ => String::new(),
        };
        let body = head.concat("\n```\n").concat(element.position.as_str()).concat("\n").concat(
            element.start.as_str(),
        ).concat(" - ").concat(element.end.as_str()).concat("\n```");
        if element.experience.len() == 0 {
            return Err(
                String::from_str(
                    "An error occurred while rendering professional experience to markdown.",
                ),
            );
        }
        let ghost items = md_bullets(
            seq_views(element.experience@),
            config.format_config.markdown_config.width as int,
        );
        let first = crate::layout::split_string_across_lines(
            element.experience[0].as_str(),
            width,
            Some(String::from_str("- ")),
            Some(String::from_str("  ")),
        );
        let mut acc: String = first;
        proof {
            assert(items.subrange(0, 1)[0] == items[0]);
            assert(acc@ == join_sep(items.subrange(0, 1), "\n"@));
        }
        let mut i: usize = 1;
        while i < element.experience.len()
            invariant
                1 <= i <= element.experience@.len(),
                items == md_bullets(
                    seq_views(element.experience@),
                    config.format_config.markdown_config.width as int,
                ),
                width == config.format_config.markdown_config.width,
                acc@ == join_sep(items.subrange(0, i as int), "\n"@),
            decreases element.experience@.len() - i,
        {
            let bullet = crate::layout::split_string_across_lines(
                element.experience[i].as_str(),
                width,
                Some(String::from_str("- ")),
                Some(String::from_str("  ")),
            );
            acc = acc.concat("\n").concat(bullet.as_str());
            proof {
                let pre = items.subrange(0, i + 1 as int);
                assert(pre.drop_last() =~= items.subrange(0, i as int));
                assert(pre.last() == items[i as int]);
            }
            i = i + 1;
        }
        proof {
            assert(items.subrange(0, items.len() as int) =~= items);
        }
        Ok(body.concat("\n").concat(acc.as_str()))
    }

    /// Renders the experience section.
    pub fn render_professional_experience_list(
        &self,
        element: &Vec<ProfessionalExperience>,
        config: &Config,
    ) -> (r: Result<String, String>)
        ensures
            match md_experience_list(
                element@,
                config.format_config.markdown_config.width as int,
            ) {
                Ok(t) => r matches Ok(v) && v@ == t,
                Err(m) => r matches Err(v) && v@ == m,
            },
    {
        let ghost w = config.format_config.markdown_config.width as int;
        if element.len() == 0 {
            return Err(
                String::from_str(
                    "An error occurred while rendering professional experience to markdown.",
                ),
            );
        }
        let ghost items = element@.map_values(
            |e: ProfessionalExperience| md_experience_item(e, w)->Ok_0,
        );
        let first = match self.render_professional_experience(&element[0], config) {
            Ok(t) => t,
            Err(e) => {
                proof {
                    assert(element@[0].experience.len() == 0);
                }
                return Err(e);
            },
        };
        let mut acc: String = first;
        proof {
            assert(items.subrange(0, 1)[0] == items[0]);
            assert(acc@ == join_sep(items.subrange(0, 1), "\n\n"@));
        }
        let mut i: usize = 1;
        while i < element.len()
            invariant
                1 <= i <= element@.len(),
                w == config.format_config.markdown_config.width as int,
                items == element@.map_values(
                    |e: ProfessionalExperience| md_experience_item(e, w)->Ok_0,
                ),
                forall|k: int| 0 <= k < i ==> element@[k].experience.len() > 0,
                acc@ == join_sep(items.subrange(0, i as int), "\n\n"@),
            decreases element@.len() - i,
        {
            let item = match self.render_professional_experience(&element[i], config) {
                Ok(t) => t,
                Err(e) => {
                    proof {
                        assert(element@[i as int].experience.len() == 0);
                    }
                    return Err(e);
                },
            };
            acc = acc.concat("\n\n").concat(item.as_str());
            proof {
                let pre = items.subrange(0, i + 1 as int);
                assert(pre.drop_last() =~= items.subrange(0, i as int));
                assert(pre.last() == items[i as int]);
            }
            i = i + 1;
        }
        proof {
            assert(items.subrange(0, items.len() as int) =~= items);
            assert(forall|k: int| 0 <= k < element@.len() ==> element@[k].experience.len() > 0);
        }
        Ok(String::from_str("## Experience").concat("\n").concat(acc.as_str()))
    }

    /// Renders one side project as a bullet.
    pub fn render_project_info(&self, element: &ProjectInfo, config: &Config) -> (r: Result<
        String,
        String,
    >)
        ensures
            r matches Ok(t) && t@ == md_project(
                *element,
                config.format_config.markdown_config.width as int,
            ),
    {
        let project_info = String::from_str("[").concat(element.project_name.as_str()).concat(
            "](",
        ).concat(add_https_to_url(element.url.as_str()).as_str()).concat(") - ").concat(
            element.description.as_str(),
        );
        Ok(
            crate::layout::split_string_across_lines(
                project_info.as_str(),
                config.format_config.markdown_config.width,
                Some(String::from_str("- ")),
                Some(String::from_str("  ")),
            ),
        )
    }

    /// Renders the projects section from the projects flagged for the resume.
    pub fn render_other_experience(&self, element: &OtherExperience, config: &Config) -> (r:
        Result<String, String>)
        ensures
            match md_other_experience(
                *element,
                config.format_config.markdown_config.width as int,
            ) {
                Ok(t) => r matches Ok(v) && v@ == t,
                Err(m) => r matches Err(v) && v@ == m,
            },
    {
        let ghost w = config.format_config.markdown_config.width as int;
        let sel = element.get_projects_for_resume();
        if sel.len() == 0 {
            return Err(
                String::from_str(
                    "An error occurred while rendering other experience to markdown.",
                ),
            );
        }
        let ghost items = projects_for_resume_spec(element.projects@).map_values(
            |p: ProjectInfo| md_project(p, w),
        );
        let first = match self.render_project_info(sel[0], config) {
            Ok(t) => t,
            Err(e) => {
                return Err(e);
            },
        };
        let mut acc: String = first;
        proof {
            assert(items.subrange(0, 1)[0] == items[0]);
            assert(acc@ == join_sep(items.subrange(0, 1), "\n"@));
        }
        let mut i: usize = 1;
        while i < sel.len()
            invariant
                1 <= i <= sel@.len(),
                w == config.format_config.markdown_config.width as int,
                sel@.len() == projects_for_resume_spec(element.projects@).len(),
                forall|k: int|
                    0 <= k < sel@.len() ==> *sel@[k] == projects_for_resume_spec(
                        element.projects@,
                    )[k],
                items == projects_for_resume_spec(element.projects@).map_values(
                    |p: ProjectInfo| md_project(p, w),
                ),
                acc@ == join_sep(items.subrange(0, i as int), "\n"@),
            decreases sel@.len() - i,
        {
            let item = match self.render_project_info(sel[i], config) {
                Ok(t) => t,
                Err(e) => {
                    return Err(e);
                },
            };
            acc = acc.concat("\n").concat(item.as_str());
            proof {
                let pre = items.subrange(0, i + 1 as int);
                assert(pre.drop_last() =~= items.subrange(0, i as int));
                assert(pre.last() == items[i as int]);
            }
            i = i + 1;
        }
        proof {
            assert(items.subrange(0, items.len() as int) =~= items);
        }
        Ok(String::from_str("## Projects").concat("\n").concat(acc.as_str()))
    }

    /// Renders the technologies section.
    pub fn render_technologies(&self, element: &Technologies, _config: &Config) -> (r: Result<
        String,
        String,
    >)
        ensures
            r matches Ok(t) && t@ == md_technologies(*element),
    {
        Ok(
            String::from_str("## Technologies\n").concat(
                join_strings(&element.technologies, ", ").as_str(),
            ),
        )
    }

    /// Renders the education section.
    pub fn render_education(&self, element: &Education, _config: &Config) -> (r: Result<
        String,
        String,
    >)
        ensures
            r matches Ok(t) && t@ == md_education(*element),
    {
        let head = String::from_str("## University\n### ").concat(element.school.as_str());
        let text = match &element.graduation {
            Some(g) => {
                head.concat("\n```\n").concat(element.major.as_str()).concat("\n").concat(
                    g.as_str(),
                ).concat("\n").concat(element.location.as_str()).concat("\n```")
            },
            None => {
                head.concat("\n```\n").concat(element.major.as_str()).concat("\n").concat(
                    element.location.as_str(),
                ).concat("\n```")
            },
        };
        Ok(text)
    }

    /// Renders the whole resume for the given date string.
    #[verifier::rlimit(100)]
    #[verifier::spinoff_prover]
    pub fn render(&self, element: &Resume, config: &Config, date: &str) -> (r: Result<
        String,
        String,
    >)
        ensures
            match md_resume(*element, config.format_config.markdown_config.width as int, date@) {
                Ok(t) => r matches Ok(v) && v@ == t,
                Err(m) => r matches Err(v) && v@ == m,
            },
    {
        let obj = match self.render_objective(&element.objective, config) {
            Ok(t) => t,
            Err(e) => {
                return Err(e);
            },
        };
        let head = String::from_str("# ").concat(element.name.as_str()).concat("\n\n").concat(
            obj.as_str(),
        ).concat("\n\n");
        let pi = match self.render_personal_info(&element.personal_info, config) {
            Ok(t) => t,
            Err(e) => {
                return Err(e);
            },
        };
        let ex = match self.render_professional_experience_list(
            &element.professional_experience,
            config,
        ) {
            Ok(t) => t,
            Err(e) => {
                return Err(e);
            },
        };
        let mut text = head.concat(pi.as_str()).concat("\n\n").concat(ex.as_str());
        match &element.other_experience {
            Some(oe) => {
                let pr = match self.render_other_experience(oe, config) {
                    Ok(t) => t,
                    Err(e) => {
                        return Err(e);
                    },
                };
                text = text.concat("\n\n").concat(pr.as_str());
            },
            None => {},
        }
        match &element.technologies {
            Some(t) => {
                let tch = match self.render_technologies(t, config) {
                    Ok(v) => v,
                    Err(e) => {
                        return Err(e);
                    },
                };
                text = text.concat("\n\n").concat(tch.as_str());
            },
            None => {},
        }
        match &element.education {
            Some(e) => {
                let ed = match self.render_education(e, config) {
                    Ok(v) => v,
                    Err(er) => {
                        return Err(er);
                    },
                };
                text = text.concat("\n\n").concat(ed.as_str());
            },
            None => {},
        }
        let text = text.concat("\n\n---\n\n").concat(
            crate::util::FooterText::new_with_date(date).prefix.as_str(),
        ).concat(" [").concat("github.com/spencewenski/resume_generator").concat("](").concat(
            add_https_to_url("github.com/spencewenski/resume_generator").as_str(),
        ).concat(")").concat("\n");
        Ok(text)
    }
}

} // verus!
