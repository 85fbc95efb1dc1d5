//! The plain-text renderer: a fixed-width console layout built from the
//! centering and two-sided alignment helpers, with bullets wrapped under a
//! hanging indent.

use vstd::prelude::*;
use vstd::string::StringExecFns;
use crate::config::Config;
use crate::data::{
    CoverLetter, Education, Objective, OtherExperience, PersonalInfo, ProfessionalExperience,
    ProjectInfo, Resume, Technologies, projects_for_resume_spec,
};
use crate::layout::{
    centered_spec, centered_string, right_and_left_aligned, split_string_across_lines,
    two_sided_spec, wrap_spec,
};
use crate::strutil::{
    chars_to_string, join_line_vecs, join_sep, join_strings, seq_views, split_lines,
    split_newlines, str_to_chars, vec_views,
};
use crate::util::{FooterText, footer_basic_of, time_range_string};

verus! {

/// The contact line: the GitHub handle left, the email right.
pub open spec fn txt_personal_info(p: PersonalInfo, width: int) -> Seq<char> {
    two_sided_spec(p.github@, p.email@, width)
}

/// The objective, wrapped at the text width with no prefixes.
pub open spec fn txt_objective(o: Objective, width: int) -> Seq<char> {
    wrap_spec(o.objective@, width, Seq::empty(), Seq::empty())
}

/// One job entry: the organization and location aligned across the line when
/// both are present, the position and time range aligned likewise, then one
/// wrapped bullet per accomplishment.
pub open spec fn txt_experience_item(e: ProfessionalExperience, width: int) -> Seq<char> {
    let head = match (e.organization, e.location) {
        (Some(o), Some(l)) => two_sided_spec(o@, l@, width) + "\n"@,
        _ => Seq::<char>::empty(),
    };
    head + two_sided_spec(e.position@, e.start@ + " - "@ + e.end@, width) + "\n"@ + join_sep(
        seq_views(e.experience@).map_values(|s: Seq<char>| wrap_spec(s, width, "- "@, "  "@)),
        "\n"@,
    )
}

/// The error reported when the experience list cannot be reduced.
pub open spec fn txt_experience_error() -> Seq<char> {
    "An error occurred while rendering professional experience to plain text."@
}

/// The experience section: a centered heading and every entry, blank lines
/// between entries.  An empty list is an error.
pub open spec fn txt_experience_list(es: Seq<ProfessionalExperience>, width: int) -> Result<
    Seq<char>,
    Seq<char>,
> {
    if es.len() == 0 {
        Err(txt_experience_error())
    } else {
        Ok(
            centered_spec("EXPERIENCE"@, width) + "\n"@ + join_sep(
                es.map_values(|e: ProfessionalExperience| txt_experience_item(e, width)),
                "\n\n"@,
            ),
        )
    }
}

/// One side project: name and description, wrapped as a bullet.
pub open spec fn txt_project(p: ProjectInfo, width: int) -> Seq<char> {
    wrap_spec(p.project_name@ + ": "@ + p.description@, width, "- "@, "  "@)
}

/// The error reported when no project is flagged for the resume.
pub open spec fn txt_projects_error() -> Seq<char> {
    "An error occurred while rendering other experience to plain text."@
}

/// The projects section: a centered heading and one bullet per project
/// flagged for the resume.  No eligible project is an error.
pub open spec fn txt_other_experience(o: OtherExperience, width: int) -> Result<
    Seq<char>,
    Seq<char>,
> {
    let sel = projects_for_resume_spec(o.projects@);
    if sel.len() == 0 {
        Err(txt_projects_error())
    } else {
        Ok(
            centered_spec("PROJECTS"@, width) + "\n"@ + join_sep(
                sel.map_values(|p: ProjectInfo| txt_project(p, width)),
                "\n"@,
            ),
        )
    }
}

/// The technologies section: a centered heading, then the comma-separated
/// tags wrapped at the width with every resulting line centered.
pub open spec fn txt_technologies(t: Technologies, width: int) -> Seq<char> {
    let wrapped = wrap_spec(
        join_sep(seq_views(t.technologies@), ", "@),
        width,
        Seq::empty(),
        Seq::empty(),
    );
    centered_spec("TECHNOLOGIES"@, width) + "\n"@ + join_sep(
        split_lines(wrapped).map_values(|l: Seq<char>| centered_spec(l, width)),
        "\n"@,
    )
}

/// The education section: a centered heading and one centered line joining
/// school, location, major and, when present, graduation.
pub open spec fn txt_education(e: Education, width: int) -> Seq<char> {
    let line = match e.graduation {
        Some(g) => e.school@ + " - "@ + e.location@ + " - "@ + e.major@ + " - "@ + g@,
        None => e.school@ + " - "@ + e.location@ + " - "@ + e.major@,
    };
    centered_spec("UNIVERSITY"@, width) + "\n"@ + centered_spec(line, width)
}

/// The cover letter: name and email when present, the date, the salutation,
/// every paragraph wrapped at the width, and the closing over the name.
pub open spec fn txt_cover_letter(c: CoverLetter, width: int, date: Seq<char>) -> Seq<char> {
    let head_name = match c.name {
        Some(n) => n@ + "\n"@,
        None => Seq::<char>::empty(),
    };
    let head_email = match c.email {
        Some(e) => head_name + e@ + "\n"@,
        None => head_name,
    };
    let header = head_email + date + "\n\n\n"@ + c.salutation@ + "\n\n"@;
    let body = join_sep(
        seq_views(c.paragraphs@).map_values(
            |p: Seq<char>| wrap_spec(p, width, Seq::empty(), Seq::empty()),
        ),
        "\n\n"@,
    );
    let footer = match c.name {
        Some(n) => c.closing@ + "\n"@ + n@,
        None => Seq::<char>::empty(),
    };
    header + body + "\n\n\n"@ + footer
}

/// The whole plain-text resume for the given date: the centered name, the
/// contact line, the objective, the experience section, the optional
/// sections, and the centered footer.
pub open spec fn txt_resume(r: Resume, width: int, date: Seq<char>) -> Result<
    Seq<char>,
    Seq<char>,
> {
    let head = centered_spec(r.name@, width) + "\n\n"@ + txt_personal_info(r.personal_info, width)
        + "\n\n"@ + txt_objective(r.objective, width) + "\n\n"@;
    match txt_experience_list(r.professional_experience@, width) {
        Err(m) => Err(m),
        Ok(ex) => {
            let upto_ex = head + ex;
            match r.other_experience {
                Some(oe) => match txt_other_experience(oe, width) {
                    Err(m) => Err(m),
                    Ok(pr) => Ok(
                        txt_resume_tail(upto_ex + "\n\n"@ + pr, r.technologies, r.education, width, date),
                    ),
                },
                None => Ok(txt_resume_tail(upto_ex, r.technologies, r.education, width, date)),
            }
        },
    }
}

/// The optional technologies and education sections, then the centered
/// footer.
pub open spec fn txt_resume_tail(
    text: Seq<char>,
    tech: Option<Technologies>,
    edu: Option<Education>,
    width: int,
    date: Seq<char>,
) -> Seq<char> {
    let with_tech = match tech {
        Some(t) => text + "\n\n"@ + txt_technologies(t, width),
        None => text,
    };
    let with_edu = match edu {
        Some(e) => with_tech + "\n\n"@ + txt_education(e, width),
        None => with_tech,
    };
    with_edu + "\n\n"@ + centered_spec(footer_basic_of(date), width)
}

/// Renders the resume data model as fixed-width plain text.
#[derive(Debug)]
pub struct TextRenderer;

impl TextRenderer {
    /// A new plain-text renderer.
    pub fn new() -> TextRenderer {
        TextRenderer
    }

    /// Renders the contact line.
    pub fn render_personal_info(&self, element: &PersonalInfo, config: &Config) -> (r: Result<
        String,
        String,
    >)
        ensures
            r matches Ok(t) && t@ == txt_personal_info(
                *element,
                config.format_config.text_config.width as int,
            ),
    {
        Ok(
            right_and_left_aligned(
                element.github.as_str(),
                Some(element.email.as_str()),
                config.format_config.text_config.width,
            ),
        )
    }

    /// Renders the objective.
    pub fn render_objective(&self, element: &Objective, config: &Config) -> (r: Result<
        String,
        String,
    >)
        ensures
            r matches Ok(t) && t@ == txt_objective(
                *element,
                config.format_config.text_config.width as int,
            ),
    {
        Ok(
            split_string_across_lines(
                element.objective.as_str(),
                config.format_config.text_config.width,
                None,
                None,
            ),
        )
    }

    /// Renders one job entry.
    #[verifier::rlimit(60)]
    pub fn render_professional_experience(
        &self,
        element: &ProfessionalExperience,
        config: &Config,
    ) -> (r: Result<String, String>)
        ensures
            r matches Ok(t) && t@ == txt_experience_item(
                *element,
                config.format_config.text_config.width as int,
            ),
    {
        let width = config.format_config.text_config.width;
        let ghost w = width as int;
        let head: String = match (&element.organization, &element.location) {
            (Some(o), Some(l)) => {
                right_and_left_aligned(o.as_str(), Some(l.as_str()), width).concat("\n")
            },
            _ => String::new(),
        };
        let range = time_range_string(element.start.as_str(), element.end.as_str());
        let aligned = right_and_left_aligned(
            element.position.as_str(),
            Some(range.as_str()),
            width,
        );
        let ghost items = seq_views(element.experience@).map_values(
            |s: Seq<char>| wrap_spec(s, w, "- "@, "  "@),
        );
        let mut bullets: Vec<String> = Vec::new();
        let mut i: usize = 0;
        while i < element.experience.len()
            invariant
                i <= element.experience@.len(),
                w == config.format_config.text_config.width as int,
                width == config.format_config.text_config.width,
                items == seq_views(element.experience@).map_values(
                    |s: Seq<char>| wrap_spec(s, w, "- "@, "  "@),
                ),
                bullets@.len() == i,
                forall|k: int| 0 <= k < i ==> bullets@[k]@ == items[k],
            decreases element.experience@.len() - i,
        {
            let b = split_string_across_lines(
                element.experience[i].as_str(),
                width,
                Some(String::from_str("- ")),
                Some(String::from_str("  ")),
            );
            bullets.push(b);
            proof {
                assert(seq_views(element.experience@)[i as int] == element.experience@[i as int]@);
                assert(items[i as int] == wrap_spec(element.experience@[i as int]@, w, "- "@, "  "@));
            }
            i = i + 1;
        }
        proof {
            assert(seq_views(bullets@) =~= items);
        }
        let joined = join_strings(&bullets, "\n");
        proof {
            assert(join_sep(seq_views(bullets@), "\n"@) == join_sep(items, "\n"@));
        }
        Ok(head.concat(aligned.as_str()).concat("\n").concat(joined.as_str()))
    }

    /// Renders the experience section.
    pub fn render_professional_experience_list(
        &self,
        element: &Vec<ProfessionalExperience>,
        config: &Config,
    ) -> (r: Result<String, String>)
        ensures
            match txt_experience_list(element@, config.format_config.text_config.width as int) {
                Ok(t) => r matches Ok(v) && v@ == t,
                Err(m) => r matches Err(v) && v@ == m,
            },
    {
        let ghost w = config.format_config.text_config.width as int;
        if element.len() == 0 {
            return Err(
                String::from_str(
                    "An error occurred while rendering professional experience to plain text.",
                ),
            );
        }
        let ghost items = element@.map_values(
            |e: ProfessionalExperience| txt_experience_item(e, w),
        );
        let first = match self.render_professional_experience(&element[0], config) {
            Ok(t) => t,
            Err(e) => {
                return Err(e);
            },
        };
        let mut acc: String = first;
        proof {
            assert(items.subrange(0, 1)[0] == items[0]);
            assert(acc@ == join_sep(items.subrange(0, 1), "\n\n"@));
        }
        let mut i: usize = 1;
        while i < element.len()
            invariant
                1 <= i <= element@.len(),
                w == config.format_config.text_config.width as int,
                items == element@.map_values(
                    |e: ProfessionalExperience| txt_experience_item(e, w),
                ),
                acc@ == join_sep(items.subrange(0, i as int), "\n\n"@),
            decreases element@.len() - i,
        {
            let item = match self.render_professional_experience(&element[i], config) {
                Ok(t) => t,
                Err(e) => {
                    return Err(e);
                },
            };
            acc = acc.concat("\n\n").concat(item.as_str());
            proof {
                let pre = items.subrange(0, i + 1 as int);
                assert(pre.drop_last() =~= items.subrange(0, i as int));
                assert(pre.last() == items[i as int]);
            }
            i = i + 1;
        }
        proof {
            assert(items.subrange(0, items.len() as int) =~= items);
        }
        let header = centered_string("EXPERIENCE", config.format_config.text_config.width);
        Ok(header.concat("\n").concat(acc.as_str()))
    }

    /// Renders one side project as a bullet.
    pub fn render_project_info(&self, element: &ProjectInfo, config: &Config) -> (r: Result<
        String,
        String,
    >)
        ensures
            r matches Ok(t) && t@ == txt_project(
                *element,
                config.format_config.text_config.width as int,
            ),
    {
        let line = String::from_str(element.project_name.as_str()).concat(": ").concat(
            element.description.as_str(),
        );
        Ok(
            split_string_across_lines(
                line.as_str(),
                config.format_config.text_config.width,
                Some(String::from_str("- ")),
                Some(String::from_str("  ")),
            ),
        )
    }

    /// Renders the projects section from the projects flagged for the resume.
    pub fn render_other_experience(&self, element: &OtherExperience, config: &Config) -> (r:
        Result<String, String>)
        ensures
            match txt_other_experience(
                *element,
                config.format_config.text_config.width as int,
            ) {
                Ok(t) => r matches Ok(v) && v@ == t,
                Err(m) => r matches Err(v) && v@ == m,
            },
    {
        let ghost w = config.format_config.text_config.width as int;
        let sel = element.get_projects_for_resume();
        if sel.len() == 0 {
            return Err(
                String::from_str(
                    "An error occurred while rendering other experience to plain text.",
                ),
            );
        }
        let ghost items = projects_for_resume_spec(element.projects@).map_values(
            |p: ProjectInfo| txt_project(p, w),
        );
        let first = match self.render_project_info(sel[0], config) {
            Ok(t) => t,
            Err(e) => {
                return Err(e);
            },
        };
        let mut acc: String = first;
        proof {
            assert(items.subrange(0, 1)[0] == items[0]);
            assert(acc@ == join_sep(items.subrange(0, 1), "\n"@));
        }
        let mut i: usize = 1;
        while i < sel.len()
            invariant
                1 <= i <= sel@.len(),
                w == config.format_config.text_config.width as int,
                sel@.len() == projects_for_resume_spec(element.projects@).len(),
                forall|k: int|
                    0 <= k < sel@.len() ==> *sel@[k] == projects_for_resume_spec(
                        element.projects@,
                    )[k],
                items == projects_for_resume_spec(element.projects@).map_values(
                    |p: ProjectInfo| txt_project(p, w),
                ),
                acc@ == join_sep(items.subrange(0, i as int), "\n"@),
            decreases sel@.len() - i,
        {
            let item = match self.render_project_info(sel[i], config) {
                Ok(t) => t,
                Err(e) => {
                    return Err(e);
                },
            };
            acc = acc.concat("\n").concat(item.as_str());
            proof {
                let pre = items.subrange(0, i + 1 as int);
                assert(pre.drop_last() =~= items.subrange(0, i as int));
                assert(pre.last() == items[i as int]);
            }
            i = i + 1;
        }
        proof {
            assert(items.subrange(0, items.len() as int) =~= items);
        }
        let header = centered_string("PROJECTS", config.format_config.text_config.width);
        Ok(header.concat("\n").concat(acc.as_str()))
    }

    /// Renders the technologies section.
    #[verifier::rlimit(60)]
    pub fn render_technologies(&self, element: &Technologies, config: &Config) -> (r: Result<
        String,
        String,
    >)
        ensures
            r matches Ok(t) && t@ == txt_technologies(
                *element,
                config.format_config.text_config.width as int,
            ),
    {
        let width = config.format_config.text_config.width;
        let ghost w = width as int;
        let tags = join_strings(&element.technologies, ", ");
        let wrapped = split_string_across_lines(tags.as_str(), width, None, None);
        let wv = str_to_chars(wrapped.as_str());
        let lines = split_newlines(&wv);
        let ghost lviews = split_lines(wrapped@);
        let ghost cviews = lviews.map_values(|l: Seq<char>| centered_spec(l, w));
        let mut centered: Vec<Vec<char>> = Vec::new();
        let mut i: usize = 0;
        while i < lines.len()
            invariant
                i <= lines@.len(),
                w == config.format_config.text_config.width as int,
                width == config.format_config.text_config.width,
                vec_views(lines@) == lviews,
                cviews == lviews.map_values(|l: Seq<char>| centered_spec(l, w)),
                centered@.len() == i,
                forall|k: int| 0 <= k < i ==> centered@[k]@ == cviews[k],
            decreases lines@.len() - i,
        {
            proof {
                assert(lines@[i as int]@ == lviews[i as int]);
            }
            let line_s = chars_to_string(&lines[i]);
            let c = centered_string(line_s.as_str(), width);
            centered.push(str_to_chars(c.as_str()));
            proof {
                assert(cviews[i as int] == centered_spec(lviews[i as int], w));
            }
            i = i + 1;
        }
        proof {
            assert(vec_views(centered@) =~= cviews);
        }
        let joined = join_line_vecs(&centered);
        let header = centered_string("TECHNOLOGIES", width);
        Ok(header.concat("\n").concat(chars_to_string(&joined).as_str()))
    }

    /// Renders the education section.
    pub fn render_education(&self, element: &Education, config: &Config) -> (r: Result<
        String,
        String,
    >)
        ensures
            r matches Ok(t) && t@ == txt_education(
                *element,
                config.format_config.text_config.width as int,
            ),
    {
        let width = config.format_config.text_config.width;
        let line: String = match &element.graduation {
            Some(g) => {
                String::from_str(element.school.as_str()).concat(" - ").concat(
                    element.location.as_str(),
                ).concat(" - ").concat(element.major.as_str()).concat(" - ").concat(g.as_str())
            },
            None => {
                String::from_str(element.school.as_str()).concat(" - ").concat(
                    element.location.as_str(),
                ).concat(" - ").concat(element.major.as_str())
            },
        };
        let title = centered_string("UNIVERSITY", width);
        Ok(title.concat("\n").concat(centered_string(line.as_str(), width).as_str()))
    }

    /// Renders the cover letter for the given date string.
    #[verifier::rlimit(60)]
    pub fn render_cover_letter(&self, element: &CoverLetter, config: &Config, date: &str) -> (r:
        Result<String, String>)
        ensures
            r matches Ok(t) && t@ == txt_cover_letter(
                *element,
                config.format_config.text_config.width as int,
                date@,
            ),
    {
        let width = config.format_config.text_config.width;
        let ghost w = width as int;
        let mut header: String = String::new();
        match &element.name {
            Some(n) => {
                header = String::from_str(n.as_str()).concat("\n");
            },
            None => {},
        }
        match &element.email {
            Some(e) => {
                header = header.concat(e.as_str()).concat("\n");
            },
            None => {},
        }
        header = header.concat(date).concat("\n\n\n").concat(element.salutation.as_str()).concat(
            "\n\n",
        );
        let ghost items = seq_views(element.paragraphs@).map_values(
            |p: Seq<char>| wrap_spec(p, w, Seq::empty(), Seq::empty()),
        );
        let mut paras: Vec<String> = Vec::new();
        let mut i: usize = 0;
        while i < element.paragraphs.len()
            invariant
                i <= element.paragraphs@.len(),
                w == config.format_config.text_config.width as int,
                width == config.format_config.text_config.width,
                items == seq_views(element.paragraphs@).map_values(
                    |p: Seq<char>| wrap_spec(p, w, Seq::empty(), Seq::empty()),
                ),
                paras@.len() == i,
                forall|k: int| 0 <= k < i ==> paras@[k]@ == items[k],
            decreases element.paragraphs@.len() - i,
        {
            let p = split_string_across_lines(
                element.paragraphs[i].as_str(),
                width,
                None,
                None,
            );
            paras.push(p);
            proof {
                assert(seq_views(element.paragraphs@)[i as int] == element.paragraphs@[i as int]@);
                assert(items[i as int] == wrap_spec(element.paragraphs@[i as int]@, w, Seq::empty(), Seq::empty()));
            }
            i = i + 1;
        }
        proof {
            assert(seq_views(paras@) =~= items);
        }
        let body = join_strings(&paras, "\n\n");
        let footer: String = match &element.name {
            Some(n) => {
                String::from_str(element.closing.as_str()).concat("\n").concat(n.as_str())
            },
            None => String::new(),
        };
        Ok(header.concat(body.as_str()).concat("\n\n\n").concat(footer.as_str()))
    }

    /// Renders the whole plain-text resume for the given date string.
    pub fn render(&self, element: &Resume, config: &Config, date: &str) -> (r: Result<
        String,
        String,
    >)
        ensures
            match txt_resume(*element, config.format_config.text_config.width as int, date@) {
                Ok(t) => r matches Ok(v) && v@ == t,
                Err(m) => r matches Err(v) && v@ == m,
            },
    {
        let width = config.format_config.text_config.width;
        let pi = match self.render_personal_info(&element.personal_info, config) {
            Ok(t) => t,
            Err(e) => {
                return Err(e);
            },
        };
        let obj = match self.render_objective(&element.objective, config) {
            Ok(t) => t,
            Err(e) => {
                return Err(e);
            },
        };
        let ex = match self.render_professional_experience_list(
            &element.professional_experience,
            config,
        ) {
            Ok(t) => t,
            Err(e) => {
                return Err(e);
            },
        };
        let mut text = centered_string(element.name.as_str(), width).concat("\n\n").concat(
            pi.as_str(),
        ).concat("\n\n").concat(obj.as_str()).concat("\n\n").concat(ex.as_str());
        match &element.other_experience {
            Some(oe) => {
                let pr = match self.render_other_experience(oe, config) {
                    Ok(t) => t,
                    Err(e) => {
                        return Err(e);
                    },
                };
                text = text.concat("\n\n").concat(pr.as_str());
            },
            None => {},
        }
        match &element.technologies {
            Some(t) => {
                let tch = match self.render_technologies(t, config) {
                    Ok(v) => v,
                    Err(e) => {
                        return Err(e);
                    },
                };
                text = text.concat("\n\n").concat(tch.as_str());
            },
            None => {},
        }
        match &element.education {
            Some(e) => {
                let ed = match self.render_education(e, config) {
                    Ok(v) => v,
                    Err(er) => {
                        return Err(er);
                    },
                };
                text = text.concat("\n\n").concat(ed.as_str());
            },
            None => {},
        }
        let footer = FooterText::new_with_date(date);
        let centered_footer = centered_string(footer.basic_text.as_str(), width);
        proof {
            assert(footer.basic_text@ == footer_basic_of(date@));
        }
        Ok(text.concat("\n\n").concat(centered_footer.as_str()))
    }
}

} // verus!
