//! The resume data model: an immutable tree of value records, constructed
//! once by a loader outside the library, resolved and validated here, and
//! then handed read-only to every renderer.

use vstd::prelude::*;
use vstd::string::StringExecFns;

verus! {

/// The root aggregate.
#[derive(Debug, Clone)]
pub struct Resume {
    pub name: String,
    pub personal_info: PersonalInfo,
    pub objective: Objective,
    pub professional_experience: Vec<ProfessionalExperience>,
    pub education: Option<Education>,
    pub other_experience: Option<OtherExperience>,
    pub technologies: Option<Technologies>,
    pub cover_letter: Option<CoverLetter>,
}

/// The contact block.
#[derive(Debug, Clone)]
pub struct PersonalInfo {
    pub email: String,
    pub github: String,
    pub other: Option<Vec<OtherPersonalInfo>>,
}

/// One further labeled link of the contact block.
#[derive(Debug, Clone)]
pub struct OtherPersonalInfo {
    pub item: String,
    pub url: Option<String>,
}

/// The free-text summary, wrapped at render time.
#[derive(Debug, Clone)]
pub struct Objective {
    pub objective: String,
}

/// One job entry.  Organization and location may both be omitted so that
/// experience with the same company at different levels can be merged under
/// one company header.
#[derive(Debug, Clone)]
pub struct ProfessionalExperience {
    pub organization: Option<String>,
    pub location: Option<String>,
    pub position: String,
    pub start: String,
    pub end: String,
    pub experience: Vec<String>,
}

/// A degree entry.
#[derive(Debug, Clone)]
pub struct Education {
    pub school: String,
    pub location: String,
    pub major: String,
    pub graduation: Option<String>,
    pub extras: Option<Vec<String>>,
}

/// The side-project list.
#[derive(Debug, Clone)]
pub struct OtherExperience {
    pub projects: Vec<ProjectInfo>,
}

/// One side project, with independent flags for the resume-facing and the
/// public renderings.
#[derive(Debug, Clone)]
pub struct ProjectInfo {
    pub project_name: String,
    pub url: String,
    pub description: String,
    pub include_on_resume: bool,
    pub include_on_github: bool,
}

/// The skill tag list; duplicates are rejected during validation.
#[derive(Debug, Clone)]
pub struct Technologies {
    pub technologies: Vec<String>,
}

/// The optional companion letter.  Name and email are derived from the
/// parent resume during resolution, never authored.
#[derive(Debug, Clone)]
pub struct CoverLetter {
    pub paragraphs: Vec<String>,
    pub salutation: String,
    pub closing: String,
    pub name: Option<String>,
    pub email: Option<String>,
}

/// The projects of `ps` flagged for the resume-facing renderings, in order.
pub open spec fn projects_for_resume_spec(ps: Seq<ProjectInfo>) -> Seq<ProjectInfo>
    decreases ps.len(),
{
    if ps.len() == 0 {
        Seq::empty()
    } else {
        let rest = projects_for_resume_spec(ps.drop_last());
        if ps.last().include_on_resume {
            rest.push(ps.last())
        } else {
            rest
        }
    }
}

/// The projects of `ps` flagged for the public listing, in order.
pub open spec fn projects_for_github_spec(ps: Seq<ProjectInfo>) -> Seq<ProjectInfo>
    decreases ps.len(),
{
    if ps.len() == 0 {
        Seq::empty()
    } else {
        let rest = projects_for_github_spec(ps.drop_last());
        if ps.last().include_on_github {
            rest.push(ps.last())
        } else {
            rest
        }
    }
}

/// The resume-facing selection keeps exactly the projects whose
/// `include_on_resume` flag is set, in their original order: every renderer
/// that consumes [`projects_for_resume_spec`] therefore includes a project
/// if and only if it carries the flag.
pub proof fn lemma_projects_for_resume_is_filter(ps: Seq<ProjectInfo>)
    ensures
        projects_for_resume_spec(ps) == ps.filter(|p: ProjectInfo| p.include_on_resume),
    decreases ps.len(),
{
    reveal(Seq::filter);
    if ps.len() == 0 {
        assert(ps =~= Seq::<ProjectInfo>::empty());
    } else {
        lemma_projects_for_resume_is_filter(ps.drop_last());
    }
}

/// The public-listing selection keeps exactly the projects whose
/// `include_on_github` flag is set, in their original order.
pub proof fn lemma_projects_for_github_is_filter(ps: Seq<ProjectInfo>)
    ensures
        projects_for_github_spec(ps) == ps.filter(|p: ProjectInfo| p.include_on_github),
    decreases ps.len(),
{
    reveal(Seq::filter);
    if ps.len() == 0 {
        assert(ps =~= Seq::<ProjectInfo>::empty());
    } else {
        lemma_projects_for_github_is_filter(ps.drop_last());
    }
}

impl OtherExperience {
    /// All projects, in order.
    pub fn get_projects(&self) -> (r: Vec<&ProjectInfo>)
        ensures
            r@.len() == self.projects@.len(),
            forall|k: int| 0 <= k < r@.len() ==> *r@[k] == self.projects@[k],
    {
        let mut out: Vec<&ProjectInfo> = Vec::new();
        let mut i: usize = 0;
        while i < self.projects.len()
            invariant
                i <= self.projects@.len(),
                out@.len() == i,
                forall|k: int| 0 <= k < i ==> *out@[k] == self.projects@[k],
            decreases self.projects@.len() - i,
        {
            out.push(&self.projects[i]);
            i = i + 1;
        }
        out
    }

    /// Only the projects flagged for the resume-facing renderings.
    pub fn get_projects_for_resume(&self) -> (r: Vec<&ProjectInfo>)
        ensures
            r@.len() == projects_for_resume_spec(self.projects@).len(),
            forall|k: int|
                0 <= k < r@.len() ==> *r@[k] == projects_for_resume_spec(self.projects@)[k],
    {
        let ps = &self.projects;
        let mut out: Vec<&ProjectInfo> = Vec::new();
        let mut i: usize = 0;
        while i < ps.len()
            invariant
                i <= ps@.len(),
                out@.len() == projects_for_resume_spec(ps@.subrange(0, i as int)).len(),
                forall|k: int|
                    0 <= k < out@.len() ==> *out@[k] == projects_for_resume_spec(
                        ps@.subrange(0, i as int),
                    )[k],
            decreases ps@.len() - i,
        {
            proof {
                let pre = ps@.subrange(0, i + 1 as int);
                assert(pre.drop_last() =~= ps@.subrange(0, i as int));
                assert(pre.last() == ps@[i as int]);
            }
            if ps[i].include_on_resume {
                out.push(&ps[i]);
            }
            i = i + 1;
        }
        proof {
            assert(ps@.subrange(0, ps@.len() as int) =~= ps@);
        }
        out
    }

    /// Only the projects flagged for the public listing.
    pub fn get_projects_for_github(&self) -> (r: Vec<&ProjectInfo>)
        ensures
            r@.len() == projects_for_github_spec(self.projects@).len(),
            forall|k: int|
                0 <= k < r@.len() ==> *r@[k] == projects_for_github_spec(self.projects@)[k],
    {
        let ps = &self.projects;
        let mut out: Vec<&ProjectInfo> = Vec::new();
        let mut i: usize = 0;
        while i < ps.len()
            invariant
                i <= ps@.len(),
                out@.len() == projects_for_github_spec(ps@.subrange(0, i as int)).len(),
                forall|k: int|
                    0 <= k < out@.len() ==> *out@[k] == projects_for_github_spec(
                        ps@.subrange(0, i as int),
                    )[k],
            decreases ps@.len() - i,
        {
            proof {
                let pre = ps@.subrange(0, i + 1 as int);
                assert(pre.drop_last() =~= ps@.subrange(0, i as int));
                assert(pre.last() == ps@[i as int]);
            }
            if ps[i].include_on_github {
                out.push(&ps[i]);
            }
            i = i + 1;
        }
        proof {
            assert(ps@.subrange(0, ps@.len() as int) =~= ps@);
        }
        out
    }
}

/// Entry `j` of `s` repeats some earlier entry.
pub open spec fn tech_dup_at(s: Seq<String>, j: int) -> bool {
    exists|i: int| 0 <= i < j && s[i]@ == s[j]@
}

/// No entry of `s` repeats an earlier one.
pub open spec fn tech_dup_free(s: Seq<String>) -> bool {
    forall|j: int| 0 <= j < s.len() ==> !tech_dup_at(s, j)
}

/// The error reported for the first repeated entry `t`.
pub open spec fn dup_error_message(t: Seq<char>) -> Seq<char> {
    "Technologies list contains a duplicate entry: "@ + t
}

impl Resume {
    /// Rejects a technology list holding the same entry twice.  On failure
    /// the error names the first entry that repeats an earlier one.
    pub fn verify_technologies(tech: &Technologies) -> (r: Result<(), String>)
        ensures
            r is Ok <==> tech_dup_free(tech.technologies@),
            match r {
                Ok(_) => true,
                Err(m) => exists|j: int|
                    0 <= j < tech.technologies@.len() && #[trigger] tech_dup_at(
                        tech.technologies@,
                        j,
                    ) && (forall|k: int| 0 <= k < j ==> !tech_dup_at(tech.technologies@, k))
                        && m@ == dup_error_message(tech.technologies@[j]@),
            },
    {
        let s = &tech.technologies;
        let mut j: usize = 1;
        if s.len() == 0 {
            return Ok(());
        }
        while j < s.len()
            invariant
                s@ == tech.technologies@,
                1 <= j <= s@.len(),
                forall|k: int| 0 <= k < j ==> !tech_dup_at(s@, k),
            decreases s@.len() - j,
        {
            let mut i: usize = 0;
            while i < j
                invariant
                    s@ == tech.technologies@,
                    i <= j < s@.len(),
                    forall|k: int| 0 <= k < j ==> !tech_dup_at(s@, k),
                    forall|k: int| 0 <= k < i ==> s@[k]@ != s@[j as int]@,
                decreases j - i,
            {
                if s[i] == s[j] {
                    let msg = String::from_str(
                        "Technologies list contains a duplicate entry: ",
                    ).concat(s[j].as_str());
                    proof {
                        assert(tech_dup_at(tech.technologies@, j as int)) by {
                            assert(0 <= (i as int) && (i as int) < (j as int) && tech.technologies@[
                                i as int]@ == tech.technologies@[j as int]@);
                        }
                        assert(!tech_dup_free(tech.technologies@));
                        assert(exists|jj: int|
                            0 <= jj < tech.technologies@.len() && #[trigger] tech_dup_at(
                                tech.technologies@,
                                jj,
                            ) && (forall|k: int| 0 <= k < jj ==> !tech_dup_at(tech.technologies@, k))
                                && msg@ == dup_error_message(tech.technologies@[jj]@)) by {
                            assert(0 <= (j as int) && (j as int) < tech.technologies@.len());
                            assert(tech_dup_at(tech.technologies@, j as int));
                            assert(forall|k: int|
                                0 <= k < j as int ==> !tech_dup_at(tech.technologies@, k));
                            assert(msg@ == dup_error_message(tech.technologies@[j as int]@));
                        }
                    }
                    return Err(msg);
                }
                i = i + 1;
            }
            proof {
                assert(!tech_dup_at(s@, j as int));
            }
            j = j + 1;
        }
        proof {
            assert(forall|k: int| 0 <= k < 1 ==> !tech_dup_at(s@, k));
        }
        Ok(())
    }

    /// Validates a resolved resume: the only check is that the technology
    /// list, when present, holds no duplicate entry.
    pub fn verify(resume: Resume) -> (r: Result<Resume, String>)
        ensures
            match resume.technologies {
                None => r == Ok::<Resume, String>(resume),
                Some(t) => {
                    &&& (r is Ok <==> tech_dup_free(t.technologies@))
                    &&& (r is Ok ==> r == Ok::<Resume, String>(resume))
                    &&& match r {
                        Ok(_) => true,
                        Err(m) => exists|j: int|
                            0 <= j < t.technologies@.len() && #[trigger] tech_dup_at(
                                t.technologies@,
                                j,
                            ) && (forall|k: int| 0 <= k < j ==> !tech_dup_at(t.technologies@, k))
                                && m@ == dup_error_message(t.technologies@[j]@),
                    }
                },
            },
    {
        match &resume.technologies {
            Some(tech) => {
                match Resume::verify_technologies(tech) {
                    Ok(_) => Ok(resume),
                    Err(m) => Err(m),
                }
            },
            None => Ok(resume),
        }
    }

    /// The explicit post-load step: applies the email override, fills the
    /// cover letter's derived name and email from the resume, and validates
    /// the result.  The loader hands every parsed resume through here before
    /// any renderer sees it.
    pub fn resolve(resume: Resume, email: Option<&String>) -> (r: Result<Resume, String>)
        ensures
            ({
                let new_email = match email {
                    Some(e) => e@,
                    None => resume.personal_info.email@,
                };
                let dup_ok = match resume.technologies {
                    None => true,
                    Some(t) => tech_dup_free(t.technologies@),
                };
                &&& (r is Ok <==> dup_ok)
                &&& match r {
                    Ok(res) => {
                        &&& res.name == resume.name
                        &&& res.personal_info.email@ == new_email
                        &&& res.personal_info.github == resume.personal_info.github
                        &&& res.personal_info.other == resume.personal_info.other
                        &&& res.objective == resume.objective
                        &&& res.professional_experience == resume.professional_experience
                        &&& res.education == resume.education
                        &&& res.other_experience == resume.other_experience
                        &&& res.technologies == resume.technologies
                        &&& match (resume.cover_letter, res.cover_letter) {
                            (None, None) => true,
                            (Some(cl), Some(c2)) => {
                                &&& c2.paragraphs == cl.paragraphs
                                &&& c2.salutation == cl.salutation
                                &&& c2.closing == cl.closing
                                &&& match c2.name {
                                    Some(n) => n@ == resume.name@,
                                    None => false,
                                }
                                &&& match c2.email {
                                    Some(e2) => e2@ == new_email,
                                    None => false,
                                }
                            },
                            _ => false,
                        }
                    },
                    Err(m) => match resume.technologies {
                        None => false,
                        Some(t) => exists|j: int|
                            0 <= j < t.technologies@.len() && #[trigger] tech_dup_at(
                                t.technologies@,
                                j,
                            ) && (forall|k: int| 0 <= k < j ==> !tech_dup_at(t.technologies@, k))
                                && m@ == dup_error_message(t.technologies@[j]@),
                    },
                }
            }),
    {
        let mut resume = resume;
        match email {
            Some(e) => {
                resume.personal_info.email = e.clone();
            },
            None => {},
        }
        let name_copy = resume.name.clone();
        let email_copy = resume.personal_info.email.clone();
        resume.cover_letter = match resume.cover_letter {
            Some(cl) => Some(
                CoverLetter {
                    paragraphs: cl.paragraphs,
                    salutation: cl.salutation,
                    closing: cl.closing,
                    name: Some(name_copy),
                    email: Some(email_copy),
                },
            ),
            None => None,
        };
        Resume::verify(resume)
    }
}

} // verus!
