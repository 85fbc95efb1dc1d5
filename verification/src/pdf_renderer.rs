//! The typeset-document renderer: builds the intermediate document tree —
//! centered blocks, itemized lists and raw lines — and serializes it to
//! markup text.  Compiling that text to a binary document is a boundary
//! concern outside the library.

use vstd::prelude::*;
use vstd::string::StringExecFns;
use crate::config::Config;
use crate::data::{
    CoverLetter, Education, Objective, OtherExperience, PersonalInfo, ProfessionalExperience,
    ProjectInfo, Resume, Technologies, projects_for_resume_spec,
};
use crate::latex_doc::{
    TexBlock, TexPreambleBlock, doc_elements, doc_preamble, new_document, preamble_use_package,
    preamble_use_package_arg, preamble_user_defined, print_doc, print_document, push_doc,
    push_environment, push_paragraph, push_user_defined,
};
use crate::strutil::{join_strings, join_sep, seq_views};
use crate::util::{FooterText, escape_spec, escape_special_chars, footer_basic_of};

verus! {

/// The preamble of every generated document: margins, font encoding, and a
/// footer holding the escaped generated-by text for the given date.
pub open spec fn pdf_preamble_blocks(margin: Seq<char>, date: Seq<char>) -> Seq<TexPreambleBlock> {
    seq![
        TexPreambleBlock::UsePackage("geometry"@, Some("margin="@ + margin)),
        TexPreambleBlock::UsePackage("fontenc"@, Some("T1"@)),
        TexPreambleBlock::UsePackage("fancyhdr"@, None),
        TexPreambleBlock::UserDefined("\\fancyhf{}"@),
        TexPreambleBlock::UserDefined("\\pagestyle{fancy}"@),
        TexPreambleBlock::UserDefined("\\renewcommand{\\headrulewidth}{0pt}"@),
        TexPreambleBlock::UserDefined("\\cfoot{"@ + escape_spec(footer_basic_of(date)) + "}"@),
    ]
}

/// A small vertical gap between sections.
pub open spec fn vspace_blocks() -> Seq<TexBlock> {
    seq![TexBlock::UserDefined("\\vspace*{\\baselineskip}"@)]
}

/// Tightens the paragraph skip before a compact region.
pub open spec fn par_skip_start_blocks() -> Seq<TexBlock> {
    seq![TexBlock::UserDefined("\\addtolength{\\parskip}{ -0.1in }"@)]
}

/// Restores the paragraph skip after a compact region.
pub open spec fn par_skip_end_blocks() -> Seq<TexBlock> {
    seq![TexBlock::UserDefined("\\addtolength{\\parskip}{ 0.1in }"@)]
}

/// A centered bold section heading, wrapped in the paragraph-skip
/// adjustments.
pub open spec fn section_header_blocks(h: Seq<char>) -> Seq<TexBlock> {
    par_skip_start_blocks() + seq![
        TexBlock::Environment("center"@, seq!["{\\bf "@ + h + "}"@]),
    ] + par_skip_end_blocks()
}

/// The contact line and the rule under it.
pub open spec fn pdf_personal_info_blocks(p: PersonalInfo) -> Seq<TexBlock> {
    seq![
        TexBlock::UserDefined(p.github@ + " \\hfill "@ + p.email@),
        TexBlock::UserDefined("\\rule{\\textwidth}{0.4pt}"@),
    ]
}

/// The objective as one bare paragraph.
pub open spec fn pdf_objective_blocks(o: Objective) -> Seq<TexBlock> {
    seq![TexBlock::Paragraph(o.objective@)]
}

/// The itemize lines of one job entry: the item-spacing directive, then one
/// item per accomplishment.
pub open spec fn pdf_itemize_lines(items: Seq<Seq<char>>) -> Seq<Seq<char>> {
    seq!["\\setlength\\itemsep{-0.05in}"@] + items.map_values(|s: Seq<char>| "\\item "@ + s)
}

/// One job entry: the bold organization and location when both are present,
/// the emphasized position and time range, and the accomplishment list.
pub open spec fn pdf_experience_item_blocks(e: ProfessionalExperience) -> Seq<TexBlock> {
    let head = match (e.organization, e.location) {
        (Some(o), Some(l)) => seq![
            TexBlock::UserDefined("{\\bf "@ + o@ + "} \\hfill "@ + l@ + "\n"@),
        ],
        _ => Seq::<TexBlock>::empty(),
    };
    head + seq![
        TexBlock::UserDefined(
            "\\emph{"@ + e.position@ + "} \\hfill "@ + e.start@ + " - "@ + e.end@ + "\n"@,
        ),
    ] + par_skip_start_blocks() + seq![
        TexBlock::Environment("itemize"@, pdf_itemize_lines(seq_views(e.experience@))),
    ] + par_skip_end_blocks()
}

/// The entries of the experience section, concatenated in order.
pub open spec fn pdf_experience_items(es: Seq<ProfessionalExperience>) -> Seq<TexBlock>
    decreases es.len(),
{
    if es.len() == 0 {
        Seq::empty()
    } else {
        pdf_experience_items(es.drop_last()) + pdf_experience_item_blocks(es.last())
    }
}

/// The error reported when the experience list is empty.
pub open spec fn pdf_experience_error() -> Seq<char> {
    "An error occurred while rendering professional experience to LaTeX."@
}

/// The experience section: its heading and every entry.  An empty list is an
/// error.
pub open spec fn pdf_experience_list_blocks(es: Seq<ProfessionalExperience>) -> Result<
    Seq<TexBlock>,
    Seq<char>,
> {
    if es.len() == 0 {
        Err(pdf_experience_error())
    } else {
        Ok(section_header_blocks("EXPERIENCE"@) + pdf_experience_items(es))
    }
}

/// One project item line: its description.
pub open spec fn pdf_project_line(p: ProjectInfo) -> Seq<char> {
    "\\item "@ + p.description@ + "\n"@
}

/// The projects section: its heading and one itemize environment holding the
/// projects flagged for the resume.
pub open spec fn pdf_other_experience_blocks(o: OtherExperience) -> Seq<TexBlock> {
    section_header_blocks("PROJECTS"@) + seq![
        TexBlock::Environment(
            "itemize"@,
            seq!["\\setlength\\itemsep{-0.05in}"@] + projects_for_resume_spec(
                o.projects@,
            ).map_values(|p: ProjectInfo| pdf_project_line(p)),
        ),
    ]
}

/// The technologies section: its heading and the escaped, comma-separated
/// tags, centered.
pub open spec fn pdf_technologies_blocks(t: Technologies) -> Seq<TexBlock> {
    section_header_blocks("TECHNOLOGIES"@) + seq![
        TexBlock::Environment(
            "center"@,
            seq![escape_spec(join_sep(seq_views(t.technologies@), ", "@))],
        ),
    ]
}

/// The education section: its heading, the bold school and location, and the
/// emphasized major with the graduation date (empty when absent).
pub open spec fn pdf_education_blocks(e: Education) -> Seq<TexBlock> {
    let grad = match e.graduation {
        Some(g) => g@,
        None => Seq::<char>::empty(),
    };
    section_header_blocks("UNIVERSITY"@) + seq![
        TexBlock::UserDefined("{\\bf "@ + e.school@ + "} \\hfill "@ + e.location@ + "\n"@),
        TexBlock::UserDefined("\\emph{"@ + e.major@ + "} \\hfill "@ + grad + "\n"@),
    ]
}

/// A name or email line of the cover letter head or foot: the line and a
/// blank line after it.
pub open spec fn pdf_line_pair(s: Seq<char>) -> Seq<TexBlock> {
    seq![TexBlock::UserDefined(s), TexBlock::UserDefined(Seq::<char>::empty())]
}

/// The cover letter paragraphs, each followed by a blank line.
pub open spec fn pdf_paragraph_blocks(ps: Seq<Seq<char>>) -> Seq<TexBlock>
    decreases ps.len(),
{
    if ps.len() == 0 {
        Seq::empty()
    } else {
        pdf_paragraph_blocks(ps.drop_last()) + pdf_line_pair(ps.last())
    }
}

/// The cover letter body: sender lines, salutation, paragraphs and closing,
/// with paragraph-skip directives spacing the parts.
pub open spec fn pdf_cover_letter_blocks(c: CoverLetter) -> Seq<TexBlock> {
    let head_name = match c.name {
        Some(n) => pdf_line_pair(n@),
        None => Seq::<TexBlock>::empty(),
    };
    let head_email = match c.email {
        Some(e) => pdf_line_pair(e@),
        None => Seq::<TexBlock>::empty(),
    };
    let foot_name = match c.name {
        Some(n) => pdf_line_pair(n@),
        None => Seq::<TexBlock>::empty(),
    };
    seq![TexBlock::UserDefined("\\setlength\\parindent{0pt}"@)] + head_name + head_email + seq![
        TexBlock::UserDefined("\\setlength\\parskip{2em}"@),
    ] + pdf_line_pair(c.salutation@) + seq![
        TexBlock::UserDefined("\\setlength\\parskip{1em}"@),
    ] + pdf_paragraph_blocks(seq_views(c.paragraphs@)) + seq![
        TexBlock::UserDefined("\\setlength\\parskip{2em}"@),
    ] + pdf_line_pair(c.closing@) + seq![
        TexBlock::UserDefined("\\setlength\\parskip{0em}"@),
    ] + foot_name
}

/// The whole resume body: the large centered name, the contact lines, and
/// the sections inside a flush-left region.  An empty experience list is an
/// error.
pub open spec fn pdf_resume_blocks(r: Resume) -> Result<Seq<TexBlock>, Seq<char>> {
    match pdf_experience_list_blocks(r.professional_experience@) {
        Err(m) => Err(m),
        Ok(ex) => {
            let head = seq![
                TexBlock::Environment("center"@, seq!["\\bf\\Large "@ + r.name@]),
            ] + pdf_personal_info_blocks(r.personal_info) + seq![
                TexBlock::UserDefined("\\begin{flushleft}"@),
            ] + pdf_objective_blocks(r.objective) + vspace_blocks() + ex;
            let with_other = match r.other_experience {
                Some(oe) => head + vspace_blocks() + pdf_other_experience_blocks(oe),
                None => head,
            };
            let with_tech = match r.technologies {
                Some(t) => with_other + vspace_blocks() + pdf_technologies_blocks(t),
                None => with_other,
            };
            let with_edu = match r.education {
                Some(e) => with_tech + vspace_blocks() + pdf_education_blocks(e),
                None => with_tech,
            };
            Ok(with_edu + seq![TexBlock::UserDefined("\\end{flushleft}"@)])
        },
    }
}

/// Renders the resume data model as typeset-document markup.
#[derive(Debug)]
pub struct PdfRenderer;

impl PdfRenderer {
    /// A new typeset-document renderer.
    pub fn new() -> PdfRenderer {
        PdfRenderer
    }
}

/// A small vertical gap, as a document of its own.
fn vspace() -> (d: latex::Document)
    ensures
        doc_elements(d) == vspace_blocks(),
        doc_preamble(d) == Seq::<TexPreambleBlock>::empty(),
{
    let mut d = new_document();
    push_user_defined(&mut d, "\\vspace*{\\baselineskip}");
    proof {
        assert(doc_elements(d) =~= vspace_blocks());
    }
    d
}

/// The paragraph-skip tightening, as a document of its own.
fn par_skip_start() -> (d: latex::Document)
    ensures
        doc_elements(d) == par_skip_start_blocks(),
        doc_preamble(d) == Seq::<TexPreambleBlock>::empty(),
{
    let mut d = new_document();
    push_user_defined(&mut d, "\\addtolength{\\parskip}{ -0.1in }");
    proof {
        assert(doc_elements(d) =~= par_skip_start_blocks());
    }
    d
}

/// The paragraph-skip restoration, as a document of its own.
fn par_skip_end() -> (d: latex::Document)
    ensures
        doc_elements(d) == par_skip_end_blocks(),
        doc_preamble(d) == Seq::<TexPreambleBlock>::empty(),
{
    let mut d = new_document();
    push_user_defined(&mut d, "\\addtolength{\\parskip}{ 0.1in }");
    proof {
        assert(doc_elements(d) =~= par_skip_end_blocks());
    }
    d
}

/// A centered bold section heading, as a document of its own.
fn section_header(header: &str) -> (d: latex::Document)
    ensures
        doc_elements(d) == section_header_blocks(header@),
        doc_preamble(d) == Seq::<TexPreambleBlock>::empty(),
{
    let mut d = new_document();
    push_doc(&mut d, &par_skip_start());
    let mut lines: Vec<String> = Vec::new();
    lines.push(String::from_str("{\\bf ").concat(header).concat("}"));
    let ghost lv = lines@;
    push_environment(&mut d, "center", lines);
    push_doc(&mut d, &par_skip_end());
    proof {
        assert(seq_views(lv) =~= seq!["{\\bf "@ + header@ + "}"@]);
        assert(doc_elements(d) =~= section_header_blocks(header@));
    }
    d
}

/// The contact lines, as a document of their own.
fn personal_info_doc(element: &PersonalInfo) -> (d: latex::Document)
    ensures
        doc_elements(d) == pdf_personal_info_blocks(*element),
        doc_preamble(d) == Seq::<TexPreambleBlock>::empty(),
{
    let mut d = new_document();
    let line = String::from_str(element.github.as_str()).concat(" \\hfill ").concat(
        element.email.as_str(),
    );
    push_user_defined(&mut d, line.as_str());
    push_user_defined(&mut d, "\\rule{\\textwidth}{0.4pt}");
    proof {
        assert(doc_elements(d) =~= pdf_personal_info_blocks(*element));
    }
    d
}

/// The objective paragraph, as a document of its own.
fn objective_doc(element: &Objective) -> (d: latex::Document)
    ensures
        doc_elements(d) == pdf_objective_blocks(*element),
        doc_preamble(d) == Seq::<TexPreambleBlock>::empty(),
{
    let mut d = new_document();
    push_paragraph(&mut d, element.objective.as_str());
    proof {
        assert(doc_elements(d) =~= pdf_objective_blocks(*element));
    }
    d
}

/// One job entry, as a document of its own.
fn experience_item_doc(element: &ProfessionalExperience) -> (d: latex::Document)
    ensures
        doc_elements(d) == pdf_experience_item_blocks(*element),
        doc_preamble(d) == Seq::<TexPreambleBlock>::empty(),
{
    let mut d = new_document();
    match (&element.organization, &element.location) {
        (Some(o), Some(l)) => {
            let line = String::from_str("{\\bf ").concat(o.as_str()).concat(
                "} \\hfill ",
            ).concat(l.as_str()).concat("\n");
            push_user_defined(&mut d, line.as_str());
        },
        _ => {},
    }
    let pos_line = String::from_str("\\emph{").concat(element.position.as_str()).concat(
        "} \\hfill ",
    ).concat(element.start.as_str()).concat(" - ").concat(element.end.as_str()).concat("\n");
    push_user_defined(&mut d, pos_line.as_str());
    push_doc(&mut d, &par_skip_start());
    let ghost lines_spec = pdf_itemize_lines(seq_views(element.experience@));
    let mut lines: Vec<String> = Vec::new();
    lines.push(String::from_str("\\setlength\\itemsep{-0.05in}"));
    let mut i: usize = 0;
    while i < element.experience.len()
        invariant
            i <= element.experience@.len(),
            lines_spec == pdf_itemize_lines(seq_views(element.experience@)),
            lines@.len() == i + 1,
            forall|k: int| 0 <= k < i + 1 ==> lines@[k]@ == lines_spec[k],
        decreases element.experience@.len() - i,
    {
        let item = String::from_str("\\item ").concat(element.experience[i].as_str());
        lines.push(item);
        proof {
            assert(seq_views(element.experience@)[i as int] == element.experience@[i as int]@);
            assert(lines_spec[i + 1 as int] == "\\item "@ + element.experience@[i as int]@);
        }
        i = i + 1;
    }
    let ghost lv = lines@;
    push_environment(&mut d, "itemize", lines);
    push_doc(&mut d, &par_skip_end());
    proof {
        assert(seq_views(lv) =~= lines_spec);
        assert(doc_elements(d) =~= pdf_experience_item_blocks(*element));
    }
    d
}

/// The experience section, as a document of its own.  An empty list is an
/// error.
fn experience_list_doc(element: &Vec<ProfessionalExperience>) -> (r: Result<
    latex::Document,
    String,
>)
    ensures
        match pdf_experience_list_blocks(element@) {
            Ok(b) => r matches Ok(d) && doc_elements(d) == b && doc_preamble(d) == Seq::<
                TexPreambleBlock,
            >::empty(),
            Err(m) => r matches Err(v) && v@ == m,
        },
{
    if element.len() == 0 {
        return Err(
            String::from_str(
                "An error occurred while rendering professional experience to LaTeX.",
            ),
        );
    }
    let mut d = new_document();
    push_doc(&mut d, &section_header("EXPERIENCE"));
    let mut i: usize = 0;
    while i < element.len()
        invariant
            i <= element@.len(),
            doc_elements(d) == section_header_blocks("EXPERIENCE"@) + pdf_experience_items(
                element@.subrange(0, i as int),
            ),
            doc_preamble(d) == Seq::<TexPreambleBlock>::empty(),
        decreases element@.len() - i,
    {
        push_doc(&mut d, &experience_item_doc(&element[i]));
        proof {
            let pre = element@.subrange(0, i + 1 as int);
            assert(pre.drop_last() =~= element@.subrange(0, i as int));
            assert(pre.last() == element@[i as int]);
            assert(doc_elements(d) =~= section_header_blocks("EXPERIENCE"@)
                + pdf_experience_items(element@.subrange(0, i + 1 as int)));
        }
        i = i + 1;
    }
    proof {
        assert(element@.subrange(0, element@.len() as int) =~= element@);
        assert(doc_elements(d) =~= section_header_blocks("EXPERIENCE"@) + pdf_experience_items(
            element@,
        ));
    }
    Ok(d)
}

/// The projects section, as a document of its own.
fn other_experience_doc(element: &OtherExperience) -> (d: latex::Document)
    ensures
        doc_elements(d) == pdf_other_experience_blocks(*element),
        doc_preamble(d) == Seq::<TexPreambleBlock>::empty(),
{
    let mut d = new_document();
    push_doc(&mut d, &section_header("PROJECTS"));
    let ghost lines_spec = seq!["\\setlength\\itemsep{-0.05in}"@] + projects_for_resume_spec(
        element.projects@,
    ).map_values(|p: ProjectInfo| pdf_project_line(p));
    let mut lines: Vec<String> = Vec::new();
    lines.push(String::from_str("\\setlength\\itemsep{-0.05in}"));
    let sel = element.get_projects_for_resume();
    let mut i: usize = 0;
    while i < sel.len()
        invariant
            i <= sel@.len(),
            sel@.len() == projects_for_resume_spec(element.projects@).len(),
            forall|k: int|
                0 <= k < sel@.len() ==> *sel@[k] == projects_for_resume_spec(
                    element.projects@,
                )[k],
            lines_spec == seq!["\\setlength\\itemsep{-0.05in}"@] + projects_for_resume_spec(
                element.projects@,
            ).map_values(|p: ProjectInfo| pdf_project_line(p)),
            lines@.len() == i + 1,
            forall|k: int| 0 <= k < i + 1 ==> lines@[k]@ == lines_spec[k],
        decreases sel@.len() - i,
    {
        let item = String::from_str("\\item ").concat(sel[i].description.as_str()).concat("\n");
        lines.push(item);
        proof {
            assert(lines_spec[i + 1 as int] == pdf_project_line(
                projects_for_resume_spec(element.projects@)[i as int],
            ));
        }
        i = i + 1;
    }
    let ghost lv = lines@;
    push_environment(&mut d, "itemize", lines);
    proof {
        assert(seq_views(lv) =~= lines_spec);
        assert(doc_elements(d) =~= pdf_other_experience_blocks(*element));
    }
    d
}

/// The technologies section, as a document of its own.
fn technologies_doc(element: &Technologies) -> (d: latex::Document)
    ensures
        doc_elements(d) == pdf_technologies_blocks(*element),
        doc_preamble(d) == Seq::<TexPreambleBlock>::empty(),
{
    let mut d = new_document();
    push_doc(&mut d, &section_header("TECHNOLOGIES"));
    let tags = join_strings(&element.technologies, ", ");
    let escaped = escape_special_chars(tags.as_str());
    let mut lines: Vec<String> = Vec::new();
    lines.push(escaped);
    let ghost lv = lines@;
    push_environment(&mut d, "center", lines);
    proof {
        assert(seq_views(lv) =~= seq![
            escape_spec(join_sep(seq_views(element.technologies@), ", "@)),
        ]);
        assert(doc_elements(d) =~= pdf_technologies_blocks(*element));
    }
    d
}

/// The education section, as a document of its own.
fn education_doc(element: &Education) -> (d: latex::Document)
    ensures
        doc_elements(d) == pdf_education_blocks(*element),
        doc_preamble(d) == Seq::<TexPreambleBlock>::empty(),
{
    let mut d = new_document();
    push_doc(&mut d, &section_header("UNIVERSITY"));
    let school_line = String::from_str("{\\bf ").concat(element.school.as_str()).concat(
        "} \\hfill ",
    ).concat(element.location.as_str()).concat("\n");
    push_user_defined(&mut d, school_line.as_str());
    let grad: String = match &element.graduation {
        Some(g) => g.clone(),
        None => String::new(),
    };
    let major_line = String::from_str("\\emph{").concat(element.major.as_str()).concat(
        "} \\hfill ",
    ).concat(grad.as_str()).concat("\n");
    push_user_defined(&mut d, major_line.as_str());
    proof {
        assert(doc_elements(d) =~= pdf_education_blocks(*element));
    }
    d
}

/// The document preamble used by every generated document, for the given
/// margin setting and date.
fn document_preamble(config: &Config, date: &str) -> (d: latex::Document)
    ensures
        doc_preamble(d) == pdf_preamble_blocks(config.format_config.pdf_config.margin@, date@),
        doc_elements(d) == Seq::<TexBlock>::empty(),
{
    let mut d = new_document();
    let margin_arg = String::from_str("margin=").concat(
        config.format_config.pdf_config.margin.as_str(),
    );
    preamble_use_package_arg(&mut d, "geometry", margin_arg.as_str());
    preamble_use_package_arg(&mut d, "fontenc", "T1");
    preamble_use_package(&mut d, "fancyhdr");
    preamble_user_defined(&mut d, "\\fancyhf{}");
    preamble_user_defined(&mut d, "\\pagestyle{fancy}");
    preamble_user_defined(&mut d, "\\renewcommand{\\headrulewidth}{0pt}");
    let footer = FooterText::new_with_date(date);
    let cfoot = String::from_str("\\cfoot{").concat(
        escape_special_chars(footer.basic_text.as_str()).as_str(),
    ).concat("}");
    preamble_user_defined(&mut d, cfoot.as_str());
    proof {
        assert(doc_preamble(d) =~= pdf_preamble_blocks(
            config.format_config.pdf_config.margin@,
            date@,
        ));
    }
    d
}

/// The cover letter as a full document: the shared preamble and the letter
/// body.
fn cover_letter_doc(element: &CoverLetter, config: &Config, date: &str) -> (d: latex::Document)
    ensures
        doc_preamble(d) == pdf_preamble_blocks(config.format_config.pdf_config.margin@, date@),
        doc_elements(d) == pdf_cover_letter_blocks(*element),
{
    let mut d = document_preamble(config, date);
    push_user_defined(&mut d, "\\setlength\\parindent{0pt}");
    match &element.name {
        Some(n) => {
            push_user_defined(&mut d, n.as_str());
            push_user_defined(&mut d, "");
        },
        None => {},
    }
    match &element.email {
        Some(e) => {
            push_user_defined(&mut d, e.as_str());
            push_user_defined(&mut d, "");
        },
        None => {},
    }
    push_user_defined(&mut d, "\\setlength\\parskip{2em}");
    push_user_defined(&mut d, element.salutation.as_str());
    push_user_defined(&mut d, "");
    push_user_defined(&mut d, "\\setlength\\parskip{1em}");
    let ghost before_paras = doc_elements(d);
    let mut i: usize = 0;
    while i < element.paragraphs.len()
        invariant
            i <= element.paragraphs@.len(),
            doc_elements(d) == before_paras + pdf_paragraph_blocks(
                seq_views(element.paragraphs@).subrange(0, i as int),
            ),
            doc_preamble(d) == pdf_preamble_blocks(
                config.format_config.pdf_config.margin@,
                date@,
            ),
        decreases element.paragraphs@.len() - i,
    {
        push_user_defined(&mut d, element.paragraphs[i].as_str());
        push_user_defined(&mut d, "");
        proof {
            let pre = seq_views(element.paragraphs@).subrange(0, i + 1 as int);
            assert(pre.drop_last() =~= seq_views(element.paragraphs@).subrange(0, i as int));
            assert(pre.last() == element.paragraphs@[i as int]@);
            reveal_strlit("");
            assert(""@ =~= Seq::<char>::empty());
            assert(doc_elements(d) =~= before_paras + pdf_paragraph_blocks(pre));
        }
        i = i + 1;
    }
    proof {
        assert(seq_views(element.paragraphs@).subrange(
            0,
            seq_views(element.paragraphs@).len() as int,
        ) =~= seq_views(element.paragraphs@));
    }
    push_user_defined(&mut d, "\\setlength\\parskip{2em}");
    push_user_defined(&mut d, element.closing.as_str());
    push_user_defined(&mut d, "");
    push_user_defined(&mut d, "\\setlength\\parskip{0em}");
    match &element.name {
        Some(n) => {
            push_user_defined(&mut d, n.as_str());
            push_user_defined(&mut d, "");
        },
        None => {},
    }
    proof {
        reveal_strlit("");
        assert(""@ =~= Seq::<char>::empty());
        assert(doc_elements(d) =~= pdf_cover_letter_blocks(*element));
    }
    d
}

/// The resume as a full document: the shared preamble and the body blocks.
/// An empty experience list is an error.
fn resume_doc(element: &Resume, config: &Config, date: &str) -> (r: Result<
    latex::Document,
    String,
>)
    ensures
        match pdf_resume_blocks(*element) {
            Ok(b) => r matches Ok(d) && doc_elements(d) == b && doc_preamble(d)
                == pdf_preamble_blocks(config.format_config.pdf_config.margin@, date@),
            Err(m) => r matches Err(v) && v@ == m,
        },
{
    let ex_doc = match experience_list_doc(&element.professional_experience) {
        Ok(d) => d,
        Err(e) => {
            return Err(e);
        },
    };
    let mut d = document_preamble(config, date);
    let mut lines: Vec<String> = Vec::new();
    lines.push(String::from_str("\\bf\\Large ").concat(element.name.as_str()));
    let ghost lv = lines@;
    push_environment(&mut d, "center", lines);
    push_doc(&mut d, &personal_info_doc(&element.personal_info));
    push_user_defined(&mut d, "\\begin{flushleft}");
    push_doc(&mut d, &objective_doc(&element.objective));
    push_doc(&mut d, &vspace());
    push_doc(&mut d, &ex_doc);
    proof {
        assert(seq_views(lv) =~= seq!["\\bf\\Large "@ + element.name@]);
    }
    match &element.other_experience {
        Some(oe) => {
            push_doc(&mut d, &vspace());
            push_doc(&mut d, &other_experience_doc(oe));
        },
        None => {},
    }
    match &element.technologies {
        Some(t) => {
            push_doc(&mut d, &vspace());
            push_doc(&mut d, &technologies_doc(t));
        },
        None => {},
    }
    match &element.education {
        Some(e) => {
            push_doc(&mut d, &vspace());
            push_doc(&mut d, &education_doc(e));
        },
        None => {},
    }
    push_user_defined(&mut d, "\\end{flushleft}");
    proof {
        assert(doc_elements(d) =~= pdf_resume_blocks(*element)->Ok_0);
    }
    Ok(d)
}

impl PdfRenderer {
    /// Renders the contact lines as a standalone serialized document.
    pub fn render_personal_info(&self, element: &PersonalInfo, _config: &Config) -> (r: Result<
        String,
        String,
    >)
        ensures
            r matches Ok(v) && v@ == print_doc(
                Seq::<TexPreambleBlock>::empty(),
                pdf_personal_info_blocks(*element),
            ),
    {
        print_document(&personal_info_doc(element))
    }

    /// Renders the objective as a standalone serialized document.
    pub fn render_objective(&self, element: &Objective, _config: &Config) -> (r: Result<
        String,
        String,
    >)
        ensures
            r matches Ok(v) && v@ == print_doc(
                Seq::<TexPreambleBlock>::empty(),
                pdf_objective_blocks(*element),
            ),
    {
        print_document(&objective_doc(element))
    }

    /// Renders the experience section as a standalone serialized document.
    pub fn render_professional_experience_list(
        &self,
        element: &Vec<ProfessionalExperience>,
        _config: &Config,
    ) -> (r: Result<String, String>)
        ensures
            match pdf_experience_list_blocks(element@) {
                Ok(b) => r matches Ok(v) && v@ == print_doc(
                    Seq::<TexPreambleBlock>::empty(),
                    b,
                ),
                Err(m) => r matches Err(v) && v@ == m,
            },
    {
        match experience_list_doc(element) {
            Ok(d) => print_document(&d),
            Err(e) => Err(e),
        }
    }

    /// Renders one project as its item line.
    pub fn render_project_info(&self, element: &ProjectInfo, _config: &Config) -> (r: Result<
        String,
        String,
    >)
        ensures
            r matches Ok(v) && v@ == pdf_project_line(*element),
    {
        Ok(String::from_str("\\item ").concat(element.description.as_str()).concat("\n"))
    }

    /// Renders the projects section as a standalone serialized document.
    pub fn render_other_experience(&self, element: &OtherExperience, _config: &Config) -> (r:
        Result<String, String>)
        ensures
            r matches Ok(v) && v@ == print_doc(
                Seq::<TexPreambleBlock>::empty(),
                pdf_other_experience_blocks(*element),
            ),
    {
        print_document(&other_experience_doc(element))
    }

    /// Renders the technologies section as a standalone serialized document.
    pub fn render_technologies(&self, element: &Technologies, _config: &Config) -> (r: Result<
        String,
        String,
    >)
        ensures
            r matches Ok(v) && v@ == print_doc(
                Seq::<TexPreambleBlock>::empty(),
                pdf_technologies_blocks(*element),
            ),
    {
        print_document(&technologies_doc(element))
    }

    /// Renders the education section as a standalone serialized document.
    pub fn render_education(&self, element: &Education, _config: &Config) -> (r: Result<
        String,
        String,
    >)
        ensures
            r matches Ok(v) && v@ == print_doc(
                Seq::<TexPreambleBlock>::empty(),
                pdf_education_blocks(*element),
            ),
    {
        print_document(&education_doc(element))
    }

    /// Renders the cover letter, preamble included, for the given date
    /// string.
    pub fn render_cover_letter(&self, element: &CoverLetter, config: &Config, date: &str) -> (r:
        Result<String, String>)
        ensures
            r matches Ok(v) && v@ == print_doc(
                pdf_preamble_blocks(config.format_config.pdf_config.margin@, date@),
                pdf_cover_letter_blocks(*element),
            ),
    {
        print_document(&cover_letter_doc(element, config, date))
    }

    /// Renders the whole resume, preamble included, for the given date
    /// string.
    pub fn render(&self, element: &Resume, config: &Config, date: &str) -> (r: Result<
        String,
        String,
    >)
        ensures
            match pdf_resume_blocks(*element) {
                Ok(b) => r matches Ok(v) && v@ == print_doc(
                    pdf_preamble_blocks(config.format_config.pdf_config.margin@, date@),
                    b,
                ),
                Err(m) => r matches Err(v) && v@ == m,
            },
    {
        match resume_doc(element, config, date) {
            Ok(d) => print_document(&d),
            Err(e) => Err(e),
        }
    }
}

} // verus!
