use resume_generator::config::{Config, FormatConfig, TextConfig};
use resume_generator::data::{
    CoverLetter, Education, Objective, OtherExperience, PersonalInfo, ProfessionalExperience,
    ProjectInfo, Technologies,
};
use resume_generator::pdf_renderer::PdfRenderer;

fn get_config() -> Config {
    Config {
        format_config: FormatConfig {
            text_config: TextConfig { width: 50 },
            ..Default::default()
        },
        ..Default::default()
    }
}

#[test]
fn test_text_renderer() {}

#[test]
fn pdf_renderer_test_personal_info() {
    let x = PersonalInfo {
        email: String::from("foo@bar.com"),
        github: String::from("github.com/foo"),
        other: None,
    };
    let rendered = PdfRenderer::new().render_personal_info(&x, &get_config()).unwrap();

    assert_eq!(
        rendered,
        "\\documentclass{article}\n\\begin{document}\ngithub.com/foo \\hfill foo@bar.com\n\\rule{\\textwidth}{0.4pt}\n\\end{document}\n"
    );
}

#[test]
fn pdf_renderer_test_objective() {
    let x = Objective {
        objective: String::from("Lorem ipsum dolor sit amet, consectetur adipiscing elit, sed do eiusmod tempor incididunt ut"),
    };
    let rendered = PdfRenderer::new().render_objective(&x, &get_config()).unwrap();

    assert_eq!(rendered, "\\documentclass{article}\n\\begin{document}\nLorem ipsum dolor sit amet, consectetur adipiscing elit, sed do eiusmod tempor incididunt ut\n\\end{document}\n");
}

#[test]
fn pdf_renderer_test_professional_experience() {
    let a = ProfessionalExperience {
        organization: Some(String::from("organizationA")),
        position: String::from("positionA"),
        location: Some(String::from("locationA")),
        start: String::from("startA"),
        end: String::from("endA"),
        experience: vec![
            String::from("experienceA1"),
            String::from("experienceA2"),
            String::from("experienceA3"),
        ],
    };
    let b = ProfessionalExperience {
        organization: Some(String::from("organizationB")),
        position: String::from("positionB"),
        location: Some(String::from("locationB")),
        start: String::from("startB"),
        end: String::from("endB"),
        experience: vec![
            String::from("experienceB1"),
            String::from("Lorem ipsum dolor sit amet, consectetur adipiscing elit, sed do eiusmod tempor incididunt ut"),
            String::from("experienceB3"),
        ],
    };
    let x = vec![a, b];

    let rendered = PdfRenderer::new()
        .render_professional_experience_list(&x, &get_config())
        .unwrap();

    assert_eq!(
        rendered,
        "\\documentclass{article}\n\\begin{document}\n\\addtolength{\\parskip}{ -0.1in }\n\\begin{center}\n{\\bf EXPERIENCE}\n\\end{center}\n\\addtolength{\\parskip}{ 0.1in }\n{\\bf organizationA} \\hfill locationA\n\n\\emph{positionA} \\hfill startA - endA\n\n\\addtolength{\\parskip}{ -0.1in }\n\\begin{itemize}\n\\setlength\\itemsep{-0.05in}\n\\item experienceA1\n\\item experienceA2\n\\item experienceA3\n\\end{itemize}\n\\addtolength{\\parskip}{ 0.1in }\n{\\bf organizationB} \\hfill locationB\n\n\\emph{positionB} \\hfill startB - endB\n\n\\addtolength{\\parskip}{ -0.1in }\n\\begin{itemize}\n\\setlength\\itemsep{-0.05in}\n\\item experienceB1\n\\item Lorem ipsum dolor sit amet, consectetur adipiscing elit, sed do eiusmod tempor incididunt ut\n\\item experienceB3\n\\end{itemize}\n\\addtolength{\\parskip}{ 0.1in }\n\\end{document}\n"
    );
}

#[test]
fn pdf_renderer_test_other_experience() {
    let a = ProjectInfo {
        project_name: String::from("project_nameA"),
        description: String::from("descriptionA"),
        url: String::from("example.com"),
        include_on_resume: true,
        include_on_github: true,
    };
    let b = ProjectInfo {
        project_name: String::from("project_nameB"),
        description: String::from("Lorem ipsum dolor sit amet, consectetur adipiscing elit, sed do eiusmod tempor incididunt ut"),
        url: String::from("example.com"),
        include_on_resume: true,
        include_on_github: true,
    };
    let c = ProjectInfo {
        project_name: String::from("project_nameC"),
        description: String::from("descriptionC"),
        url: String::from("example.com"),
        include_on_resume: true,
        include_on_github: true,
    };
    let x = OtherExperience { projects: vec![a, b, c] };

    let rendered = PdfRenderer::new().render_other_experience(&x, &get_config()).unwrap();

    assert_eq!(
        rendered,
        "\\documentclass{article}\n\\begin{document}\n\\addtolength{\\parskip}{ -0.1in }\n\\begin{center}\n{\\bf PROJECTS}\n\\end{center}\n\\addtolength{\\parskip}{ 0.1in }\n\\begin{itemize}\n\\setlength\\itemsep{-0.05in}\n\\item descriptionA\n\n\\item Lorem ipsum dolor sit amet, consectetur adipiscing elit, sed do eiusmod tempor incididunt ut\n\n\\item descriptionC\n\n\\end{itemize}\n\\end{document}\n"
    );
}

#[test]
fn pdf_renderer_test_technologies() {
    let tech = vec![
        String::from("Lorem"),
        String::from("ipsum"),
        String::from("dolor"),
        String::from("sit"),
        String::from("amet"),
        String::from("consectetur"),
        String::from("adipiscing"),
        String::from("elit"),
        String::from("sed"),
        String::from("do"),
        String::from("eiusmod"),
        String::from("tempor"),
        String::from("incididunt"),
    ];

    let x = Technologies { technologies: tech };

    let rendered = PdfRenderer::new().render_technologies(&x, &get_config()).unwrap();

    assert_eq!(
        rendered,
        "\\documentclass{article}\n\\begin{document}\n\\addtolength{\\parskip}{ -0.1in }\n\\begin{center}\n{\\bf TECHNOLOGIES}\n\\end{center}\n\\addtolength{\\parskip}{ 0.1in }\n\\begin{center}\nLorem, ipsum, dolor, sit, amet, consectetur, adipiscing, elit, sed, do, eiusmod, tempor, incididunt\n\\end{center}\n\\end{document}\n"
    )
}

#[test]
fn pdf_renderer_test_education() {
    let x = Education {
        school: String::from("school"),
        location: String::from("location"),
        major: String::from("major"),
        graduation: Some(String::from("graduation")),
        extras: None,
    };

    let rendered = PdfRenderer::new().render_education(&x, &get_config()).unwrap();

    assert_eq!(
        rendered,
        "\\documentclass{article}\n\\begin{document}\n\\addtolength{\\parskip}{ -0.1in }\n\\begin{center}\n{\\bf UNIVERSITY}\n\\end{center}\n\\addtolength{\\parskip}{ 0.1in }\n{\\bf school} \\hfill location\n\n\\emph{major} \\hfill graduation\n\n\\end{document}\n"
    );
}

#[test]
fn pdf_renderer_test_cover_letter() {
    let x = CoverLetter {
        salutation: String::from("Hello,"),
        closing: String::from("From,"),
        name: Some(String::from("Foo Bar")),
        email: Some(String::from("foo@bar.com")),
        paragraphs: vec!["foo", "bar", "baz"].into_iter().map(|x| String::from(x)).collect(),
    };

    let rendered = PdfRenderer::new()
        .render_cover_letter(&x, &get_config(), "24 June 2021")
        .unwrap();

    assert_eq!(rendered, "\\documentclass{article}\n\\usepackage[margin=0.75in]{geometry}\n\\usepackage[T1]{fontenc}\n\\usepackage{fancyhdr}\n\\fancyhf{}\n\\pagestyle{fancy}\n\\renewcommand{\\headrulewidth}{0pt}\n\\cfoot{Updated on 24 June 2021 using github.com/spencewenski/resume\\_generator}\n\\begin{document}\n\\setlength\\parindent{0pt}\nFoo Bar\n\nfoo@bar.com\n\n\\setlength\\parskip{2em}\nHello,\n\n\\setlength\\parskip{1em}\nfoo\n\nbar\n\nbaz\n\n\\setlength\\parskip{2em}\nFrom,\n\n\\setlength\\parskip{0em}\nFoo Bar\n\n\\end{document}\n");
}

#[test]
fn pdf_renderer_test_empty_experience_is_error() {
    let x: Vec<ProfessionalExperience> = Vec::new();
    let r = PdfRenderer::new().render_professional_experience_list(&x, &get_config());
    assert_eq!(
        r.unwrap_err(),
        "An error occurred while rendering professional experience to LaTeX."
    );
}
