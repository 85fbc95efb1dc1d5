use resume_generator::config::{Config, FormatConfig, TextConfig};
use resume_generator::data::{
    Objective, OtherExperience, PersonalInfo, ProfessionalExperience, ProjectInfo, Resume,
};
use resume_generator::renderer::render_resume;

fn sample_resume() -> Resume {
    Resume {
        name: String::from("Foo Bar"),
        personal_info: PersonalInfo {
            email: String::from("foo@example.com"),
            github: String::from("github.com/foo"),
            other: None,
        },
        objective: Objective { objective: String::from("objective") },
        professional_experience: vec![ProfessionalExperience {
            organization: Some(String::from("organization")),
            location: Some(String::from("location")),
            position: String::from("position"),
            start: String::from("start"),
            end: String::from("end"),
            experience: vec![String::from("experience")],
        }],
        education: None,
        other_experience: Some(OtherExperience {
            projects: vec![
                ProjectInfo {
                    project_name: String::from("shown"),
                    url: String::from("example.com"),
                    description: String::from("on the resume"),
                    include_on_resume: true,
                    include_on_github: false,
                },
                ProjectInfo {
                    project_name: String::from("public"),
                    url: String::from("example.com"),
                    description: String::from("on the public page"),
                    include_on_resume: false,
                    include_on_github: true,
                },
            ],
        }),
        technologies: None,
        cover_letter: None,
    }
}

#[test]
fn test_render_resume_produces_all_formats() {
    let config = Config {
        format_config: FormatConfig {
            text_config: TextConfig { width: 50 },
            ..Default::default()
        },
        ..Default::default()
    };
    let out = render_resume(&sample_resume(), &config).unwrap();

    assert!(out.text.contains("Foo Bar"));
    assert!(out.text.contains("EXPERIENCE"));
    assert!(out.markdown.starts_with("# Foo Bar"));
    assert!(out.github.starts_with("# Foo Bar"));
    assert!(out.tex.starts_with("\\documentclass{article}\n"));
    assert!(out.text_cover_letter.is_none());
    assert!(out.tex_cover_letter.is_none());

    // the resume-facing output holds only the project flagged for it, the
    // public variant only the one flagged for the public listing
    assert!(out.text.contains("shown"));
    assert!(!out.text.contains("public: "));
    assert!(out.markdown.contains("[shown]"));
    assert!(!out.markdown.contains("[public]"));
    assert!(out.github.contains("[public]"));
    assert!(!out.github.contains("[shown]"));
}

#[test]
fn test_render_resume_empty_experience_fails() {
    let config = Config::default();
    let mut resume = sample_resume();
    resume.professional_experience = Vec::new();
    // the plain-text, typeset and Markdown renderers all fail on an empty
    // experience list; the orchestrator reports the first, the plain-text one
    let r = render_resume(&resume, &config);
    assert_eq!(
        r.unwrap_err(),
        "An error occurred while rendering professional experience to plain text."
    );
}
