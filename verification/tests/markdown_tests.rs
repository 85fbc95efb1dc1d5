use resume_generator::config::{Config, FormatConfig, TextConfig};
use resume_generator::data::{
    Education, Objective, OtherExperience, OtherPersonalInfo, PersonalInfo,
    ProfessionalExperience, ProjectInfo, Technologies,
};
use resume_generator::markdown_renderer::MarkdownRenderer;

fn get_config() -> Config {
    Config {
        format_config: FormatConfig {
            text_config: TextConfig { width: 50 },
            ..Default::default()
        },
        ..Default::default()
    }
}

#[test]
fn markdown_renderer_test_personal_info() {
    let a = OtherPersonalInfo {
        item: String::from("Foo"),
        url: Some(String::from("example.com/foo")),
    };
    let b = OtherPersonalInfo {
        item: String::from("Bar"),
        url: Some(String::from("example.com/bar")),
    };
    let x = PersonalInfo {
        email: String::from("foo@bar.com"),
        github: String::from("github.com/foo"),
        other: Some(vec![a, b]),
    };
    let rendered = MarkdownRenderer::new().render_personal_info(&x, &get_config()).unwrap();

    assert_eq!(
        rendered,
        "## Find me here\n- Email: [foo@bar.com](mailto:foo@bar.com)\n- GitHub: [github.com/foo](https://github.com/foo)\n- Foo: [example.com/foo](https://example.com/foo)\n- Bar: [example.com/bar](https://example.com/bar)"
    );
}

#[test]
fn markdown_renderer_test_objective() {
    let x = Objective {
        objective: String::from("Lorem ipsum dolor sit amet, consectetur adipiscing elit, sed do eiusmod tempor incididunt ut"),
    };
    let rendered = MarkdownRenderer::new().render_objective(&x, &get_config()).unwrap();

    assert_eq!(rendered, "Lorem ipsum dolor sit amet, consectetur adipiscing elit, sed do eiusmod tempor incididunt ut");
}

#[test]
fn markdown_renderer_test_professional_experience() {
    let a = ProfessionalExperience {
        organization: Some(String::from("organizationA")),
        position: String::from("positionA"),
        location: Some(String::from("locationA")),
        start: String::from("startA"),
        end: String::from("endA"),
        experience: vec![
            String::from("experienceA1"),
            String::from("experienceA2"),
            String::from("experienceA3"),
        ],
    };
    let b = ProfessionalExperience {
        organization: Some(String::from("organizationB")),
        position: String::from("positionB"),
        location: Some(String::from("locationB")),
        start: String::from("startB"),
        end: String::from("endB"),
        experience: vec![
            String::from("experienceB1"),
            String::from("Lorem ipsum dolor sit amet, consectetur adipiscing elit, sed do eiusmod tempor incididunt ut"),
            String::from("experienceB3"),
        ],
    };
    let x = vec![a, b];

    let rendered = MarkdownRenderer::new()
        .render_professional_experience_list(&x, &get_config())
        .unwrap();

    assert_eq!(
        rendered,
        "## Experience\n### organizationA - locationA\n```\npositionA\nstartA - endA\n```\n- experienceA1\n- experienceA2\n- experienceA3\n\n### organizationB - locationB\n```\npositionB\nstartB - endB\n```\n- experienceB1\n- Lorem ipsum dolor sit amet, consectetur adipiscing elit, sed do eiusmod tempor incididunt ut\n- experienceB3"
    );
}

#[test]
fn markdown_renderer_test_other_experience() {
    let a = ProjectInfo {
        project_name: String::from("project_nameA"),
        description: String::from("descriptionA"),
        url: String::from("example.com"),
        include_on_resume: true,
        include_on_github: true,
    };
    let b = ProjectInfo {
        project_name: String::from("project_nameB"),
        description: String::from("Lorem ipsum dolor sit amet, consectetur adipiscing elit, sed do eiusmod tempor incididunt ut"),
        url: String::from("example.com"),
        include_on_resume: true,
        include_on_github: true,
    };
    let c = ProjectInfo {
        project_name: String::from("project_nameC"),
        description: String::from("descriptionC"),
        url: String::from("example.com"),
        include_on_resume: true,
        include_on_github: true,
    };
    let x = OtherExperience { projects: vec![a, b, c] };

    let rendered = MarkdownRenderer::new().render_other_experience(&x, &get_config()).unwrap();

    assert_eq!(
        rendered,
        "## Projects\n- [project_nameA](https://example.com) - descriptionA\n- [project_nameB](https://example.com) - Lorem ipsum dolor sit amet, consectetur adipiscing elit, sed do eiusmod tempor\n  incididunt ut\n- [project_nameC](https://example.com) - descriptionC"
    );
}

#[test]
fn markdown_renderer_test_technologies() {
    let tech = vec![
        String::from("Lorem"),
        String::from("ipsum"),
        String::from("dolor"),
        String::from("sit"),
        String::from("amet"),
        String::from("consectetur"),
        String::from("adipiscing"),
        String::from("elit"),
        String::from("sed"),
        String::from("do"),
        String::from("eiusmod"),
        String::from("tempor"),
        String::from("incididunt"),
    ];

    let x = Technologies { technologies: tech };

    let rendered = MarkdownRenderer::new().render_technologies(&x, &get_config()).unwrap();

    assert_eq!(
        rendered,
        "## Technologies\nLorem, ipsum, dolor, sit, amet, consectetur, adipiscing, elit, sed, do, eiusmod, tempor, incididunt"
    )
}

#[test]
fn markdown_renderer_test_education() {
    let x = Education {
        school: String::from("school"),
        location: String::from("location"),
        major: String::from("major"),
        graduation: Some(String::from("graduation")),
        extras: None,
    };

    let rendered = MarkdownRenderer::new().render_education(&x, &get_config()).unwrap();

    assert_eq!(
        rendered,
        "## University\n### school\n```\nmajor\ngraduation\nlocation\n```"
    );
}

#[test]
fn markdown_renderer_test_empty_other_links_is_error() {
    let x = PersonalInfo {
        email: String::from("foo@bar.com"),
        github: String::from("github.com/foo"),
        other: Some(Vec::new()),
    };
    let r = MarkdownRenderer::new().render_personal_info(&x, &get_config());
    assert_eq!(
        r.unwrap_err(),
        "An error occurred while rendering personal info to markdown"
    );
}

#[test]
fn markdown_renderer_test_empty_experience_is_error() {
    let x: Vec<ProfessionalExperience> = Vec::new();
    let r = MarkdownRenderer::new().render_professional_experience_list(&x, &get_config());
    assert_eq!(
        r.unwrap_err(),
        "An error occurred while rendering professional experience to markdown."
    );
}

#[test]
fn markdown_renderer_test_no_resume_projects_is_error() {
    let x = OtherExperience {
        projects: vec![ProjectInfo {
            project_name: String::from("hidden"),
            url: String::from("example.com"),
            description: String::from("description"),
            include_on_resume: false,
            include_on_github: true,
        }],
    };
    let r = MarkdownRenderer::new().render_other_experience(&x, &get_config());
    assert_eq!(
        r.unwrap_err(),
        "An error occurred while rendering other experience to markdown."
    );
}
