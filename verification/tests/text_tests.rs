use resume_generator::config::{Config, FormatConfig, TextConfig};
use resume_generator::data::{
    CoverLetter, Education, Objective, OtherExperience, PersonalInfo, ProfessionalExperience,
    ProjectInfo, Technologies,
};
use resume_generator::text_renderer::TextRenderer;

fn get_config() -> Config {
    Config {
        format_config: FormatConfig {
            text_config: TextConfig { width: 50 },
            ..Default::default()
        },
        ..Default::default()
    }
}

#[test]
fn text_renderer_test_personal_info() {
    let x = PersonalInfo {
        email: String::from("foo@bar.com"),
        github: String::from("github.com/foo"),
        other: None,
    };
    let rendered = TextRenderer::new().render_personal_info(&x, &get_config()).unwrap();

    assert_eq!(rendered, "github.com/foo                         foo@bar.com");
}

#[test]
fn text_renderer_test_objective() {
    let x = Objective {
        objective: String::from("Lorem ipsum dolor sit amet, consectetur adipiscing elit, sed do eiusmod tempor incididunt ut"),
    };
    let rendered = TextRenderer::new().render_objective(&x, &get_config()).unwrap();

    assert_eq!(rendered, "Lorem ipsum dolor sit amet, consectetur adipiscing\nelit, sed do eiusmod tempor incididunt ut");
}

#[test]
fn text_renderer_test_professional_experience() {
    let a = ProfessionalExperience {
        organization: Some(String::from("organizationA")),
        position: String::from("positionA"),
        location: Some(String::from("locationA")),
        start: String::from("startA"),
        end: String::from("endA"),
        experience: vec![
            String::from("experienceA1"),
            String::from("experienceA2"),
            String::from("experienceA3"),
        ],
    };
    let b = ProfessionalExperience {
        organization: Some(String::from("organizationB")),
        position: String::from("positionB"),
        location: Some(String::from("locationB")),
        start: String::from("startB"),
        end: String::from("endB"),
        experience: vec![
            String::from("experienceB1"),
            String::from("Lorem ipsum dolor sit amet, consectetur adipiscing elit, sed do eiusmod tempor incididunt ut"),
            String::from("experienceB3"),
        ],
    };
    let x = vec![a, b];

    let rendered = TextRenderer::new()
        .render_professional_experience_list(&x, &get_config())
        .unwrap();

    assert_eq!(
        rendered,
        "                    EXPERIENCE
organizationA                            locationA
positionA                            startA - endA
- experienceA1
- experienceA2
- experienceA3

organizationB                            locationB
positionB                            startB - endB
- experienceB1
- Lorem ipsum dolor sit amet, consectetur
  adipiscing elit, sed do eiusmod tempor
  incididunt ut
- experienceB3"
    );
}

#[test]
fn text_renderer_test_other_experience() {
    let a = ProjectInfo {
        project_name: String::from("project_nameA"),
        description: String::from("descriptionA"),
        url: String::from("example.com"),
        include_on_resume: true,
        include_on_github: true,
    };
    let b = ProjectInfo {
        project_name: String::from("project_nameB"),
        description: String::from("Lorem ipsum dolor sit amet, consectetur adipiscing elit, sed do eiusmod tempor incididunt ut"),
        url: String::from("example.com"),
        include_on_resume: true,
        include_on_github: true,
    };
    let c = ProjectInfo {
        project_name: String::from("project_nameC"),
        description: String::from("descriptionC"),
        url: String::from("example.com"),
        include_on_resume: false,
        include_on_github: true,
    };
    let x = OtherExperience { projects: vec![a, b, c] };

    let rendered = TextRenderer::new().render_other_experience(&x, &get_config()).unwrap();

    assert_eq!(
        rendered,
        "                     PROJECTS
- project_nameA: descriptionA
- project_nameB: Lorem ipsum dolor sit amet,
  consectetur adipiscing elit, sed do eiusmod
  tempor incididunt ut"
    );
}

#[test]
fn text_renderer_test_technologies() {
    let tech = vec![
        String::from("Lorem"),
        String::from("ipsum"),
        String::from("dolor"),
        String::from("sit"),
        String::from("amet"),
        String::from("consectetur"),
        String::from("adipiscing"),
        String::from("elit"),
        String::from("sed"),
        String::from("do"),
        String::from("eiusmod"),
        String::from("tempor"),
        String::from("incididunt"),
    ];

    let x = Technologies { technologies: tech };

    let rendered = TextRenderer::new().render_technologies(&x, &get_config()).unwrap();

    assert_eq!(
        rendered,
        "                   TECHNOLOGIES
   Lorem, ipsum, dolor, sit, amet, consectetur,
   adipiscing, elit, sed, do, eiusmod, tempor,
                    incididunt"
    )
}

#[test]
fn text_renderer_test_education() {
    let x = Education {
        school: String::from("school"),
        location: String::from("location"),
        major: String::from("major"),
        graduation: Some(String::from("graduation")),
        extras: None,
    };

    let rendered = TextRenderer::new().render_education(&x, &get_config()).unwrap();

    assert_eq!(
        rendered,
        "                    UNIVERSITY
      school - location - major - graduation"
    );
}

#[test]
fn text_renderer_test_cover_letter() {
    let x = CoverLetter {
        salutation: String::from("Hello,"),
        closing: String::from("From,"),
        paragraphs: vec!["foo", "Lorem ipsum dolor sit amet, consectetur adipiscing elit, sed do eiusmod tempor incididunt ut", "baz"]
            .into_iter()
            .map(|x| String::from(x))
            .collect(),
        name: Some(String::from("Foo Bar")),
        email: Some(String::from("foo@bar.com")),
    };

    let date = "24 June 2021";
    let rendered = TextRenderer::new().render_cover_letter(&x, &get_config(), date).unwrap();
    let expected = format!("Foo Bar\nfoo@bar.com\n{}\n\n\nHello,\n\nfoo\n\nLorem ipsum dolor sit amet, consectetur adipiscing\nelit, sed do eiusmod tempor incididunt ut\n\nbaz\n\n\nFrom,\nFoo Bar", date);
    assert_eq!(rendered, expected);
}

#[test]
fn text_renderer_test_empty_experience_is_error() {
    let x: Vec<ProfessionalExperience> = Vec::new();
    let r = TextRenderer::new().render_professional_experience_list(&x, &get_config());
    assert_eq!(
        r.unwrap_err(),
        "An error occurred while rendering professional experience to plain text."
    );
}

#[test]
fn text_renderer_test_no_resume_projects_is_error() {
    let x = OtherExperience {
        projects: vec![ProjectInfo {
            project_name: String::from("hidden"),
            url: String::from("example.com"),
            description: String::from("description"),
            include_on_resume: false,
            include_on_github: true,
        }],
    };
    let r = TextRenderer::new().render_other_experience(&x, &get_config());
    assert_eq!(
        r.unwrap_err(),
        "An error occurred while rendering other experience to plain text."
    );
}
