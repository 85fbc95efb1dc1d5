use resume_generator::config::{Config, FormatConfig, TextConfig};
use resume_generator::data::{
    Objective, OtherExperience, OtherPersonalInfo, PersonalInfo, ProjectInfo, Technologies,
};
use resume_generator::github_renderer::GitHubRenderer;

fn get_config() -> Config {
    Config {
        format_config: FormatConfig {
            text_config: TextConfig { width: 50 },
            ..Default::default()
        },
        ..Default::default()
    }
}

#[test]
fn github_renderer_test_personal_info() {
    let a = OtherPersonalInfo {
        item: String::from("Foo"),
        url: Some(String::from("example.com/foo")),
    };
    let b = OtherPersonalInfo {
        item: String::from("Bar"),
        url: Some(String::from("example.com/bar")),
    };
    let x = PersonalInfo {
        email: String::from("foo@bar.com"),
        github: String::from("github.com/foo"),
        other: Some(vec![a, b]),
    };
    let rendered = GitHubRenderer::new().render_personal_info(&x, &get_config()).unwrap();

    assert_eq!(
        rendered,
        "## Find me here\n- GitHub: [github.com/foo](https://github.com/foo)\n- Foo: [example.com/foo](https://example.com/foo)\n- Bar: [example.com/bar](https://example.com/bar)"
    );
}

#[test]
fn github_renderer_test_personal_info_hides_linkedin() {
    let a = OtherPersonalInfo {
        item: String::from("LinkedIn"),
        url: Some(String::from("example.com/in")),
    };
    let b = OtherPersonalInfo {
        item: String::from("Bar"),
        url: Some(String::from("example.com/bar")),
    };
    let x = PersonalInfo {
        email: String::from("foo@bar.com"),
        github: String::from("github.com/foo"),
        other: Some(vec![a, b]),
    };
    let rendered = GitHubRenderer::new().render_personal_info(&x, &get_config()).unwrap();

    assert_eq!(
        rendered,
        "## Find me here\n- GitHub: [github.com/foo](https://github.com/foo)\n- Bar: [example.com/bar](https://example.com/bar)"
    );
}

#[test]
fn github_renderer_test_objective() {
    let x = Objective {
        objective: String::from("Lorem ipsum dolor sit amet, consectetur adipiscing elit, sed do eiusmod tempor incididunt ut"),
    };
    let rendered = GitHubRenderer::new().render_objective(&x, &get_config()).unwrap();

    assert_eq!(rendered, "Lorem ipsum dolor sit amet, consectetur adipiscing elit, sed do eiusmod tempor incididunt ut");
}

#[test]
fn github_renderer_test_other_experience() {
    let a = ProjectInfo {
        project_name: String::from("project_nameA"),
        description: String::from("descriptionA"),
        url: String::from("example.com"),
        include_on_resume: true,
        include_on_github: true,
    };
    let b = ProjectInfo {
        project_name: String::from("project_nameB"),
        description: String::from("Lorem ipsum dolor sit amet, consectetur adipiscing elit, sed do eiusmod tempor incididunt ut"),
        url: String::from("example.com"),
        include_on_resume: true,
        include_on_github: true,
    };
    let c = ProjectInfo {
        project_name: String::from("project_nameC"),
        description: String::from("descriptionC"),
        url: String::from("example.com"),
        include_on_resume: true,
        include_on_github: true,
    };
    let x = OtherExperience { projects: vec![a, b, c] };

    let rendered = GitHubRenderer::new().render_other_experience(&x, &get_config()).unwrap();

    assert_eq!(
        rendered,
        "## Projects\n- [project_nameA](https://example.com) - descriptionA\n- [project_nameB](https://example.com) - Lorem ipsum dolor sit amet, consectetur adipiscing elit, sed do eiusmod tempor\n  incididunt ut\n- [project_nameC](https://example.com) - descriptionC"
    );
}

#[test]
fn github_renderer_test_only_github_projects() {
    let a = ProjectInfo {
        project_name: String::from("resume_only"),
        description: String::from("descriptionA"),
        url: String::from("example.com"),
        include_on_resume: true,
        include_on_github: false,
    };
    let b = ProjectInfo {
        project_name: String::from("github_only"),
        description: String::from("descriptionB"),
        url: String::from("example.com"),
        include_on_resume: false,
        include_on_github: true,
    };
    let x = OtherExperience { projects: vec![a, b] };

    let rendered = GitHubRenderer::new().render_other_experience(&x, &get_config()).unwrap();

    assert_eq!(
        rendered,
        "## Projects\n- [github_only](https://example.com) - descriptionB"
    );
}

#[test]
fn github_renderer_test_technologies() {
    let tech = vec![
        String::from("Lorem"),
        String::from("ipsum"),
        String::from("dolor"),
        String::from("sit"),
        String::from("amet"),
        String::from("consectetur"),
        String::from("adipiscing"),
        String::from("elit"),
        String::from("sed"),
        String::from("do"),
        String::from("eiusmod"),
        String::from("tempor"),
        String::from("incididunt"),
    ];

    let x = Technologies { technologies: tech };

    let rendered = GitHubRenderer::new().render_technologies(&x, &get_config()).unwrap();

    assert_eq!(
        rendered,
        "## Technologies\nLorem, ipsum, dolor, sit, amet, consectetur, adipiscing, elit, sed, do, eiusmod, tempor, incididunt"
    )
}
