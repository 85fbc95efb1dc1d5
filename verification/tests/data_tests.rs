use resume_generator::data::{
    CoverLetter, Objective, OtherExperience, PersonalInfo, ProjectInfo, Resume, Technologies,
};

fn sample_resume() -> Resume {
    Resume {
        name: String::from("Foo Bar"),
        personal_info: PersonalInfo {
            email: String::from("foo@example.com"),
            github: String::from("github.com/foo"),
            other: None,
        },
        objective: Objective { objective: String::from("objective") },
        professional_experience: Vec::new(),
        education: None,
        other_experience: None,
        technologies: None,
        cover_letter: None,
    }
}

#[test]
fn test_verify_technologies() {
    let t = Technologies {
        technologies: vec!["foo", "bar", "baz", "foo", "things", "stuff"]
            .into_iter()
            .map(|x| String::from(x))
            .collect(),
    };
    let r = Resume::verify_technologies(&t);
    assert!(r.is_err());
}

#[test]
fn test_verify_technologies_unique_entries() {
    let t = Technologies {
        technologies: vec!["foo", "bar", "baz", "things", "stuff"]
            .into_iter()
            .map(|x| String::from(x))
            .collect(),
    };
    let r = Resume::verify_technologies(&t);
    assert!(r.is_ok());
}

#[test]
fn test_verify_technologies_error_names_entry() {
    let t = Technologies {
        technologies: vec!["foo", "bar", "foo"].into_iter().map(|x| String::from(x)).collect(),
    };
    let r = Resume::verify_technologies(&t);
    assert_eq!(
        r.unwrap_err(),
        "Technologies list contains a duplicate entry: foo"
    );
}

#[test]
fn test_verify_rejects_duplicates() {
    let mut resume = sample_resume();
    resume.technologies = Some(Technologies {
        technologies: vec!["foo", "bar", "foo"].into_iter().map(|x| String::from(x)).collect(),
    });
    assert!(Resume::verify(resume).is_err());

    let mut resume = sample_resume();
    resume.technologies = Some(Technologies {
        technologies: vec!["foo", "bar"].into_iter().map(|x| String::from(x)).collect(),
    });
    assert!(Resume::verify(resume).is_ok());
}

#[test]
fn test_resolve_applies_email_and_fills_cover_letter() {
    let mut resume = sample_resume();
    resume.cover_letter = Some(CoverLetter {
        paragraphs: vec![String::from("para")],
        salutation: String::from("Hello,"),
        closing: String::from("From,"),
        name: None,
        email: None,
    });
    let override_email = String::from("new@example.com");
    let resolved = Resume::resolve(resume, Some(&override_email)).unwrap();
    assert_eq!(resolved.personal_info.email, "new@example.com");
    let cl = resolved.cover_letter.unwrap();
    assert_eq!(cl.name.unwrap(), "Foo Bar");
    assert_eq!(cl.email.unwrap(), "new@example.com");
}

#[test]
fn test_resolve_without_override_keeps_email() {
    let resume = sample_resume();
    let resolved = Resume::resolve(resume, None).unwrap();
    assert_eq!(resolved.personal_info.email, "foo@example.com");
    assert!(resolved.cover_letter.is_none());
}

fn project(name: &str, on_resume: bool, on_github: bool) -> ProjectInfo {
    ProjectInfo {
        project_name: String::from(name),
        url: String::from("example.com"),
        description: String::from("description"),
        include_on_resume: on_resume,
        include_on_github: on_github,
    }
}

#[test]
fn test_get_projects_filters_by_flag() {
    let x = OtherExperience {
        projects: vec![
            project("a", true, false),
            project("b", false, true),
            project("c", true, true),
        ],
    };
    let all = x.get_projects();
    assert_eq!(all.len(), 3);

    let for_resume = x.get_projects_for_resume();
    let names: Vec<&str> = for_resume.iter().map(|p| p.project_name.as_str()).collect();
    assert_eq!(names, vec!["a", "c"]);

    let for_github = x.get_projects_for_github();
    let names: Vec<&str> = for_github.iter().map(|p| p.project_name.as_str()).collect();
    assert_eq!(names, vec!["b", "c"]);
}
