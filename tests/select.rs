use forge_cli::error::ScaffoldError;
use forge_cli::resolve::{project_name, resolve_source, template_dir, TemplateSource, TEMPLATES_ROOT};
use forge_cli::selector::{template_name, Database, Frontend};

#[test]
fn every_combination_has_its_template() {
    let cases = [
        (Frontend::Htmx, None, "static-htmx"),
        (Frontend::Dioxus, None, "static-dioxus"),
        (Frontend::Htmx, Some(Database::Postgres), "postgres-htmx"),
        (Frontend::Dioxus, Some(Database::Postgres), "postgres-dioxus"),
        (Frontend::Htmx, Some(Database::Mysql), "mysql-htmx"),
        (Frontend::Dioxus, Some(Database::Mysql), "mysql-dioxus"),
        (Frontend::Htmx, Some(Database::Mongodb), "mongodb-htmx"),
        (Frontend::Dioxus, Some(Database::Mongodb), "mongodb-dioxus"),
        (Frontend::Htmx, Some(Database::Firebase), "firebase-htmx"),
        (Frontend::Dioxus, Some(Database::Firebase), "firebase-dioxus"),
    ];
    for (f, d, name) in cases {
        assert_eq!(template_name(f, d), name);
    }
}

#[test]
fn database_choice_changes_template() {
    let a = template_name(Frontend::Htmx, None);
    let b = template_name(Frontend::Htmx, Some(Database::Postgres));
    assert_ne!(a, b);
    let c = template_name(Frontend::Dioxus, None);
    let d = template_name(Frontend::Dioxus, Some(Database::Postgres));
    assert_ne!(c, d);
}

#[test]
fn default_frontend_is_dioxus() {
    assert_eq!(Frontend::default(), Frontend::Dioxus);
}

#[test]
fn embedded_template_wins() {
    let r = resolve_source("static-htmx", true, true);
    assert_eq!(r, Ok(TemplateSource::Embedded { name: "static-htmx".to_string() }));
}

#[test]
fn disk_template_is_the_fallback() {
    let r = resolve_source("static-htmx", false, true);
    assert_eq!(r, Ok(TemplateSource::OnDisk { path: "templates/static-htmx".to_string() }));
}

#[test]
fn unknown_template_is_rejected() {
    let r = resolve_source("nope", false, false);
    let e = r.unwrap_err();
    assert_eq!(
        e,
        ScaffoldError::TemplateNotFound {
            identifier: "nope".to_string(),
            probed_path: "templates/nope".to_string()
        }
    );
    assert_eq!(
        e.message(),
        "Template 'nope' not found in embedded assets or at 'templates/nope'!"
    );
    assert_eq!(TEMPLATES_ROOT, "templates");
}

#[test]
fn template_directory_is_under_the_root() {
    assert_eq!(template_dir("mysql-htmx"), "templates/mysql-htmx");
}

#[test]
fn project_name_is_the_last_component() {
    assert_eq!(project_name("my-app"), Ok("my-app".to_string()));
    assert_eq!(project_name("/tmp/work/my-app"), Ok("my-app".to_string()));
    assert_eq!(project_name("work/my-app/"), Ok("my-app".to_string()));
}

#[test]
fn path_without_name_is_rejected() {
    for p in ["/", "work/..", ""] {
        let e = project_name(p).unwrap_err();
        assert_eq!(e, ScaffoldError::InvalidProjectName { input: p.to_string() });
        assert_eq!(e.message(), format!("Invalid project path: {}", p));
    }
}

#[test]
fn io_failure_message_names_path_and_cause() {
    let e = ScaffoldError::IoFailure { path: "out/a.txt".to_string(), cause: "denied".to_string() };
    assert_eq!(e.message(), "Failed to write 'out/a.txt': denied");
}
