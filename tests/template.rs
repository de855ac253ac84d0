use lnr::config::Config;
use lnr::priority::Priority;
use lnr::request::GqlValue;
use lnr::team::{Project, State, Team};
use lnr::template::{
    child_request, extract_id_from_response, failure_message, fill_in_variables, fill_template,
    has_partial_call, is_issue_toml, issue_context, parent_request, progress_line,
    template_files, ChildIssue, CreatedIssue, CreatedIssueData, CreatedIssueEnvelope,
    CreatedIssueResponse, FileRun, FileStep, ParentIssue, RenderFailure, Template, TemplateRun,
};
use lnr::viewer::Viewer;

fn entries(pairs: &[(&str, &str)]) -> Vec<(String, String)> {
    vars(pairs)
}

fn vars(pairs: &[(&str, &str)]) -> Vec<(String, String)> {
    pairs.iter().map(|(k, v)| (k.to_string(), v.to_string())).collect()
}

fn sample() -> Template {
    Template {
        parent: ParentIssue { title: "Release {{version}}".to_string(), description: None },
        children: Some(vec![ChildIssue {
            title: "Notes for {{version}}".to_string(),
            description: Some("by {{who}}".to_string()),
        }]),
        variables: vars(&[("version", "1.2"), ("who", "ann")]),
    }
}

fn context() -> lnr::template::IssueContext {
    let team = Team { name: "T".to_string(), id: "team1".to_string(), projects: None, states: None };
    let state = State { name: "Todo".to_string(), id: "state1".to_string(), position: 0 };
    let viewer = Viewer { id: "me".to_string(), name: "Me".to_string(), teams: Vec::new() };
    let project = Some(Project { name: "P".to_string(), id: "proj1".to_string() });
    issue_context(&team, &project, &viewer, &state, &Priority::High)
}

#[test]
fn variables_fill_placeholders() {
    assert_eq!(fill_in_variables("{{x}}", &vars(&[("x", "Foo")])), Ok("Foo".to_string()));
    assert_eq!(fill_in_variables("plain", &Vec::new()), Ok("plain".to_string()));
}

#[test]
fn unbound_variable_fails_in_strict_mode() {
    let result = fill_in_variables("{{missing}}", &vars(&[("x", "Foo")]));
    assert!(result.unwrap_err().starts_with("Could not render template"));
    let broken = fill_in_variables("{{#if x}}open", &vars(&[("x", "1")]));
    assert!(broken.unwrap_err().starts_with("Could not register template"));
}

#[test]
fn template_file_names() {
    assert!(is_issue_toml("release.toml"));
    assert!(is_issue_toml("MyCargo.toml"));
    assert!(!is_issue_toml("Cargo.toml"));
    assert!(!is_issue_toml("notes.md"));
    let entries = entries(&[
        ("t/a.toml", "a.toml"),
        ("t/Cargo.toml", "Cargo.toml"),
        ("t/b.txt", "b.txt"),
        ("Cargo.toml/c.toml", "c.toml"),
    ]);
    assert_eq!(
        template_files(&entries),
        vec!["t/a.toml".to_string(), "Cargo.toml/c.toml".to_string()]
    );
}

#[test]
fn parent_and_child_requests() {
    let config = Config::with_path("a.cfg".to_string());
    let ctx = context();
    assert_eq!(ctx.priority, 2);
    let g = parent_request(&config, "tok", &sample(), &ctx).unwrap();
    let keys: Vec<&str> = g.variables.iter().map(|(k, _)| k.as_str()).collect();
    assert_eq!(
        keys,
        vec!["title", "teamId", "priority", "stateId", "assigneeId", "description", "projectId"]
    );
    assert_eq!(g.variables[0].1, GqlValue::Text("Release 1.2".to_string()));
    assert_eq!(g.variables[2].1, GqlValue::Integer(2));
    assert_eq!(g.variables[5].1, GqlValue::Text(String::new()));
    let c = child_request(&config, "tok", &sample(), 0, "parent-9", &ctx).unwrap();
    assert_eq!(c.variables[0].1, GqlValue::Text("Notes for 1.2".to_string()));
    assert_eq!(c.variables[3], ("parentId".to_string(), GqlValue::Text("parent-9".to_string())));
    assert_eq!(c.variables[6].1, GqlValue::Text("by ann".to_string()));
    let mut bad = sample();
    bad.variables = Vec::new();
    assert!(parent_request(&config, "tok", &bad, &ctx).is_err());
}

#[test]
fn created_issue_is_read_and_reported() {
    let issue = CreatedIssue { id: "i1".to_string(), url: "https://x/1".to_string() };
    let decoded = Ok(CreatedIssueResponse {
        data: Some(CreatedIssueData { issue_create: CreatedIssueEnvelope { issue: issue.clone() } }),
    });
    assert_eq!(extract_id_from_response(decoded, ""), Ok(issue.clone()));
    assert_eq!(progress_line(&issue, false), "- [i1] https://x/1");
    assert_eq!(progress_line(&issue, true), "  - [i1] https://x/1");
    assert!(extract_id_from_response(Ok(CreatedIssueResponse { data: None }), "{}").is_err());
}

#[test]
fn run_processes_each_template_once() {
    let entries = entries(&[("d/a.toml", "a.toml"), ("d/skip.md", "skip.md"), ("d/b.toml", "b.toml")]);
    let mut run = TemplateRun::start(&entries);
    let mut seen = Vec::new();
    while let Some(file) = run.next_file() {
        seen.push(file);
        run.record(Ok("Done".to_string()));
    }
    assert_eq!(seen, vec!["d/a.toml".to_string(), "d/b.toml".to_string()]);
    assert_eq!(run.result(), Some(Ok("Done".to_string())));
}

#[test]
fn run_stops_at_first_failure() {
    let entries = entries(&[("a.toml", "a.toml"), ("b.toml", "b.toml"), ("c.toml", "c.toml")]);
    let mut run = TemplateRun::start(&entries);
    assert_eq!(run.result(), None);
    run.record(Ok("Done".to_string()));
    assert_eq!(run.next_file(), Some("b.toml".to_string()));
    run.record(Err("boom".to_string()));
    assert_eq!(run.next_file(), None);
    assert_eq!(run.result(), Some(Err("boom".to_string())));
    assert_eq!(run.done, 1);
}

#[test]
fn partial_calls_are_refused() {
    assert!(has_partial_call("{{> a}}"));
    assert!(has_partial_call("x {{~ #> a}}y{{/a}}"));
    assert!(!has_partial_call("{{x}} -> {y}"));
    let looping = "{{#*inline \"a\"}}{{> a}}{{/inline}}{{> a}}";
    assert_eq!(
        fill_template(looping, &Vec::new()),
        Err(format!("Template partials are not supported: {looping}"))
    );
    assert_eq!(fill_template("{{x}}", &vars(&[("x", "Foo")])), Ok("Foo".to_string()));
}

#[test]
fn failure_messages_name_the_step() {
    assert_eq!(
        failure_message(&RenderFailure::Render("missing".to_string())),
        "Could not render template: missing"
    );
    assert_eq!(
        failure_message(&RenderFailure::Template("syntax".to_string())),
        "Could not register template: syntax"
    );
}

#[test]
fn file_run_creates_parent_then_children() {
    let config = Config::with_path("a.cfg".to_string());
    let ctx = context();
    let template = sample();
    let mut file = FileRun::new();
    assert_eq!(file.next_step(&template), FileStep::Parent);
    let first = file.next_request(&config, "tok", &template, &ctx).unwrap().unwrap();
    assert_eq!(first.variables[0].1, GqlValue::Text("Release 1.2".to_string()));
    let line = file.record(&template, CreatedIssue { id: "p1".to_string(), url: "u1".to_string() });
    assert_eq!(line, "- [p1] u1");
    assert_eq!(file.next_step(&template), FileStep::Child(0));
    let child = file.next_request(&config, "tok", &template, &ctx).unwrap().unwrap();
    assert_eq!(child.variables[3], ("parentId".to_string(), GqlValue::Text("p1".to_string())));
    let line = file.record(&template, CreatedIssue { id: "c1".to_string(), url: "u2".to_string() });
    assert_eq!(line, "  - [c1] u2");
    assert_eq!(file.next_step(&template), FileStep::Finished);
    assert!(file.next_request(&config, "tok", &template, &ctx).unwrap().is_none());
    let mut bare = sample();
    bare.children = None;
    let mut lone = FileRun::new();
    assert!(lone.next_request(&config, "tok", &bare, &ctx).unwrap().is_some());
    lone.record(&bare, CreatedIssue { id: "p".to_string(), url: "u".to_string() });
    assert_eq!(lone.next_step(&bare), FileStep::Finished);
}
