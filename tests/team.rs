use lnr::config::Config;
use lnr::team::{get_states, state_by_name, states_request, State, StateNode, Team};
use lnr::viewer::{
    get_viewer, project, project_choices, project_names, team, team_by_name, team_names,
    TeamChoice, Viewer,
};
use lnr::{Project, ProjectNode};

fn st(name: &str, position: i32) -> State {
    State { name: name.to_string(), id: format!("id-{name}"), position }
}

fn tm(name: &str, projects: &[&str]) -> Team {
    Team {
        name: name.to_string(),
        id: format!("t-{name}"),
        projects: Some(ProjectNode {
            nodes: projects
                .iter()
                .map(|p| Project { name: p.to_string(), id: format!("p-{p}") })
                .collect(),
        }),
        states: None,
    }
}

fn viewer(teams: Vec<Team>) -> Viewer {
    Viewer { id: "v1".to_string(), name: "Ann".to_string(), teams }
}

#[test]
fn states_sorted_by_position_keeping_ties() {
    let mut t = tm("Gitar", &[]);
    t.states = Some(StateNode {
        nodes: vec![st("Done", 3), st("Todo", 1), st("Backlog", 0), st("Review", 1)],
    });
    let states = get_states(Ok(t)).unwrap();
    let names: Vec<&str> = states.iter().map(|s| s.name.as_str()).collect();
    assert_eq!(names, vec!["Backlog", "Todo", "Review", "Done"]);
    assert_eq!(
        get_states(Err("bad".to_string())),
        Err("Could not parse response for states: bad".to_string())
    );
}

#[test]
fn state_found_by_name() {
    let states = vec![st("Todo", 1), st("Done", 2)];
    assert_eq!(state_by_name(states.clone(), &"Done".to_string()), Ok(st("Done", 2)));
    assert_eq!(
        state_by_name(states, &"Gone".to_string()),
        Err("Gone state not found".to_string())
    );
}

#[test]
fn states_request_names_team() {
    let config = Config::with_path("a.cfg".to_string());
    let g = states_request(&config, "tok", &tm("Gitar", &[]));
    assert_eq!(g.body().contains("\"variables\":{\"id\":\"t-Gitar\"}"), true);
}

#[test]
fn team_names_and_lookup() {
    let v = viewer(vec![tm("Zeta", &[]), tm("Alpha", &["P"])]);
    assert_eq!(team_names(&v), Ok(vec!["Zeta".to_string(), "Alpha".to_string()]));
    assert_eq!(team_by_name(&v, &"Alpha".to_string()), Ok(tm("Alpha", &["P"])));
    assert_eq!(
        team_by_name(&v, &"Beta".to_string()),
        Err("Team Beta not found, options are: Zeta, Alpha".to_string())
    );
    let empty = viewer(Vec::new());
    assert_eq!(team_names(&empty), Err("No teams found".to_string()));
    assert_eq!(team(&empty, &None), Err("No teams found".to_string()));
}

#[test]
fn team_choice_depends_on_count() {
    let one = viewer(vec![tm("Solo", &[])]);
    assert_eq!(team(&one, &None), Ok(TeamChoice::Chosen(tm("Solo", &[]))));
    let two = viewer(vec![tm("Zeta", &[]), tm("Alpha", &[])]);
    assert_eq!(
        team(&two, &None),
        Ok(TeamChoice::Choose(vec!["Alpha".to_string(), "Zeta".to_string()]))
    );
    assert_eq!(
        team(&two, &Some("Zeta".to_string())),
        Ok(TeamChoice::Chosen(tm("Zeta", &[])))
    );
}

#[test]
fn projects_of_team() {
    let t = Some(tm("T", &["web", "api"]));
    assert_eq!(project_names(&t), Ok(vec!["web".to_string(), "api".to_string()]));
    assert_eq!(project_names(&None), Ok(Vec::new()));
    assert_eq!(
        project_choices(&t),
        vec!["None".to_string(), "api".to_string(), "web".to_string()]
    );
    assert_eq!(project_choices(&Some(tm("T", &[]))), Vec::<String>::new());
    assert_eq!(
        project(&t, "api".to_string()),
        Ok(Some(Project { name: "api".to_string(), id: "p-api".to_string() }))
    );
    assert_eq!(project(&t, "None".to_string()), Ok(None));
    assert_eq!(project(&t, "nope".to_string()), Err("Project not found".to_string()));
    assert_eq!(project(&None, "api".to_string()), Ok(None));
}

#[test]
fn viewer_decode_error_is_reported() {
    assert_eq!(
        get_viewer(Err("eof".to_string())),
        Err("Could not parse response for item: eof".to_string())
    );
}
