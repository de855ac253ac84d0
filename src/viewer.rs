//! The authenticated user, their teams, and the choice of a team or a
//! project among them.
use vstd::prelude::*;
use crate::config::Config;
use crate::order::{rank_sorted, sort_by_rank};
use crate::request::{Gql, base_url};
use crate::team::{Project, Team, copy_projects};
use crate::text::{joined, views};

verus! {

broadcast use vstd::string::group_string_axioms;

pub const FETCH_IDS_DOC: &'static str = "
        query {
            viewer {
                name
                id
                teamMemberships {
                    nodes {
                        team {
                            name
                            id
                            projects {
                                nodes {
                                    name
                                    id
                                }
                            }
                        }
                    }
                }
            }
        }";

/// The authenticated user with the teams they belong to.
#[derive(Clone, Debug, PartialEq, Eq)]
pub struct Viewer {
    /// The unique identifier of the viewer.
    pub id: String,
    /// The name of the viewer.
    pub name: String,
    /// The teams the viewer is a member of, with their projects.
    pub teams: Vec<Team>,
}

/// Either a team was settled, or the user picks one of the names.
#[derive(Clone, Debug, PartialEq, Eq)]
pub enum TeamChoice {
    Chosen(Team),
    Choose(Vec<String>),
}

/// Names of the teams, in order.
pub open spec fn names_of_teams(teams: Seq<Team>) -> Seq<Seq<char>> {
    teams.map_values(|t: Team| t.name@)
}

/// Names of the projects, in order.
pub open spec fn names_of_projects(projects: Seq<Project>) -> Seq<Seq<char>> {
    projects.map_values(|p: Project| p.name@)
}

/// The projects of an optional team; none when there is no team or it
/// lists none.
pub open spec fn projects_of(team: Option<Team>) -> Seq<Project> {
    match team {
        Some(t) => match t.projects {
            Some(node) => node.nodes@,
            None => Seq::empty(),
        },
        None => Seq::empty(),
    }
}

/// Whether `i` is the first position whose name is `name`.
pub open spec fn first_named(names: Seq<Seq<char>>, name: Seq<char>, i: int) -> bool {
    0 <= i < names.len() && names[i] == name && forall|j: int| 0 <= j < i ==> names[j] != name
}

/// The error when no team of the viewer has the name.
pub open spec fn team_not_found(name: Seq<char>, teams: Seq<Team>) -> Seq<char> {
    "Team "@ + name + " not found, options are: "@ + joined(names_of_teams(teams), ", "@)
}

/// The request for the viewer with their teams and projects.
pub fn viewer_request(config: &Config, token: &str) -> (r: Gql)
    ensures
        r.wf(),
        r.url@ == base_url(*config),
        r.token@ == token@,
        r.query@ == FETCH_IDS_DOC@,
        r.variables@.len() == 0,
{
    Gql::new(config, token, FETCH_IDS_DOC)
}

/// The viewer in a decoded response.
pub fn get_viewer(decoded: Result<Viewer, String>) -> (r: Result<Viewer, String>)
    ensures
        decoded matches Ok(v) ==> r == Ok::<Viewer, String>(v),
        decoded matches Err(e) ==> (r matches Err(m) && m@ == "Could not parse response for item: "@
            + e@),
{
    match decoded {
        Ok(v) => Ok(v),
        Err(e) => {
            let mut m = String::from_str("Could not parse response for item: ");
            m.append(e.as_str());
            Err(m)
        },
    }
}

/// Names of the viewer's teams, in order; an error when there are none.
pub fn team_names(viewer: &Viewer) -> (r: Result<Vec<String>, String>)
    ensures
        viewer.teams@.len() == 0 ==> (r matches Err(e) && e@ == "No teams found"@),
        viewer.teams@.len() > 0 ==> (r matches Ok(v) && views(v@) == names_of_teams(
            viewer.teams@,
        )),
{
    if viewer.teams.len() == 0 {
        return Err(String::from_str("No teams found"));
    }
    let mut names: Vec<String> = Vec::new();
    let mut i: usize = 0;
    while i < viewer.teams.len()
        invariant
            i <= viewer.teams@.len(),
            names@.len() == i,
            forall|j: int| 0 <= j < i ==> #[trigger] names@[j]@ == viewer.teams@[j].name@,
        decreases viewer.teams@.len() - i,
    {
        names.push(viewer.teams[i].name.clone());
        i = i + 1;
    }
    assert(views(names@) =~= names_of_teams(viewer.teams@));
    Ok(names)
}

/// Names of the projects of a team, in order; none without a team.
pub fn project_names(team: &Option<Team>) -> (r: Result<Vec<String>, String>)
    ensures
        r matches Ok(v) && views(v@) == names_of_projects(projects_of(*team)),
{
    let mut names: Vec<String> = Vec::new();
    match team {
        Some(t) => match &t.projects {
            Some(node) => {
                let mut i: usize = 0;
                while i < node.nodes.len()
                    invariant
                        i <= node.nodes@.len(),
                        names@.len() == i,
                        forall|j: int|
                            0 <= j < i ==> #[trigger] names@[j]@ == node.nodes@[j].name@,
                    decreases node.nodes@.len() - i,
                {
                    names.push(node.nodes[i].name.clone());
                    i = i + 1;
                }
                assert(views(names@) =~= names_of_projects(node.nodes@));
            },
            None => {},
        },
        None => {},
    }
    assert(views(names@) =~= names_of_projects(projects_of(*team)));
    Ok(names)
}

/// The viewer's first team of the given name.
pub fn team_by_name(viewer: &Viewer, team_name: &String) -> (r: Result<Team, String>)
    ensures
        viewer.teams@.len() == 0 ==> (r matches Err(e) && e@ == "No teams found"@),
        r matches Ok(t) ==> exists|i: int|
            first_named(names_of_teams(viewer.teams@), team_name@, i) && t.same(viewer.teams@[i]),
        viewer.teams@.len() > 0 && !names_of_teams(viewer.teams@).contains(team_name@) ==> (r matches Err(
            e,
        ) && e@ == team_not_found(team_name@, viewer.teams@)),
        names_of_teams(viewer.teams@).contains(team_name@) ==> r is Ok,
{
    if viewer.teams.len() == 0 {
        return Err(String::from_str("No teams found"));
    }
    let mut i: usize = 0;
    while i < viewer.teams.len()
        invariant
            i <= viewer.teams@.len(),
            forall|j: int| 0 <= j < i ==> names_of_teams(viewer.teams@)[j] != team_name@,
        decreases viewer.teams@.len() - i,
    {
        if viewer.teams[i].name == *team_name {
            let t = viewer.teams[i].duplicate();
            assert(first_named(names_of_teams(viewer.teams@), team_name@, i as int));
            return Ok(t);
        }
        i = i + 1;
    }
    let names = team_names(viewer);
    let listed = match names {
        Ok(v) => crate::text::join(&v, ", "),
        Err(e) => e,
    };
    let mut e = String::from_str("Team ");
    e.append(team_name.as_str());
    e.append(" not found, options are: ");
    e.append(listed.as_str());
    Err(e)
}

/// Settles the team: the named one when a name is given, the only one
/// when there is one, and otherwise the names, sorted, to choose from.
pub fn team(viewer: &Viewer, team_name: &Option<String>) -> (r: Result<TeamChoice, String>)
    ensures
        viewer.teams@.len() == 0 ==> (r matches Err(e) && e@ == "No teams found"@),
        viewer.teams@.len() > 0 ==> match team_name {
            Some(n) => {
                &&& names_of_teams(viewer.teams@).contains(n@) ==> (r matches Ok(
                    TeamChoice::Chosen(t),
                ) && exists|i: int|
                    first_named(names_of_teams(viewer.teams@), n@, i) && t.same(viewer.teams@[i]))
                &&& !names_of_teams(viewer.teams@).contains(n@) ==> (r matches Err(e) && e@
                    == team_not_found(n@, viewer.teams@))
            },
            None => if viewer.teams@.len() == 1 {
                r matches Ok(TeamChoice::Chosen(t)) && t.same(viewer.teams@[0])
            } else {
                r matches Ok(TeamChoice::Choose(v)) && rank_sorted(v@) && exists|names: Seq<String>|
                    views(names) == names_of_teams(viewer.teams@) && v@.to_multiset()
                        == names.to_multiset()
            },
        },
{
    let names = team_names(viewer)?;
    assert(views(names@).len() == names@.len());
    match team_name {
        Some(n) => {
            let t = team_by_name(viewer, n)?;
            Ok(TeamChoice::Chosen(t))
        },
        None => {
            if names.len() == 1 {
                let t = viewer.teams[0].duplicate();
                Ok(TeamChoice::Chosen(t))
            } else {
                let ghost before = names@;
                let sorted = sort_by_rank(names);
                assert(views(before) == names_of_teams(viewer.teams@));
                assert(sorted@.to_multiset() == before.to_multiset());
                assert(exists|names: Seq<String>|
                    views(names) == names_of_teams(viewer.teams@) && sorted@.to_multiset()
                        == names.to_multiset());
                Ok(TeamChoice::Choose(sorted))
            }
        },
    }
}

/// The project chosen by name among a team's projects; "None" chooses no
/// project, and without a team there is none to choose.
pub fn project(team: &Option<Team>, project_name: String) -> (r: Result<Option<Project>, String>)
    ensures
        project_name@ == "None"@ ==> r == Ok::<Option<Project>, String>(None),
        project_name@ != "None"@ && team is None ==> r == Ok::<Option<Project>, String>(None),
        project_name@ != "None"@ && team is Some ==> {
            &&& names_of_projects(projects_of(*team)).contains(project_name@) ==> (r matches Ok(
                Some(p),
            ) && exists|i: int|
                first_named(names_of_projects(projects_of(*team)), project_name@, i) && p
                    == projects_of(*team)[i])
            &&& !names_of_projects(projects_of(*team)).contains(project_name@) ==> (r matches Err(
                e,
            ) && e@ == "Project not found"@)
        },
{
    let none = String::from_str("None");
    if project_name == none {
        return Ok(None);
    }
    assert(project_name@ != "None"@);
    match team {
        Some(t) => {
            let projects = match &t.projects {
                Some(node) => copy_projects(&node.nodes),
                None => Vec::new(),
            };
            assert(projects@ == projects_of(*team));
            let mut i: usize = 0;
            while i < projects.len()
                invariant
                    project_name@ != "None"@,
                    projects@ == projects_of(*team),
                    i <= projects@.len(),
                    forall|j: int|
                        0 <= j < i ==> names_of_projects(projects@)[j] != project_name@,
                decreases projects@.len() - i,
            {
                if projects[i].name == project_name {
                    assert(first_named(names_of_projects(projects@), project_name@, i as int));
                    return Ok(Some(projects[i].duplicate()));
                }
                i = i + 1;
            }
            Err(String::from_str("Project not found"))
        },
        None => Ok(None),
    }
}

/// The choices offered for a project: "None" first, then the team's
/// project names sorted; no choices when the team has no project.
pub fn project_choices(team: &Option<Team>) -> (r: Vec<String>)
    ensures
        projects_of(*team).len() == 0 ==> r@.len() == 0,
        projects_of(*team).len() > 0 ==> {
            &&& r@.len() == projects_of(*team).len() + 1
            &&& r@[0]@ == "None"@
            &&& rank_sorted(r@.drop_first())
            &&& exists|names: Seq<String>|
                views(names) == names_of_projects(projects_of(*team)) && r@.drop_first().to_multiset()
                    == names.to_multiset()
        },
{
    let names = match project_names(team) {
        Ok(v) => v,
        Err(_) => Vec::new(),
    };
    assert(views(names@).len() == names@.len());
    if names.len() == 0 {
        return Vec::new();
    }
    let ghost before = names@;
    let mut sorted = sort_by_rank(names);
    let ghost after = sorted@;
    assert(views(before) == names_of_projects(projects_of(*team)));
    assert(exists|names: Seq<String>|
        views(names) == names_of_projects(projects_of(*team)) && after.to_multiset()
            == names.to_multiset());
    assert(after.len() == before.len()) by {
        broadcast use vstd::seq_lib::group_to_multiset_ensures;

        assert(after.to_multiset().len() == before.to_multiset().len());
    }
    sorted.insert(0, String::from_str("None"));
    assert(sorted@.drop_first() =~= after);
    sorted
}

} // verus!
