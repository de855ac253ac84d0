//! Teams, their projects and their workflow states.
use vstd::prelude::*;
use crate::config::Config;
use crate::order::{Ranked, rank_class, rank_sorted, sort_by_rank};
use crate::request::{Gql, GqlValue, base_url, put_var, var_pairs};

verus! {

broadcast use vstd::string::group_string_axioms;

pub const TEAM_STATES_DOC: &'static str = "
        query ($id: String!) {
            team (id: $id) {
                name
                id
                states {
                    nodes {
                        name
                        id
                        position
                    }
                }
            }
        }";

/// Describes a Linear team and its various projects.
#[derive(Clone, Debug, PartialEq, Eq)]
pub struct Team {
    /// The name of the team.
    pub name: String,
    /// The unique identifier of the team.
    pub id: String,
    /// An optional collection of projects associated with the team.
    pub projects: Option<ProjectNode>,
    /// An optional collection of states associated with the team.
    pub states: Option<StateNode>,
}

/// Represents a collection of projects within a team.
#[derive(Clone, Debug, PartialEq, Eq)]
pub struct ProjectNode {
    /// A list of projects associated with the team.
    pub nodes: Vec<Project>,
}

/// Represents a single project within a team.
#[derive(Clone, Debug, PartialEq, Eq)]
pub struct Project {
    /// The name of the project.
    pub name: String,
    /// The unique identifier of the project.
    pub id: String,
}

/// Represents a collection of states within a team.
#[derive(Clone, Debug, PartialEq, Eq)]
pub struct StateNode {
    /// A list of states associated with the team.
    pub nodes: Vec<State>,
}

/// A workflow state of a team, such as "Todo" or "Done".
#[derive(Clone, Debug, PartialEq, Eq)]
pub struct State {
    /// The name of the state.
    pub name: String,
    /// The unique identifier of the state.
    pub id: String,
    /// The state's position among the team's states, as an order key:
    /// comparing keys compares positions. States are ordered by it.
    pub position: i32,
}

impl Ranked for State {
    open spec fn rank_le(&self, other: &Self) -> bool {
        self.position <= other.position
    }

    fn ranks_no_later(&self, other: &Self) -> (r: bool) {
        self.position <= other.position
    }

    proof fn lemma_rank_total(a: &Self, b: &Self) {
    }

    proof fn lemma_rank_transitive(a: &Self, b: &Self, c: &Self) {
    }
}

impl State {
    /// The text under which the state is offered in a selection.
    pub fn label(&self) -> (r: String)
        ensures
            r@ == self.name@,
    {
        self.name.clone()
    }
}

/// The error for a states response that could not be read.
pub open spec fn states_error(detail: Seq<char>) -> Seq<char> {
    "Could not parse response for states: "@ + detail
}

/// The request for a team's workflow states.
pub fn states_request(config: &Config, token: &str, team: &Team) -> (r: Gql)
    ensures
        r.wf(),
        r.url@ == base_url(*config),
        r.token@ == token@,
        r.query@ == TEAM_STATES_DOC@,
        var_pairs(r.variables@) == seq![(("id"@), GqlValue::Text(team.id))],
{
    let g = Gql::new(config, token, TEAM_STATES_DOC);
    let r = g.put_string("id", team.id.clone());
    assert(var_pairs(r.variables@) =~= seq![(("id"@), GqlValue::Text(team.id))]);
    r
}

/// The states of the team in a decoded response, ordered by position;
/// states of equal position keep the order in which they came.
pub fn get_states(decoded: Result<Team, String>) -> (r: Result<Vec<State>, String>)
    ensures
        decoded matches Err(e) ==> (r matches Err(m) && m@ == states_error(e@)),
        decoded matches Ok(t) ==> match t.states {
            None => r matches Err(m) && m@ == states_error("no states in response"@),
            Some(node) => r matches Ok(v) && v@.to_multiset() == node.nodes@.to_multiset()
                && rank_sorted(v@) && forall|x: State|
                #[trigger] rank_class(v@, x) == rank_class(node.nodes@, x),
        },
{
    match decoded {
        Err(e) => {
            let mut m = String::from_str("Could not parse response for states: ");
            m.append(e.as_str());
            Err(m)
        },
        Ok(team) => match team.states {
            None => {
                let mut m = String::from_str("Could not parse response for states: ");
                m.append("no states in response");
                Err(m)
            },
            Some(node) => Ok(sort_by_rank(node.nodes)),
        },
    }
}

/// The first state of the given name.
pub fn state_by_name(states: Vec<State>, state_name: &String) -> (r: Result<State, String>)
    ensures
        r matches Ok(s) ==> exists|i: int|
            0 <= i < states@.len() && states@[i] == s && s.name@ == state_name@ && forall|j: int|
                0 <= j < i ==> states@[j].name@ != state_name@,
        r is Err <==> forall|i: int| 0 <= i < states@.len() ==> states@[i].name@ != state_name@,
        r matches Err(e) ==> e@ == state_name@ + " state not found"@,
{
    let mut i: usize = 0;
    while i < states.len()
        invariant
            i <= states@.len(),
            forall|j: int| 0 <= j < i ==> states@[j].name@ != state_name@,
        decreases states@.len() - i,
    {
        if states[i].name == *state_name {
            let ghost all = states@;
            let mut states = states;
            let s = states.remove(i);
            assert(all[i as int] == s);
            return Ok(s);
        }
        i = i + 1;
    }
    let mut e = state_name.clone();
    e.append(" state not found");
    Err(e)
}

} // verus!

verus! {

impl Project {
    /// A copy of the project.
    pub fn duplicate(&self) -> (r: Project)
        ensures
            r == *self,
    {
        Project { name: self.name.clone(), id: self.id.clone() }
    }
}

/// A copy of a list of projects.
pub fn copy_projects(v: &Vec<Project>) -> (r: Vec<Project>)
    ensures
        r@ == v@,
{
    let mut r: Vec<Project> = Vec::new();
    let mut i: usize = 0;
    while i < v.len()
        invariant
            i <= v@.len(),
            r@ =~= v@.take(i as int),
        decreases v@.len() - i,
    {
        r.push(v[i].duplicate());
        i = i + 1;
    }
    assert(r@ =~= v@);
    r
}

impl State {
    /// A copy of the state.
    pub fn duplicate(&self) -> (r: State)
        ensures
            r == *self,
    {
        State { name: self.name.clone(), id: self.id.clone(), position: self.position }
    }
}

/// A copy of a list of states.
pub fn copy_states(v: &Vec<State>) -> (r: Vec<State>)
    ensures
        r@ == v@,
{
    let mut r: Vec<State> = Vec::new();
    let mut i: usize = 0;
    while i < v.len()
        invariant
            i <= v@.len(),
            r@ =~= v@.take(i as int),
        decreases v@.len() - i,
    {
        r.push(v[i].duplicate());
        i = i + 1;
    }
    assert(r@ =~= v@);
    r
}

/// Two optional project lists hold the same projects.
pub open spec fn same_projects(a: Option<ProjectNode>, b: Option<ProjectNode>) -> bool {
    match (a, b) {
        (None, None) => true,
        (Some(x), Some(y)) => x.nodes@ == y.nodes@,
        _ => false,
    }
}

/// Two optional state lists hold the same states.
pub open spec fn same_states(a: Option<StateNode>, b: Option<StateNode>) -> bool {
    match (a, b) {
        (None, None) => true,
        (Some(x), Some(y)) => x.nodes@ == y.nodes@,
        _ => false,
    }
}

impl Team {
    /// `self` and `other` hold the same team.
    pub open spec fn same(&self, other: Team) -> bool {
        &&& self.name == other.name
        &&& self.id == other.id
        &&& same_projects(self.projects, other.projects)
        &&& same_states(self.states, other.states)
    }

    /// A copy of the team.
    pub fn duplicate(&self) -> (r: Team)
        ensures
            r.same(*self),
    {
        let projects = match &self.projects {
            Some(p) => Some(ProjectNode { nodes: copy_projects(&p.nodes) }),
            None => None,
        };
        let states = match &self.states {
            Some(s) => Some(StateNode { nodes: copy_states(&s.nodes) }),
            None => None,
        };
        Team { name: self.name.clone(), id: self.id.clone(), projects, states }
    }
}

} // verus!
