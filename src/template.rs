//! Templates for creating a parent issue with its children: choosing the
//! template files, filling in their variables, the requests that create
//! the issues, and the course of a run over several files.
use vstd::prelude::*;
use crate::config::{Config, entries_map};
use crate::priority::{Priority, priority_code, priority_to_int};
use crate::request::{Gql, GqlValue, base_url, put_var, var_pairs};
use crate::team::{Project, State, Team};
use crate::text::{has_suffix, views};
use crate::viewer::Viewer;

verus! {

broadcast use vstd::string::group_string_axioms;

pub const TEMPLATE_CREATE_DOC: &'static str = "mutation (
                    $title: String!
                    $teamId: String!
                    $priority: Int
                    $assigneeId: String
                    $description: String,
                    $parentId: String
                    $stateId: String
                    $projectId: String
                ) {
                issueCreate(
                    input: {
                        title: $title
                        priority: $priority
                        teamId: $teamId
                        assigneeId: $assigneeId
                        stateId: $stateId
                        description: $description
                        parentId: $parentId
                        projectId: $projectId
                    }
                ) {
                    issue {
                        id
                        url
                    }
                }
                }
                ";

/// A template: a parent issue, its children, and the variables that fill
/// in the `{{name}}` placeholders of their titles and descriptions.
#[derive(Clone, Debug, PartialEq, Eq)]
pub struct Template {
    pub parent: ParentIssue,
    pub children: Option<Vec<ChildIssue>>,
    pub variables: Vec<(String, String)>,
}

/// The parent issue of a template.
#[derive(Clone, Debug, PartialEq, Eq)]
pub struct ParentIssue {
    pub title: String,
    pub description: Option<String>,
}

/// A child issue of a template.
#[derive(Clone, Debug, PartialEq, Eq)]
pub struct ChildIssue {
    pub title: String,
    pub description: Option<String>,
}

/// An issue the create mutation reports back.
#[derive(Clone, Debug, PartialEq, Eq)]
pub struct CreatedIssue {
    pub id: String,
    pub url: String,
}

/// Response to the create mutation: `data.issueCreate.issue`.
#[derive(Clone, Debug, PartialEq, Eq)]
pub struct CreatedIssueResponse {
    pub data: Option<CreatedIssueData>,
}

#[derive(Clone, Debug, PartialEq, Eq)]
pub struct CreatedIssueData {
    pub issue_create: CreatedIssueEnvelope,
}

#[derive(Clone, Debug, PartialEq, Eq)]
pub struct CreatedIssueEnvelope {
    pub issue: CreatedIssue,
}

/// Why the templating engine refused a template.
#[derive(Clone, Debug, PartialEq, Eq)]
pub enum RenderFailure {
    /// The template text does not parse.
    Template(String),
    /// Rendering failed, for instance on a variable with no value.
    Render(String),
}

/// What the templating engine, in strict mode, makes of a template with
/// the given variables: the text, or nothing when it fails.
pub uninterp spec fn strict_render(template: Seq<char>, vars: Map<Seq<char>, Seq<char>>) -> Option<
    Seq<char>,
>;

/// Characters the templating engine allows between the opening braces of
/// a tag and the `>` of a partial call.
pub open spec fn is_tag_filler(c: char) -> bool {
    c == ' ' || c == '\t' || c == '\n' || c == '\r' || c == '~' || c == '#'
}

/// `{{` at `i` opens a partial call whose `>` is at `j`.
pub open spec fn partial_call_at(t: Seq<char>, i: int, j: int) -> bool {
    &&& 0 <= i && i + 2 <= j < t.len()
    &&& t[i] == '{' && t[i + 1] == '{' && t[j] == '>'
    &&& forall|k: int| i + 2 <= k < j ==> is_tag_filler(t[k])
}

/// Whether a template calls a partial (`{{> name}}` or `{{#> name}}`, with
/// any whitespace control). Partials are refused: an inline partial may
/// call itself and never finish rendering.
pub open spec fn calls_partial(t: Seq<char>) -> bool {
    exists|i: int, j: int| #[trigger] partial_call_at(t, i, j)
}

/// What filling in the variables gives: nothing for a template that calls
/// a partial, otherwise what the engine renders.
pub open spec fn fill_result(template: Seq<char>, vars: Map<Seq<char>, Seq<char>>) -> Option<
    Seq<char>,
> {
    if calls_partial(template) {
        None
    } else {
        strict_render(template, vars)
    }
}

/// The message for a template the engine refused.
pub open spec fn failure_text(f: RenderFailure) -> Seq<char> {
    match f {
        RenderFailure::Template(d) => "Could not register template: "@ + d@,
        RenderFailure::Render(d) => "Could not render template: "@ + d@,
    }
}

/// The message for a template the engine refused: which step failed,
/// then the engine's own text.
pub fn failure_message(f: &RenderFailure) -> (r: String)
    ensures
        r@ == failure_text(*f),
{
    match f {
        RenderFailure::Template(d) => {
            let mut e = String::from_str("Could not register template: ");
            e.append(d.as_str());
            e
        },
        RenderFailure::Render(d) => {
            let mut e = String::from_str("Could not render template: ");
            e.append(d.as_str());
            e
        },
    }
}

fn is_filler(c: char) -> (r: bool)
    ensures
        r == is_tag_filler(c),
{
    c == ' ' || c == '\t' || c == '\n' || c == '\r' || c == '~' || c == '#'
}

/// Whether a template calls a partial.
pub fn has_partial_call(t: &str) -> (r: bool)
    ensures
        r == calls_partial(t@),
{
    let n = t.unicode_len();
    let mut i: usize = 0;
    while n >= 2 && i < n - 1
        invariant
            n == t@.len(),
            forall|a: int, b: int| 0 <= a < i ==> !partial_call_at(t@, a, b),
        decreases n - i,
    {
        let c0 = t.get_char(i);
        let c1 = t.get_char(i + 1);
        if c0 == '{' && c1 == '{' {
            let mut k: usize = i + 2;
            while k < n && is_filler(t.get_char(k))
                invariant
                    n == t@.len(),
                    i + 2 <= k <= n,
                    forall|m: int| i + 2 <= m < k ==> is_tag_filler(t@[m]),
                decreases n - k,
            {
                k = k + 1;
            }
            if k < n && t.get_char(k) == '>' {
                assert(partial_call_at(t@, i as int, k as int));
                return true;
            }
            assert forall|b: int| !partial_call_at(t@, i as int, b) by {
                if partial_call_at(t@, i as int, b) {
                    if b < k {
                        assert(is_tag_filler(t@[b]));
                    } else if b > k {
                        assert(is_tag_filler(t@[k as int]));
                    }
                }
            }
        }
        i = i + 1;
    }
    assert forall|a: int, b: int| !partial_call_at(t@, a, b) by {
        if partial_call_at(t@, a, b) {
            assert(a < i || (a == i && n < 2));
        }
    }
    false
}

/// Relies on handlebars' `Registry`: a new registry in strict mode
/// (`set_strict_mode(true)`), `register_template_string` and `render` with
/// the variables as a string map. The result depends on the template and
/// the variables alone. A template that calls a partial is left out: an
/// inline partial that calls itself would recurse without end.
#[verifier::external_body]
fn render_strict(template: &str, vars: &Vec<(String, String)>) -> (r: Result<String, RenderFailure>)
    requires
        !calls_partial(template@),
    ensures
        r matches Ok(s) ==> strict_render(template@, entries_map(vars@)) == Some(s@),
        r is Err ==> strict_render(template@, entries_map(vars@)) is None,
{
    let mut registry = handlebars::Handlebars::new();
    registry.set_strict_mode(true);
    let data: std::collections::HashMap<&str, &str> =
        vars.iter().map(|(k, v)| (k.as_str(), v.as_str())).collect();
    if let Err(e) = registry.register_template_string("t1", template) {
        return Err(RenderFailure::Template(format!("{e:?}")));
    }
    registry.render("t1", &data).map_err(|e| RenderFailure::Render(format!("{e:?}")))
}

/// Fills the variables into a template, in strict mode: a placeholder with
/// no value is an error, never an empty text. The error names the step
/// that failed and carries the engine's message.
pub fn fill_in_variables(template: &str, variables: &Vec<(String, String)>) -> (r: Result<
    String,
    String,
>)
    requires
        !calls_partial(template@),
    ensures
        r matches Ok(s) ==> strict_render(template@, entries_map(variables@)) == Some(s@),
        r is Err <==> strict_render(template@, entries_map(variables@)) is None,
        r matches Err(e) ==> exists|f: RenderFailure| e@ == failure_text(f),
{
    match render_strict(template, variables) {
        Ok(s) => Ok(s),
        Err(f) => Err(failure_message(&f)),
    }
}

/// The error for a template that calls a partial.
pub open spec fn partial_refused(template: Seq<char>) -> Seq<char> {
    "Template partials are not supported: "@ + template
}

/// Fills the variables into any template: one that calls a partial is
/// refused before the engine sees it.
pub fn fill_template(template: &str, variables: &Vec<(String, String)>) -> (r: Result<
    String,
    String,
>)
    ensures
        r matches Ok(s) ==> fill_result(template@, entries_map(variables@)) == Some(s@),
        r is Err <==> fill_result(template@, entries_map(variables@)) is None,
        calls_partial(template@) ==> (r matches Err(e) && e@ == partial_refused(template@)),
        !calls_partial(template@) ==> (r matches Err(e) ==> exists|f: RenderFailure| e@
            == failure_text(f)),
{
    if has_partial_call(template) {
        let mut e = String::from_str("Template partials are not supported: ");
        e.append(template);
        return Err(e);
    }
    fill_in_variables(template, variables)
}

/// A file is a template when its name ends in ".toml" and it is not the
/// package manifest.
pub open spec fn is_template_name(name: Seq<char>) -> bool {
    has_suffix(name, ".toml"@) && name != "Cargo.toml"@
}

/// The paths of the template files among directory entries, each given
/// as (path, file name), in the order the entries came.
pub open spec fn template_paths(entries: Seq<(String, String)>) -> Seq<Seq<char>>
    decreases entries.len(),
{
    if entries.len() == 0 {
        Seq::empty()
    } else {
        let rest = template_paths(entries.drop_last());
        if is_template_name(entries.last().1@) {
            rest.push(entries.last().0@)
        } else {
            rest
        }
    }
}

/// Whether a file of this name is processed as a template.
pub fn is_issue_toml(file_name: &str) -> (r: bool)
    ensures
        r == is_template_name(file_name@),
{
    let name = String::from_str(file_name);
    let manifest = String::from_str("Cargo.toml");
    crate::text::ends_with(file_name, ".toml") && !(name == manifest)
}

/// The paths of the template files among the entries of a directory,
/// each entry given as (path, file name), in the order the entries came.
pub fn template_files(entries: &Vec<(String, String)>) -> (r: Vec<String>)
    ensures
        views(r@) == template_paths(entries@),
{
    let mut r: Vec<String> = Vec::new();
    let mut i: usize = 0;
    while i < entries.len()
        invariant
            i <= entries@.len(),
            views(r@) == template_paths(entries@.take(i as int)),
        decreases entries@.len() - i,
    {
        let ghost before = r@;
        if is_issue_toml(entries[i].1.as_str()) {
            r.push(entries[i].0.clone());
        }
        assert(entries@.take(i + 1).drop_last() =~= entries@.take(i as int));
        assert(views(r@) =~= template_paths(entries@.take(i + 1)));
        i = i + 1;
    }
    assert(entries@.take(entries@.len() as int) =~= entries@);
    r
}

} // verus!

verus! {

/// What every issue of a template run is created with.
#[derive(Clone, Debug, PartialEq, Eq)]
pub struct IssueContext {
    pub team_id: String,
    pub state_id: String,
    pub assignee_id: String,
    pub project_id: Option<String>,
    pub priority: u8,
}

/// The context for issues of `team` in `state`, assigned to the viewer,
/// in the project if one was chosen, with the given priority.
pub fn issue_context(
    team: &Team,
    project: &Option<Project>,
    viewer: &Viewer,
    state: &State,
    priority: &Priority,
) -> (r: IssueContext)
    ensures
        r.team_id == team.id,
        r.state_id == state.id,
        r.assignee_id == viewer.id,
        match project {
            Some(p) => r.project_id == Some(p.id),
            None => r.project_id is None,
        },
        r.priority == priority_code(*priority),
{
    IssueContext {
        team_id: team.id.clone(),
        state_id: state.id.clone(),
        assignee_id: viewer.id.clone(),
        project_id: match project {
            Some(p) => Some(p.id.clone()),
            None => None,
        },
        priority: priority_to_int(priority),
    }
}

/// The text of an optional description; empty when there is none.
pub open spec fn description_or_empty(d: Option<String>) -> Seq<char> {
    match d {
        Some(s) => s@,
        None => Seq::empty(),
    }
}

/// Variable `i` is named `key` and holds the text `text`.
pub open spec fn text_var(vars: Seq<(String, GqlValue)>, i: int, key: Seq<char>, text: Seq<char>) -> bool {
    0 <= i < vars.len() && vars[i].0@ == key && (vars[i].1 matches GqlValue::Text(s) && s@ == text)
}

/// The variables shared by every issue of a run, from position `at` on:
/// assignee, then description, then the project when there is one.
pub open spec fn tail_vars(
    vars: Seq<(String, GqlValue)>,
    at: int,
    description: Seq<char>,
    ctx: IssueContext,
) -> bool {
    &&& text_var(vars, at, "assigneeId"@, ctx.assignee_id@)
    &&& text_var(vars, at + 1, "description"@, description)
    &&& match ctx.project_id {
        Some(p) => vars.len() == at + 3 && text_var(vars, at + 2, "projectId"@, p@),
        None => vars.len() == at + 2,
    }
}

/// The variables of the request for a parent issue.
pub open spec fn parent_vars(
    vars: Seq<(String, GqlValue)>,
    title: Seq<char>,
    description: Seq<char>,
    ctx: IssueContext,
) -> bool {
    &&& text_var(vars, 0, "title"@, title)
    &&& text_var(vars, 1, "teamId"@, ctx.team_id@)
    &&& vars[2].0@ == "priority"@ && vars[2].1 == GqlValue::Integer(ctx.priority)
    &&& text_var(vars, 3, "stateId"@, ctx.state_id@)
    &&& tail_vars(vars, 4, description, ctx)
}

/// The variables of the request for a child issue.
pub open spec fn child_vars(
    vars: Seq<(String, GqlValue)>,
    title: Seq<char>,
    description: Seq<char>,
    parent_id: Seq<char>,
    ctx: IssueContext,
) -> bool {
    &&& text_var(vars, 0, "title"@, title)
    &&& text_var(vars, 1, "teamId"@, ctx.team_id@)
    &&& text_var(vars, 2, "stateId"@, ctx.state_id@)
    &&& text_var(vars, 3, "parentId"@, parent_id)
    &&& vars[4].0@ == "priority"@ && vars[4].1 == GqlValue::Integer(ctx.priority)
    &&& tail_vars(vars, 5, description, ctx)
}

proof fn lemma_key_lengths()
    ensures
        "title"@.len() == 5,
        "teamId"@.len() == 6,
        "stateId"@.len() == 7,
        "priority"@.len() == 8,
        "parentId"@.len() == 8,
        "projectId"@.len() == 9,
        "assigneeId"@.len() == 10,
        "description"@.len() == 11,
        "priority"@[1] != "parentId"@[1],
{
    reveal_strlit("title");
    reveal_strlit("teamId");
    reveal_strlit("stateId");
    reveal_strlit("priority");
    reveal_strlit("parentId");
    reveal_strlit("projectId");
    reveal_strlit("assigneeId");
    reveal_strlit("description");
}

/// Pushes the variables shared by every issue of a run.
fn push_tail(vars: &mut Vec<(String, GqlValue)>, description: String, ctx: &IssueContext)
    ensures
        final(vars)@.len() >= old(vars)@.len(),
        final(vars)@.subrange(0, old(vars)@.len() as int) == old(vars)@,
        tail_vars(final(vars)@, old(vars)@.len() as int, description@, *ctx),
{
    let ghost n = old(vars)@.len();
    vars.push((String::from_str("assigneeId"), GqlValue::Text(ctx.assignee_id.clone())));
    vars.push((String::from_str("description"), GqlValue::Text(description)));
    if let Some(p) = &ctx.project_id {
        vars.push((String::from_str("projectId"), GqlValue::Text(p.clone())));
    }
    assert(vars@.subrange(0, n as int) =~= old(vars)@);
}

/// Renders the title and description of a template issue.
fn render_issue(title: &str, description: &Option<String>, variables: &Vec<(String, String)>) -> (r:
    Result<(String, String), String>)
    ensures
        r matches Ok((t, d)) ==> fill_result(title@, entries_map(variables@)) == Some(t@)
            && fill_result(description_or_empty(*description), entries_map(variables@)) == Some(
            d@,
        ),
        r is Err <==> fill_result(title@, entries_map(variables@)) is None || fill_result(
            description_or_empty(*description),
            entries_map(variables@),
        ) is None,
{
    let t = fill_template(title, variables)?;
    let template = match description {
        Some(d) => d.clone(),
        None => String::new(),
    };
    let d = fill_template(template.as_str(), variables)?;
    Ok((t, d))
}

/// The request creating a template's parent issue, with its title and
/// description filled in.
pub fn parent_request(config: &Config, token: &str, template: &Template, ctx: &IssueContext) -> (r:
    Result<Gql, String>)
    ensures
        r is Err <==> fill_result(template.parent.title@, entries_map(template.variables@)) is None
            || fill_result(
            description_or_empty(template.parent.description),
            entries_map(template.variables@),
        ) is None,
        r matches Ok(g) ==> {
            &&& g.wf()
            &&& g.url@ == base_url(*config)
            &&& g.token@ == token@
            &&& g.query@ == TEMPLATE_CREATE_DOC@
            &&& exists|t: Seq<char>, d: Seq<char>|
                fill_result(template.parent.title@, entries_map(template.variables@)) == Some(t)
                    && fill_result(
                    description_or_empty(template.parent.description),
                    entries_map(template.variables@),
                ) == Some(d) && parent_vars(g.variables@, t, d, *ctx)
        },
{
    let (title, description) = render_issue(
        template.parent.title.as_str(),
        &template.parent.description,
        &template.variables,
    )?;
    Ok(parent_issue_request(config, token, title, description, ctx))
}

/// The request creating a parent issue with the given title and
/// description.
pub fn parent_issue_request(
    config: &Config,
    token: &str,
    title: String,
    description: String,
    ctx: &IssueContext,
) -> (g: Gql)
    ensures
        g.wf(),
        g.url@ == base_url(*config),
        g.token@ == token@,
        g.query@ == TEMPLATE_CREATE_DOC@,
        parent_vars(g.variables@, title@, description@, *ctx),
{
    let ghost (tv, dv) = (title@, description@);
    let mut vars: Vec<(String, GqlValue)> = Vec::new();
    vars.push((String::from_str("title"), GqlValue::Text(title)));
    vars.push((String::from_str("teamId"), GqlValue::Text(ctx.team_id.clone())));
    vars.push((String::from_str("priority"), GqlValue::Integer(ctx.priority)));
    vars.push((String::from_str("stateId"), GqlValue::Text(ctx.state_id.clone())));
    let ghost head = vars@;
    push_tail(&mut vars, description, ctx);
    proof {
        lemma_key_lengths();
        assert(vars@[0] == head[0] && vars@[1] == head[1] && vars@[2] == head[2] && vars@[3]
            == head[3]);
        assert(parent_vars(vars@, tv, dv, *ctx));
    }
    let mut g = Gql::new(config, token, TEMPLATE_CREATE_DOC);
    g.variables = vars;
    g
}

/// The request creating child `index` of a template under the parent
/// issue `parent_id`, with its title and description filled in.
pub fn child_request(
    config: &Config,
    token: &str,
    template: &Template,
    index: usize,
    parent_id: &str,
    ctx: &IssueContext,
) -> (r: Result<Gql, String>)
    requires
        template.children matches Some(c) && index < c@.len(),
    ensures
        ({
            let c = template.children->Some_0@[index as int];
            &&& r is Err <==> fill_result(c.title@, entries_map(template.variables@)) is None
                || fill_result(description_or_empty(c.description), entries_map(template.variables@))
                is None
            &&& r matches Ok(g) ==> {
                &&& g.wf()
                &&& g.url@ == base_url(*config)
                &&& g.token@ == token@
                &&& g.query@ == TEMPLATE_CREATE_DOC@
                &&& exists|t: Seq<char>, d: Seq<char>|
                    fill_result(c.title@, entries_map(template.variables@)) == Some(t)
                        && fill_result(
                        description_or_empty(c.description),
                        entries_map(template.variables@),
                    ) == Some(d) && child_vars(g.variables@, t, d, parent_id@, *ctx)
            }
        }),
{
    let children = match &template.children {
        Some(c) => c,
        None => {
            return Err(String::new());
        },
    };
    let child = &children[index];
    let (title, description) = render_issue(
        child.title.as_str(),
        &child.description,
        &template.variables,
    )?;
    Ok(child_issue_request(config, token, title, description, parent_id, ctx))
}

/// The request creating a child issue with the given title and
/// description under the parent issue `parent_id`.
pub fn child_issue_request(
    config: &Config,
    token: &str,
    title: String,
    description: String,
    parent_id: &str,
    ctx: &IssueContext,
) -> (g: Gql)
    ensures
        g.wf(),
        g.url@ == base_url(*config),
        g.token@ == token@,
        g.query@ == TEMPLATE_CREATE_DOC@,
        child_vars(g.variables@, title@, description@, parent_id@, *ctx),
{
    let ghost (tv, dv) = (title@, description@);
    let mut vars: Vec<(String, GqlValue)> = Vec::new();
    vars.push((String::from_str("title"), GqlValue::Text(title)));
    vars.push((String::from_str("teamId"), GqlValue::Text(ctx.team_id.clone())));
    vars.push((String::from_str("stateId"), GqlValue::Text(ctx.state_id.clone())));
    vars.push((String::from_str("parentId"), GqlValue::Text(String::from_str(parent_id))));
    vars.push((String::from_str("priority"), GqlValue::Integer(ctx.priority)));
    let ghost head = vars@;
    push_tail(&mut vars, description, ctx);
    proof {
        lemma_key_lengths();
        assert(vars@[0] == head[0] && vars@[1] == head[1] && vars@[2] == head[2] && vars@[3]
            == head[3] && vars@[4] == head[4]);
        assert(child_vars(vars@, tv, dv, parent_id@, *ctx));
    }
    let mut g = Gql::new(config, token, TEMPLATE_CREATE_DOC);
    g.variables = vars;
    g
}

} // verus!

verus! {

/// The error for a create response that does not hold the issue.
pub open spec fn created_parse_error(detail: Seq<char>, response: Seq<char>) -> Seq<char> {
    "Could not parse response for issue:\n---\n"@ + detail + "\n---\n"@ + response
}

/// The issue a create response reports, needed as the parent of the
/// children and for the progress lines.
pub fn extract_id_from_response(decoded: Result<CreatedIssueResponse, String>, response: &str) -> (r:
    Result<CreatedIssue, String>)
    ensures
        decoded matches Ok(CreatedIssueResponse { data: Some(d) }) ==> r == Ok::<
            CreatedIssue,
            String,
        >(d.issue_create.issue),
        decoded matches Ok(CreatedIssueResponse { data: None }) ==> (r matches Err(e) && e@
            == created_parse_error("no issue in response"@, response@)),
        decoded matches Err(m) ==> (r matches Err(e) && e@ == created_parse_error(m@, response@)),
{
    let detail = match decoded {
        Ok(CreatedIssueResponse { data: Some(d) }) => {
            return Ok(d.issue_create.issue);
        },
        Ok(CreatedIssueResponse { data: None }) => String::from_str("no issue in response"),
        Err(m) => m,
    };
    let mut e = String::from_str("Could not parse response for issue:\n---\n");
    e.append(detail.as_str());
    e.append("\n---\n");
    e.append(response);
    Err(e)
}

/// The progress line for a created issue: indented for a child.
pub open spec fn progress_text(issue: CreatedIssue, child: bool) -> Seq<char> {
    (if child {
        "  - ["@
    } else {
        "- ["@
    }) + issue.id@ + "] "@ + issue.url@
}

/// The progress line printed once an issue has been created.
pub fn progress_line(issue: &CreatedIssue, child: bool) -> (r: String)
    ensures
        r@ == progress_text(*issue, child),
{
    let mut r = if child {
        String::from_str("  - [")
    } else {
        String::from_str("- [")
    };
    r.append(issue.id.as_str());
    r.append("] ");
    r.append(issue.url.as_str());
    r
}

/// The error for a template file that cannot be read as a template.
pub fn unreadable_template(path: &str) -> (r: String)
    ensures
        r@ == "Could not parse template "@ + path@,
{
    let mut r = String::from_str("Could not parse template ");
    r.append(path);
    r
}

/// The marker returned once a run has created all its issues.
pub open spec fn done_marker() -> Seq<char> {
    "Done"@
}

/// A run over the template files of a directory: the files are processed
/// one after another, in order, and the first failure ends the run.
#[derive(Clone, Debug, PartialEq, Eq)]
pub struct TemplateRun {
    /// The template files, in the order they are processed.
    pub files: Vec<String>,
    /// How many files have been processed.
    pub done: usize,
    /// The failure that ended the run, if any.
    pub failure: Option<String>,
}

impl TemplateRun {
    /// The run's counters fit its files.
    pub open spec fn wf(&self) -> bool {
        &&& self.done <= self.files@.len()
        &&& self.failure is Some ==> self.done < self.files@.len()
    }

    /// The file to process next, if the run goes on.
    pub open spec fn pending(&self) -> Option<Seq<char>> {
        if self.failure is None && self.done < self.files@.len() {
            Some(self.files@[self.done as int]@)
        } else {
            None
        }
    }

    /// A run over the template files among the entries of a directory.
    pub fn start(entries: &Vec<(String, String)>) -> (r: TemplateRun)
        ensures
            r.wf(),
            views(r.files@) == template_paths(entries@),
            r.done == 0,
            r.failure is None,
    {
        TemplateRun { files: template_files(entries), done: 0, failure: None }
    }

    /// The file to process next; none once every file is processed or a
    /// file failed.
    pub fn next_file(&self) -> (r: Option<String>)
        requires
            self.wf(),
        ensures
            match self.pending() {
                Some(f) => r matches Some(s) && s@ == f,
                None => r is None,
            },
    {
        if self.failure.is_none() && self.done < self.files.len() {
            Some(self.files[self.done].clone())
        } else {
            None
        }
    }

    /// Records how processing the pending file went.
    pub fn record(&mut self, outcome: Result<String, String>)
        requires
            old(self).wf(),
            old(self).pending() is Some,
        ensures
            final(self).wf(),
            recorded(*old(self), *final(self)),
            outcome is Ok ==> final(self).done == old(self).done + 1 && final(self).failure is None,
            outcome matches Err(e) ==> final(self).done == old(self).done && final(self).failure
                == Some(e),
    {
        match outcome {
            Ok(_) => {
                let count = self.files.len();
                assert(self.done < count);
                self.done = self.done + 1;
            },
            Err(e) => {
                self.failure = Some(e);
            },
        }
    }

    /// How the run ended: the first failure, or the completion marker once
    /// every file is processed; nothing while files remain.
    pub fn result(&self) -> (r: Option<Result<String, String>>)
        requires
            self.wf(),
        ensures
            self.failure matches Some(e) ==> r == Some(Err::<String, String>(e)),
            self.failure is None && self.done == self.files@.len() ==> (r matches Some(Ok(m)) && m@
                == done_marker()),
            self.failure is None && self.done < self.files@.len() ==> r is None,
    {
        match &self.failure {
            Some(e) => Some(Err(e.clone())),
            None => if self.done == self.files.len() {
                Some(Ok(String::from_str("Done")))
            } else {
                None
            },
        }
    }
}

/// One processed file took a run from `before` to `after`: on success the
/// next file is due, on failure the run has stopped.
pub open spec fn recorded(before: TemplateRun, after: TemplateRun) -> bool {
    &&& after.files == before.files
    &&& (after.done == before.done + 1 && after.failure is None) || (after.done == before.done
        && after.failure is Some)
}

proof fn lemma_run_prefix(runs: Seq<TemplateRun>, k: int)
    requires
        0 <= k < runs.len(),
        runs[0].done == 0,
        runs[0].failure is None,
        forall|m: int|
            0 <= m < runs.len() - 1 ==> (#[trigger] runs[m]).pending() is Some && recorded(
                runs[m],
                runs[m + 1],
            ),
    ensures
        runs[k].files == runs[0].files,
        runs[k].failure is None ==> runs[k].done == k,
        runs[k].failure is Some ==> runs[k].done == k - 1,
    decreases k,
{
    if k > 0 {
        lemma_run_prefix(runs, k - 1);
        assert(runs[k - 1].pending() is Some && recorded(runs[k - 1], runs[k]));
    }
}

/// A directory run, as the successive states `runs` of a run started on
/// `entries`, each one recorded after processing the file the previous
/// state handed out: the `k`-th file processed is the `k`-th template
/// file among the entries, no more files are processed than there are
/// template files, and a run that has neither failed nor a file left has
/// processed every template file exactly once.
pub proof fn lemma_run_visits_each_template(entries: Seq<(String, String)>, runs: Seq<TemplateRun>)
    requires
        runs.len() > 0,
        runs[0].wf(),
        views(runs[0].files@) == template_paths(entries),
        runs[0].done == 0,
        runs[0].failure is None,
        forall|m: int|
            0 <= m < runs.len() - 1 ==> (#[trigger] runs[m]).pending() is Some && recorded(
                runs[m],
                runs[m + 1],
            ),
    ensures
        forall|k: int|
            0 <= k < runs.len() - 1 ==> (#[trigger] runs[k]).pending() == Some(
                template_paths(entries)[k],
            ),
        runs.len() - 1 <= template_paths(entries).len(),
        runs.last().failure is None && runs.last().pending() is None ==> runs.len() - 1
            == template_paths(entries).len(),
        runs.last().failure is Some ==> runs.last().pending() is None,
{
    let paths = template_paths(entries);
    let files = runs[0].files@;
    assert(views(files).len() == files.len());
    assert forall|k: int| 0 <= k < runs.len() - 1 implies (#[trigger] runs[k]).pending() == Some(
        paths[k],
    ) by {
        lemma_run_prefix(runs, k);
        assert(views(files)[k] == files[k]@);
    }
    let last = runs.len() - 1;
    lemma_run_prefix(runs, last);
    if last > 0 {
        lemma_run_prefix(runs, last - 1);
        assert(runs[last - 1].pending() is Some);
    }
}

} // verus!

verus! {

/// How many children a template has.
pub open spec fn child_total(t: Template) -> nat {
    match t.children {
        Some(c) => c@.len(),
        None => 0,
    }
}

/// What the next request of a template file is.
#[derive(Clone, Debug, PartialEq, Eq)]
pub enum FileStep {
    /// Create the parent issue.
    Parent,
    /// Create the child at this position, under the parent.
    Child(usize),
    /// Every issue of the file is created.
    Finished,
}

/// The processing of one template file: the parent issue first, then each
/// child under it, in order.
#[derive(Clone, Debug, PartialEq, Eq)]
pub struct FileRun {
    /// The parent issue, once created.
    pub parent: Option<CreatedIssue>,
    /// How many children have been created.
    pub children_done: usize,
}

impl FileRun {
    /// The step that comes next for a file holding `template`.
    pub open spec fn step_of(&self, template: Template) -> FileStep {
        match self.parent {
            None => FileStep::Parent,
            Some(_) => if self.children_done < child_total(template) {
                FileStep::Child(self.children_done)
            } else {
                FileStep::Finished
            },
        }
    }

    /// Nothing created yet.
    pub fn new() -> (r: FileRun)
        ensures
            r.parent is None,
            r.children_done == 0,
    {
        FileRun { parent: None, children_done: 0 }
    }

    /// What comes next.
    pub fn next_step(&self, template: &Template) -> (r: FileStep)
        ensures
            r == self.step_of(*template),
    {
        match &self.parent {
            None => FileStep::Parent,
            Some(_) => {
                let total = match &template.children {
                    Some(c) => c.len(),
                    None => 0,
                };
                if self.children_done < total {
                    FileStep::Child(self.children_done)
                } else {
                    FileStep::Finished
                }
            },
        }
    }

    /// The request for the next issue; none once the file is finished.
    pub fn next_request(&self, config: &Config, token: &str, template: &Template, ctx: &IssueContext) -> (r:
        Result<Option<Gql>, String>)
        ensures
            self.step_of(*template) == FileStep::Finished ==> r == Ok::<Option<Gql>, String>(None),
            self.step_of(*template) == FileStep::Parent ==> (r is Err <==> fill_result(
                template.parent.title@,
                entries_map(template.variables@),
            ) is None || fill_result(
                description_or_empty(template.parent.description),
                entries_map(template.variables@),
            ) is None),
            self.step_of(*template) == FileStep::Parent ==> (r matches Ok(Some(g)) ==> exists|
                t: Seq<char>,
                d: Seq<char>,
            |
                fill_result(template.parent.title@, entries_map(template.variables@)) == Some(t)
                    && fill_result(
                    description_or_empty(template.parent.description),
                    entries_map(template.variables@),
                ) == Some(d) && parent_vars(g.variables@, t, d, *ctx)),
            self.step_of(*template) matches FileStep::Child(i) ==> ({
                let c = template.children->Some_0@[i as int];
                &&& r is Err <==> fill_result(c.title@, entries_map(template.variables@)) is None
                    || fill_result(
                    description_or_empty(c.description),
                    entries_map(template.variables@),
                ) is None
                &&& r matches Ok(Some(g)) ==> exists|t: Seq<char>, d: Seq<char>|
                    fill_result(c.title@, entries_map(template.variables@)) == Some(t)
                        && fill_result(
                        description_or_empty(c.description),
                        entries_map(template.variables@),
                    ) == Some(d) && child_vars(
                        g.variables@,
                        t,
                        d,
                        self.parent->Some_0.id@,
                        *ctx,
                    )
            }),
            self.step_of(*template) != FileStep::Finished ==> !(r matches Ok(None)),
            r matches Ok(Some(g)) ==> g.url@ == base_url(*config) && g.token@ == token@
                && g.query@ == TEMPLATE_CREATE_DOC@,
    {
        match self.next_step(template) {
            FileStep::Parent => {
                let g = parent_request(config, token, template, ctx)?;
                Ok(Some(g))
            },
            FileStep::Child(i) => {
                let parent_id = match &self.parent {
                    Some(p) => p.id.as_str(),
                    None => "",
                };
                let g = child_request(config, token, template, i, parent_id, ctx)?;
                Ok(Some(g))
            },
            FileStep::Finished => Ok(None),
        }
    }

    /// Records the issue the last request created; returns its progress
    /// line, indented for a child.
    pub fn record(&mut self, template: &Template, created: CreatedIssue) -> (r: String)
        requires
            old(self).step_of(*template) != FileStep::Finished,
        ensures
            file_recorded(*old(self), *final(self)),
            old(self).parent is None ==> final(self).parent == Some(created)
                && final(self).children_done == old(self).children_done && r@ == progress_text(
                created,
                false,
            ),
            old(self).parent is Some ==> final(self).parent == old(self).parent
                && final(self).children_done == old(self).children_done + 1 && r@ == progress_text(
                created,
                true,
            ),
    {
        if self.parent.is_none() {
            let line = progress_line(&created, false);
            self.parent = Some(created);
            line
        } else {
            let line = progress_line(&created, true);
            let total = match &template.children {
                Some(c) => c.len(),
                None => 0,
            };
            assert(self.children_done < total);
            self.children_done = self.children_done + 1;
            line
        }
    }
}

} // verus!

verus! {

/// One created issue took a file's processing from `before` to `after`:
/// first the parent is set, then each child is counted.
pub open spec fn file_recorded(before: FileRun, after: FileRun) -> bool {
    &&& before.parent is None ==> after.parent is Some && after.children_done
        == before.children_done
    &&& before.parent is Some ==> after.parent == before.parent && after.children_done
        == before.children_done + 1
}

proof fn lemma_file_prefix(template: Template, runs: Seq<FileRun>, k: int)
    requires
        0 <= k < runs.len(),
        runs[0].parent is None,
        runs[0].children_done == 0,
        forall|m: int|
            0 <= m < runs.len() - 1 ==> (#[trigger] runs[m]).step_of(template) != FileStep::Finished
                && file_recorded(runs[m], runs[m + 1]),
    ensures
        k == 0 ==> runs[k].parent is None && runs[k].children_done == 0,
        k > 0 ==> runs[k].parent is Some && runs[k].children_done == k - 1,
    decreases k,
{
    if k > 0 {
        lemma_file_prefix(template, runs, k - 1);
        assert(file_recorded(runs[k - 1], runs[k]));
    }
}

/// Processing one template file, as the successive states `runs` from a
/// new `FileRun`, each recorded after the issue its predecessor asked for
/// was created: the parent's request comes first, then one request per
/// child in document order, never more than one plus the number of
/// children, and the file is finished exactly when all of them were made.
pub proof fn lemma_file_creates_parent_then_children(template: Template, runs: Seq<FileRun>)
    requires
        runs.len() > 0,
        runs[0].parent is None,
        runs[0].children_done == 0,
        forall|m: int|
            0 <= m < runs.len() - 1 ==> (#[trigger] runs[m]).step_of(template) != FileStep::Finished
                && file_recorded(runs[m], runs[m + 1]),
    ensures
        runs[0].step_of(template) == FileStep::Parent,
        forall|k: int|
            1 <= k < runs.len() - 1 ==> (#[trigger] runs[k]).step_of(template) == FileStep::Child(
                (k - 1) as usize,
            ),
        runs.len() - 1 <= 1 + child_total(template),
        runs.last().step_of(template) == FileStep::Finished <==> runs.len() - 1 == 1 + child_total(
            template,
        ),
{
    assert forall|k: int| 1 <= k < runs.len() - 1 implies (#[trigger] runs[k]).step_of(template)
        == FileStep::Child((k - 1) as usize) by {
        lemma_file_prefix(template, runs, k);
    }
    let last = runs.len() - 1;
    lemma_file_prefix(template, runs, last);
    if last > 0 {
        lemma_file_prefix(template, runs, last - 1);
        assert(runs[last - 1].step_of(template) != FileStep::Finished);
    }
}

} // verus!
