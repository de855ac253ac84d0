//! Issues and their comments: how they are shown, how they are ordered,
//! the requests that create, find, list and update them, and how each
//! response is read.
use vstd::prelude::*;
use crate::config::Config;
use crate::priority::{Priority, priority_code, priority_to_int};
use crate::order::{Ranked, rank_class, rank_sorted, sort_by_rank};
use crate::request::{Gql, GqlValue, base_url, json_text, put_var, var_pairs};
use crate::team::{Project, State, Team};
use crate::text::{decimal, joined, lex_le, padded, views};

verus! {

broadcast use vstd::string::group_string_axioms;

/// A comment on an issue, with one level of replies.
#[derive(Debug, PartialEq, Eq)]
pub struct Comment {
    pub body: String,
    pub created_at: String,
    pub edited_at: Option<String>,
    pub url: String,
    pub user: User,
    pub children: Option<CommentsConnection>,
}

/// The comments of an issue, or the replies to a comment.
#[derive(Debug, PartialEq, Eq)]
pub struct CommentsConnection {
    pub nodes: Vec<Comment>,
}

/// The author of a comment.
#[derive(Clone, Debug, PartialEq, Eq)]
pub struct User {
    pub display_name: String,
}

/// An issue as the API returns it.
#[derive(Debug, PartialEq, Eq)]
pub struct Issue {
    pub id: String,
    pub state: State,
    pub identifier: String,
    pub url: String,
    pub title: String,
    pub branch_name: String,
    pub description: Option<String>,
    pub children: Option<IssueListIssues>,
    pub comments: Option<CommentsConnection>,
}

/// A list of issues.
#[derive(Debug, PartialEq, Eq)]
pub struct IssueListIssues {
    pub nodes: Vec<Issue>,
}

/// How an issue is laid out.
#[derive(Clone, Copy, Debug, PartialEq, Eq, Structural)]
pub enum Format {
    /// In full, with description and comments.
    View,
    /// As two lines of a list.
    List,
}

/// The line under each comment.
pub open spec fn comment_divider() -> Seq<char> {
    "----------------"@
}

/// A comment as shown under an issue.
pub open spec fn comment_text(c: Comment) -> Seq<char> {
    "\n"@ + c.body@ + "\n\n- "@ + c.user.display_name@ + " "@ + c.created_at@ + "\n\n"@
        + comment_divider()
}

/// The comments of an issue as shown under it: newest first.
pub open spec fn comments_text(comments: Option<CommentsConnection>) -> Seq<char> {
    match comments {
        None => Seq::empty(),
        Some(conn) => if conn.nodes@.len() == 0 {
            "\n<No Comments>"@
        } else {
            joined(conn.nodes@.map_values(|c: Comment| comment_text(c)).reverse(), "\n"@)
        },
    }
}

/// How many children an issue has.
pub open spec fn children_len(i: Issue) -> nat {
    match i.children {
        None => 0,
        Some(list) => list.nodes@.len(),
    }
}

/// An issue is a parent when it has at least one child.
pub open spec fn is_parent_issue(i: Issue) -> bool {
    children_len(i) > 0
}

/// The child count kept in a byte: at most 255.
pub open spec fn child_count_byte(i: Issue) -> u8 {
    if children_len(i) > 255 {
        255
    } else {
        children_len(i) as u8
    }
}

/// The note on the number of children, shown only for a parent.
pub open spec fn child_note(i: Issue) -> Seq<char> {
    if is_parent_issue(i) {
        " | "@ + decimal(children_len(i)) + " child tickets"@
    } else {
        Seq::empty()
    }
}

/// The description, or a placeholder when there is none.
pub open spec fn description_text(d: Option<String>) -> Seq<char> {
    match d {
        Some(s) => s@,
        None => "<No description>"@,
    }
}

/// An issue laid out in full.
pub open spec fn view_text(i: Issue) -> Seq<char> {
    i.title@ + "\n"@ + i.identifier@ + " | "@ + i.state.name@ + child_note(i) + "\n"@ + i.url@
        + "\n"@ + i.branch_name@ + "\n\n"@ + description_text(i.description) + "\n\n"@
        + "--- COMMENTS ---"@ + "\n"@ + comments_text(i.comments)
}

/// An issue laid out as two lines of a list.
pub open spec fn list_text(i: Issue) -> Seq<char> {
    "- "@ + padded(i.identifier@, 10) + " | "@ + i.title@ + "\n             | "@ + i.state.name@
        + child_note(i) + "\n"@
}

/// An issue as offered in a selection.
pub open spec fn label_text(i: Issue) -> Seq<char> {
    "- "@ + padded(i.identifier@, 10) + " | "@ + i.title@ + "\n               | "@ + i.state.name@
        + child_note(i) + "\n"@
}

/// The key issues are listed by: parents first, then by state name.
pub open spec fn sort_key(i: Issue) -> Seq<char> {
    (if is_parent_issue(i) {
        "0"@
    } else {
        "1"@
    }) + i.state.name@
}

/// The text of a list of issues.
pub open spec fn listing_text(issues: Seq<Issue>) -> Seq<char> {
    "\nIssues\n\n"@ + joined(issues.map_values(|i: Issue| list_text(i)), "\n"@)
}

/// The error for a response that does not hold what was asked for.
pub open spec fn parse_error(detail: Seq<char>, response: Seq<char>) -> Seq<char> {
    "Could not parse response for issue:\n---\n"@ + detail + "\n---\n"@ + response
}

impl Comment {
    /// The comment as shown under an issue.
    pub fn format(&self) -> (r: String)
        ensures
            r@ == comment_text(*self),
    {
        let mut r = String::from_str("\n");
        r.append(self.body.as_str());
        r.append("\n\n- ");
        r.append(self.user.display_name.as_str());
        r.append(" ");
        r.append(self.created_at.as_str());
        r.append("\n\n");
        r.append("----------------");
        r
    }
}

impl Issue {
    /// Number of children, kept in a byte: a count past 255 reads as 255.
    pub fn child_count(&self) -> (r: u8)
        ensures
            r == child_count_byte(*self),
    {
        match &self.children {
            None => 0,
            Some(list) => if list.nodes.len() > 255 {
                255
            } else {
                list.nodes.len() as u8
            },
        }
    }

    /// Whether the issue has children.
    pub fn is_parent(&self) -> (r: bool)
        ensures
            r == is_parent_issue(*self),
    {
        match &self.children {
            None => false,
            Some(list) => list.nodes.len() > 0,
        }
    }

    /// The key the issue is listed by.
    pub fn sort(&self) -> (r: String)
        ensures
            r@ == sort_key(*self),
    {
        let mut r = if self.is_parent() {
            String::from_str("0")
        } else {
            String::from_str("1")
        };
        r.append(self.state.name.as_str());
        r
    }

    fn child_tickets(&self) -> (r: String)
        ensures
            r@ == child_note(*self),
    {
        if self.is_parent() {
            let mut r = String::from_str(" | ");
            let count = match &self.children {
                Some(list) => list.nodes.len(),
                None => 0,
            };
            let n = crate::text::decimal_text(count as u64);
            r.append(n.as_str());
            r.append(" child tickets");
            r
        } else {
            String::new()
        }
    }

    /// The comments as shown under the issue, newest first.
    pub fn render_comments(&self) -> (r: String)
        ensures
            r@ == comments_text(self.comments),
    {
        match &self.comments {
            None => String::new(),
            Some(conn) => {
                if conn.nodes.len() == 0 {
                    return String::from_str("\n<No Comments>");
                }
                let n = conn.nodes.len();
                let mut texts: Vec<String> = Vec::new();
                let mut i: usize = 0;
                while i < n
                    invariant
                        n == conn.nodes@.len(),
                        i <= n,
                        texts@.len() == i,
                        forall|j: int|
                            0 <= j < i ==> #[trigger] texts@[j]@ == comment_text(
                                conn.nodes@[n - 1 - j],
                            ),
                    decreases n - i,
                {
                    texts.push(conn.nodes[n - 1 - i].format());
                    i = i + 1;
                }
                let r = crate::text::join(&texts, "\n");
                assert(views(texts@) =~= conn.nodes@.map_values(|c: Comment| comment_text(c)).reverse());
                r
            },
        }
    }

    /// The issue laid out as asked.
    pub fn format(&self, format: Format) -> (r: String)
        ensures
            format == Format::View ==> r@ == view_text(*self),
            format == Format::List ==> r@ == list_text(*self),
    {
        let tickets = self.child_tickets();
        match format {
            Format::View => {
                let mut r = self.title.clone();
                r.append("\n");
                r.append(self.identifier.as_str());
                r.append(" | ");
                r.append(self.state.name.as_str());
                r.append(tickets.as_str());
                r.append("\n");
                r.append(self.url.as_str());
                r.append("\n");
                r.append(self.branch_name.as_str());
                r.append("\n\n");
                match &self.description {
                    Some(d) => r.append(d.as_str()),
                    None => r.append("<No description>"),
                }
                r.append("\n\n");
                r.append("--- COMMENTS ---");
                r.append("\n");
                let comments = self.render_comments();
                r.append(comments.as_str());
                r
            },
            Format::List => {
                let mut r = String::from_str("- ");
                let id = crate::text::pad_left(self.identifier.as_str(), 10);
                r.append(id.as_str());
                r.append(" | ");
                r.append(self.title.as_str());
                r.append("\n             | ");
                r.append(self.state.name.as_str());
                r.append(tickets.as_str());
                r.append("\n");
                r
            },
        }
    }

    /// The issue as offered in a selection.
    pub fn label(&self) -> (r: String)
        ensures
            r@ == label_text(*self),
    {
        let tickets = self.child_tickets();
        let mut r = String::from_str("- ");
        let id = crate::text::pad_left(self.identifier.as_str(), 10);
        r.append(id.as_str());
        r.append(" | ");
        r.append(self.title.as_str());
        r.append("\n               | ");
        r.append(self.state.name.as_str());
        r.append(tickets.as_str());
        r.append("\n");
        r
    }
}

impl Ranked for Issue {
    open spec fn rank_le(&self, other: &Self) -> bool {
        lex_le(sort_key(*self), sort_key(*other))
    }

    fn ranks_no_later(&self, other: &Self) -> (r: bool) {
        let a = self.sort();
        let b = other.sort();
        crate::text::text_le(a.as_str(), b.as_str())
    }

    proof fn lemma_rank_total(a: &Self, b: &Self) {
        crate::text::lemma_lex_le_total(sort_key(*a), sort_key(*b));
    }

    proof fn lemma_rank_transitive(a: &Self, b: &Self, c: &Self) {
        crate::text::lemma_lex_le_transitive(sort_key(*a), sort_key(*b), sort_key(*c));
    }
}

/// Issues listed by their keys put every parent before every other issue,
/// and within each of the two groups the state names never decrease.
pub proof fn lemma_listing_order(issues: Seq<Issue>, i: int, j: int)
    requires
        rank_sorted(issues),
        0 <= i < j < issues.len(),
    ensures
        is_parent_issue(issues[j]) ==> is_parent_issue(issues[i]),
        is_parent_issue(issues[i]) == is_parent_issue(issues[j]) ==> lex_le(
            issues[i].state.name@,
            issues[j].state.name@,
        ),
{
    let a = issues[i];
    let b = issues[j];
    assert(a.rank_le(&b));
    reveal_strlit("0");
    reveal_strlit("1");
    let ca = if is_parent_issue(a) { '0' } else { '1' };
    let cb = if is_parent_issue(b) { '0' } else { '1' };
    assert(sort_key(a) =~= seq![ca] + a.state.name@);
    assert(sort_key(b) =~= seq![cb] + b.state.name@);
    if ca == cb {
        crate::text::lemma_lex_le_common_head(ca, a.state.name@, b.state.name@);
    }
}

} // verus!

verus! {

pub const ISSUE_CREATE_DOC: &'static str = "mutation (
                    $title: String!
                    $teamId: String!
                    $stateId: String!
                    $priority: Int
                    $assigneeId: String
                    $description: String,
                    $projectId: String
                ) {
                issueCreate(
                    input: {
                        title: $title
                        teamId: $teamId
                        stateId: $stateId
                        priority: $priority
                        assigneeId: $assigneeId
                        description: $description
                        projectId: $projectId
                    }
                ) {
                    issue {
                        id
                        identifier
                        title
                        description
                        url
                        branchName
                        state {
                            id
                            name
                            position
                            }
                        }
                    }
                }
                ";

pub const ISSUE_UPDATE_DOC: &'static str = "mutation (
                    $id: String!
                    $input: IssueUpdateInput!,
                ) {
                issueUpdate(
                    id: $id,
                    input: $input
                ) {
                    issue {
                        id
                        identifier
                        title
                        description
                        url
                        branchName
                        state {
                            id
                            name
                        }
                    }
                    }
                }
                ";

pub const ISSUE_LIST_DOC: &'static str = "query (
                    $filter: IssueFilter,
                ) {
                issues (
                    filter: $filter
                ) {
                        nodes {
                            id
                            identifier
                            title
                            description
                            url
                        branchName
                        children {
                            nodes {
                                id
                                identifier
                                title
                                description
                                url
                                branchName
                                state {
                                    id
                                    name
                                }
                            }
                        }
                        state {
                            id
                            name
                        }
                    }
                  }
                }
                ";

pub const ISSUE_BRANCH_VIEW_DOC: &'static str = "query (
                    $branchName: String!
                ) {
                issueVcsBranchSearch(
                    branchName: $branchName
                )   {
                        id
                        identifier
                        url
                        title
                        branchName
                        description
                        comments {
                            nodes {
                                body
                                createdAt
                                editedAt
                                url
                                user {
                                    displayName
                                }
                                children {
                                    nodes {
                                        body
                                        createdAt
                                        editedAt
                                        url
                                        user {
                                            displayName
                                        }
                                    }
                                }
                            }
                        }
                        state {
                            id
                            name
                            position
                        }
                    }
                }
                ";

pub const ISSUE_ID_VIEW_DOC: &'static str = "query (
                    $id: String!
                ) {
                issue(
                    id: $id
                )   {
                        id
                        identifier
                        url
                        title
                        branchName
                        description
                        comments {
                            nodes {
                                body
                                createdAt
                                editedAt
                                url
                                user {
                                    displayName
                                }
                                children {
                                    nodes {
                                        body
                                        createdAt
                                        editedAt
                                        url
                                        user {
                                            displayName
                                        }
                                    }
                                }
                            }
                        }
                        state {
                            id
                            name
                            position
                        }
                    }
                }
                ";

/// Response to the create mutation: `data.issueCreate.issue`.
#[derive(Debug, PartialEq, Eq)]
pub struct IssueCreateResponse {
    pub data: Option<IssueCreateData>,
}

#[derive(Debug, PartialEq, Eq)]
pub struct IssueCreateData {
    pub issue_create: IssueCreate,
}

#[derive(Debug, PartialEq, Eq)]
pub struct IssueCreate {
    pub issue: Issue,
}

/// Response to the search by branch: `data.issueVcsBranchSearch`.
#[derive(Debug, PartialEq, Eq)]
pub struct IssueBranchViewResponse {
    pub data: Option<IssueBranchViewData>,
}

#[derive(Debug, PartialEq, Eq)]
pub struct IssueBranchViewData {
    pub issue_vcs_branch_search: Option<Issue>,
}

/// Response to the lookup by id: `data.issue`.
#[derive(Debug, PartialEq, Eq)]
pub struct IssueIdViewResponse {
    pub data: IssueData,
}

#[derive(Debug, PartialEq, Eq)]
pub struct IssueData {
    pub issue: Option<Issue>,
}

/// Response to the issue list query: `data.issues.nodes`.
#[derive(Debug, PartialEq, Eq)]
pub struct IssueListResponse {
    pub data: Option<IssueListData>,
}

#[derive(Debug, PartialEq, Eq)]
pub struct IssueListData {
    pub issues: IssueListIssues,
}

/// Response to the update mutation: `data.issueUpdate.issue`.
#[derive(Debug, PartialEq, Eq)]
pub struct IssueUpdateResponse {
    pub data: Option<IssueUpdateData>,
}

#[derive(Debug, PartialEq, Eq)]
pub struct IssueUpdateData {
    pub issue_update: IssueUpdate,
}

#[derive(Debug, PartialEq, Eq)]
pub struct IssueUpdate {
    pub issue: Option<Issue>,
}

/// The detail given when a response decoded but lacks the issue.
pub open spec fn missing_issue() -> Seq<char> {
    "no issue in response"@
}

fn parse_failure(detail: &str, response: &str) -> (r: String)
    ensures
        r@ == parse_error(detail@, response@),
{
    let mut r = String::from_str("Could not parse response for issue:\n---\n");
    r.append(detail);
    r.append("\n---\n");
    r.append(response);
    r
}

/// The issue in a create response.
pub fn issue_create_response(decoded: Result<IssueCreateResponse, String>, response: &str) -> (r:
    Result<Issue, String>)
    ensures
        decoded matches Ok(IssueCreateResponse { data: Some(d) }) ==> r == Ok::<Issue, String>(
            d.issue_create.issue,
        ),
        decoded matches Ok(IssueCreateResponse { data: None }) ==> (r matches Err(e) && e@
            == parse_error(missing_issue(), response@)),
        decoded matches Err(m) ==> (r matches Err(e) && e@ == parse_error(m@, response@)),
{
    match decoded {
        Ok(IssueCreateResponse { data: Some(d) }) => Ok(d.issue_create.issue),
        Ok(IssueCreateResponse { data: None }) => Err(parse_failure("no issue in response", response)),
        Err(m) => Err(parse_failure(m.as_str(), response)),
    }
}

/// The issue found for a branch; an error naming the branch when the
/// search found none.
pub fn issue_branch_view_response(
    decoded: Result<IssueBranchViewResponse, String>,
    response: &str,
    branch: &str,
) -> (r: Result<Issue, String>)
    ensures
        decoded matches Ok(
            IssueBranchViewResponse { data: Some(IssueBranchViewData { issue_vcs_branch_search: Some(i) }) },
        ) ==> r == Ok::<Issue, String>(i),
        decoded matches Ok(
            IssueBranchViewResponse { data: Some(IssueBranchViewData { issue_vcs_branch_search: None }) },
        ) ==> (r matches Err(e) && e@ == "Branch "@ + branch@ + " not found"@),
        decoded matches Ok(IssueBranchViewResponse { data: None }) ==> (r matches Err(e) && e@
            == parse_error(missing_issue(), response@)),
        decoded matches Err(m) ==> (r matches Err(e) && e@ == parse_error(m@, response@)),
{
    match decoded {
        Ok(IssueBranchViewResponse { data: Some(d) }) => match d.issue_vcs_branch_search {
            Some(i) => Ok(i),
            None => {
                let mut e = String::from_str("Branch ");
                e.append(branch);
                e.append(" not found");
                Err(e)
            },
        },
        Ok(IssueBranchViewResponse { data: None }) => Err(
            parse_failure("no issue in response", response),
        ),
        Err(m) => Err(parse_failure(m.as_str(), response)),
    }
}

/// The issue found by id; "Issue not found" when there is none.
pub fn issue_id_view_response(decoded: Result<IssueIdViewResponse, String>, response: &str) -> (r:
    Result<Issue, String>)
    ensures
        decoded matches Ok(IssueIdViewResponse { data: IssueData { issue: Some(i) } }) ==> r == Ok::<
            Issue,
            String,
        >(i),
        decoded matches Ok(IssueIdViewResponse { data: IssueData { issue: None } }) ==> (r matches Err(
            e,
        ) && e@ == "Issue not found"@),
        decoded matches Err(m) ==> (r matches Err(e) && e@ == parse_error(m@, response@)),
{
    match decoded {
        Ok(IssueIdViewResponse { data: IssueData { issue: Some(i) } }) => Ok(i),
        Ok(IssueIdViewResponse { data: IssueData { issue: None } }) => Err(
            String::from_str("Issue not found"),
        ),
        Err(m) => Err(parse_failure(m.as_str(), response)),
    }
}

/// The issues of a list response, parents first and then by state name.
pub fn issue_list_response(decoded: Result<IssueListResponse, String>, response: &str) -> (r:
    Result<Vec<Issue>, String>)
    ensures
        decoded matches Ok(IssueListResponse { data: Some(d) }) ==> (r matches Ok(v)
            && v@.to_multiset() == d.issues.nodes@.to_multiset() && rank_sorted(v@) && forall|
            x: Issue,
        | #[trigger] rank_class(v@, x) == rank_class(d.issues.nodes@, x)),
        decoded matches Ok(IssueListResponse { data: None }) ==> (r matches Err(e) && e@
            == parse_error(missing_issue(), response@)),
        decoded matches Err(m) ==> (r matches Err(e) && e@ == parse_error(m@, response@)),
{
    match decoded {
        Ok(IssueListResponse { data: Some(d) }) => Ok(sort_by_rank(d.issues.nodes)),
        Ok(IssueListResponse { data: None }) => Err(parse_failure("no issue in response", response)),
        Err(m) => Err(parse_failure(m.as_str(), response)),
    }
}

/// The issue in an update response.
pub fn issue_update_response(decoded: Result<IssueUpdateResponse, String>, response: &str) -> (r:
    Result<Issue, String>)
    ensures
        decoded matches Ok(
            IssueUpdateResponse { data: Some(IssueUpdateData { issue_update: IssueUpdate { issue: Some(i) } }) },
        ) ==> r == Ok::<Issue, String>(i),
        decoded matches Ok(
            IssueUpdateResponse { data: Some(IssueUpdateData { issue_update: IssueUpdate { issue: None } }) },
        ) ==> (r matches Err(e) && e@ == parse_error(missing_issue(), response@)),
        decoded matches Ok(IssueUpdateResponse { data: None }) ==> (r matches Err(e) && e@
            == parse_error(missing_issue(), response@)),
        decoded matches Err(m) ==> (r matches Err(e) && e@ == parse_error(m@, response@)),
{
    match decoded {
        Ok(IssueUpdateResponse { data: Some(d) }) => match d.issue_update.issue {
            Some(i) => Ok(i),
            None => Err(parse_failure("no issue in response", response)),
        },
        Ok(IssueUpdateResponse { data: None }) => Err(
            parse_failure("no issue in response", response),
        ),
        Err(m) => Err(parse_failure(m.as_str(), response)),
    }
}

/// The URL of the issue a create response reports.
pub fn create(decoded: Result<IssueCreateResponse, String>, response: &str) -> (r: Result<
    String,
    String,
>)
    ensures
        decoded matches Ok(IssueCreateResponse { data: Some(d) }) ==> (r matches Ok(u) && u
            == d.issue_create.issue.url),
        decoded matches Ok(IssueCreateResponse { data: None }) ==> (r matches Err(e) && e@
            == parse_error(missing_issue(), response@)),
        decoded matches Err(m) ==> (r matches Err(e) && e@ == parse_error(m@, response@)),
{
    let issue = issue_create_response(decoded, response)?;
    Ok(issue.url)
}

/// The URL of the issue an update response reports.
pub fn edit(decoded: Result<IssueUpdateResponse, String>, response: &str) -> (r: Result<
    String,
    String,
>)
    ensures
        decoded matches Ok(
            IssueUpdateResponse { data: Some(IssueUpdateData { issue_update: IssueUpdate { issue: Some(i) } }) },
        ) ==> (r matches Ok(u) && u == i.url),
        decoded matches Ok(
            IssueUpdateResponse { data: Some(IssueUpdateData { issue_update: IssueUpdate { issue: None } }) },
        ) ==> (r matches Err(e) && e@ == parse_error(missing_issue(), response@)),
        decoded matches Ok(IssueUpdateResponse { data: None }) ==> (r matches Err(e) && e@
            == parse_error(missing_issue(), response@)),
        decoded matches Err(m) ==> (r matches Err(e) && e@ == parse_error(m@, response@)),
{
    let issue = issue_update_response(decoded, response)?;
    Ok(issue.url)
}

/// The issues of a list response laid out under a heading, parents first
/// and then by state name.
pub fn list(decoded: Result<IssueListResponse, String>, response: &str) -> (r: Result<
    String,
    String,
>)
    ensures
        decoded matches Ok(IssueListResponse { data: Some(d) }) ==> (r matches Ok(t) && exists|
            v: Seq<Issue>,
        |
            v.to_multiset() == d.issues.nodes@.to_multiset() && rank_sorted(v) && (forall|x: Issue|
                #[trigger] rank_class(v, x) == rank_class(d.issues.nodes@, x)) && t@
                == listing_text(v)),
        decoded matches Ok(IssueListResponse { data: None }) ==> (r matches Err(e) && e@
            == parse_error(missing_issue(), response@)),
        decoded matches Err(m) ==> (r matches Err(e) && e@ == parse_error(m@, response@)),
{
    let issues = issue_list_response(decoded, response)?;
    let r = list_of(&issues);
    assert(r@ == listing_text(issues@));
    Ok(r)
}

/// Issues laid out under a heading, in the order given.
pub fn list_of(issues: &Vec<Issue>) -> (r: String)
    ensures
        r@ == listing_text(issues@),
{
    let mut lines: Vec<String> = Vec::new();
    let mut i: usize = 0;
    while i < issues.len()
        invariant
            i <= issues@.len(),
            lines@.len() == i,
            forall|j: int| 0 <= j < i ==> #[trigger] lines@[j]@ == list_text(issues@[j]),
        decreases issues@.len() - i,
    {
        lines.push(issues[i].format(Format::List));
        i = i + 1;
    }
    let body = crate::text::join(&lines, "\n");
    assert(views(lines@) =~= issues@.map_values(|i: Issue| list_text(i)));
    let mut r = String::from_str("\nIssues\n\n");
    r.append(body.as_str());
    r
}

/// Which response `view` lays out.
#[derive(Debug, PartialEq, Eq)]
pub enum ViewReply {
    /// The response to the search for the issue of a branch.
    Branch { branch: String, decoded: Result<IssueBranchViewResponse, String>, response: String },
    /// The response to the lookup of an issue by id.
    Id { decoded: Result<IssueIdViewResponse, String>, response: String },
}

/// The issue of a view response laid out in full.
pub fn view(reply: ViewReply) -> (r: Result<String, String>)
    ensures
        reply matches ViewReply::Branch { branch, decoded, response } ==> {
            &&& decoded matches Ok(
                IssueBranchViewResponse { data: Some(IssueBranchViewData { issue_vcs_branch_search: Some(i) }) },
            ) ==> (r matches Ok(t) && t@ == view_text(i))
            &&& decoded matches Ok(
                IssueBranchViewResponse { data: Some(IssueBranchViewData { issue_vcs_branch_search: None }) },
            ) ==> (r matches Err(e) && e@ == "Branch "@ + branch@ + " not found"@)
            &&& decoded matches Ok(IssueBranchViewResponse { data: None }) ==> (r matches Err(e)
                && e@ == parse_error(missing_issue(), response@))
            &&& decoded matches Err(m) ==> (r matches Err(e) && e@ == parse_error(m@, response@))
        },
        reply matches ViewReply::Id { decoded, response } ==> {
            &&& decoded matches Ok(IssueIdViewResponse { data: IssueData { issue: Some(i) } }) ==> (r matches Ok(
                t,
            ) && t@ == view_text(i))
            &&& decoded matches Ok(IssueIdViewResponse { data: IssueData { issue: None } }) ==> (r matches Err(
                e,
            ) && e@ == "Issue not found"@)
            &&& decoded matches Err(m) ==> (r matches Err(e) && e@ == parse_error(m@, response@))
        },
{
    let issue = match reply {
        ViewReply::Branch { branch, decoded, response } => issue_branch_view_response(
            decoded,
            response.as_str(),
            branch.as_str(),
        )?,
        ViewReply::Id { decoded, response } => issue_id_view_response(decoded, response.as_str())?,
    };
    Ok(issue.format(Format::View))
}

/// Labels of the issues offered for selection, most recent first: the
/// label at `i` is that of the issue `len - 1 - i`.
pub fn selection_labels(issues: &Vec<Issue>) -> (r: Vec<String>)
    ensures
        r@.len() == issues@.len(),
        forall|i: int|
            0 <= i < r@.len() ==> #[trigger] r@[i]@ == label_text(issues@[issues@.len() - 1 - i]),
{
    let n = issues.len();
    let mut r: Vec<String> = Vec::new();
    let mut i: usize = 0;
    while i < n
        invariant
            n == issues@.len(),
            i <= n,
            r@.len() == i,
            forall|j: int| 0 <= j < i ==> #[trigger] r@[j]@ == label_text(issues@[n - 1 - j]),
        decreases n - i,
    {
        r.push(issues[n - 1 - i].label());
        i = i + 1;
    }
    r
}

/// The id of the issue chosen at `index` among the labels of
/// `selection_labels`.
pub fn selected_issue_id(issues: &Vec<Issue>, index: usize) -> (r: Option<String>)
    ensures
        index < issues@.len() ==> (r matches Some(id) && id == issues@[issues@.len() - 1 - index].id),
        index >= issues@.len() ==> r is None,
{
    if index < issues.len() {
        Some(issues[issues.len() - 1 - index].id.clone())
    } else {
        None
    }
}

} // verus!

verus! {

/// The variables of a create request, in the order they are set.
pub open spec fn create_vars(
    title: String,
    assignee_id: String,
    team_id: String,
    state_id: String,
    priority: u8,
    project: Option<Project>,
    description: String,
) -> Seq<(Seq<char>, GqlValue)> {
    let base = seq![
        ("title"@, GqlValue::Text(title)),
        ("assigneeId"@, GqlValue::Text(assignee_id)),
        ("teamId"@, GqlValue::Text(team_id)),
        ("stateId"@, GqlValue::Text(state_id)),
        ("priority"@, GqlValue::Integer(priority)),
    ];
    let with_project = match project {
        Some(p) => base.push(("projectId"@, GqlValue::Text(p.id))),
        None => base,
    };
    with_project.push(("description"@, GqlValue::Text(description)))
}

/// A filter on the id of a related record, the id written as JSON.
pub open spec fn id_filter_json(field: Seq<char>, id_json: Seq<char>) -> Seq<char> {
    "{\""@ + field + "\":{\"id\":{\"eq\":"@ + id_json + "}}}"@
}

/// A filter on the id of a related record.
pub open spec fn id_filter(field: Seq<char>, id: Seq<char>) -> Seq<char> {
    id_filter_json(field, json_text(id))
}

/// A filter that leaves out a state, its name written as JSON.
pub open spec fn state_filter_json(name_json: Seq<char>) -> Seq<char> {
    "{\"state\":{\"name\":{\"neq\":"@ + name_json + "}}}"@
}

/// A filter that leaves out a state by name.
pub open spec fn state_filter(name: Seq<char>) -> Seq<char> {
    state_filter_json(json_text(name))
}

/// The conjunction of filters.
pub open spec fn all_of_json(filters: Seq<Seq<char>>) -> Seq<char> {
    "{\"and\":["@ + joined(filters, ","@) + "]}"@
}

/// States whose issues are never listed.
pub open spec fn excluded_states() -> Seq<Seq<char>> {
    seq!["Done"@, "Backlog"@, "Triage"@, "Canceled"@, "Closed"@, "Merged to Dev"@]
}

/// The filters of an issue listing: project, assignee and team when
/// given, then one per excluded state.
pub open spec fn list_filters(
    assignee_id: Option<String>,
    team: Option<Team>,
    project: Option<Project>,
) -> Seq<Seq<char>> {
    let p = match project {
        Some(p) => seq![id_filter("project"@, p.id@)],
        None => Seq::empty(),
    };
    let a = match assignee_id {
        Some(a) => seq![id_filter("assignee"@, a@)],
        None => Seq::empty(),
    };
    let t = match team {
        Some(t) => seq![id_filter("team"@, t.id@)],
        None => Seq::empty(),
    };
    p + a + t + excluded_states().map_values(|n: Seq<char>| state_filter(n))
}

/// The filter of an issue listing: all of the filters must hold.
pub open spec fn list_filter_json(
    assignee_id: Option<String>,
    team: Option<Team>,
    project: Option<Project>,
) -> Seq<char> {
    all_of_json(list_filters(assignee_id, team, project))
}

proof fn lemma_var_pairs(vars: Seq<(String, GqlValue)>)
    ensures
        var_pairs(vars).len() == vars.len(),
        forall|i: int|
            0 <= i < vars.len() ==> #[trigger] var_pairs(vars)[i] == (vars[i].0@, vars[i].1),
{
}

proof fn lemma_put_fresh(vars: Seq<(String, GqlValue)>, key: Seq<char>, v: GqlValue)
    requires
        forall|i: int| 0 <= i < var_pairs(vars).len() ==> var_pairs(vars)[i].0 != key,
    ensures
        put_var(vars, key, v) == var_pairs(vars).push((key, v)),
{
    lemma_var_pairs(vars);
    assert forall|i: int| 0 <= i < vars.len() implies vars[i].0@ != key by {
        assert(var_pairs(vars)[i].0 == vars[i].0@);
    }
}

/// The request that creates an issue.
pub fn create_request(
    config: &Config,
    token: &str,
    title: String,
    description: String,
    team: Team,
    project: Option<Project>,
    state: State,
    assignee_id: String,
    priority: Priority,
) -> (r: Gql)
    ensures
        r.wf(),
        r.url@ == base_url(*config),
        r.token@ == token@,
        r.query@ == ISSUE_CREATE_DOC@,
        var_pairs(r.variables@) == create_vars(
            title,
            assignee_id,
            team.id,
            state.id,
            priority_code(priority),
            project,
            description,
        ),
{
    proof {
        reveal_strlit("title");
        reveal_strlit("assigneeId");
        reveal_strlit("teamId");
        reveal_strlit("stateId");
        reveal_strlit("projectId");
        reveal_strlit("description");
        assert("title"@.len() == 5);
        assert("assigneeId"@.len() == 10);
        assert("teamId"@.len() == 6);
        assert("stateId"@.len() == 7);
        assert("projectId"@.len() == 9);
        assert("description"@.len() == 11);
        reveal_strlit("priority");
        assert("priority"@.len() == 8);
    }
    let ghost (t, a, ti, si, pr, d) = (title, assignee_id, team.id, state.id, project, description);
    let g0 = Gql::new(config, token, ISSUE_CREATE_DOC);
    assert(var_pairs(g0.variables@) =~= Seq::empty());
    let g1 = g0.put_string("title", title);
    proof { lemma_put_fresh(g0.variables@, "title"@, GqlValue::Text(t)); }
    let ghost v1 = seq![("title"@, GqlValue::Text(t))];
    assert(var_pairs(g1.variables@) =~= v1);
    let g2 = g1.put_string("assigneeId", assignee_id);
    proof { lemma_put_fresh(g1.variables@, "assigneeId"@, GqlValue::Text(a)); }
    let ghost v2 = v1.push(("assigneeId"@, GqlValue::Text(a)));
    assert(var_pairs(g2.variables@) =~= v2);
    let g3 = g2.put_string("teamId", team.id);
    proof {
        assert(v2[0].0 != "teamId"@ && v2[1].0 != "teamId"@);
        lemma_put_fresh(g2.variables@, "teamId"@, GqlValue::Text(ti));
    }
    let ghost v3 = v2.push(("teamId"@, GqlValue::Text(ti)));
    assert(var_pairs(g3.variables@) =~= v3);
    let g3b = g3.put_string("stateId", state.id);
    proof {
        assert(v3[0].0 != "stateId"@ && v3[1].0 != "stateId"@ && v3[2].0 != "stateId"@);
        lemma_put_fresh(g3.variables@, "stateId"@, GqlValue::Text(si));
    }
    let ghost v3b = v3.push(("stateId"@, GqlValue::Text(si)));
    assert(var_pairs(g3b.variables@) =~= v3b);
    let code = priority_to_int(&priority);
    let g4 = g3b.put_integer("priority", code);
    proof {
        assert(v3b[0].0 != "priority"@ && v3b[1].0 != "priority"@ && v3b[2].0 != "priority"@
            && v3b[3].0 != "priority"@);
        lemma_put_fresh(g3b.variables@, "priority"@, GqlValue::Integer(code));
    }
    let ghost v4 = v3b.push(("priority"@, GqlValue::Integer(code)));
    assert(var_pairs(g4.variables@) =~= v4);
    let project_id = match project {
        Some(p) => Some(p.id),
        None => None,
    };
    let g5 = g4.maybe_put_string("projectId", project_id);
    let ghost v5 = match pr {
        Some(p) => v4.push(("projectId"@, GqlValue::Text(p.id))),
        None => v4,
    };
    proof {
        assert(v4[0].0 != "projectId"@ && v4[1].0 != "projectId"@ && v4[2].0 != "projectId"@
            && v4[3].0 != "projectId"@ && v4[4].0 != "projectId"@);
        if let Some(p) = pr {
            lemma_put_fresh(g4.variables@, "projectId"@, GqlValue::Text(p.id));
        }
        assert(var_pairs(g5.variables@) =~= v5);
        assert forall|i: int| 0 <= i < v5.len() implies v5[i].0 != "description"@ by {}
    }
    let g6 = g5.put_string("description", description);
    proof {
        lemma_put_fresh(g5.variables@, "description"@, GqlValue::Text(d));
        assert(var_pairs(g6.variables@) =~= create_vars(t, a, ti, si, code, pr, d));
    }
    g6
}

/// A filter on the id of a related record, the id given as JSON text.
pub fn id_filter_text(field: &str, id_json: &str) -> (r: String)
    ensures
        r@ == id_filter_json(field@, id_json@),
{
    let mut r = String::from_str("{\"");
    r.append(field);
    r.append("\":{\"id\":{\"eq\":");
    r.append(id_json);
    r.append("}}}");
    r
}

/// A filter that leaves out a state, its name given as JSON text.
pub fn state_filter_text(name_json: &str) -> (r: String)
    ensures
        r@ == state_filter_json(name_json@),
{
    let mut r = String::from_str("{\"state\":{\"name\":{\"neq\":");
    r.append(name_json);
    r.append("}}}");
    r
}

/// The conjunction of the filters, as JSON text.
pub fn all_of(filters: &Vec<String>) -> (r: String)
    ensures
        r@ == all_of_json(views(filters@)),
{
    let inner = crate::text::join(filters, ",");
    let mut r = String::from_str("{\"and\":[");
    r.append(inner.as_str());
    r.append("]}");
    r
}

/// The filter of an issue listing, as JSON text.
pub fn list_filter(assignee_id: &Option<String>, team: &Option<Team>, project: &Option<Project>) -> (r:
    String)
    ensures
        r@ == list_filter_json(*assignee_id, *team, *project),
{
    let mut filters: Vec<String> = Vec::new();
    if let Some(p) = project {
        filters.push(id_filter_text("project", crate::request::json_string(p.id.as_str()).as_str()));
    }
    if let Some(a) = assignee_id {
        filters.push(id_filter_text("assignee", crate::request::json_string(a.as_str()).as_str()));
    }
    if let Some(t) = team {
        filters.push(id_filter_text("team", crate::request::json_string(t.id.as_str()).as_str()));
    }
    let ghost given = views(filters@);
    filters.push(state_filter_text(crate::request::json_string("Done").as_str()));
    filters.push(state_filter_text(crate::request::json_string("Backlog").as_str()));
    filters.push(state_filter_text(crate::request::json_string("Triage").as_str()));
    filters.push(state_filter_text(crate::request::json_string("Canceled").as_str()));
    filters.push(state_filter_text(crate::request::json_string("Closed").as_str()));
    filters.push(state_filter_text(crate::request::json_string("Merged to Dev").as_str()));
    proof {
        let fs = list_filters(*assignee_id, *team, *project);
        assert(excluded_states().map_values(|n: Seq<char>| state_filter(n)) =~= seq![
            state_filter("Done"@),
            state_filter("Backlog"@),
            state_filter("Triage"@),
            state_filter("Canceled"@),
            state_filter("Closed"@),
            state_filter("Merged to Dev"@),
        ]);
        assert(views(filters@) =~= fs);
    }
    all_of(&filters)
}

/// The request that lists open issues, narrowed to the given assignee,
/// team and project.
pub fn list_request(
    config: &Config,
    token: &str,
    assignee_id: Option<String>,
    team: Option<Team>,
    project: Option<Project>,
) -> (r: Gql)
    ensures
        r.wf(),
        r.url@ == base_url(*config),
        r.token@ == token@,
        r.query@ == ISSUE_LIST_DOC@,
        r.variables@.len() == 1,
        r.variables@[0].0@ == "filter"@,
        r.variables@[0].1 matches GqlValue::Json(f) && f@ == list_filter_json(
            assignee_id,
            team,
            project,
        ),
{
    let filter = list_filter(&assignee_id, &team, &project);
    let g = Gql::new(config, token, ISSUE_LIST_DOC);
    let ghost f = filter;
    let r = g.put_json("filter", filter);
    assert(var_pairs(r.variables@) =~= seq![("filter"@, GqlValue::Json(f))]);
    proof {
        lemma_var_pairs(r.variables@);
        assert(var_pairs(r.variables@)[0] == (r.variables@[0].0@, r.variables@[0].1));
    }
    r
}

/// The request that finds the issue of a branch.
pub fn branch_view_request(config: &Config, token: &str, branch: &str) -> (r: Gql)
    ensures
        r.wf(),
        r.url@ == base_url(*config),
        r.token@ == token@,
        r.query@ == ISSUE_BRANCH_VIEW_DOC@,
        r.variables@.len() == 1,
        r.variables@[0].0@ == "branchName"@,
        r.variables@[0].1 matches GqlValue::Text(b) && b@ == branch@,
{
    let g = Gql::new(config, token, ISSUE_BRANCH_VIEW_DOC);
    let b = String::from_str(branch);
    let ghost bv = b;
    let r = g.put_string("branchName", b);
    assert(var_pairs(r.variables@) =~= seq![("branchName"@, GqlValue::Text(bv))]);
    proof {
        lemma_var_pairs(r.variables@);
        assert(var_pairs(r.variables@)[0] == (r.variables@[0].0@, r.variables@[0].1));
    }
    r
}

/// The request that looks an issue up by id.
pub fn id_view_request(config: &Config, token: &str, id: String) -> (r: Gql)
    ensures
        r.wf(),
        r.url@ == base_url(*config),
        r.token@ == token@,
        r.query@ == ISSUE_ID_VIEW_DOC@,
        var_pairs(r.variables@) == seq![("id"@, GqlValue::Text(id))],
{
    let g = Gql::new(config, token, ISSUE_ID_VIEW_DOC);
    let ghost i = id;
    let r = g.put_string("id", id);
    assert(var_pairs(r.variables@) =~= seq![("id"@, GqlValue::Text(i))]);
    r
}

/// The request that replaces the description of an issue.
pub fn update_request(config: &Config, token: &str, id: String, description: &str) -> (r: Gql)
    ensures
        r.wf(),
        r.url@ == base_url(*config),
        r.token@ == token@,
        r.query@ == ISSUE_UPDATE_DOC@,
        r.variables@.len() == 2,
        r.variables@[0].0@ == "id"@,
        r.variables@[0].1 == GqlValue::Text(id),
        r.variables@[1].0@ == "input"@,
        r.variables@[1].1 matches GqlValue::Json(j) && j@ == "{\"description\":"@ + json_text(
            description@,
        ) + "}"@,
{
    proof {
        reveal_strlit("id");
        reveal_strlit("input");
        assert("id"@.len() == 2);
        assert("input"@.len() == 5);
    }
    let mut input = String::from_str("{\"description\":");
    let quoted = crate::request::json_string(description);
    input.append(quoted.as_str());
    input.append("}");
    let ghost (i, j) = (id, input);
    let g0 = Gql::new(config, token, ISSUE_UPDATE_DOC);
    assert(var_pairs(g0.variables@) =~= Seq::empty());
    let g1 = g0.put_string("id", id);
    proof { lemma_put_fresh(g0.variables@, "id"@, GqlValue::Text(i)); }
    assert(var_pairs(g1.variables@) =~= seq![("id"@, GqlValue::Text(i))]);
    let g2 = g1.put_json("input", input);
    proof {
        lemma_put_fresh(g1.variables@, "input"@, GqlValue::Json(j));
        lemma_var_pairs(g2.variables@);
        assert(var_pairs(g2.variables@)[0] == (g2.variables@[0].0@, g2.variables@[0].1));
        assert(var_pairs(g2.variables@)[1] == (g2.variables@[1].0@, g2.variables@[1].1));
    }
    g2
}

} // verus!

verus! {

/// What editing the issue of a branch starts from.
#[derive(Clone, Debug, PartialEq, Eq)]
pub struct EditTarget {
    /// The issue's id, for the update.
    pub id: String,
    /// The current description, offered in the editor; empty when none.
    pub description: String,
}

/// The issue to edit, from the response to the search for a branch's
/// issue. Only a found issue gives a target: otherwise the edit stops
/// here, before the editor opens or any update is sent.
pub fn edit_target(
    decoded: Result<IssueBranchViewResponse, String>,
    response: &str,
    branch: &str,
) -> (r: Result<EditTarget, String>)
    ensures
        decoded matches Ok(
            IssueBranchViewResponse { data: Some(IssueBranchViewData { issue_vcs_branch_search: Some(i) }) },
        ) ==> (r matches Ok(t) && t.id == i.id && t.description@ == match i.description {
            Some(d) => d@,
            None => Seq::<char>::empty(),
        }),
        decoded matches Ok(
            IssueBranchViewResponse { data: Some(IssueBranchViewData { issue_vcs_branch_search: None }) },
        ) ==> (r matches Err(e) && e@ == "Branch "@ + branch@ + " not found"@),
        decoded matches Ok(IssueBranchViewResponse { data: None }) ==> (r matches Err(e) && e@
            == parse_error(missing_issue(), response@)),
        decoded matches Err(m) ==> (r matches Err(e) && e@ == parse_error(m@, response@)),
{
    let issue = issue_branch_view_response(decoded, response, branch)?;
    let description = match issue.description {
        Some(d) => d,
        None => String::new(),
    };
    Ok(EditTarget { id: issue.id, description })
}

} // verus!
