use lnr::config::Config;
use lnr::issue::{
    create, create_request, edit, edit_target, issue_branch_view_response, issue_list_response, list,
    list_filter, selected_issue_id, selection_labels, view, Comment, CommentsConnection, Format,
    Issue, IssueBranchViewData, IssueBranchViewResponse, IssueCreate, IssueCreateData,
    IssueCreateResponse, IssueData, IssueIdViewResponse, IssueListData, IssueListIssues,
    IssueListResponse, IssueUpdate, IssueUpdateData, IssueUpdateResponse, User, ViewReply,
};
use lnr::priority::Priority;
use lnr::request::GqlValue;
use lnr::team::{Project, ProjectNode, State, StateNode, Team};

fn state(name: &str) -> State {
    State { name: name.to_string(), id: "7a890819".to_string(), position: 1 }
}

fn issue(identifier: &str, title: &str, state_name: &str, children: usize) -> Issue {
    let kids = (0..children)
        .map(|k| issue(&format!("C-{k}"), "child", "Todo", 0))
        .collect::<Vec<Issue>>();
    Issue {
        id: format!("id-{identifier}"),
        state: state(state_name),
        identifier: identifier.to_string(),
        url: format!("https://linear.app/vardy/issue/{identifier}/x"),
        title: title.to_string(),
        branch_name: identifier.to_lowercase(),
        description: None,
        children: Some(IssueListIssues { nodes: kids }),
        comments: None,
    }
}

fn comment(body: &str, who: &str, at: &str) -> Comment {
    Comment {
        body: body.to_string(),
        created_at: at.to_string(),
        edited_at: None,
        url: "u".to_string(),
        user: User { display_name: who.to_string() },
        children: None,
    }
}

fn team() -> Team {
    Team {
        name: "Thundercats".to_string(),
        id: "123456".to_string(),
        projects: Some(ProjectNode { nodes: Vec::new() }),
        states: Some(StateNode { nodes: Vec::new() }),
    }
}

#[test]
fn test_create() {
    let mut created = issue("BE-3354", "Test", "Triage", 0);
    created.url = "https://linear.app/vardy/issue/BE-3354/test".to_string();
    let decoded = Ok(IssueCreateResponse {
        data: Some(IssueCreateData { issue_create: IssueCreate { issue: created } }),
    });
    let result = create(decoded, "{}");
    assert_eq!(
        result,
        Ok("https://linear.app/vardy/issue/BE-3354/test".to_string())
    );
}

#[test]
fn test_list() {
    let mut listed = issue("SHO-2148", "Modify schema", "Todo", 0);
    listed.description = Some("* Make item_name_id nullable".to_string());
    let decoded = Ok(IssueListResponse {
        data: Some(IssueListData { issues: IssueListIssues { nodes: vec![listed] } }),
    });
    let result = list(decoded, "{}");
    assert_eq!(
        result,
        Ok("\nIssues\n\n-   SHO-2148 | Modify schema\n             | Todo\n".to_string())
    );
}

#[test]
fn create_request_sets_each_variable() {
    let config = Config::with_path("a.cfg".to_string());
    let g = create_request(
        &config,
        "1234",
        "Test".to_string(),
        "A Description".to_string(),
        team(),
        None,
        state("Thundercats"),
        "456".to_string(),
        Priority::High,
    );
    let keys: Vec<&str> = g.variables.iter().map(|(k, _)| k.as_str()).collect();
    assert_eq!(keys, vec!["title", "assigneeId", "teamId", "stateId", "priority", "description"]);
    assert_eq!(g.variables[4].1, GqlValue::Integer(2));
    assert_eq!(g.variables[0].1, GqlValue::Text("Test".to_string()));
    assert_eq!(g.url, "https://api.linear.app/graphql");
    assert_eq!(g.authorization(), "Bearer 1234");
    let with_project = create_request(
        &config,
        "1234",
        "T".to_string(),
        "D".to_string(),
        team(),
        Some(Project { name: "P".to_string(), id: "p1".to_string() }),
        state("Todo"),
        "456".to_string(),
        Priority::NoPriority,
    );
    assert_eq!(with_project.variables[5], ("projectId".to_string(), GqlValue::Text("p1".to_string())));
}

#[test]
fn create_fails_without_data() {
    let result = create(Ok(IssueCreateResponse { data: None }), "{\"errors\":[]}");
    assert_eq!(
        result,
        Err("Could not parse response for issue:\n---\nno issue in response\n---\n{\"errors\":[]}".to_string())
    );
    let result = create(Err("expected value".to_string()), "oops");
    assert_eq!(
        result,
        Err("Could not parse response for issue:\n---\nexpected value\n---\noops".to_string())
    );
}

#[test]
fn parents_come_first_then_state_names() {
    let issues = vec![
        issue("A-1", "a", "Todo", 0),
        issue("A-2", "b", "In Progress", 2),
        issue("A-3", "c", "Backlog", 0),
        issue("A-4", "d", "Todo", 1),
    ];
    let decoded = Ok(IssueListResponse {
        data: Some(IssueListData { issues: IssueListIssues { nodes: issues } }),
    });
    let sorted = issue_list_response(decoded, "").unwrap();
    let order: Vec<&str> = sorted.iter().map(|i| i.identifier.as_str()).collect();
    assert_eq!(order, vec!["A-2", "A-4", "A-3", "A-1"]);
    assert_eq!(sorted[0].sort(), "0In Progress");
    assert_eq!(sorted[3].sort(), "1Todo");
}

#[test]
fn list_shows_child_count_for_parents() {
    let parent = issue("AB-12", "Epic", "Todo", 3);
    assert!(parent.is_parent());
    assert_eq!(parent.child_count(), 3);
    assert_eq!(
        parent.format(Format::List),
        "-      AB-12 | Epic\n             | Todo | 3 child tickets\n"
    );
    assert_eq!(
        parent.label(),
        "-      AB-12 | Epic\n               | Todo | 3 child tickets\n"
    );
}

#[test]
fn view_lays_out_issue_with_comments_newest_first() {
    let mut shown = issue("BE-1", "Title", "Todo", 0);
    shown.comments = Some(CommentsConnection {
        nodes: vec![comment("first", "ann", "d1"), comment("second", "bob", "d2")],
    });
    let decoded = Ok(IssueBranchViewResponse {
        data: Some(IssueBranchViewData { issue_vcs_branch_search: Some(shown) }),
    });
    let text = view(ViewReply::Branch {
        branch: "be-1".to_string(),
        decoded,
        response: String::new(),
    })
    .unwrap();
    let expected = "Title\nBE-1 | Todo\nhttps://linear.app/vardy/issue/BE-1/x\nbe-1\n\n<No description>\n\n--- COMMENTS ---\n\nsecond\n\n- bob d2\n\n----------------\n\nfirst\n\n- ann d1\n\n----------------";
    assert_eq!(text, expected);
}

#[test]
fn view_without_comments_says_so() {
    let mut shown = issue("BE-2", "T", "Done", 0);
    shown.description = Some("desc".to_string());
    shown.comments = Some(CommentsConnection { nodes: Vec::new() });
    let decoded = Ok(IssueIdViewResponse { data: IssueData { issue: Some(shown) } });
    let text = view(ViewReply::Id { decoded, response: String::new() }).unwrap();
    assert!(text.ends_with("desc\n\n--- COMMENTS ---\n\n<No Comments>"));
    let missing = view(ViewReply::Id {
        decoded: Ok(IssueIdViewResponse { data: IssueData { issue: None } }),
        response: String::new(),
    });
    assert_eq!(missing, Err("Issue not found".to_string()));
}

#[test]
fn branch_not_found_names_branch() {
    let decoded = Ok(IssueBranchViewResponse {
        data: Some(IssueBranchViewData { issue_vcs_branch_search: None }),
    });
    assert_eq!(
        issue_branch_view_response(decoded, "{}", "feature-x"),
        Err("Branch feature-x not found".to_string())
    );
}

#[test]
fn edit_returns_updated_url() {
    let updated = issue("BE-9", "T", "Todo", 0);
    let decoded = Ok(IssueUpdateResponse {
        data: Some(IssueUpdateData { issue_update: IssueUpdate { issue: Some(updated) } }),
    });
    assert_eq!(edit(decoded, ""), Ok("https://linear.app/vardy/issue/BE-9/x".to_string()));
}

#[test]
fn list_filter_excludes_closed_states() {
    let project = Some(Project { name: "P".to_string(), id: "p\"1".to_string() });
    let filter = list_filter(&Some("me".to_string()), &None, &project);
    assert_eq!(
        filter,
        "{\"and\":[{\"project\":{\"id\":{\"eq\":\"p\\\"1\"}}},{\"assignee\":{\"id\":{\"eq\":\"me\"}}},{\"state\":{\"name\":{\"neq\":\"Done\"}}},{\"state\":{\"name\":{\"neq\":\"Backlog\"}}},{\"state\":{\"name\":{\"neq\":\"Triage\"}}},{\"state\":{\"name\":{\"neq\":\"Canceled\"}}},{\"state\":{\"name\":{\"neq\":\"Closed\"}}},{\"state\":{\"name\":{\"neq\":\"Merged to Dev\"}}}]}"
    );
}

#[test]
fn selection_offers_newest_first() {
    let issues = vec![issue("A-1", "a", "Todo", 0), issue("A-2", "b", "Todo", 0)];
    let labels = selection_labels(&issues);
    assert!(labels[0].contains("A-2"));
    assert_eq!(selected_issue_id(&issues, 0), Some("id-A-2".to_string()));
    assert_eq!(selected_issue_id(&issues, 2), None);
}

#[test]
fn edit_starts_only_from_a_found_issue() {
    let mut found = issue("BE-5", "T", "Todo", 0);
    found.description = Some("old text".to_string());
    let decoded = Ok(IssueBranchViewResponse {
        data: Some(IssueBranchViewData { issue_vcs_branch_search: Some(found) }),
    });
    let target = edit_target(decoded, "", "be-5").unwrap();
    assert_eq!(target.id, "id-BE-5");
    assert_eq!(target.description, "old text");
    let missing = Ok(IssueBranchViewResponse {
        data: Some(IssueBranchViewData { issue_vcs_branch_search: None }),
    });
    assert_eq!(edit_target(missing, "", "be-5"), Err("Branch be-5 not found".to_string()));
}

#[test]
fn equal_keys_keep_reply_order() {
    let issues = vec![
        issue("B-1", "first", "Todo", 0),
        issue("B-2", "second", "Backlog", 0),
        issue("B-3", "third", "Todo", 0),
    ];
    let decoded = Ok(IssueListResponse {
        data: Some(IssueListData { issues: IssueListIssues { nodes: issues } }),
    });
    let sorted = issue_list_response(decoded, "").unwrap();
    let order: Vec<&str> = sorted.iter().map(|i| i.identifier.as_str()).collect();
    assert_eq!(order, vec!["B-2", "B-1", "B-3"]);
}

#[test]
fn many_children_are_counted_in_full() {
    let parent = issue("AB-1", "Epic", "Todo", 300);
    assert_eq!(parent.child_count(), 255);
    assert!(parent.format(Format::List).ends_with("| Todo | 300 child tickets\n"));
}
