use lnr::config::Config;
use lnr::request::{get_base_url, spinner_enabled, Gql, GqlValue, HttpReply};

#[test]
fn body_carries_query_and_variables() {
    let config = Config::with_path("a.cfg".to_string());
    let g = Gql::new(&config, "tok", "query { x }")
        .put_string("id", "a\"b".to_string())
        .put_integer("priority", 3)
        .maybe_put_string("projectId", None)
        .put_string("id", "c".to_string());
    assert_eq!(g.variables.len(), 2);
    assert_eq!(g.variables[0], ("id".to_string(), GqlValue::Text("c".to_string())));
    assert_eq!(
        g.body(),
        "{\"query\":\"query { x }\",\"variables\":{\"id\":\"c\",\"priority\":3}}"
    );
    let g = Gql::new(&config, "tok", "q\n").put_string("t", "x\ty".to_string());
    assert_eq!(g.body(), "{\"query\":\"q\\n\",\"variables\":{\"t\":\"x\\ty\"}}");
}

#[test]
fn base_url_follows_override() {
    let mut config = Config::with_path("a.cfg".to_string());
    assert_eq!(get_base_url(&config), "https://api.linear.app/graphql");
    config.mock_url = Some("http://127.0.0.1:1234".to_string());
    assert_eq!(get_base_url(&config), "http://127.0.0.1:1234");
}

#[test]
fn spinner_only_when_enabled() {
    let mut config = Config::with_path("a.cfg".to_string());
    assert!(spinner_enabled(&config, false));
    assert!(!spinner_enabled(&config, true));
    config.spinners = None;
    assert!(!spinner_enabled(&config, false));
}

#[test]
fn reply_outcomes() {
    let config = Config::with_path("a.cfg".to_string());
    let g = Gql::new(&config, "tok", "q");
    assert_eq!(g.outcome(HttpReply::Success(Some("{}".to_string()))), Ok("{}".to_string()));
    assert_eq!(
        g.outcome(HttpReply::NoResponse),
        Err("Did not get response from server".to_string())
    );
    assert_eq!(
        g.outcome(HttpReply::Success(None)),
        Err("Could not read response text".to_string())
    );
    assert_eq!(
        g.outcome(HttpReply::Failure(401, "denied".to_string())),
        Err("\nurl: https://api.linear.app/graphql\n========\nbody: {\"query\":\"q\",\"variables\":{}}\n========\nError: 401 denied".to_string())
    );
}

#[test]
fn control_characters_are_escaped() {
    let config = Config::with_path("a.cfg".to_string());
    let g = Gql::new(&config, "tok", "q").put_string("t", "a\u{1}\u{8}\\/é".to_string());
    assert_eq!(
        g.body(),
        "{\"query\":\"q\",\"variables\":{\"t\":\"a\\u0001\\b\\\\/é\"}}"
    );
}

#[test]
fn body_writes_variables_in_name_order() {
    let config = Config::with_path("a.cfg".to_string());
    let g = Gql::new(&config, "tok", "q")
        .put_string("zeta", "1".to_string())
        .put_integer("alpha", 2)
        .put_json("mid", "{\"a\":1}".to_string());
    assert_eq!(
        g.body(),
        "{\"query\":\"q\",\"variables\":{\"alpha\":2,\"mid\":{\"a\":1},\"zeta\":\"1\"}}"
    );
    assert_eq!(g.variables[0].0, "zeta");
}
