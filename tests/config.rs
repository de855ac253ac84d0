use lnr::config::{config_file_path, config_path, generate_path, Config, TokenChoice};

fn config_at(path: &str) -> Config {
    Config::with_path(path.to_string())
}

#[test]
fn new_should_generate_config() {
    let config = Config::new().unwrap();
    assert_eq!(config.organizations, Vec::new());
}

#[test]
fn add_organization_should_work() {
    let mut config = config_at("tests/scratch.testcfg");
    let mut organizations: Vec<(String, String)> = Vec::new();
    assert_eq!(
        config,
        Config {
            path: config.path.clone(),
            organizations: organizations.clone(),
            spinners: Some(true),
            mock_url: None,
            mock_string: None,
            mock_select: None,
        }
    );
    config.add_organization(String::from("test"), "sometoken".to_string());
    organizations.push((String::from("test"), "sometoken".to_string()));
    assert_eq!(
        config,
        Config {
            path: config.path.clone(),
            spinners: Some(true),
            organizations,
            mock_url: None,
            mock_string: None,
            mock_select: None,
        }
    );
}

#[test]
fn remove_project_should_work() {
    let organizations = vec![
        (String::from("test"), "token1".to_string()),
        (String::from("test2"), "token2".to_string()),
    ];
    let mut config_with_two_projects =
        Config::from_entries(&organizations, generate_path().unwrap(), None, None, None, Some(true));

    assert_eq!(
        config_with_two_projects,
        Config {
            path: config_with_two_projects.path.clone(),
            spinners: Some(true),
            organizations: organizations.clone(),
            mock_url: None,
            mock_string: None,
            mock_select: None,
        }
    );
    config_with_two_projects.remove_organization(&String::from("test"));
    let organizations = vec![(String::from("test2"), "token2".to_string())];
    assert_eq!(
        config_with_two_projects,
        Config {
            path: config_with_two_projects.path.clone(),
            organizations,
            spinners: Some(true),
            mock_url: None,
            mock_string: None,
            mock_select: None,
        }
    );
}

#[test]
fn add_organization_twice_changes_nothing() {
    let mut once = config_at("a.cfg");
    once.add_organization("acme".to_string(), "t1".to_string());
    let mut twice = once.clone();
    twice.add_organization("acme".to_string(), "t1".to_string());
    assert_eq!(once, twice);
    assert_eq!(twice.organization_names(), vec!["acme".to_string()]);
}

#[test]
fn add_organization_replaces_token() {
    let mut config = config_at("a.cfg");
    config.add_organization("acme".to_string(), "t1".to_string());
    config.add_organization("acme".to_string(), "t2".to_string());
    assert_eq!(config.token(&"acme".to_string()), Ok("t2".to_string()));
    assert_eq!(config.organization_names().len(), 1);
}

#[test]
fn removed_organization_is_not_listed() {
    let mut config = config_at("a.cfg");
    config.add_organization("a".to_string(), "1".to_string());
    config.add_organization("b".to_string(), "2".to_string());
    config.remove_organization(&"a".to_string());
    assert!(!config.organization_names().contains(&"a".to_string()));
    config.remove_organization(&"zzz".to_string());
    assert!(!config.organization_names().contains(&"zzz".to_string()));
    assert_eq!(config.organization_names(), vec!["b".to_string()]);
}

#[test]
fn token_of_missing_organization_fails() {
    let config = config_at("a.cfg");
    assert_eq!(
        config.token(&"nope".to_string()),
        Err("Organization not found".to_string())
    );
}

#[test]
fn later_entry_wins_when_loading_entries() {
    let entries = vec![
        ("a".to_string(), "1".to_string()),
        ("a".to_string(), "2".to_string()),
    ];
    let config = Config::from_entries(&entries, "p".to_string(), None, None, None, None);
    assert_eq!(config.token(&"a".to_string()), Ok("2".to_string()));
    assert_eq!(config.organization_entries(), vec![("a".to_string(), "2".to_string())]);
}

#[test]
fn organizations_text_lists_each_entry() {
    let mut config = config_at("a.cfg");
    assert_eq!(config.organizations_text(), "No organizations in config");
    config.add_organization("a".to_string(), "1".to_string());
    config.add_organization("b".to_string(), "2".to_string());
    assert_eq!(config.organizations_text(), "Organizations\n\n- a: 1\n- b: 2");
}

#[test]
fn config_path_trims_given_path() {
    assert_eq!(config_path(&Some("  /tmp/x.cfg \n".to_string())), Ok("/tmp/x.cfg".to_string()));
    assert_eq!(config_file_path("/home/u/.config"), "/home/u/.config/lnr.cfg");
}

#[test]
fn entries_rebuild_the_same_organizations() {
    let mut config = config_at("a.cfg");
    config.add_organization("x".to_string(), "1".to_string());
    config.add_organization("y".to_string(), "2".to_string());
    let listed = config.organization_entries();
    let rebuilt = Config::from_entries(&listed, config.path.clone(), None, None, None, Some(true));
    assert_eq!(rebuilt, config);
}

#[test]
fn token_choice_follows_organizations() {
    let mut config = config_at("a.cfg");
    assert_eq!(
        config.fetch_token(&None),
        Err("Add an organization with org add".to_string())
    );
    config.add_organization("zeta".to_string(), "tz".to_string());
    assert_eq!(config.fetch_token(&None), Ok(TokenChoice::Token("tz".to_string())));
    config.add_organization("alpha".to_string(), "ta".to_string());
    assert_eq!(
        config.fetch_token(&None),
        Ok(TokenChoice::Choose(vec!["alpha".to_string(), "zeta".to_string()]))
    );
    assert_eq!(
        config.fetch_token(&Some("zeta".to_string())),
        Ok(TokenChoice::Token("tz".to_string()))
    );
    assert_eq!(
        config.fetch_token(&Some("nope".to_string())),
        Err("Organization not found".to_string())
    );
}

#[test]
fn config_path_trims_unicode_spaces() {
    assert_eq!(config_path(&Some("\u{3000}\tp.cfg\u{a0}".to_string())), Ok("p.cfg".to_string()));
}
