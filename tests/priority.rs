use lnr::priority::{all_priorities, priority_from_level, priority_to_int, Priority};

#[test]
fn priorities_have_api_codes() {
    let codes: Vec<u8> = all_priorities().iter().map(priority_to_int).collect();
    assert_eq!(codes, vec![4, 3, 2, 1, 0]);
    assert_eq!(priority_to_int(&Priority::NoPriority), 0);
    assert_eq!(priority_to_int(&Priority::Urgent), 1);
}

#[test]
fn priority_levels_from_command_line() {
    assert_eq!(priority_from_level(1), Ok(Priority::Low));
    assert_eq!(priority_from_level(2), Ok(Priority::Normal));
    assert_eq!(priority_from_level(3), Ok(Priority::High));
    assert_eq!(priority_from_level(4), Ok(Priority::Urgent));
    assert_eq!(
        priority_from_level(7),
        Err("Priority 7 is not valid. Must choose between 1 and 4.".to_string())
    );
    assert_eq!(Priority::NoPriority.label(), "None");
    assert_eq!(Priority::High.label(), "High");
}
