use vstd::prelude::*;
use crate::text::{decimal, decimal_text};

verus! {

/// Urgency of an issue, as offered to the user.
#[derive(Clone, Copy, Debug, PartialEq, Eq, Structural)]
pub enum Priority {
    NoPriority,
    Urgent,
    High,
    Normal,
    Low,
}

/// The integer the API uses for each priority.
pub open spec fn priority_code(p: Priority) -> u8 {
    match p {
        Priority::NoPriority => 0,
        Priority::Urgent => 1,
        Priority::High => 2,
        Priority::Normal => 3,
        Priority::Low => 4,
    }
}

/// The label under which a priority is shown.
pub open spec fn priority_label(p: Priority) -> Seq<char> {
    match p {
        Priority::NoPriority => "None"@,
        Priority::Urgent => "Urgent"@,
        Priority::High => "High"@,
        Priority::Normal => "Normal"@,
        Priority::Low => "Low"@,
    }
}

/// The choices offered when no priority was given, in display order.
pub open spec fn priority_menu() -> Seq<Priority> {
    seq![Priority::Low, Priority::Normal, Priority::High, Priority::Urgent, Priority::NoPriority]
}

/// The priority chosen by a level on the command line (1 is the lowest).
pub open spec fn priority_of_level(level: u8) -> Option<Priority> {
    if level == 1 {
        Some(Priority::Low)
    } else if level == 2 {
        Some(Priority::Normal)
    } else if level == 3 {
        Some(Priority::High)
    } else if level == 4 {
        Some(Priority::Urgent)
    } else {
        None
    }
}

impl Priority {
    /// Label of the priority, as shown in a selection list.
    pub fn label(&self) -> (r: String)
        ensures
            r@ == priority_label(*self),
    {
        match self {
            Priority::NoPriority => String::from_str("None"),
            Priority::Urgent => String::from_str("Urgent"),
            Priority::Normal => String::from_str("Normal"),
            Priority::Low => String::from_str("Low"),
            Priority::High => String::from_str("High"),
        }
    }
}

/// The integer encoding of a priority sent to the API.
pub fn priority_to_int(priority: &Priority) -> (r: u8)
    ensures
        r == priority_code(*priority),
        r <= 4,
{
    match priority {
        Priority::NoPriority => 0,
        Priority::Urgent => 1,
        Priority::High => 2,
        Priority::Normal => 3,
        Priority::Low => 4,
    }
}

/// All priorities, lowest first and `None` last.
pub fn all_priorities() -> (r: Vec<Priority>)
    ensures
        r@ == priority_menu(),
{
    let r = vec![
        Priority::Low,
        Priority::Normal,
        Priority::High,
        Priority::Urgent,
        Priority::NoPriority,
    ];
    assert(r@ =~= priority_menu());
    r
}

/// Reads a priority level given on the command line: 1 (Low) to 4 (Urgent).
pub fn priority_from_level(level: u8) -> (r: Result<Priority, String>)
    ensures
        priority_of_level(level) matches Some(p) ==> r == Ok::<Priority, String>(p),
        priority_of_level(level) is None <==> r is Err,
        r matches Err(e) ==> e@ == "Priority "@ + decimal(level as nat)
            + " is not valid. Must choose between 1 and 4."@,
{
    if level == 1 {
        Ok(Priority::Low)
    } else if level == 2 {
        Ok(Priority::Normal)
    } else if level == 3 {
        Ok(Priority::High)
    } else if level == 4 {
        Ok(Priority::Urgent)
    } else {
        let mut e = String::from_str("Priority ");
        let n = decimal_text(level as u64);
        e.append(n.as_str());
        e.append(" is not valid. Must choose between 1 and 4.");
        Err(e)
    }
}

} // verus!
