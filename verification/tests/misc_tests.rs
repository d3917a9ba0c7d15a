use station_iapetus::journal::{
    move_journal_selection, Journal, JournalEntryDefinition, JournalEntryDefinitionContainer,
    JournalEntryKind,
};
use station_iapetus::text::{message_with_number, push_decimal, same_text, starts_with};

#[test]
fn decimal_text() {
    let mut s = String::new();
    push_decimal(&mut s, 0);
    assert_eq!(s, "0");
    let mut s = String::from("n=");
    push_decimal(&mut s, 1907);
    assert_eq!(s, "n=1907");
    assert_eq!(message_with_number("a", u64::MAX, "b"), format!("a{}b", u64::MAX));
}

#[test]
fn prefixes_and_equality() {
    assert!(starts_with("ZombieWithGun", "Zombie"));
    assert!(starts_with("Zombie", "Zombie"));
    assert!(!starts_with("Zomb", "Zombie"));
    assert!(!starts_with("Mutant1", "Zombie"));
    assert!(starts_with("x", ""));
    assert!(same_text("Turret", "Turret"));
    assert!(!same_text("Turret", "Turrets"));
    assert!(!same_text("Turret", "Turkey"));
}

#[test]
fn journal_ids_and_entries() {
    assert_eq!(JournalEntryKind::from_id(0), Ok(JournalEntryKind::CurrentSituation));
    assert_eq!(JournalEntryKind::from_id(3), Err("Invalid journal entry kind 3!".to_string()));
    assert_eq!(JournalEntryKind::CurrentSituation.id(), 0);
    let journal = Journal::new();
    assert_eq!(journal.messages, vec![JournalEntryKind::CurrentSituation]);
    assert_eq!(journal.entry(0), Some(JournalEntryKind::CurrentSituation));
    assert_eq!(journal.entry(1), None);
    assert!(Journal::default().messages.is_empty());
}

#[test]
fn journal_definition_lookup() {
    let container = JournalEntryDefinitionContainer {
        entries: vec![
            (
                JournalEntryKind::CurrentSituation,
                JournalEntryDefinition { title: "Situation".to_string(), text: "Lost contact".to_string() },
            ),
            (
                JournalEntryKind::CurrentSituation,
                JournalEntryDefinition { title: "Second".to_string(), text: "ignored".to_string() },
            ),
        ],
    };
    assert!(container.contains(JournalEntryKind::CurrentSituation));
    assert!(!container.has_unique_kinds());
    let single = JournalEntryDefinitionContainer {
        entries: vec![(
            JournalEntryKind::CurrentSituation,
            JournalEntryDefinition { title: "A".to_string(), text: "B".to_string() },
        )],
    };
    assert!(single.has_unique_kinds());
    assert!(!JournalEntryDefinitionContainer { entries: vec![] }.contains(JournalEntryKind::CurrentSituation));
    let d = JournalEntryKind::CurrentSituation.get_definition(&container);
    assert_eq!(d.title, "Situation");
    assert_eq!(d.text, "Lost contact");
}

#[test]
fn journal_selection_moves() {
    assert_eq!(move_journal_selection(None, true), Some(0));
    assert_eq!(move_journal_selection(None, false), Some(0));
    assert_eq!(move_journal_selection(Some(0), true), Some(0));
    assert_eq!(move_journal_selection(Some(3), true), Some(2));
    assert_eq!(move_journal_selection(Some(3), false), Some(4));
    // Down then up comes back.
    let down = move_journal_selection(Some(5), false);
    assert_eq!(move_journal_selection(down, true), Some(5));
}
