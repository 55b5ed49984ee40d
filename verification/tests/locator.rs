use timesnapper_checker::error::ScanError;
use timesnapper_checker::listing::DirectoryEntry;
use timesnapper_checker::locator::find_directory;
use timesnapper_checker::tray::SystemTray;

fn directory(name: &str) -> DirectoryEntry {
    DirectoryEntry { name: Some(name.to_string()), path: format!("/snaps/{}", name), size: None }
}

#[test]
fn finds_the_directory_of_the_day() {
    let entries = vec![directory("2024-01-01"), directory("2024-01-02")];
    let found = find_directory(&entries, "2024-01-02");
    assert_eq!(found, Ok(&entries[1]));
    assert_eq!(found.unwrap().path, "/snaps/2024-01-02");
}

#[test]
fn finds_the_first_of_the_listing() {
    let entries = vec![directory("2024-01-01"), directory("2024-01-02")];
    assert_eq!(find_directory(&entries, "2024-01-01"), Ok(&entries[0]));
}

#[test]
fn no_match_is_not_found() {
    let entries = vec![directory("2024-01-01"), directory("2024-01-02")];
    assert_eq!(find_directory(&entries, "2024-01-03"), Err(ScanError::DirectoryNotFound));
    assert_eq!(find_directory(&vec![], "2024-01-03"), Err(ScanError::DirectoryNotFound));
}

#[test]
fn two_matches_are_not_found() {
    let entries = vec![directory("2024-01-02"), directory("2024-01-01"), directory("2024-01-02")];
    assert_eq!(find_directory(&entries, "2024-01-02"), Err(ScanError::DirectoryNotFound));
    assert_eq!(find_directory(&entries, "2024-01-01"), Ok(&entries[1]));
}

#[test]
fn the_whole_name_must_match() {
    let entries = vec![directory("2024-01-02-old"), directory("x2024-01-02"), directory("2024-01-0")];
    assert_eq!(find_directory(&entries, "2024-01-02"), Err(ScanError::DirectoryNotFound));
}

#[test]
fn an_unreadable_name_matches_nothing() {
    let entries = vec![
        DirectoryEntry { name: None, path: "/snaps/?".to_string(), size: None },
        directory("2024-01-02"),
    ];
    assert_eq!(find_directory(&entries, "2024-01-02"), Ok(&entries[1]));
    assert_eq!(find_directory(&entries, ""), Err(ScanError::DirectoryNotFound));
}

#[test]
fn todays_directory_is_found_by_the_clock() {
    let today = chrono::Utc::now().format("%Y-%m-%d").to_string();
    let entries = vec![directory("1999-12-31"), directory(&today)];
    let found = SystemTray::new().get_todays_directory_path(&entries);
    // the date may change between the two readings of the clock
    if chrono::Utc::now().format("%Y-%m-%d").to_string() == today {
        assert_eq!(found, Ok(&entries[1]));
    }
}

#[test]
fn todays_directory_is_missing() {
    let entries = vec![directory("1999-12-31"), directory("not a date")];
    assert_eq!(
        SystemTray::new().get_todays_directory_path(&entries),
        Err(ScanError::DirectoryNotFound)
    );
}
