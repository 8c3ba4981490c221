use rustclipsync::file_transfer::{
    sanitize_filename, should_remove, FilenameError, NameSearch, SaveStep, NAME_ATTEMPTS,
};

/// Runs a search in a directory that holds the given names.
fn name_for(filename: &str, held: &[String]) -> Option<String> {
    name_on(false, filename, held)
}

fn name_on(is_windows: bool, filename: &str, held: &[String]) -> Option<String> {
    let mut search = NameSearch::start(filename, is_windows).unwrap();
    let mut candidate = search.candidate();
    loop {
        match search.answer(held.contains(&candidate)) {
            SaveStep::Check(next) => candidate = next,
            SaveStep::Write(name) => return Some(name),
            SaveStep::NoAvailableName => return None,
        }
    }
}

fn names(held: &[&str]) -> Vec<String> {
    held.iter().map(|name| name.to_string()).collect()
}

#[test]
fn sanitizes_path_to_basename() {
    assert_eq!(sanitize_filename("../secret.txt").unwrap(), "secret.txt");
    assert_eq!(
        sanitize_filename("C:\\temp\\report.pdf").unwrap(),
        "report.pdf"
    );
}

#[test]
fn rejects_empty_filename() {
    assert!(sanitize_filename("../").is_err());
}

#[test]
fn references_to_directories_name_nothing() {
    assert_eq!(sanitize_filename("a/b/.."), Ok("b".to_string()));
    assert_eq!(sanitize_filename("a/./"), Ok("a".to_string()));
    assert_eq!(sanitize_filename("dir\\..\\"), Ok("dir".to_string()));
    assert_eq!(sanitize_filename("..."), Ok("...".to_string()));
    assert_eq!(sanitize_filename(".."), Err(FilenameError::Empty));
    assert_eq!(sanitize_filename("."), Err(FilenameError::Empty));
    assert_eq!(sanitize_filename(""), Err(FilenameError::Empty));
    assert_eq!(sanitize_filename("\\/\\"), Err(FilenameError::Empty));
}

#[test]
fn null_characters_are_invalid() {
    assert_eq!(sanitize_filename("a\0b"), Err(FilenameError::Invalid));
    assert_eq!(sanitize_filename("a\0b/c"), Ok("c".to_string()));
}

#[test]
fn safe_names_are_kept() {
    for name in ["a.txt", ".hidden", "zwölf.md", "with space"] {
        assert_eq!(sanitize_filename(name), Ok(name.to_string()));
        assert_eq!(
            sanitize_filename(&format!("up/and/down\\{name}")),
            Ok(name.to_string())
        );
    }
}

#[test]
fn what_names_nothing_changes_nothing() {
    for input in ["a.txt", "x/a.txt", "a.txt/", "..", "", "a\0b"] {
        for end in ["/", "\\", "/.", "/..", "\\.."] {
            assert_eq!(
                sanitize_filename(&format!("{input}{end}")),
                sanitize_filename(input)
            );
        }
    }
    for input in ["a.txt", "x\\a.txt/..", "a\0b"] {
        assert_eq!(
            sanitize_filename(&format!("C:\\dir/{input}")),
            sanitize_filename(input)
        );
    }
}

#[test]
fn saves_without_overwriting() {
    assert_eq!(
        name_for("a.txt", &names(&["a.txt"])).unwrap(),
        "a (1).txt"
    );
}

#[test]
fn errors_when_no_non_overwriting_name_is_available() {
    let mut held = names(&["a.txt"]);
    for index in 1..1000 {
        held.push(format!("a ({index}).txt"));
    }
    assert!(name_for("a.txt", &held).is_none());
    let _ = held.pop();
    assert_eq!(name_for("a.txt", &held).unwrap(), "a (999).txt");
    assert_eq!(NAME_ATTEMPTS, 1000);
}

#[test]
fn a_free_name_is_used_as_it_is() {
    assert_eq!(name_for("../x/a.txt", &[]).unwrap(), "a.txt");
}

#[test]
fn the_first_free_number_is_used() {
    let held = names(&["a.txt", "a (1).txt", "a (3).txt"]);
    assert_eq!(name_for("a.txt", &held).unwrap(), "a (2).txt");
}

#[test]
fn numbers_stand_before_the_extension() {
    for (name, numbered) in [
        ("archive.tar.gz", "archive.tar (1).gz"),
        ("README", "README (1)"),
        (".hidden", ".hidden (1)"),
        (".hidden.txt", ".hidden (1).txt"),
        ("trailing.", "trailing (1)."),
    ] {
        assert_eq!(name_for(name, &names(&[name])).unwrap(), numbered);
    }
}

#[test]
fn drives_are_not_numbered_on_windows() {
    for (name, numbered) in [
        ("C:a.txt", "a (1).txt"),
        ("z:.hidden", ".hidden (1)"),
        ("C:", "file (1)"),
        ("C:.", "file (1)"),
        ("C:..", "file (1)"),
        ("CC:a.txt", "CC:a (1).txt"),
        ("1:a.txt", "1:a (1).txt"),
        ("a.txt", "a (1).txt"),
    ] {
        assert_eq!(name_on(true, name, &[]).unwrap(), name);
        assert_eq!(name_on(true, name, &names(&[name])).unwrap(), numbered);
    }
    let held = names(&["C:a.txt"]);
    assert_eq!(name_on(false, "C:a.txt", &held).unwrap(), "C:a (1).txt");
}

#[test]
fn refused_names_start_no_search() {
    assert_eq!(
        NameSearch::start("..", false).err(),
        Some(FilenameError::Empty)
    );
    assert_eq!(
        NameSearch::start("a\0", true).err(),
        Some(FilenameError::Invalid)
    );
}

const HOUR: i128 = 3_600_000_000_000;

#[test]
fn cleanup_removes_only_old_regular_files() {
    let now = 1_700_000_000_000_000_000;
    let old_time = now - 25 * HOUR;
    let retention = 24 * HOUR as u128;
    assert!(should_remove(true, Some(old_time), now, retention));
    assert!(!should_remove(true, Some(now), now, retention));
    assert!(!should_remove(false, Some(old_time), now, retention));
}

#[test]
fn cleanup_spares_files_of_unknown_or_future_age() {
    assert!(!should_remove(true, None, 10, 0));
    assert!(!should_remove(true, Some(11), 10, 0));
}

#[test]
fn cleanup_takes_files_past_their_retention_only() {
    assert!(!should_remove(true, Some(0), 100, 100));
    assert!(should_remove(true, Some(0), 101, 100));
    assert!(should_remove(true, Some(-2), -1, 0));
    assert!(should_remove(true, Some(-51), 50, 100));
    assert!(!should_remove(true, Some(-50), 50, 100));
    assert!(!should_remove(true, Some(i128::MIN), i128::MAX, u128::MAX));
    assert!(should_remove(
        true,
        Some(i128::MIN),
        i128::MAX,
        u128::MAX - 1
    ));
}
