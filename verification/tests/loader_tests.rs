use fabric_atelier::error::Error;
use fabric_atelier::loader::{find_first_existing, CandidateDir, PatternLoader, PatternSource};
use std::path::PathBuf;
use std::time::{Duration, SystemTime};

fn candidate(path: &str, exists: bool) -> CandidateDir {
    CandidateDir { path: PathBuf::from(path), location: path.to_string(), exists }
}

fn source(name: &str, system: Result<&str, &str>, user: Option<&str>) -> PatternSource {
    PatternSource {
        name: Some(name.to_string()),
        path: PathBuf::from(format!("patterns/{name}")),
        system: system.map(|s| s.to_string()).map_err(|e| e.to_string()),
        user: user.map(|u| u.to_string()),
        modified: Ok(SystemTime::UNIX_EPOCH + Duration::from_secs(5)),
    }
}

#[test]
fn first_existing_candidate_is_taken() {
    let candidates = vec![
        candidate("data/fabric/data/patterns", false),
        candidate("/home/u/.config/fabric/patterns", true),
        candidate("/later", true),
    ];
    let loader = PatternLoader::new(&candidates).unwrap();
    assert_eq!(loader.patterns_dir(), &PathBuf::from("/home/u/.config/fabric/patterns"));
    assert_eq!(
        PatternLoader::resolve_patterns_dir(&candidates).unwrap(),
        PathBuf::from("/home/u/.config/fabric/patterns")
    );
}

#[test]
fn no_candidate_lists_every_location_tried() {
    let candidates = vec![
        candidate("data/fabric/data/patterns", false),
        candidate("/home/u/.config/fabric/patterns", false),
    ];
    match PatternLoader::new(&candidates) {
        Err(Error::PatternDirectoryNotFound { locations }) => assert_eq!(
            locations,
            vec![
                "data/fabric/data/patterns".to_string(),
                "/home/u/.config/fabric/patterns".to_string()
            ]
        ),
        _ => panic!("expected a missing directory"),
    }
    match PatternLoader::resolve_patterns_dir(&vec![]) {
        Err(Error::PatternDirectoryNotFound { locations }) => assert!(locations.is_empty()),
        _ => panic!("expected a missing directory"),
    }
}

#[test]
fn with_directory_keeps_the_directory() {
    let loader = PatternLoader::with_directory(PathBuf::from("some/dir"));
    assert_eq!(loader.patterns_dir(), &PathBuf::from("some/dir"));
}

#[test]
fn pattern_is_built_from_its_source() {
    let s = source(
        "audit",
        Ok("# IDENTITY\n\nYou audit code for security.\n\n# STEPS\n"),
        Some("Audit: "),
    );
    let pattern = PatternLoader::load_pattern(s).unwrap();
    assert_eq!(pattern.name, "audit");
    assert_eq!(pattern.description, "You audit code for security.");
    assert_eq!(pattern.system_prompt, "# IDENTITY\n\nYou audit code for security.\n\n# STEPS\n");
    assert_eq!(pattern.user_prompt, Some("Audit: ".to_string()));
    assert_eq!(pattern.category, Some("security".to_string()));
    assert_eq!(pattern.tags, vec!["coding".to_string(), "security".to_string()]);
    assert_eq!(pattern.path, PathBuf::from("patterns/audit"));
    assert_eq!(pattern.modified, SystemTime::UNIX_EPOCH + Duration::from_secs(5));
    assert_eq!(pattern.tool_name(), "fabric_audit");
}

#[test]
fn missing_system_prompt_fails_the_pattern() {
    let s = source("broken", Err("No such file"), Some("user"));
    match PatternLoader::load_pattern(s) {
        Err(Error::InvalidPattern { name, reason }) => {
            assert_eq!(name, "broken");
            assert_eq!(reason, "Failed to read system.md: No such file");
        }
        _ => panic!("expected an invalid pattern"),
    }
}

#[test]
fn unusable_name_fails_the_pattern() {
    let mut s = source("x", Ok("text"), None);
    s.name = None;
    match PatternLoader::load_pattern(s) {
        Err(Error::InvalidPattern { name, reason }) => {
            assert_eq!(name, "unknown");
            assert_eq!(reason, "Invalid path");
        }
        _ => panic!("expected an invalid pattern"),
    }
}

#[test]
fn unknown_modification_time_fails_the_pattern() {
    let mut s = source("x", Ok("text"), None);
    s.modified = Err("denied".to_string());
    match PatternLoader::load_pattern(s) {
        Err(Error::Io(why)) => assert_eq!(why, "denied"),
        _ => panic!("expected an input/output failure"),
    }
}

#[test]
fn missing_user_prompt_is_no_failure() {
    let pattern = PatternLoader::load_pattern(source("plain", Ok("Just text"), None)).unwrap();
    assert_eq!(pattern.user_prompt, None);
    assert!(!pattern.has_user_prompt());
    assert_eq!(pattern.description, "Just text");
    assert_eq!(pattern.category, None);
}

#[test]
fn invalid_pattern_is_skipped_not_fatal() {
    let loader = PatternLoader::with_directory(PathBuf::from("patterns"));
    let catalog = loader
        .load_all(Ok(vec![
            source("good", Ok("Summarize things"), None),
            source("bad", Err("No such file or directory"), None),
        ]))
        .unwrap();
    assert_eq!(catalog.len(), 1);
    assert_eq!(catalog[0].name, "good");
}

#[test]
fn load_all_keeps_the_scan_order() {
    let catalog = PatternLoader::collect_patterns(vec![
        source("zeta", Ok("z"), None),
        source("bad", Err("gone"), None),
        source("alpha", Ok("a"), None),
        source("mid", Ok("m"), None),
    ]);
    let names: Vec<&str> = catalog.iter().map(|p| p.name.as_str()).collect();
    assert_eq!(names, vec!["zeta", "alpha", "mid"]);
    assert!(PatternLoader::collect_patterns(vec![]).is_empty());
}

#[test]
fn unreadable_directory_fails_the_run() {
    let loader = PatternLoader::with_directory(PathBuf::from("patterns"));
    match loader.load_all(Err("Permission denied".to_string())) {
        Err(Error::Io(why)) => assert_eq!(why, "Permission denied"),
        _ => panic!("expected an input/output failure"),
    }
}

#[test]
fn empty_system_prompt_fails_the_pattern() {
    let s = PatternSource {
        name: Some("hollow".to_string()),
        path: PathBuf::from("patterns/hollow"),
        system: Ok(String::new()),
        user: Some("user".to_string()),
        modified: Ok(SystemTime::UNIX_EPOCH),
    };
    match PatternLoader::load_pattern(s) {
        Err(Error::InvalidPattern { name, reason }) => {
            assert_eq!(name, "hollow");
            assert_eq!(reason, "system.md is empty");
        }
        _ => panic!("expected an invalid pattern"),
    }
}

#[test]
fn empty_system_prompt_is_checked_before_the_modification_time() {
    let mut s = source("hollow", Ok(""), None);
    s.modified = Err("denied".to_string());
    match PatternLoader::load_pattern(s) {
        Err(Error::InvalidPattern { reason, .. }) => assert_eq!(reason, "system.md is empty"),
        _ => panic!("expected an invalid pattern"),
    }
}

#[test]
fn catalog_has_no_pattern_without_system_prompt() {
    let loader = PatternLoader::with_directory(PathBuf::from("patterns"));
    let catalog = loader
        .load_all(Ok(vec![
            source("e", Ok(""), None),
            source("good", Ok("text"), None),
            source("blank", Ok(" "), None),
        ]))
        .unwrap();
    let names: Vec<&str> = catalog.iter().map(|p| p.name.as_str()).collect();
    assert_eq!(names, vec!["good", "blank"]);
    assert!(catalog.iter().all(|p| !p.system_prompt.is_empty()));
}

#[test]
fn rejection_says_why_a_source_yields_no_pattern() {
    assert!(PatternLoader::rejection(&source("good", Ok("text"), None)).is_none());
    match PatternLoader::rejection(&source("e", Ok(""), None)) {
        Some(e) => assert_eq!(e.message(), "Invalid pattern 'e': system.md is empty"),
        None => panic!("expected a rejection"),
    }
    match PatternLoader::rejection(&source("bad", Err("gone"), None)) {
        Some(e) => {
            assert_eq!(e.message(), "Invalid pattern 'bad': Failed to read system.md: gone")
        }
        None => panic!("expected a rejection"),
    }
    let mut unnamed = source("x", Ok("text"), None);
    unnamed.name = None;
    match PatternLoader::rejection(&unnamed) {
        Some(e) => assert_eq!(e.message(), "Invalid pattern 'unknown': Invalid path"),
        None => panic!("expected a rejection"),
    }
    let mut undated = source("x", Ok("text"), None);
    undated.modified = Err("denied".to_string());
    match PatternLoader::rejection(&undated) {
        Some(Error::Io(why)) => assert_eq!(why, "denied"),
        _ => panic!("expected an input/output failure"),
    }
}

#[test]
fn find_first_existing_gives_the_position() {
    let candidates =
        vec![candidate("a", false), candidate("b", true), candidate("c", true)];
    assert_eq!(find_first_existing(&candidates), Some(1));
    assert_eq!(find_first_existing(&vec![candidate("a", false)]), None);
    assert_eq!(find_first_existing(&vec![]), None);
}
