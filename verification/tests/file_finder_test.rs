//! The candidate search, on the report of a walk over a small project tree.

use hackscanner_lib::file_finder::fts::{
    check_native_string,
    collect_dir_entries,
    find_nul,
    FtsEntry,
    FTS_F,
};
use hackscanner_lib::file_finder::ftw::{
    clear_entries,
    collect_dir_entries_ftw,
    collect_dir_entries_nftw,
    ftw_collector,
    nftw_collector,
};
use hackscanner_lib::file_finder::{filter_entries, find_files, prefilter, FileFinderTrait};
use hackscanner_lib::fs::constants::{FTW_D, FTW_DNR, FTW_DP, FTW_F, FTW_NS, FTW_SL, FTW_SLN};
use hackscanner_lib::fs::{FileTypeTrait, StandaloneFileType};
use hackscanner_lib::classifier::ContentClassificationError;
use hackscanner_lib::rule::reader::RuleFileContent;
use hackscanner_lib::{
    get_builtin_rules,
    get_merged_rules,
    needs_content,
    rate_entries,
    DirEntryTrait,
    ErrorKind,
    Rating,
    RawPath,
    RawRule,
    Rule,
    Severity,
    StandaloneDirEntry,
    ValidationDirEntry,
    WalkdirDirEntry,
};

const PROJECT_DIR: &str = "/home/scanner/project";

/// The regular files below `tests`, relative to the project directory.
fn files() -> Vec<&'static str> {
    vec![
        "/tests/file_finder_test.rs",
        "/tests/fts_test.rs",
        "/tests/ftw_test.rs",
        "/tests/run_test.rs",
        "/tests/test_helpers.rs",
        "/tests/walkdir_test.rs",
        "/tests/resources/rules/rules.json",
        "/tests/resources/rules/rules.yaml",
        "/tests/resources/files/dezmond.php",
        "/tests/resources/files/eval-in-file.php",
        "/tests/resources/files/multiple_violations.php",
        "/tests/resources/files/something.tx_mocfilemanager.php",
        "/tests/resources/files/tx_mocfilemanager-test.sh",
        "/tests/resources/files/tx_mocfilemanager.php",
        "/tests/resources/files/whitelist_me.php",
        "/tests/resources/files/typo3/fileadmin/user_upload/some_file.php",
        "/tests/resources/files/typo3/typo3/sysext/impexp/Tests/Functional/ImportFromVersionFourDotFive/PagesAndTtContentUploads/ImportInEmptyDatabaseTest.php",
        "/tests/resources/files/typo3/typo3conf/bad.php",
        "/tests/resources/files/typo3/typo3conf/ext/static_info_tables/Classes/static_info_tables.php",
        "/tests/resources/files/typo3/typo3conf/l10n/someext/some_file.php",
        "/tests/resources/files/typo3/typo3temp/Cache/allowed_file.php",
        "/tests/resources/files/typo3/typo3temp/ExtensionManager/UpdateScripts/ext_update36596ab430661a78499d678a5bb65a9c.php",
        "/tests/resources/files/typo3/typo3temp/autoload-tests/autoload_allowed_file.php",
        "/tests/resources/files/typo3/typo3temp/autoload-tests/bad_file.php",
        "/tests/resources/files/typo3/typo3temp/autoload/autoload_allowed_file.php",
        "/tests/resources/files/typo3/typo3temp/autoload/autoload_subfolder/bad_file.php",
        "/tests/resources/files/typo3/typo3temp/bad_file.php",
        "/tests/resources/files/typo3/typo3temp/var/Cache/allowed_file.php",
        "/tests/resources/files/typo3/typo3temp/var/transient/ext_updatebac283f6edfa19007d6b23122ff69aeb.php",
        "/tests/resources/files/typo3/typo3temp/various_subdir/bad_file.php",
        "/tests/resources/files/typo3/uploads/some_ext/bad_file.php",
        "/tests/resources/files/typo3/uploads/tx_ext_with_php_in_name/index.html",
        "/tests/resources/files/typo3/uploads/tx_extensionbuilder/backups/minor_severity.php",
    ]
}

/// Some of the directories below `tests`, relative to the project directory.
fn directories() -> Vec<&'static str> {
    vec![
        "/tests",
        "/tests/resources",
        "/tests/resources/files",
        "/tests/resources/files/tx_mocfilemanager.d",
        "/tests/resources/files/typo3",
        "/tests/resources/rules",
    ]
}

/// A symbolic link below `tests` whose name the rules of the tests would match.
fn symlink() -> &'static str {
    "/tests/resources/files/link.tx_mocfilemanager.php"
}

fn get_test_dir() -> String {
    format!("{}/tests", PROJECT_DIR)
}

fn absolute(relative: &str) -> String {
    format!("{}{}", PROJECT_DIR, relative)
}

fn depth_of(relative: &str) -> usize {
    relative.matches('/').count() - 1
}

/// What a generic walk below `tests` reports; one directory could not be read.
fn walkdir_report() -> Vec<Result<WalkdirDirEntry, String>> {
    let mut report = vec![];
    for dir in directories() {
        report.push(Ok(WalkdirDirEntry::from_dir_entry(
            &absolute(dir),
            StandaloneFileType::Directory,
            false,
            depth_of(dir),
        )));
    }
    report.push(Err(String::from("Permission denied (os error 13)")));
    for file in files() {
        report.push(Ok(WalkdirDirEntry::from_dir_entry(
            &absolute(file),
            StandaloneFileType::File,
            false,
            depth_of(file),
        )));
    }
    report.push(Ok(WalkdirDirEntry::from_dir_entry(
        &absolute(symlink()),
        StandaloneFileType::Symlink,
        true,
        depth_of(symlink()),
    )));
    report
}

fn walkdir_entries() -> Vec<WalkdirDirEntry> {
    hackscanner_lib::file_finder::walkdir::FileFinder::collect_dir_entries(walkdir_report())
}

/// What a walk with `ftw` or `nftw` below `tests` reports.
fn ftw_report() -> Vec<(String, i32)> {
    let mut report = vec![];
    for dir in directories() {
        report.push((absolute(dir), FTW_D));
    }
    for file in files() {
        report.push((absolute(file), FTW_F));
    }
    report.push((absolute(symlink()), FTW_SL));
    report
}

fn nftw_entries() -> Vec<StandaloneDirEntry> {
    let mut buffer = vec![];
    collect_dir_entries_nftw(&mut buffer, &ftw_report())
}

/// What a walk with `fts` below `tests` reports of the children of the directories.
fn fts_report() -> Vec<FtsEntry> {
    let mut report = vec![];
    for dir in directories() {
        let absolute_dir = absolute(dir);
        let cut = absolute_dir.rfind('/').unwrap() + 1;
        report.push(FtsEntry {
            info: 1,
            path: absolute_dir[..cut].to_string(),
            name: absolute_dir[cut..].to_string(),
        });
    }
    for file in files() {
        let absolute_file = absolute(file);
        let cut = absolute_file.rfind('/').unwrap() + 1;
        report.push(FtsEntry {
            info: FTS_F as u16,
            path: absolute_file[..cut].to_string(),
            name: absolute_file[cut..].to_string(),
        });
    }
    let link = absolute(symlink());
    let cut = link.rfind('/').unwrap() + 1;
    report.push(FtsEntry { info: 12, path: link[..cut].to_string(), name: link[cut..].to_string() });
    report
}

fn fts_entries() -> Vec<StandaloneDirEntry> {
    collect_dir_entries(&get_test_dir(), Some(&fts_report())).unwrap()
}

fn get_rules_multiple_results() -> Vec<Rule> {
    vec![Rule::new(
        "1",
        Severity::NOTICE,
        RawPath::with_path("tx_mocfilemanager"),
        None,
    )
    .unwrap()]
}

fn get_rules_single_result() -> Vec<Rule> {
    vec![Rule::new(
        "2",
        Severity::NOTICE,
        RawPath::with_regex(r"\.tx_mocfilemanager"),
        None,
    )
    .unwrap()]
}

fn contains_path<E: DirEntryTrait>(paths: &[E], test_path: String) -> bool {
    paths.iter().find(|entry| entry.path() == test_path).is_some()
}

fn assert_multiple_paths<D: DirEntryTrait>(matches: Vec<D>) {
    assert!(contains_path(
        &matches,
        format!(
            "{}{}",
            PROJECT_DIR, "/tests/resources/files/something.tx_mocfilemanager.php"
        ),
    ));
    assert!(contains_path(
        &matches,
        format!("{}{}", PROJECT_DIR, "/tests/resources/files/tx_mocfilemanager.php"),
    ));
    assert!(contains_path(
        &matches,
        format!(
            "{}{}",
            PROJECT_DIR, "/tests/resources/files/tx_mocfilemanager-test.sh"
        ),
    ));
}

fn assert_single_path<D: DirEntryTrait>(matches: Vec<D>) {
    assert_eq!(1, matches.len());

    assert!(contains_path(
        &matches,
        format!(
            "{}{}",
            PROJECT_DIR, "/tests/resources/files/something.tx_mocfilemanager.php"
        ),
    ));
    assert!(!contains_path(
        &matches,
        format!("{}{}", PROJECT_DIR, "/tests/resources/files/tx_mocfilemanager.php"),
    ));
    assert!(!contains_path(
        &matches,
        format!(
            "{}{}",
            PROJECT_DIR, "/tests/resources/files/tx_mocfilemanager-test.sh"
        ),
    ));
}

fn sorted_paths<D: DirEntryTrait>(entries: &[D]) -> Vec<String> {
    let mut paths: Vec<String> = entries.iter().map(|entry| entry.path().to_string()).collect();
    paths.sort();
    paths
}

#[test]
fn file_finder_test_find_files_test() {
    let rules = get_rules_multiple_results();
    let matches = find_files(walkdir_entries(), &rules);
    assert_eq!(3, matches.len());
    assert_multiple_paths(matches);
}

#[test]
fn file_finder_test_find_files_one_test() {
    let rules = get_rules_single_result();

    // Call `find` multiple times to make sure the results are cleared between calls
    find_files(walkdir_entries(), &rules);
    let matches = find_files(walkdir_entries(), &rules);

    assert_single_path(matches);
}

#[test]
fn walkdir_test_find_files_test() {
    let rules = get_rules_multiple_results();
    let matches =
        hackscanner_lib::file_finder::walkdir::FileFinder::new().find(walkdir_entries(), &rules);
    assert_multiple_paths(matches);
}

#[test]
fn walkdir_test_find_files_one_test() {
    let rules = get_rules_single_result();

    // Call `find` multiple times to make sure the results are cleared between calls
    hackscanner_lib::file_finder::walkdir::FileFinder::new().find(walkdir_entries(), &rules);
    let matches =
        hackscanner_lib::file_finder::walkdir::FileFinder::new().find(walkdir_entries(), &rules);

    assert_single_path(matches);
}

#[test]
fn walkdir_test_find_files_one_multi_threading_test() {
    let file_finder = hackscanner_lib::file_finder::walkdir::FileFinder::new();
    for _ in 0..4 {
        let file_finder = file_finder.clone();
        let rules = get_rules_single_result();
        let matches = file_finder.find(walkdir_entries(), &rules);
        assert_single_path(matches);
    }
}

#[test]
fn ftw_test_find_files_test() {
    let rules = get_rules_multiple_results();
    let matches = hackscanner_lib::file_finder::ftw::FileFinder::new().find(nftw_entries(), &rules);
    assert_multiple_paths(matches);
}

#[test]
fn ftw_test_find_files_one_test() {
    let rules = get_rules_single_result();

    // Call `find` multiple times to make sure the results are cleared between calls
    let mut buffer = vec![];
    let first = collect_dir_entries_nftw(&mut buffer, &ftw_report());
    hackscanner_lib::file_finder::ftw::FileFinder::new().find(first, &rules);
    let second = collect_dir_entries_nftw(&mut buffer, &ftw_report());
    let matches = hackscanner_lib::file_finder::ftw::FileFinder::new().find(second, &rules);

    assert_single_path(matches);
}

#[test]
fn ftw_test_find_files_one_multi_threading_test() {
    let file_finder = hackscanner_lib::file_finder::ftw::FileFinder::new();
    let mut buffer = vec![];
    for _ in 0..4 {
        let file_finder = file_finder.clone();
        let rules = get_rules_single_result();
        let walked = collect_dir_entries_nftw(&mut buffer, &ftw_report());
        let matches = file_finder.find(walked, &rules);
        assert_single_path(matches);
    }
}

#[test]
fn fts_test_find_files_test() {
    let rules = get_rules_multiple_results();
    let matches = hackscanner_lib::file_finder::fts::FileFinder::new().find(fts_entries(), &rules);
    assert_multiple_paths(matches);
}

#[test]
fn fts_test_find_files_one_test() {
    let rules = get_rules_single_result();

    // Call `find` multiple times to make sure the results are cleared between calls
    hackscanner_lib::file_finder::fts::FileFinder::new().find(fts_entries(), &rules);
    let matches = hackscanner_lib::file_finder::fts::FileFinder::new().find(fts_entries(), &rules);

    assert_single_path(matches);
}

#[test]
fn fts_test_find_files_one_multi_threading_test() {
    let file_finder = hackscanner_lib::file_finder::fts::FileFinder::new();
    for _ in 0..4 {
        let file_finder = file_finder.clone();
        let rules = get_rules_single_result();
        let matches = file_finder.find(fts_entries(), &rules);
        assert_single_path(matches);
    }
}

#[test]
fn collect_dir_entries_test() {
    let r = collect_dir_entries(&get_test_dir(), Some(&fts_report()));
    assert!(r.is_ok());

    let v = r.unwrap();
    assert!(
        25 < v.len(),
        "Expected result length to be bigger than 25, got {}",
        v.len()
    );
    assert_eq!(files().len(), v.len());
}

#[test]
fn collect_dir_entries_ftw_test() {
    let mut buffer = vec![];
    let r = collect_dir_entries_ftw(&mut buffer, &ftw_report());
    assert!(
        25 < r.len(),
        "Expected result length to be bigger than 25, got {}",
        r.len()
    );
    assert_eq!(ftw_report().len(), r.len());
}

#[test]
fn collect_dir_entries_nftw_test() {
    let mut buffer = vec![];
    let r = collect_dir_entries_nftw(&mut buffer, &ftw_report());
    assert!(
        25 < r.len(),
        "Expected result length to be bigger than 25, got {}",
        r.len()
    );
    assert_eq!(files().len(), r.len());
}

#[test]
fn mod_walk_dir_test() {
    let r = FileFinderTrait::walk_dir(
        &hackscanner_lib::file_finder::ftw::FileFinder::new(),
        nftw_entries(),
        |_| true,
    );
    assert!(
        25 < r.len(),
        "Expected result length to be bigger than 25, got {}",
        r.len()
    );
    let r = FileFinderTrait::walk_dir(
        &hackscanner_lib::file_finder::fts::FileFinder::new(),
        fts_entries(),
        |_| true,
    );
    assert!(
        25 < r.len(),
        "Expected result length to be bigger than 25, got {}",
        r.len()
    );
}

#[test]
fn mod_find_test() {
    let r = FileFinderTrait::walk_dir(
        &hackscanner_lib::file_finder::ftw::FileFinder::new(),
        nftw_entries(),
        |_| true,
    );
    assert!(
        25 < r.len(),
        "Expected result length to be bigger than 25, got {}",
        r.len()
    );
    let r = FileFinderTrait::walk_dir(
        &hackscanner_lib::file_finder::fts::FileFinder::new(),
        fts_entries(),
        |_| true,
    );
    assert!(
        25 < r.len(),
        "Expected result length to be bigger than 25, got {}",
        r.len()
    );
}

/// The report of a walk over the whole project directory, build output included.
fn project_report() -> Vec<(String, i32)> {
    let mut report = ftw_report();
    for i in 0..1200 {
        report.push((format!("{}/target/debug/deps/unit-{}.o", PROJECT_DIR, i), FTW_F));
    }
    report
}

#[test]
fn ftw_walk_dir_test() {
    let mut buffer = vec![];
    let entries = collect_dir_entries_ftw(&mut buffer, &project_report());
    let r = FileFinderTrait::walk_dir(
        &hackscanner_lib::file_finder::ftw::FileFinder::new(),
        entries,
        |_| true,
    );
    assert!(1000 < r.len());
}

#[test]
fn ftw_find_test() {
    let mut buffer = vec![];
    let entries = collect_dir_entries_ftw(&mut buffer, &project_report());
    let r = FileFinderTrait::walk_dir(
        &hackscanner_lib::file_finder::ftw::FileFinder::new(),
        entries,
        |_| true,
    );
    assert!(1000 < r.len());
}

#[test]
fn walk_dir_keeps_what_the_filter_accepts_in_order() {
    let kept = FileFinderTrait::walk_dir(
        &hackscanner_lib::file_finder::walkdir::FileFinder::new(),
        walkdir_entries(),
        |entry: &WalkdirDirEntry| entry.path().ends_with(".sh") || entry.path().ends_with(".json"),
    );
    let paths: Vec<&str> = kept.iter().map(|entry| entry.path()).collect();
    assert_eq!(
        vec![
            "/home/scanner/project/tests/resources/rules/rules.json",
            "/home/scanner/project/tests/resources/files/tx_mocfilemanager-test.sh",
        ],
        paths
    );
    let none = filter_entries(walkdir_entries(), |_| false);
    assert!(none.is_empty());
}

#[test]
fn unreadable_nodes_are_skipped() {
    let report = walkdir_report();
    let errors = report.iter().filter(|node| node.is_err()).count();
    assert_eq!(1, errors);
    let total = report.len();
    let entries = walkdir_entries();
    assert_eq!(total - 1, entries.len());
    assert_eq!(directories().len() + files().len() + 1, entries.len());
    assert_eq!("/home/scanner/project/tests", entries[0].path());
    assert_eq!(0, entries[0].depth());
    assert_eq!(3, entries[directories().len() + 8].depth());
}

#[test]
fn candidates_leave_out_directories_and_symlinks() {
    let rules = get_rules_multiple_results();
    // A directory and a symbolic link carry the literal in their names
    let walked = walkdir_entries();
    assert!(contains_path(
        &walked,
        absolute("/tests/resources/files/tx_mocfilemanager.d")
    ));
    assert!(contains_path(&walked, absolute(symlink())));
    let matches = find_files(walked, &rules);
    assert_eq!(
        vec![
            absolute("/tests/resources/files/something.tx_mocfilemanager.php"),
            absolute("/tests/resources/files/tx_mocfilemanager-test.sh"),
            absolute("/tests/resources/files/tx_mocfilemanager.php"),
        ],
        sorted_paths(&matches)
    );

    let directory = StandaloneDirEntry::from_path_with_file_type(
        "/srv/tx_mocfilemanager",
        StandaloneFileType::Directory,
    );
    assert!(!prefilter(&directory, &rules));
    let link = StandaloneDirEntry::from_path_with_file_type(
        "/srv/tx_mocfilemanager",
        StandaloneFileType::Symlink,
    );
    assert!(link.path_is_symlink());
    assert!(!prefilter(&link, &rules));
    let file = StandaloneDirEntry::from_path_with_file_type(
        "/srv/tx_mocfilemanager",
        StandaloneFileType::File,
    );
    assert!(prefilter(&file, &rules));
    let unknown = ValidationDirEntry::from_path_str("/srv/tx_mocfilemanager", None);
    assert!(unknown.file_type() == StandaloneFileType::Unknown);
    assert!(prefilter(&unknown, &rules));
    let other = StandaloneDirEntry::from_path_with_file_type(
        "/srv/index.php",
        StandaloneFileType::File,
    );
    assert!(!prefilter(&other, &rules));
    assert!(!prefilter(&file, &[]));
}

#[test]
fn a_whitelist_rule_excludes_a_candidate() {
    let rules = vec![
        Rule::with_path("any php", Severity::MAJOR, RawPath::with_regex("\\.php$")).unwrap(),
        Rule::with_path(
            "cache",
            Severity::WHITELIST,
            RawPath::with_regex("typo3temp/(var/)?Cache/.*\\.php"),
        )
        .unwrap(),
        Rule::with_path("bad files", Severity::CRITICAL, RawPath::with_path("allowed_file")).unwrap(),
    ];
    let matches = find_files(walkdir_entries(), &rules);
    assert!(!contains_path(
        &matches,
        absolute("/tests/resources/files/typo3/typo3temp/Cache/allowed_file.php")
    ));
    assert!(!contains_path(
        &matches,
        absolute("/tests/resources/files/typo3/typo3temp/var/Cache/allowed_file.php")
    ));
    assert!(contains_path(
        &matches,
        absolute("/tests/resources/files/typo3/typo3temp/autoload/autoload_allowed_file.php")
    ));
    assert!(contains_path(
        &matches,
        absolute("/tests/resources/files/typo3/typo3temp/bad_file.php")
    ));
    // 23 of the files end in `.php`, two of them are whitelisted
    assert_eq!(21, matches.len());
}

#[test]
fn a_rule_with_content_makes_a_candidate_by_its_path() {
    let rules = vec![Rule::with_path_and_content(
        "dezmond",
        Severity::NOTICE,
        RawPath::with_regex("resources/files/[a-z]+\\.php"),
        "dezmond",
    )
    .unwrap()];
    let matches = find_files(walkdir_entries(), &rules);
    assert_eq!(
        vec![absolute("/tests/resources/files/dezmond.php")],
        sorted_paths(&matches)
    );
}

#[test]
fn all_backends_find_the_same_paths() {
    for rules in [get_rules_multiple_results(), get_rules_single_result()] {
        let walkdir = hackscanner_lib::file_finder::walkdir::FileFinder::new()
            .find(walkdir_entries(), &rules);
        let ftw = hackscanner_lib::file_finder::ftw::FileFinder::new().find(nftw_entries(), &rules);
        let fts = hackscanner_lib::file_finder::fts::FileFinder::new().find(fts_entries(), &rules);
        assert!(!walkdir.is_empty());
        assert_eq!(sorted_paths(&walkdir), sorted_paths(&ftw));
        assert_eq!(sorted_paths(&walkdir), sorted_paths(&fts));
    }
}

#[test]
fn the_buffer_of_the_native_walk_starts_empty_each_time() {
    let mut buffer = vec![StandaloneDirEntry::from_path_with_file_type(
        "/left/over/from/an/earlier/walk.php",
        StandaloneFileType::File,
    )];
    let first = collect_dir_entries_nftw(&mut buffer, &ftw_report());
    assert_eq!(files().len(), first.len());
    assert_eq!(files().len(), buffer.len());
    assert!(!contains_path(&first, String::from("/left/over/from/an/earlier/walk.php")));
    let second = collect_dir_entries_nftw(&mut buffer, &ftw_report());
    assert_eq!(sorted_paths(&first), sorted_paths(&second));
    assert_eq!(files().len(), buffer.len());
    clear_entries(&mut buffer);
    assert!(buffer.is_empty());
}

#[test]
fn the_callbacks_of_the_native_walk() {
    let mut buffer = vec![];
    assert_eq!(0, nftw_collector(&mut buffer, "/srv/www", FTW_D));
    assert_eq!(0, nftw_collector(&mut buffer, "/srv/www/index.php", FTW_F));
    assert_eq!(0, nftw_collector(&mut buffer, "/srv/www/link", FTW_SL));
    assert_eq!(0, nftw_collector(&mut buffer, "/srv/www/locked", FTW_DNR));
    assert_eq!(1, buffer.len());
    assert_eq!("/srv/www/index.php", buffer[0].path());
    assert!(buffer[0].file_type().is_file());

    let mut buffer = vec![];
    for (path, flag) in [
        ("/srv/a", FTW_F),
        ("/srv/b", FTW_D),
        ("/srv/c", FTW_DNR),
        ("/srv/d", FTW_DP),
        ("/srv/e", FTW_SL),
        ("/srv/f", FTW_SLN),
        ("/srv/g", FTW_NS),
        ("/srv/h", 77),
    ] {
        assert_eq!(0, ftw_collector(&mut buffer, path, flag));
    }
    let kinds: Vec<StandaloneFileType> = buffer.iter().map(|entry| entry.file_type()).collect();
    assert_eq!(
        vec![
            StandaloneFileType::File,
            StandaloneFileType::Directory,
            StandaloneFileType::Directory,
            StandaloneFileType::Directory,
            StandaloneFileType::Symlink,
            StandaloneFileType::Symlink,
            StandaloneFileType::Unknown,
            StandaloneFileType::Unknown,
        ],
        kinds
    );
    assert_eq!("/srv/h", buffer[7].path());
}

#[test]
fn a_failed_native_walk_is_an_error() {
    let failed = collect_dir_entries("/srv/www", None);
    match failed.unwrap_err().kind() {
        ErrorKind::BindingError(text) => assert_eq!("Result of fts_open() is NULL", text),
        _ => panic!("a walk that could not be opened must be a binding error"),
    }
    let report = fts_report();
    let failed = collect_dir_entries("/srv/w\0ww", Some(&report));
    let error = failed.unwrap_err();
    assert_eq!("Error when calling external API", error.description());
    match error.kind() {
        ErrorKind::BindingError(text) => {
            assert_eq!("nul byte found in provided data at position: 6", text)
        }
        _ => panic!("a root with a NUL must be a binding error"),
    }
    // The place is counted in bytes, and the NUL is looked for before the walk is
    let failed = collect_dir_entries("/öl/bär-0123456789\0/\0", None);
    match failed.unwrap_err().kind() {
        ErrorKind::BindingError(text) => {
            assert_eq!("nul byte found in provided data at position: 20", text)
        }
        _ => panic!("a root with a NUL must be a binding error"),
    }
    assert_eq!(Some(0), find_nul("\0"));
    assert_eq!(None, find_nul(""));
    assert_eq!(None, find_nul("/srv/www/0"));
    assert!(check_native_string("/srv/www"));
    assert!(!check_native_string("/srv/www\0"));
    let empty: Vec<FtsEntry> = vec![];
    assert!(collect_dir_entries("/srv/www", Some(&empty)).unwrap().is_empty());
    let one = vec![FtsEntry {
        info: FTS_F as u16,
        path: String::from("/srv/www/"),
        name: String::from("index.php"),
    }];
    let entries = collect_dir_entries("/srv/www", Some(&one)).unwrap();
    assert_eq!("/srv/www/index.php", entries[0].path());
    assert!(entries[0].file_type() == StandaloneFileType::File);
}

/// What reading a file of the tree gives.
fn content_of(path: &str) -> Result<Vec<u8>, ContentClassificationError> {
    let text: &str = if path.ends_with("/dezmond.php") {
        "<?php\n/* (c) dezmond */\n"
    } else if path.ends_with("/eval-in-file.php") {
        "<?php\neval($_POST['code']);\n"
    } else if path.ends_with("/multiple_violations.php") {
        "<?php\nerror_reporting(0);\n$f = create_function('', $_GET['x']);\n$g ='preg_replace';\n"
    } else if path.ends_with("/whitelist_me.php") {
        "<?php\n// with love\neval(base64_decode('ZWNobyAxOw=='));\n"
    } else {
        "<?php\necho 'Hello';\n"
    };
    Ok(text.as_bytes().to_vec())
}

/// The content of each entry that the rules ask for.
fn contents_for<D: DirEntryTrait>(
    entries: &[D],
    rules: &[Rule],
) -> Vec<Result<Vec<u8>, ContentClassificationError>> {
    entries
        .iter()
        .map(|entry| {
            if needs_content(entry, rules) {
                content_of(entry.path())
            } else {
                Ok(vec![])
            }
        })
        .collect()
}

/// Assert that none of the ratings contain a path matching `path` and a rating equal to or
/// bigger than `score`
fn assert_not_contains_entry_with_score<D: DirEntryTrait>(
    ratings: &Vec<Rating<'_, D>>,
    score: isize,
    path: &str,
) {
    for rating in ratings {
        if rating.entry().path().contains(path) {
            if rating.rating() >= score {
                panic!(
                    "Must not find entry {:?} with rating {}",
                    rating.entry().path(),
                    rating.rating()
                );
            }
        }
    }
}

/// Assert that none of the ratings contain a path matching `path` and a rating bigger than 0
fn assert_not_contains_entry<D: DirEntryTrait>(ratings: &Vec<Rating<'_, D>>, path: &str) {
    assert_not_contains_entry_with_score(ratings, 1, path)
}

/// The rating of the file with the given path.
fn rating_of<D: DirEntryTrait>(ratings: &Vec<Rating<'_, D>>, path: &str) -> Option<isize> {
    ratings
        .iter()
        .find(|rating| rating.entry().path().ends_with(path))
        .map(|rating| rating.rating())
}

#[test]
fn run_rules_with_configuration_test() {
    let configuration_file = format!("{}{}", PROJECT_DIR, "/tests/resources/rules/rules.yaml");
    let custom = RuleFileContent::Rules(vec![
        RawRule::with_path_and_content(
            "some rule",
            Severity::CRITICAL,
            "some/path",
            false,
            "some bad content",
        ),
        RawRule::with_path_and_content(
            "some whitelist rule",
            Severity::WHITELIST,
            "\\.php",
            true,
            "love",
        ),
    ]);
    let rules = get_merged_rules(&configuration_file, custom).unwrap();

    let files = find_files(walkdir_entries(), &rules);
    let contents = contents_for(&files, &rules);
    let ratings = rate_entries(&files, &rules, &contents);

    assert_not_contains_entry(&ratings, "/tests/resources/files/whitelist_me.php");
}

#[test]
fn the_builtin_rules_on_the_tree() {
    let rules = get_builtin_rules();

    let files = find_files(walkdir_entries(), &rules);
    let contents = contents_for(&files, &rules);
    let ratings = rate_entries(&files, &rules, &contents);

    // The content names a known shell
    assert_eq!(Some(90), rating_of(&ratings, "/tests/resources/files/dezmond.php"));
    // The name of the file is known
    assert_eq!(Some(90), rating_of(&ratings, "/tests/resources/files/tx_mocfilemanager.php"));
    assert_eq!(
        Some(90),
        rating_of(&ratings, "/tests/resources/files/something.tx_mocfilemanager.php")
    );
    assert_eq!(Some(20), rating_of(&ratings, "/tests/resources/files/eval-in-file.php"));
    // Three notices
    assert_eq!(Some(60), rating_of(&ratings, "/tests/resources/files/multiple_violations.php"));
    assert_eq!(
        Some(40),
        rating_of(&ratings, "/typo3/fileadmin/user_upload/some_file.php")
    );
    assert_eq!(
        Some(60),
        rating_of(&ratings, "/typo3/typo3conf/l10n/someext/some_file.php")
    );
    assert_eq!(Some(60), rating_of(&ratings, "/typo3/typo3temp/bad_file.php"));
    // A file that only the rules with content ask for, and whose content is harmless
    assert_eq!(Some(0), rating_of(&ratings, "/typo3/typo3conf/bad.php"));
    // Whitelisted by their path: they are no candidates
    assert_not_contains_entry(&ratings, "/typo3/typo3temp/Cache/allowed_file.php");
    assert_not_contains_entry(&ratings, "/typo3/typo3temp/var/Cache/allowed_file.php");
    assert_eq!(None, rating_of(&ratings, "/typo3/typo3temp/Cache/allowed_file.php"));
    assert_eq!(None, rating_of(&ratings, "/typo3/typo3temp/var/Cache/allowed_file.php"));
    // No rule looks at these
    assert_not_contains_entry(&ratings, "/typo3/uploads/tx_ext_with_php_in_name/index.html");
    assert_eq!(None, rating_of(&ratings, "/tests/resources/files/tx_mocfilemanager-test.sh"));
    assert_eq!(None, rating_of(&ratings, "/tests/run_test.rs"));
}

#[test]
fn the_kinds_of_the_type_flags() {
    assert_eq!(StandaloneFileType::File, StandaloneFileType::from_ftw(FTW_F));
    for flag in [FTW_D, FTW_DNR, FTW_DP] {
        let kind = StandaloneFileType::from_ftw(flag);
        assert_eq!(StandaloneFileType::Directory, kind);
        assert!(kind.is_dir());
        assert!(!kind.is_file());
        assert!(!kind.is_symlink());
    }
    for flag in [FTW_SL, FTW_SLN] {
        let kind = StandaloneFileType::from_ftw(flag);
        assert_eq!(StandaloneFileType::Symlink, kind);
        assert!(kind.is_symlink());
        assert!(!kind.is_file());
        assert!(!kind.is_dir());
    }
    for flag in [FTW_NS, 7, -1, 77, i32::MAX, i32::MIN] {
        let kind = StandaloneFileType::from_ftw(flag);
        assert_eq!(StandaloneFileType::Unknown, kind);
        assert!(!kind.is_file() && !kind.is_dir() && !kind.is_symlink());
    }
}

#[test]
fn a_walk_with_ftw_leaves_out_directories_and_symlinks() {
    // `ftw` reports every node; the directory and the link that carry the literal in their
    // names are no candidates
    let rules = get_rules_multiple_results();
    let mut buffer = vec![];
    let walked = collect_dir_entries_ftw(&mut buffer, &ftw_report());
    assert!(contains_path(&walked, absolute("/tests/resources/files/tx_mocfilemanager.d")));
    assert!(contains_path(&walked, absolute(symlink())));
    let matches = hackscanner_lib::file_finder::ftw::FileFinder::new().find(walked, &rules);
    assert_eq!(
        vec![
            absolute("/tests/resources/files/something.tx_mocfilemanager.php"),
            absolute("/tests/resources/files/tx_mocfilemanager-test.sh"),
            absolute("/tests/resources/files/tx_mocfilemanager.php"),
        ],
        sorted_paths(&matches)
    );
}
