//! The severity scale.

use hackscanner_lib::text::{chars_of, contains, contains_chars, decimal, str_eq};
use hackscanner_lib::ui::{
    color_for_severity,
    description_for_severity,
    get_minimum_severity,
    get_verbosity,
    get_verbosity_help,
    minimum_severity_from_uppercase,
    rating_is_shown,
    rating_line,
    report_is_shown,
    summary_rows,
    validation_line,
    ReportColor,
    Verbosity,
};
use hackscanner_lib::classifier::Violation;
use hackscanner_lib::fs::StandaloneFileType;
use hackscanner_lib::{ErrorKind, Rating, Severity, StandaloneDirEntry, Summary};
use std::str::FromStr;

fn all() -> Vec<Severity> {
    vec![
        Severity::CRITICAL,
        Severity::MAJOR,
        Severity::MINOR,
        Severity::NOTICE,
        Severity::NONE,
        Severity::EASE,
        Severity::EASE2X,
        Severity::WHITELIST,
    ]
}

#[test]
fn the_points_of_the_scale() {
    let values: Vec<isize> = all().iter().map(|severity| severity.value()).collect();
    assert_eq!(vec![90, 60, 40, 20, 0, -20, -40, -250], values);
    let descriptions: Vec<&str> = all().iter().map(|severity| severity.description()).collect();
    assert_eq!(
        vec!["CRITICAL", "MAJOR", "MINOR", "NOTICE", "NONE", "EASE", "EASE 2X", "WHITELIST"],
        descriptions
    );
}

#[test]
fn severities_are_ordered_as_their_values() {
    let scale = all();
    for (i, higher) in scale.iter().enumerate() {
        for (j, lower) in scale.iter().enumerate() {
            assert_eq!(i < j, higher > lower);
            assert_eq!(i == j, higher == lower);
            assert_eq!(i > j, higher < lower);
            assert_eq!(i <= j, higher >= lower);
        }
    }
    assert!(Severity::WHITELIST < Severity::EASE2X);
    assert!(Severity::NOTICE > Severity::NONE);
}

#[test]
fn severities_by_name() {
    assert_eq!(Severity::CRITICAL, Severity::from_str("CRITICAL").unwrap());
    assert_eq!(Severity::MAJOR, Severity::from_str("major").unwrap());
    assert_eq!(Severity::MINOR, Severity::from_str("Minor").unwrap());
    assert_eq!(Severity::NOTICE, Severity::from_str("nOTICE").unwrap());
    assert_eq!(Severity::EASE, Severity::from_str("ease").unwrap());
    assert_eq!(Severity::EASE2X, Severity::from_str("ease2x").unwrap());
    assert_eq!(Severity::NONE, Severity::from_str("none").unwrap());
    assert_eq!(Severity::WHITELIST, Severity::from_str("whitelist").unwrap());
    assert_eq!(Severity::WHITELIST, Severity::from_name("WhiteList").unwrap());
    assert_eq!(Severity::MAJOR, "major".parse::<Severity>().unwrap());
    for name in ["", "EASE 2X", "CRITICAL ", "ALL", "clean", "90"] {
        let error = Severity::from_str(name).unwrap_err();
        match error.kind() {
            ErrorKind::Msg(text) => assert_eq!(name, text),
            _ => panic!("an unknown name must be handed back as a message"),
        }
    }
    assert_eq!(Some(Severity::MINOR), Severity::from_uppercase("MINOR"));
    assert_eq!(None, Severity::from_uppercase("minor"));
}

#[test]
fn the_severity_that_a_rating_is_shown_as() {
    let cases = [
        (isize::MAX, Severity::CRITICAL),
        (90, Severity::CRITICAL),
        (89, Severity::MAJOR),
        (60, Severity::MAJOR),
        (59, Severity::MINOR),
        (40, Severity::MINOR),
        (39, Severity::NOTICE),
        (20, Severity::NOTICE),
        (19, Severity::NONE),
        (0, Severity::NONE),
        (-19, Severity::NONE),
        (-20, Severity::EASE),
        (-21, Severity::NONE),
        (-40, Severity::EASE2X),
        (-250, Severity::WHITELIST),
        (-251, Severity::NONE),
        (isize::MIN, Severity::NONE),
    ];
    for (rating, severity) in cases {
        assert_eq!(severity, Severity::from_rating(rating), "rating {}", rating);
        assert_eq!(severity, Severity::from(rating), "rating {}", rating);
    }
}

#[test]
fn descriptions_are_filled_up_to_ten_characters() {
    assert_eq!("[CRITICAL]", description_for_severity(Severity::CRITICAL, true));
    assert_eq!("[MAJOR]   ", description_for_severity(Severity::MAJOR, true));
    assert_eq!("[NONE]    ", description_for_severity(Severity::NONE, true));
    assert_eq!("[EASE 2X] ", description_for_severity(Severity::EASE2X, true));
    assert_eq!("[WHITELIST]", description_for_severity(Severity::WHITELIST, true));
    assert_eq!("CRITICAL: ", description_for_severity(Severity::CRITICAL, false));
    assert_eq!("MINOR:    ", description_for_severity(Severity::MINOR, false));
    assert_eq!("WHITELIST:", description_for_severity(Severity::WHITELIST, false));
    for severity in all() {
        for brackets in [true, false] {
            assert_eq!(
                format!(
                    "{:width$}",
                    if brackets {
                        format!("[{}]", severity.description())
                    } else {
                        format!("{}:", severity.description())
                    },
                    width = 10
                ),
                description_for_severity(severity, brackets)
            );
        }
    }
}

#[test]
fn the_colors_of_severities() {
    assert_eq!(ReportColor::Rgb(225, 17, 0), color_for_severity(Severity::CRITICAL));
    assert_eq!(ReportColor::Rgb(237, 131, 0), color_for_severity(Severity::MAJOR));
    assert_eq!(ReportColor::Rgb(245, 207, 0), color_for_severity(Severity::MINOR));
    assert_eq!(ReportColor::Rgb(255, 255, 0), color_for_severity(Severity::NOTICE));
    for severity in [Severity::NONE, Severity::EASE, Severity::EASE2X, Severity::WHITELIST] {
        assert_eq!(ReportColor::Blue, color_for_severity(severity));
    }
}

#[test]
fn the_minimum_severity_of_a_report() {
    assert_eq!(Severity::NOTICE, get_minimum_severity(None));
    assert_eq!(Severity::CRITICAL, get_minimum_severity(Some("critical")));
    assert_eq!(Severity::MAJOR, get_minimum_severity(Some("Major")));
    assert_eq!(Severity::MINOR, get_minimum_severity(Some("MINOR")));
    assert_eq!(Severity::NOTICE, get_minimum_severity(Some("notice")));
    assert_eq!(Severity::WHITELIST, get_minimum_severity(Some("ALL")));
    assert_eq!(Severity::WHITELIST, get_minimum_severity(Some("ease")));
    assert_eq!(Severity::WHITELIST, get_minimum_severity(Some("none")));
    assert_eq!(Severity::WHITELIST, get_minimum_severity(Some("")));
    assert_eq!(Severity::WHITELIST, minimum_severity_from_uppercase("major"));
    assert_eq!(Severity::MAJOR, minimum_severity_from_uppercase("MAJOR"));
}

#[test]
fn verbosity_by_the_number_of_flags() {
    assert_eq!(Verbosity::Warn, get_verbosity(0));
    assert_eq!(Verbosity::Info, get_verbosity(1));
    assert_eq!(Verbosity::Debug, get_verbosity(2));
    assert_eq!(Verbosity::Trace, get_verbosity(3));
    assert_eq!(Verbosity::Warn, get_verbosity(4));
    assert_eq!(Verbosity::Warn, get_verbosity(u64::MAX));
    assert_eq!(
        "Sets the level of verbosity (-v = Info, -vv = Debug, -vvv = Trace)",
        get_verbosity_help(true)
    );
    assert_eq!(
        "Sets the level of verbosity (-v = Info, -vv = Debug)",
        get_verbosity_help(false)
    );
}

fn violation(name: &str, severity: Severity) -> Violation {
    Violation::with_name_and_severity(String::from(name), severity)
}

#[test]
fn the_lines_of_a_report() {
    let entry = StandaloneDirEntry::from_path_with_file_type("/srv/a.php", StandaloneFileType::File);
    let rating = Rating::new(
        &entry,
        60,
        vec![violation("first", Severity::MINOR), violation("second", Severity::NOTICE)],
    );
    assert_eq!("[MAJOR]    /srv/a.php \t(Rules: first, second)", rating_line(&rating));
    assert_eq!(
        "[MAJOR]    MAJOR violations found for path /srv/a.php \t(Rules: first, second)",
        validation_line(&rating)
    );
    let clean = Rating::new(&entry, 0, vec![]);
    assert_eq!("[NONE]     /srv/a.php \t(Rules: )", rating_line(&clean));
    assert_eq!("[OK] No violations found for path /srv/a.php", validation_line(&clean));
    let eased = Rating::new(&entry, -20, vec![violation("ease", Severity::EASE)]);
    assert_eq!("[EASE]     /srv/a.php \t(Rules: ease)", rating_line(&eased));
    assert_eq!("[OK] No violations found for path /srv/a.php", validation_line(&eased));
    let low = Rating::new(&entry, 1, vec![]);
    assert_eq!(
        "[NONE]     NONE violations found for path /srv/a.php \t(Rules: )",
        validation_line(&low)
    );

    assert!(rating_is_shown(Severity::MAJOR, &rating));
    assert!(!rating_is_shown(Severity::CRITICAL, &rating));
    assert!(rating_is_shown(Severity::NOTICE, &rating));
    assert!(!rating_is_shown(Severity::NOTICE, &clean));
    assert!(rating_is_shown(Severity::WHITELIST, &eased));
}

#[test]
fn the_rows_of_a_summary() {
    let entry = StandaloneDirEntry::from_path_with_file_type("/srv/a.php", StandaloneFileType::File);
    let ratings: Vec<Rating<StandaloneDirEntry>> =
        [95, 90, 45, 0, -1, 3].iter().map(|value| Rating::new(&entry, *value, vec![])).collect();
    let summary = Summary::build(&ratings);
    assert_eq!(
        vec![(Severity::CRITICAL, 2), (Severity::MINOR, 1), (Severity::NONE, 3)],
        summary_rows(&summary)
    );
    assert!(report_is_shown(false, &summary, Severity::MAJOR));
    assert!(report_is_shown(true, &summary, Severity::MAJOR));
    assert!(report_is_shown(true, &summary, Severity::NOTICE));

    let clean: Vec<Rating<StandaloneDirEntry>> =
        [0, 19].iter().map(|value| Rating::new(&entry, *value, vec![])).collect();
    let summary = Summary::build(&clean);
    assert_eq!(vec![(Severity::NONE, 2)], summary_rows(&summary));
    assert!(report_is_shown(false, &summary, Severity::NOTICE));
    assert!(!report_is_shown(true, &summary, Severity::NOTICE));
    assert!(!report_is_shown(true, &summary, Severity::WHITELIST));
    let none: Vec<Rating<StandaloneDirEntry>> = vec![];
    assert!(summary_rows(&Summary::build(&none)).is_empty());
}

#[test]
fn text_helpers() {
    assert!(str_eq("", ""));
    assert!(str_eq("päth", "päth"));
    assert!(!str_eq("path", "päth"));
    assert!(!str_eq("path", "path "));
    assert!(!str_eq("a", ""));
    assert_eq!(vec!['p', 'ä', '/'], chars_of("pä/"));
    assert!(chars_of("").is_empty());
    assert!(contains("haystack", "st"));
    assert!(contains("haystack", "haystack"));
    assert!(contains("haystack", ""));
    assert!(contains("", ""));
    assert!(contains("haystack", "k"));
    assert!(contains("haystack", "h"));
    assert!(!contains("haystack", "haystacks"));
    assert!(!contains("haystack", "sk"));
    assert!(!contains("", "a"));
    assert!(contains("aab", "ab"));
    assert!(contains_chars(&vec!['a', 'b', 'c'], &vec!['b', 'c']));
    assert!(!contains_chars(&vec!['a', 'b', 'c'], &vec!['c', 'b']));
    for number in [0, 1, 9, 10, 11, 99, 100, 101, 1234567890, 4096, usize::MAX] {
        assert_eq!(number.to_string(), decimal(number));
    }
    assert_eq!("907", decimal(907));
}
