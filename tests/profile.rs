use mathkid::{get_profile_names, sanitise, Profile};

#[test]
fn profile_implements_debug() {
    let profile = Profile {
        first_name: "Fred".into(),
        course: "algebra".into(),
    };
    let s = format!("{:?}", profile);
    assert!(s.contains("Profile"));
    assert!(s.contains("first_name"));
    assert!(s.contains("Fred"));
    assert!(s.contains("course"));
    assert!(s.contains("algebra"));
}

#[test]
fn test_sanitised_first_name() {
    #[derive(Debug)]
    struct Case {
        input: &'static str,
        expected: &'static str,
    }

    for case in vec![
        Case { input: "Emil", expected: "emil" },
        Case { input: "Mary-Jane", expected: "maryjane" },
        Case { input: "Алеша", expected: "alesha" },
        Case { input: "André", expected: "andre" },
        Case { input: "Цун Куй Чай", expected: "tsunkuichai" },
        Case { input: "Эмиль", expected: "emil" },
    ] {
        let profile = Profile {
            first_name: case.input.into(),
            course: "".into(),
        };
        assert_eq!(case.expected, &profile.sanitised_first_name(), "for {:?}", case);
    }
}

#[test]
fn slug_keeps_lower_case_ascii_letters_only() {
    assert_eq!("abcxyz", mathkid::profile::slug("A1b-C x_Y.z9"));
    assert_eq!("", mathkid::profile::slug("1234 !?"));
    assert_eq!("", sanitise(""));
    assert_eq!("aeneid", sanitise("Æneid"));
}

#[test]
fn profile_names_come_from_profile_files_in_order() {
    let files = vec![
        String::from("zoe.profile.json"),
        String::from("notes.txt"),
        String::from("anna.profile.json"),
        String::from("profile.json"),
        String::from("bob.backup.profile.json"),
    ];
    assert_eq!(vec!["anna", "bob", "zoe"], get_profile_names(files));
    assert!(get_profile_names(vec![]).is_empty());
}
