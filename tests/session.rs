use mathkid::{feedback, select_profile, Listing, Outcome};

#[test]
fn listings_are_parsed_by_name() {
    assert_eq!(Ok(Listing::Topics), Listing::parse("topics"));
    assert_eq!(Ok(Listing::Courses), Listing::parse("courses"));
    assert_eq!(Ok(Listing::Profiles), "profiles".parse::<Listing>());
    assert_eq!(Err(String::from("unknown listing of type 'games'")), Listing::parse("games"));
}

#[test]
fn a_single_profile_is_chosen_without_asking() {
    let one = vec![String::from("emil")];
    assert_eq!(Ok(String::from("emil")), select_profile(&one, None));
    let two = vec![String::from("anna"), String::from("emil")];
    assert_eq!(
        Err(String::from("please select a profile (try --list profiles)")),
        select_profile(&two, None)
    );
    assert_eq!(
        Err(String::from("please select a profile (try --list profiles)")),
        select_profile(&vec![], None)
    );
}

#[test]
fn a_requested_profile_must_exist() {
    let two = vec![String::from("anna"), String::from("emil")];
    assert_eq!(Ok(String::from("anna")), select_profile(&two, Some(String::from("anna"))));
    assert_eq!(
        Err(String::from("no such profile 'fred' (try --list profiles)")),
        select_profile(&two, Some(String::from("fred")))
    );
}

#[test]
fn feedback_moves_on_only_when_correct() {
    assert_eq!((String::from("That's the right answer. Great work!"), true), feedback(&Outcome::Correct));
    assert_eq!((String::from("Your answer isn't quite right. Try again!"), false), feedback(&Outcome::Incorrect));
    assert_eq!(
        (String::from("There was a problem with your answer: bad"), false),
        feedback(&Outcome::Invalid(String::from("bad")))
    );
}
