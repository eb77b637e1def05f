use mathkid::addition::{self, Addition};
use mathkid::subtraction::{self, Subtraction};
use mathkid::{ConfigError, Module, Operator, Outcome, RandomSource, RangeSource, ScriptedSource};

/// The width of each range that `rand` was asked to draw from.
fn widths(rand: &ScriptedSource) -> Vec<u32> {
    rand.history().iter().map(|d| d.high - d.low).collect()
}

#[test]
fn outcome_implements_debug() {
    let s = format!("{:?}", Outcome::Invalid(String::from("foo")));
    assert!(s.contains("Invalid"));
    assert!(s.contains("foo"));
}

#[test]
fn tests_outcome_implements_debug() {
    let s = format!("{:?}", Outcome::Invalid(String::from("foo")));
    assert!(s.contains("Invalid"));
    assert!(s.contains("foo"));
}

#[test]
fn name() {
    let module = addition::addition_1();
    assert_eq!("addition", module.topic_name());
}

#[test]
fn tests_name() {
    let module = subtraction::subtraction_1();
    assert_eq!("subtraction", module.topic_name());
}

#[test]
fn display_ask_answer() {
    let module = Addition::try_from(addition::Config {
        min_val: 10,
        max_val: 30,
    })
    .unwrap();

    let mut rand = ScriptedSource::new(vec![12, 13]);

    let question = module.ask(&mut rand);
    assert_eq!(vec![20, 20], widths(&rand));
    let s = question.to_string();
    assert!(s.contains("Can you add these two numbers for me."), "{}", s);
    assert!(s.contains("22 + 23"), "{}", s);

    assert_eq!(Outcome::Invalid("'foo' does not appear to be a valid integer".into()), question.answer("foo"));
    assert_eq!(Outcome::Incorrect, question.answer("-1"));
    assert_eq!(Outcome::Incorrect, question.answer("44"));
    assert_eq!(Outcome::Incorrect, question.answer("46"));
    assert_eq!(Outcome::Correct, question.answer("45"));
}

#[test]
fn invalid_config() {
    let module = Addition::try_from(addition::Config {
        min_val: 10,
        max_val: 10,
    });
    assert_eq!("min_val must be less than max_val", module.err().unwrap().to_string());

    let module = Addition::try_from(addition::Config {
        min_val: 10,
        max_val: (u32::MAX << 1) + 1,
    });
    assert_eq!(format!("max_val cannot exceed {}", u32::MAX >> 1), module.err().unwrap().to_string());
}

#[test]
fn presets() {
    addition::addition_1();
    addition::addition_2();
}

#[test]
fn display_ask_answer_nonnegative() {
    let module = Subtraction::try_from(subtraction::Config {
        min_val: 10,
        max_val: 30,
        allow_negative: false,
    })
    .unwrap();

    let mut rand = ScriptedSource::new(vec![17, 11]);

    let question = module.ask(&mut rand);
    assert_eq!(vec![20, 27], widths(&rand));
    let s = question.to_string();
    assert!(s.contains("Can you subtract these two numbers for me."), "{}", s);
    assert!(s.contains("27 – 11"), "{}", s);

    assert_eq!(Outcome::Invalid("'foo' does not appear to be a valid integer".into()), question.answer("foo"));
    assert_eq!(Outcome::Incorrect, question.answer("15"));
    assert_eq!(Outcome::Incorrect, question.answer("17"));
    assert_eq!(Outcome::Correct, question.answer("16"));
}

#[test]
fn question_with_zero_nonnegative() {
    let module = Subtraction::try_from(subtraction::Config {
        min_val: 0,
        max_val: 30,
        allow_negative: false,
    })
    .unwrap();

    let mut rand = ScriptedSource::new(vec![0]);
    let question = module.ask(&mut rand);
    assert_eq!(vec![30], widths(&rand));
    let s = question.to_string();
    assert!(s.contains("0 – 0"), "{}", s);
    assert_eq!(Outcome::Correct, question.answer("0"));
    assert_eq!(1, rand.history().len());
}

#[test]
fn display_ask_answer_negative() {
    let module = Subtraction::try_from(subtraction::Config {
        min_val: 10,
        max_val: 30,
        allow_negative: true,
    })
    .unwrap();

    let mut rand = ScriptedSource::new(vec![17, 19]);

    let question = module.ask(&mut rand);
    assert_eq!(vec![20, 20], widths(&rand));
    let s = question.to_string();
    assert!(s.contains("Can you subtract these two numbers for me."), "{}", s);
    assert!(s.contains("27 – 29"), "{}", s);

    assert_eq!(Outcome::Invalid("'foo' does not appear to be a valid integer".into()), question.answer("foo"));
    assert_eq!(Outcome::Incorrect, question.answer("-1"));
    assert_eq!(Outcome::Incorrect, question.answer("-3"));
    assert_eq!(Outcome::Correct, question.answer("-2"));
}

#[test]
fn tests_invalid_config() {
    let module = Subtraction::try_from(subtraction::Config {
        min_val: 10,
        max_val: 10,
        allow_negative: false,
    });
    assert_eq!("min_val must be less than max_val", module.err().unwrap().to_string());

    let module = Subtraction::try_from(subtraction::Config {
        min_val: 10,
        max_val: (u32::MAX << 1) + 1,
        allow_negative: false,
    });
    assert_eq!(format!("max_val cannot exceed {}", u32::MAX >> 1), module.err().unwrap().to_string());
}

#[test]
fn tests_presets() {
    subtraction::subtraction_1();
    subtraction::subtraction_2();
    subtraction::subtraction_3();
}

#[test]
fn question_text_is_exact() {
    let module = Addition::new(addition::Config { min_val: 10, max_val: 30 }).unwrap();
    let mut rand = ScriptedSource::new(vec![12, 13]);
    let question = module.ask(&mut rand);
    assert_eq!(vec![20, 20], widths(&rand));
    assert_eq!("Can you add these two numbers for me.\n22 + 23 = ?", question.to_string());
    assert_eq!(Operator::Plus, question.op());
    assert_eq!(22, question.lhs());
    assert_eq!(23, question.rhs());
}

#[test]
fn grading_twice_gives_the_same_outcome() {
    let question = mathkid::Question::difference(27, 11);
    for raw in ["16", "15", "foo", "", "-16"] {
        assert_eq!(question.answer(raw), question.answer(raw));
    }
}

#[test]
fn answers_are_read_as_signed_base_ten_integers() {
    let question = mathkid::Question::sum(2, 3);
    assert_eq!(Outcome::Correct, question.answer("+5"));
    assert_eq!(Outcome::Correct, question.answer("005"));
    assert_eq!(Outcome::Incorrect, question.answer("-5"));
    assert_eq!(Outcome::Incorrect, question.answer("-9223372036854775808"));
    assert_eq!(Outcome::Invalid("'' does not appear to be a valid integer".into()), question.answer(""));
    assert_eq!(Outcome::Invalid("'-' does not appear to be a valid integer".into()), question.answer("-"));
    assert_eq!(Outcome::Invalid("'+' does not appear to be a valid integer".into()), question.answer("+"));
    assert_eq!(Outcome::Invalid("'5 ' does not appear to be a valid integer".into()), question.answer("5 "));
    assert_eq!(Outcome::Invalid("'4.9' does not appear to be a valid integer".into()), question.answer("4.9"));
    assert_eq!(
        Outcome::Invalid("'9223372036854775808' does not appear to be a valid integer".into()),
        question.answer("9223372036854775808")
    );
    assert_eq!(
        Outcome::Invalid("'-9223372036854775809' does not appear to be a valid integer".into()),
        question.answer("-9223372036854775809")
    );
}

#[test]
fn largest_operands_sum_exactly() {
    let question = mathkid::Question::sum(2_147_483_646, 2_147_483_646);
    assert_eq!(Outcome::Correct, question.answer("4294967292"));
    let question = mathkid::Question::difference(0, 2_147_483_646);
    assert_eq!(Outcome::Correct, question.answer("-2147483646"));
}

#[test]
fn config_errors_are_told_apart() {
    let at_ceiling = addition::Config { min_val: 0, max_val: u32::MAX >> 1 };
    assert!(at_ceiling.validate().is_ok());
    let above = addition::Config { min_val: 0, max_val: (u32::MAX >> 1) + 1 };
    assert_eq!(Err(ConfigError::RangeTooLarge), above.validate());
    let empty = addition::Config { min_val: 5, max_val: 5 };
    assert_eq!(Err(ConfigError::InvalidRange), empty.validate());
    let reversed = subtraction::Config { min_val: 6, max_val: 5, allow_negative: true };
    assert_eq!(Err(ConfigError::InvalidRange), reversed.validate());
    assert!(Subtraction::new(reversed).is_err());
    assert_eq!("max_val cannot exceed 2147483647", ConfigError::RangeTooLarge.to_string());
}

#[test]
fn addition_scenario_from_scripted_draws() {
    let module = Module::Addition(Addition::new(addition::Config { min_val: 10, max_val: 30 }).unwrap());
    let mut rand = ScriptedSource::new(vec![12, 13]);
    let question = module.ask(&mut rand);
    assert_eq!(vec![20, 20], widths(&rand));
    assert!(question.to_string().contains("22 + 23 = ?"));
    assert_eq!(Outcome::Incorrect, question.answer("44"));
    assert_eq!(Outcome::Correct, question.answer("45"));
    assert_eq!("addition", module.topic_name());
}

#[test]
fn subtraction_scenario_from_scripted_draws() {
    let config = subtraction::Config { min_val: 10, max_val: 30, allow_negative: false };
    let module = Module::Subtraction(Subtraction::new(config).unwrap());
    let mut rand = ScriptedSource::new(vec![17, 11]);
    let question = module.ask(&mut rand);
    assert_eq!(vec![20, 27], widths(&rand));
    assert!(question.to_string().contains("27 – 11 = ?"));
    assert_eq!(Outcome::Incorrect, question.answer("15"));
    assert_eq!(Outcome::Correct, question.answer("16"));
    assert_eq!(2, rand.history().len());
}

#[test]
fn random_operands_stay_in_range() {
    let mut rand = RandomSource::from_seed(42);
    let add = Addition::new(addition::Config { min_val: 3, max_val: 7 }).unwrap();
    let sub = Subtraction::new(subtraction::Config { min_val: 3, max_val: 7, allow_negative: false }).unwrap();
    let neg = Subtraction::new(subtraction::Config { min_val: 3, max_val: 7, allow_negative: true }).unwrap();
    for _ in 0..200 {
        let q = add.ask(&mut rand);
        assert!((3..7).contains(&q.lhs()) && (3..7).contains(&q.rhs()));
        let q = sub.ask(&mut rand);
        assert!((3..7).contains(&q.lhs()) && 0 <= q.rhs() && q.rhs() < q.lhs());
        let q = neg.ask(&mut rand);
        assert!((3..7).contains(&q.lhs()) && (3..7).contains(&q.rhs()));
    }
}

#[test]
fn random_source_draws_from_width_one_range() {
    let mut rand = RandomSource::from_seed(7);
    for _ in 0..20 {
        assert_eq!(5, rand.next_range(5, 6));
    }
}
