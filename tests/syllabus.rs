use mathkid::addition;
use mathkid::subtraction;
use mathkid::{primary, Catalog, Course, Module, Syllabus};

fn course_of(entries: Vec<(&str, Module)>) -> Course {
    let mut modules = Catalog::new();
    for (name, module) in entries {
        modules.insert(String::from(name), module);
    }
    Course { modules }
}

#[test]
fn primary_presets() {
    let syllabus = primary();
    assert!(syllabus.courses.len() != 0);
    for i in 0..syllabus.courses.len() {
        assert!(syllabus.courses.value_at(i).modules.len() != 0);
    }
}

#[test]
fn course_get_topic_names() {
    let course = course_of(vec![
        ("addition_2", Module::Addition(addition::addition_2())),
        ("subtraction_2", Module::Subtraction(subtraction::subtraction_2())),
        ("addition_1", Module::Addition(addition::addition_1())),
    ]);
    assert_eq!(vec!["addition", "subtraction"], course.get_topic_names());
}

#[test]
fn syllabus_get_topic_names() {
    let mut courses = Catalog::new();
    courses.insert(
        String::from("arithmetics_1"),
        course_of(vec![("addition_1", Module::Addition(addition::addition_2()))]),
    );
    courses.insert(
        String::from("arithmetics_2"),
        course_of(vec![("subtraction_2", Module::Subtraction(subtraction::subtraction_2()))]),
    );
    let syllabus = Syllabus { courses };
    assert_eq!(vec!["addition", "subtraction"], syllabus.get_topic_names());
}

#[test]
fn topic_names_are_sorted_whatever_the_insertion_order() {
    let course = course_of(vec![
        ("b", Module::Subtraction(subtraction::subtraction_1())),
        ("a", Module::Subtraction(subtraction::subtraction_3())),
        ("c", Module::Addition(addition::addition_3())),
    ]);
    assert_eq!(vec!["addition", "subtraction"], course.get_topic_names());
    let empty = course_of(vec![]);
    assert!(empty.get_topic_names().is_empty());
    let primary = primary();
    assert_eq!(vec!["addition", "subtraction"], primary.get_topic_names());
}

#[test]
fn catalog_replaces_an_entry_in_place() {
    let mut catalog = Catalog::new();
    catalog.insert(String::from("x"), 1u32);
    catalog.insert(String::from("y"), 2u32);
    catalog.insert(String::from("x"), 3u32);
    assert_eq!(2, catalog.len());
    assert_eq!("x", catalog.name_at(0));
    assert_eq!(3, *catalog.value_at(0));
    assert_eq!(Some(&2), catalog.get("y"));
    assert_eq!(None, catalog.get("z"));
}

#[test]
fn primary_courses_in_order() {
    let syllabus = primary();
    assert_eq!(3, syllabus.courses.len());
    assert_eq!("arithmetics_1", syllabus.courses.name_at(0));
    assert_eq!("arithmetics_3", syllabus.courses.name_at(2));
    let course = syllabus.courses.get("arithmetics_2").unwrap();
    assert_eq!("addition_2", course.modules.name_at(0));
    assert_eq!("subtraction_2", course.modules.name_at(1));
}

#[test]
fn modules_are_selected_by_topic() {
    let course = course_of(vec![
        ("addition_1", Module::Addition(addition::addition_1())),
        ("subtraction_1", Module::Subtraction(subtraction::subtraction_1())),
        ("addition_2", Module::Addition(addition::addition_2())),
    ]);
    assert_eq!(3, course.select_modules(None).len());
    let sums = course.select_modules(Some("addition"));
    assert_eq!(2, sums.len());
    assert!(sums.iter().all(|m| m.topic_name() == "addition"));
    assert_eq!(1, course.select_modules(Some("subtraction")).len());
    assert!(course.select_modules(Some("division")).is_empty());
}
