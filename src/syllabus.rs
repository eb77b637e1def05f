//! Courses of modules and the syllabus of courses, with the topics each teaches.

use crate::catalog::{has_name, Catalog};
use crate::order::{ascending, distinct_sorted, sorted_strings, strictly_ascending, texts};
use crate::topic::addition::{Addition, addition_1, addition_2, addition_3};
use crate::topic::subtraction::{Subtraction, subtraction_1, subtraction_2, subtraction_3};
use crate::topic::{addition, subtraction, topic_of, Module};
use vstd::prelude::*;
use vstd::string::StringExecFns;

verus! {

broadcast use vstd::seq_lib::lemma_seq_concat_contains_all_elements;

/// Whether some module of `modules` teaches the topic `t`.
pub open spec fn teaches(modules: Seq<(Seq<char>, Module)>, t: Seq<char>) -> bool {
    exists|i: int| 0 <= i < modules.len() && topic_of(#[trigger] modules[i].1) == t
}

/// Whether some course of `courses` teaches the topic `t`.
pub open spec fn any_teaches(courses: Seq<(Seq<char>, Course)>, t: Seq<char>) -> bool {
    exists|i: int| 0 <= i < courses.len() && teaches((#[trigger] courses[i].1).modules@, t)
}

/// The modules of `modules`, in order, that teach `topic`, or all of them where `topic` is
/// `None`.
pub open spec fn modules_on(modules: Seq<(Seq<char>, Module)>, topic: Option<Seq<char>>) -> Seq<
    Module,
>
    decreases modules.len(),
{
    if modules.len() == 0 {
        Seq::empty()
    } else {
        let rest = modules_on(modules.drop_last(), topic);
        let m = modules.last().1;
        if topic is None || topic == Some(topic_of(m)) {
            rest.push(m)
        } else {
            rest
        }
    }
}

/// A set of named modules.
pub struct Course {
    /// Module names and the modules.
    pub modules: Catalog<Module>,
}

impl Course {
    /// The modules of this course that teach `topic`, or all of them where `topic` is `None`.
    pub fn select_modules(&self, topic: Option<&str>) -> (r: Vec<&Module>)
        ensures
            r@.map_values(|m: &Module| *m) == modules_on(
                self.modules@,
                match topic {
                    Some(t) => Some(t@),
                    None => None,
                },
            ),
    {
        let ghost wanted = match topic {
            Some(t) => Some(t@),
            None => None,
        };
        let n = self.modules.len();
        let mut r: Vec<&Module> = Vec::new();
        let mut i: usize = 0;
        while i < n
            invariant
                n == self.modules@.len(),
                i <= n,
                wanted == (match topic {
                    Some(t) => Some(t@),
                    None => None,
                }),
                r@.map_values(|m: &Module| *m) == modules_on(self.modules@.take(i as int), wanted),
            decreases n - i,
        {
            let m = self.modules.value_at(i);
            assert(self.modules@.take(i + 1 as int).drop_last() =~= self.modules@.take(i as int));
            let keep = match topic {
                None => true,
                Some(t) => {
                    let name = m.topic_name();
                    name == String::from_str(t)
                },
            };
            let ghost before = r@;
            if keep {
                r.push(m);
                assert(r@.map_values(|m: &Module| *m) =~= before.map_values(|m: &Module| *m).push(*m));
            }
            i = i + 1;
        }
        assert(self.modules@.take(n as int) =~= self.modules@);
        r
    }

    /// The distinct names of the topics taught in this course, in ascending order.
    pub fn get_topic_names(&self) -> (r: Vec<String>)
        ensures
            strictly_ascending(texts(r@)),
            forall|t: Seq<char>| texts(r@).contains(t) <==> teaches(self.modules@, t),
    {
        let n = self.modules.len();
        let mut names: Vec<String> = Vec::new();
        let mut i: usize = 0;
        while i < n
            invariant
                n == self.modules@.len(),
                i <= n,
                names@.len() == i,
                forall|k: int| 0 <= k < i ==> texts(names@)[k] == topic_of(self.modules@[k].1),
            decreases n - i,
        {
            let name = self.modules.value_at(i).topic_name();
            let ghost before = names@;
            names.push(name);
            proof {
                assert(names@[i as int] == name);
                assert(texts(names@)[i as int] == name@);
                assert(name@ == topic_of(self.modules@[i as int].1));
                assert forall|k: int| 0 <= k <= i implies texts(names@)[k] == topic_of(
                    self.modules@[k].1,
                ) by {
                    if k < i {
                        assert(names@[k] == before[k]);
                        assert(texts(before)[k] == before[k]@);
                        assert(texts(names@)[k] == names@[k]@);
                    }
                }
            }
            i = i + 1;
        }
        proof {
            assert forall|t: Seq<char>| texts(names@).contains(t) <==> teaches(self.modules@, t) by {
                if teaches(self.modules@, t) {
                    let k = choose|k: int| 0 <= k < n && topic_of(#[trigger] self.modules@[k].1) == t;
                    assert(texts(names@)[k] == t);
                }
            }
        }
        distinct_sorted(names)
    }
}

/// A set of named courses available to students.
pub struct Syllabus {
    /// Course names and the courses.
    pub courses: Catalog<Course>,
}

impl Syllabus {
    /// The names of the courses, in ascending order.
    pub fn course_names(&self) -> (r: Vec<String>)
        ensures
            texts(r@).to_multiset() == self.courses@.map_values(|e: (Seq<char>, Course)| e.0).to_multiset(),
            ascending(texts(r@)),
    {
        let n = self.courses.len();
        let mut names: Vec<String> = Vec::new();
        let mut i: usize = 0;
        while i < n
            invariant
                n == self.courses@.len(),
                i <= n,
                texts(names@) == self.courses@.take(i as int).map_values(|e: (Seq<char>, Course)| e.0),
            decreases n - i,
        {
            let ghost before = names@;
            names.push(self.courses.name_at(i).clone());
            assert(texts(names@) =~= texts(before).push(self.courses@[i as int].0));
            assert(self.courses@.take(i + 1 as int).map_values(|e: (Seq<char>, Course)| e.0) =~= self.courses@.take(
                i as int,
            ).map_values(|e: (Seq<char>, Course)| e.0).push(self.courses@[i as int].0));
            i = i + 1;
        }
        assert(self.courses@.take(n as int) =~= self.courses@);
        sorted_strings(names)
    }

    /// The distinct names of the topics taught across all courses, in ascending order.
    pub fn get_topic_names(&self) -> (r: Vec<String>)
        ensures
            strictly_ascending(texts(r@)),
            forall|t: Seq<char>| texts(r@).contains(t) <==> any_teaches(self.courses@, t),
    {
        let n = self.courses.len();
        let mut names: Vec<String> = Vec::new();
        let mut i: usize = 0;
        while i < n
            invariant
                n == self.courses@.len(),
                i <= n,
                forall|t: Seq<char>|
                    texts(names@).contains(t) <==> any_teaches(self.courses@.take(i as int), t),
            decreases n - i,
        {
            let mut course_names = self.courses.value_at(i).get_topic_names();
            let ghost before = names@;
            let ghost added = course_names@;
            names.append(&mut course_names);
            proof {
                assert(texts(names@) =~= texts(before) + texts(added));
                let prefix = self.courses@.take(i as int);
                let next = self.courses@.take(i + 1 as int);
                assert forall|t: Seq<char>| texts(names@).contains(t) <==> any_teaches(next, t) by {
                    if any_teaches(next, t) {
                        let c = choose|c: int| 0 <= c < next.len() && teaches(
                            (#[trigger] next[c]).1.modules@,
                            t,
                        );
                        if c < i {
                            assert(prefix[c] == next[c]);
                        }
                    }
                    if any_teaches(prefix, t) {
                        let c = choose|c: int| 0 <= c < prefix.len() && teaches(
                            (#[trigger] prefix[c]).1.modules@,
                            t,
                        );
                        assert(prefix[c] == next[c]);
                    }
                    if teaches(self.courses@[i as int].1.modules@, t) {
                        assert(next[i as int] == self.courses@[i as int]);
                    }
                }
            }
            i = i + 1;
        }
        assert(self.courses@.take(n as int) =~= self.courses@);
        distinct_sorted(names)
    }
}

/// Whether `c` holds exactly two modules: an addition module called `a_name` configured by
/// `a`, then a subtraction module called `s_name` configured by `s`.
pub open spec fn holds_pair(
    c: Course,
    a_name: Seq<char>,
    a: addition::Config,
    s_name: Seq<char>,
    s: subtraction::Config,
) -> bool {
    &&& c.modules@.len() == 2
    &&& c.modules@[0].0 == a_name
    &&& c.modules@[0].1 matches Module::Addition(m) && m@ == a
    &&& c.modules@[1].0 == s_name
    &&& c.modules@[1].1 matches Module::Subtraction(m) && m@ == s
}

/// A course of one addition module and one subtraction module, under different names.
fn pair_course(a_name: &str, a: Addition, s_name: &str, s: Subtraction) -> (r: Course)
    requires
        a_name@ != s_name@,
    ensures
        holds_pair(r, a_name@, a@, s_name@, s@),
{
    let mut modules = Catalog::new();
    modules.insert(String::from_str(a_name), Module::Addition(a));
    assert(modules@ =~= seq![(a_name@, modules@[0].1)]);
    assert(!has_name(modules@, s_name@));
    modules.insert(String::from_str(s_name), Module::Subtraction(s));
    Course { modules }
}

/// The first course: sums and differences below ten.
fn arithmetics_1() -> (r: Course)
    ensures
        holds_pair(
            r,
            "addition_1"@,
            addition::Config { min_val: 0, max_val: 10 },
            "subtraction_1"@,
            subtraction::Config { min_val: 0, max_val: 10, allow_negative: false },
        ),
{
    proof {
        reveal_strlit("addition_1");
        reveal_strlit("subtraction_1");
        assert("addition_1"@[0] != "subtraction_1"@[0]);
    }
    pair_course("addition_1", addition_1(), "subtraction_1", subtraction_1())
}

/// The second course: sums and differences below ten thousand.
fn arithmetics_2() -> (r: Course)
    ensures
        holds_pair(
            r,
            "addition_2"@,
            addition::Config { min_val: 0, max_val: 9_999 },
            "subtraction_2"@,
            subtraction::Config { min_val: 0, max_val: 9_999, allow_negative: false },
        ),
{
    proof {
        reveal_strlit("addition_2");
        reveal_strlit("subtraction_2");
        assert("addition_2"@[0] != "subtraction_2"@[0]);
    }
    pair_course("addition_2", addition_2(), "subtraction_2", subtraction_2())
}

/// The third course: sums and differences below a hundred million.
fn arithmetics_3() -> (r: Course)
    ensures
        holds_pair(
            r,
            "addition_3"@,
            addition::Config { min_val: 0, max_val: 99_999_999 },
            "subtraction_3"@,
            subtraction::Config { min_val: 0, max_val: 99_999_999, allow_negative: false },
        ),
{
    proof {
        reveal_strlit("addition_3");
        reveal_strlit("subtraction_3");
        assert("addition_3"@[0] != "subtraction_3"@[0]);
    }
    pair_course("addition_3", addition_3(), "subtraction_3", subtraction_3())
}

/// The syllabus of primary school: three courses of growing difficulty.
pub fn primary() -> (r: Syllabus)
    ensures
        r.courses@.len() == 3,
        r.courses@[0].0 == "arithmetics_1"@,
        r.courses@[1].0 == "arithmetics_2"@,
        r.courses@[2].0 == "arithmetics_3"@,
        holds_pair(
            r.courses@[0].1,
            "addition_1"@,
            addition::Config { min_val: 0, max_val: 10 },
            "subtraction_1"@,
            subtraction::Config { min_val: 0, max_val: 10, allow_negative: false },
        ),
        holds_pair(
            r.courses@[1].1,
            "addition_2"@,
            addition::Config { min_val: 0, max_val: 9_999 },
            "subtraction_2"@,
            subtraction::Config { min_val: 0, max_val: 9_999, allow_negative: false },
        ),
        holds_pair(
            r.courses@[2].1,
            "addition_3"@,
            addition::Config { min_val: 0, max_val: 99_999_999 },
            "subtraction_3"@,
            subtraction::Config { min_val: 0, max_val: 99_999_999, allow_negative: false },
        ),
{
    proof {
        reveal_strlit("arithmetics_1");
        reveal_strlit("arithmetics_2");
        reveal_strlit("arithmetics_3");
        assert("arithmetics_1"@[12] != "arithmetics_2"@[12]);
        assert("arithmetics_1"@[12] != "arithmetics_3"@[12]);
        assert("arithmetics_2"@[12] != "arithmetics_3"@[12]);
    }
    let mut courses = Catalog::new();
    courses.insert(String::from_str("arithmetics_1"), arithmetics_1());
    assert(courses@ =~= seq![("arithmetics_1"@, courses@[0].1)]);
    assert(!has_name(courses@, "arithmetics_2"@));
    courses.insert(String::from_str("arithmetics_2"), arithmetics_2());
    assert(courses@.len() == 2);
    assert(!has_name(courses@, "arithmetics_3"@));
    courses.insert(String::from_str("arithmetics_3"), arithmetics_3());
    Syllabus { courses }
}

} // verus!
