//! A student's profile, and the names under which profiles are stored.

use crate::order::{ascending, sorted_strings, texts};
use crate::text::push_char;
use vstd::prelude::*;

verus! {

/// A student's profile.
#[derive(Debug, PartialEq, Eq)]
pub struct Profile {
    pub first_name: String,
    pub course: String,
}

/// The ASCII transliteration of `s` that `unidecode::unidecode` gives.
pub uninterp spec fn transliteration(s: Seq<char>) -> Seq<char>;

/// Relies on `unidecode::unidecode`: the ASCII transliteration of `s`, which depends on the
/// characters of `s` alone.
#[verifier::external_body]
fn transliterate(s: &str) -> (r: String)
    ensures
        r@ == transliteration(s@),
{
    unidecode::unidecode(s)
}

/// Whether `c` is an ASCII letter.
pub open spec fn is_ascii_letter(c: char) -> bool {
    ('a' <= c && c <= 'z') || ('A' <= c && c <= 'Z')
}

/// The lower-case form of the ASCII letter `c`.
pub open spec fn ascii_lower(c: char) -> char {
    if 'A' <= c && c <= 'Z' {
        ((c as int + 32) as u8) as char
    } else {
        c
    }
}

/// The ASCII letters of `s`, in order and in lower case.
pub open spec fn slug_text(s: Seq<char>) -> Seq<char>
    decreases s.len(),
{
    if s.len() == 0 {
        Seq::empty()
    } else if is_ascii_letter(s.last()) {
        slug_text(s.drop_last()).push(ascii_lower(s.last()))
    } else {
        slug_text(s.drop_last())
    }
}

/// The ASCII letters of `transliterated`, in order and in lower case.
pub fn slug(transliterated: &str) -> (r: String)
    ensures
        r@ == slug_text(transliterated@),
{
    let n = transliterated.unicode_len();
    let mut r = String::new();
    let mut i: usize = 0;
    while i < n
        invariant
            n == transliterated@.len(),
            i <= n,
            r@ == slug_text(transliterated@.take(i as int)),
        decreases n - i,
    {
        let c = transliterated.get_char(i);
        assert(transliterated@.take(i + 1 as int).drop_last() =~= transliterated@.take(i as int));
        if 'A' <= c && c <= 'Z' {
            push_char(&mut r, ((c as u32 + 32) as u8) as char);
        } else if 'a' <= c && c <= 'z' {
            push_char(&mut r, c);
        }
        i = i + 1;
    }
    assert(transliterated@.take(n as int) =~= transliterated@);
    r
}

/// A slug of `s`: its ASCII transliteration, keeping only letters, in lower case.
pub fn sanitise(s: &str) -> (r: String)
    ensures
        r@ == slug_text(transliteration(s@)),
{
    let transliterated = transliterate(s);
    slug(transliterated.as_str())
}

impl Profile {
    /// The slug of the student's first name, used to name the profile's file.
    pub fn sanitised_first_name(&self) -> (r: String)
        ensures
            r@ == slug_text(transliteration(self.first_name@)),
    {
        sanitise(self.first_name.as_str())
    }
}

/// The end of the name of every profile file.
pub open spec fn profile_suffix() -> Seq<char> {
    ".profile.json"@
}

/// The characters of `f` before its first `.` (all of `f` where it has none).
pub open spec fn before_dot(f: Seq<char>) -> Seq<char>
    decreases f.len(),
{
    if f.len() == 0 || f[0] == '.' {
        Seq::empty()
    } else {
        seq![f[0]] + before_dot(f.drop_first())
    }
}

/// The profile stored in the file called `f`, if `f` names a profile file.
pub open spec fn profile_name_of(f: Seq<char>) -> Option<Seq<char>> {
    if f.len() >= profile_suffix().len() && f.skip(f.len() - profile_suffix().len())
        == profile_suffix() {
        Some(before_dot(f))
    } else {
        None
    }
}

/// The profiles stored in the files called `files`, in the order of the files.
pub open spec fn profile_names(files: Seq<Seq<char>>) -> Seq<Seq<char>>
    decreases files.len(),
{
    if files.len() == 0 {
        Seq::empty()
    } else {
        match profile_name_of(files.last()) {
            Some(p) => profile_names(files.drop_last()).push(p),
            None => profile_names(files.drop_last()),
        }
    }
}

/// Whether the file name `f` ends with the profile suffix.
fn is_profile_file(f: &str) -> (r: bool)
    ensures
        r == (f@.len() >= profile_suffix().len() && f@.skip(f@.len() - profile_suffix().len())
            == profile_suffix()),
{
    let suffix = ".profile.json";
    assert(suffix@ == profile_suffix());
    let m = suffix.unicode_len();
    let n = f.unicode_len();
    if n < m {
        return false;
    }
    let mut k: usize = 0;
    while k < m
        invariant
            m == suffix@.len(),
            suffix@ == profile_suffix(),
            n == f@.len(),
            m <= n,
            k <= m,
            forall|j: int| 0 <= j < k ==> f@[n - m + j] == suffix@[j],
        decreases m - k,
    {
        if f.get_char(n - m + k) != suffix.get_char(k) {
            assert(f@.skip(n - m)[k as int] != suffix@[k as int]);
            return false;
        }
        k = k + 1;
    }
    assert(f@.skip(n - m) =~= suffix@);
    true
}

/// The characters of `f` before its first `.`.
fn name_before_dot(f: &str) -> (r: String)
    ensures
        r@ == before_dot(f@),
{
    let n = f.unicode_len();
    let mut r = String::new();
    assert(f@.skip(0) =~= f@);
    assert(r@ + before_dot(f@) =~= before_dot(f@));
    let mut i: usize = 0;
    while i < n
        invariant
            n == f@.len(),
            i <= n,
            forall|j: int| 0 <= j < i ==> f@[j] != '.',
            r@ == f@.take(i as int),
            before_dot(f@) == r@ + before_dot(f@.skip(i as int)),
        decreases n - i,
    {
        let c = f.get_char(i);
        if c == '.' {
            assert(before_dot(f@.skip(i as int)) == Seq::<char>::empty());
            assert(r@ + Seq::<char>::empty() =~= r@);
            return r;
        }
        let ghost rest = f@.skip(i as int);
        let ghost old_r = r@;
        assert(rest.drop_first() =~= f@.skip(i + 1 as int));
        assert(before_dot(rest) == seq![c] + before_dot(rest.drop_first()));
        push_char(&mut r, c);
        assert(r@ =~= f@.take(i + 1 as int));
        assert(old_r + (seq![c] + before_dot(f@.skip(i + 1 as int))) =~= r@ + before_dot(
            f@.skip(i + 1 as int),
        ));
        i = i + 1;
    }
    assert(before_dot(f@.skip(n as int)) == Seq::<char>::empty());
    assert(r@ + Seq::<char>::empty() =~= r@);
    r
}

/// The names of the profiles stored in the files called `files`, in ascending order.
pub fn get_profile_names(files: Vec<String>) -> (r: Vec<String>)
    ensures
        texts(r@).to_multiset() == profile_names(texts(files@)).to_multiset(),
        ascending(texts(r@)),
{
    let mut names: Vec<String> = Vec::new();
    let mut i: usize = 0;
    while i < files.len()
        invariant
            i <= files@.len(),
            texts(names@) == profile_names(texts(files@).take(i as int)),
        decreases files@.len() - i,
    {
        let f = files[i].as_str();
        let ghost before = names@;
        assert(texts(files@).take(i + 1 as int).drop_last() =~= texts(files@).take(i as int));
        assert(texts(files@).take(i + 1 as int).last() == f@);
        if is_profile_file(f) {
            let name = name_before_dot(f);
            names.push(name);
            assert(texts(names@) =~= texts(before).push(name@));
        }
        i = i + 1;
    }
    assert(texts(files@).take(files@.len() as int) =~= texts(files@));
    sorted_strings(names)
}

} // verus!
