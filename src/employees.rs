//! A company directory driven by text commands: employees are added to
//! departments, listed, and removed, and departments are removed.
//!
//! Each command takes the words of the line that asked for it. Names of
//! employees and departments may span several words and may be wrapped in
//! quotes, which are dropped.
use vstd::prelude::*;
use vstd::string::StringExecFns;
use crate::text::{
    clean, clean_spec, join_spec, join_words, lower_of, lowercase, same_text, trim_end_spec,
    trim_start_spec, trim_whitespace,
};

verus! {

/// The commands, as their first word reads in lowercase.
pub const HELP: &'static str = "help";
pub const ADD: &'static str = "add";
pub const DEPT: &'static str = "dept";
pub const DEPT_SORT: &'static str = "deptsort";
pub const DEPTS: &'static str = "depts";
pub const ALL: &'static str = "all";
pub const ALL_BY_DEPT: &'static str = "allbydept";
pub const ALL_UNIQUE_PER_DEPT: &'static str = "unique";
pub const REMOVE: &'static str = "remove";
pub const REMOVE_DEPT: &'static str = "removedept";
pub const CLEAR: &'static str = "clear";
pub const STOP: &'static str = "stop";

/// The departments of a company, each with its employees in the order they
/// were added. No two departments share a name.
pub struct Company {
    depts: Vec<(String, Vec<String>)>,
}

/// A directory as names: each department's name and its employees' names.
pub type Directory = Seq<(Seq<char>, Seq<Seq<char>>)>;

/// The position of department `dept` in `d`, if it is there.
pub open spec fn dept_index(d: Directory, dept: Seq<char>) -> Option<int> {
    if exists|k: int| 0 <= k < d.len() && d[k].0 == dept {
        Some(choose|k: int| 0 <= k < d.len() && d[k].0 == dept)
    } else {
        None
    }
}

/// Whether no two departments of `d` share a name.
pub open spec fn unique_depts(d: Directory) -> bool {
    forall|i: int, j: int| 0 <= i < j < d.len() ==> d[i].0 != d[j].0
}

/// `d` with `name` added at the end of department `dept`, which is created
/// last when it is not there.
pub open spec fn with_employee(d: Directory, dept: Seq<char>, name: Seq<char>) -> Directory {
    match dept_index(d, dept) {
        Some(k) => d.update(k, (dept, d[k].1.push(name))),
        None => d.push((dept, seq![name])),
    }
}

/// `d` without department `dept`; the others keep their order.
pub open spec fn without_dept(d: Directory, dept: Seq<char>) -> Directory {
    match dept_index(d, dept) {
        Some(k) => d.remove(k),
        None => d,
    }
}

/// The first position of `x` in `s` from `i` on, if it is there.
pub open spec fn first_index_from<T>(s: Seq<T>, x: T, i: int) -> Option<int>
    decreases s.len() - i,
{
    if i < 0 || i >= s.len() {
        None
    } else if s[i] == x {
        Some(i)
    } else {
        first_index_from(s, x, i + 1)
    }
}

/// `s` with the item at `k` replaced by the last item, and shortened by one.
pub open spec fn swap_removed<T>(s: Seq<T>, k: int) -> Seq<T> {
    s.update(k, s.last()).drop_last()
}

/// What became of a command.
#[derive(Debug, PartialEq, Eq)]
pub enum Outcome {
    /// The command was carried out.
    Done,
    /// The command's words do not have its shape; the usage should be shown.
    Usage,
    /// No department has this name.
    NoSuchDept(String),
    /// The department has no employee of this name.
    NoSuchEmployee(String, String),
}

/// The words from `from` to the end, joined by spaces and cleaned.
pub open spec fn name_of(words: Seq<&str>, from: int, to: int) -> Seq<char> {
    clean_spec(join_spec(words.subrange(from, to).map_values(|w: &str| w@)))
}

proof fn lemma_first_index_from<T>(s: Seq<T>, x: T, i: int)
    ensures
        first_index_from(s, x, i) matches Some(k) ==> i <= k < s.len() && s[k] == x,
    decreases s.len() - i,
{
    if 0 <= i < s.len() && s[i] != x {
        lemma_first_index_from(s, x, i + 1);
    }
}

/// The position of the first word equal to `word`, if any.
pub open spec fn word_index(words: Seq<&str>, word: Seq<char>) -> Option<int> {
    first_index_from(words.map_values(|w: &str| w@), word, 0)
}

/// Whether `a` comes before `b` or equals it, comparing characters by code
/// point, as `String`'s order does.
pub open spec fn lex_le(a: Seq<char>, b: Seq<char>) -> bool
    decreases a.len(),
{
    if a.len() == 0 {
        true
    } else if b.len() == 0 {
        false
    } else if a[0] != b[0] {
        (a[0] as u32) < (b[0] as u32)
    } else {
        lex_le(a.drop_first(), b.drop_first())
    }
}

/// Whether the names are in order.
pub open spec fn sorted_names(s: Seq<Seq<char>>) -> bool {
    forall|i: int, j: int| 0 <= i < j < s.len() ==> lex_le(s[i], s[j])
}

/// Relies on `<[String]>::sort_unstable`: the same strings, in the order of
/// `String`'s `Ord`, which compares their UTF-8 bytes and so their
/// characters by code point.
#[verifier::external_body]
fn sort_strings(v: &mut Vec<String>)
    ensures
        final(v)@.map_values(|s: String| s@).to_multiset() == old(v)@.map_values(|s: String| s@).to_multiset(),
        sorted_names(final(v)@.map_values(|s: String| s@)),
{
    v.sort_unstable()
}

/// Each of `names` paired with department `dept`, in order.
pub open spec fn dept_pairs(dept: Seq<char>, names: Seq<Seq<char>>) -> Seq<(Seq<char>, Seq<char>)>
    decreases names.len(),
{
    if names.len() == 0 {
        Seq::empty()
    } else {
        dept_pairs(dept, names.drop_last()).push((names.last(), dept))
    }
}

/// Every employee of `d` with their department, department by department.
pub open spec fn pairs_of(d: Directory) -> Seq<(Seq<char>, Seq<char>)>
    decreases d.len(),
{
    if d.len() == 0 {
        Seq::empty()
    } else {
        pairs_of(d.drop_last()) + dept_pairs(d.last().0, d.last().1)
    }
}

/// `d` after removing the first employee named `name` from department
/// `dept`, whose last employee takes that place; `d` itself when either is
/// not there.
pub open spec fn after_removal(d: Directory, dept: Seq<char>, name: Seq<char>) -> Directory {
    match dept_index(d, dept) {
        None => d,
        Some(k) => match first_index_from(d[k].1, name, 0) {
            None => d,
            Some(i) => d.update(k, (d[k].0, swap_removed(d[k].1, i))),
        },
    }
}

/// Whether `r` reports the removal of `name` from `dept` in `d`: done, or
/// which of the two is not there.
pub open spec fn removal_reports(d: Directory, dept: Seq<char>, name: Seq<char>, r: Outcome) -> bool {
    match dept_index(d, dept) {
        None => r matches Outcome::NoSuchDept(x) && x@ == dept,
        Some(k) => match first_index_from(d[k].1, name, 0) {
            None => r matches Outcome::NoSuchEmployee(e, x) && e@ == name && x@ == dept,
            Some(_) => r == Outcome::Done,
        },
    }
}

impl View for Company {
    type V = Directory;

    closed spec fn view(&self) -> Directory {
        self.depts@.map_values(
            |e: (String, Vec<String>)| (e.0@, e.1@.map_values(|s: String| s@)),
        )
    }
}

impl Company {
    /// Whether no two departments share a name.
    pub open spec fn wf(&self) -> bool {
        unique_depts(self@)
    }

    /// A company with no departments.
    pub fn new() -> (r: Company)
        ensures
            r@ == Seq::<(Seq<char>, Seq<Seq<char>>)>::empty(),
            r.wf(),
    {
        let r = Company { depts: Vec::new() };
        assert(r@ =~= Seq::<(Seq<char>, Seq<Seq<char>>)>::empty());
        r
    }

    fn position(&self, dept: &str) -> (r: Option<usize>)
        requires
            self.wf(),
        ensures
            r matches Some(k) ==> dept_index(self@, dept@) == Some(k as int),
            r is None ==> dept_index(self@, dept@) is None,
    {
        let mut k: usize = 0;
        while k < self.depts.len()
            invariant
                k <= self.depts@.len(),
                self.wf(),
                self@.len() == self.depts@.len(),
                forall|j: int| 0 <= j < k ==> self@[j].0 != dept@,
            decreases self.depts@.len() - k,
        {
            if same_text(self.depts[k].0.as_str(), dept) {
                assert(unique_depts(self@));
                assert(self@[k as int].0 == dept@);
                proof {
                    let c = choose|c: int| 0 <= c < self@.len() && self@[c].0 == dept@;
                    assert(c == k) by {
                        if c < k {
                        } else if c > k {
                            assert(self@[k as int].0 != self@[c].0);
                        }
                    }
                }
                return Some(k);
            }
            k = k + 1;
        }
        None
    }

    /// Whether a department has the name `dept`.
    pub fn contains_key(&self, dept: &str) -> (r: bool)
        requires
            self.wf(),
        ensures
            r == dept_index(self@, dept@) is Some,
    {
        self.position(dept).is_some()
    }

    /// The employees of department `dept`, in the order they were added.
    pub fn get(&self, dept: &str) -> (r: Option<&Vec<String>>)
        requires
            self.wf(),
        ensures
            match dept_index(self@, dept@) {
                Some(k) => r matches Some(v) && v@.map_values(|s: String| s@) == self@[k].1,
                None => r is None,
            },
    {
        match self.position(dept) {
            Some(k) => Some(&self.depts[k].1),
            None => None,
        }
    }

    /// The names of the departments, in the order they were created.
    pub fn dept_names(&self) -> (r: Vec<String>)
        ensures
            r@.map_values(|s: String| s@) == self@.map_values(|e: (Seq<char>, Seq<Seq<char>>)| e.0),
    {
        let mut r: Vec<String> = Vec::new();
        let mut i: usize = 0;
        while i < self.depts.len()
            invariant
                i <= self.depts@.len(),
                self@.len() == self.depts@.len(),
                r@.len() == i,
                forall|j: int| 0 <= j < i ==> (#[trigger] r@[j])@ == self@[j].0,
            decreases self.depts@.len() - i,
        {
            r.push(self.depts[i].0.clone());
            i = i + 1;
        }
        assert(r@.map_values(|s: String| s@) =~= self@.map_values(|e: (Seq<char>, Seq<Seq<char>>)| e.0));
        r
    }

    /// Adds `name` at the end of department `dept`, creating the department
    /// last if it is not there.
    pub fn add(&mut self, dept: &str, name: &str)
        requires
            old(self).wf(),
        ensures
            final(self).wf(),
            final(self)@ == with_employee(old(self)@, dept@, name@),
    {
        let ghost before = self@;
        match self.position(dept) {
            Some(k) => {
                let entry = &mut self.depts[k];
                entry.1.push(String::from_str(name));
                proof {
                    assert(self@ =~= with_employee(before, dept@, name@)) by {
                        assert(self@[k as int].1 =~= before[k as int].1.push(name@));
                    }
                }
            },
            None => {
                let mut staff: Vec<String> = Vec::new();
                staff.push(String::from_str(name));
                self.depts.push((String::from_str(dept), staff));
                proof {
                    assert(self@[before.len() as int].1 =~= seq![name@]);
                    assert(self@ =~= with_employee(before, dept@, name@));
                }
            },
        }
    }

    /// Removes department `dept` and its employees; the others keep their
    /// order. Returns whether it was there.
    pub fn remove(&mut self, dept: &str) -> (r: bool)
        requires
            old(self).wf(),
        ensures
            final(self).wf(),
            r == dept_index(old(self)@, dept@) is Some,
            final(self)@ == without_dept(old(self)@, dept@),
    {
        let ghost before = self@;
        match self.position(dept) {
            Some(k) => {
                self.depts.remove(k);
                assert(self@ =~= before.remove(k as int));
                true
            },
            None => false,
        }
    }

    /// Removes the first employee named `name` from department `dept`,
    /// moving the department's last employee into that place.
    pub fn remove_employee_from(&mut self, dept: &str, name: &str) -> (r: Outcome)
        requires
            old(self).wf(),
        ensures
            final(self).wf(),
            final(self)@ == after_removal(old(self)@, dept@, name@),
            removal_reports(old(self)@, dept@, name@, r),
    {
        let ghost before = self@;
        let k = match self.position(dept) {
            Some(k) => k,
            None => {
                return Outcome::NoSuchDept(String::from_str(dept));
            },
        };
        let ghost staff = before[k as int].1;
        let mut i: usize = 0;
        let n = self.depts[k].1.len();
        while i < n
            invariant
                self@ == before,
                0 <= k < self.depts@.len(),
                self@.len() == self.depts@.len(),
                n == self.depts@[k as int].1@.len(),
                staff == self@[k as int].1,
                staff.len() == n,
                unique_depts(before),
                before == old(self)@,
                dept_index(before, dept@) == Some(k as int),
                i <= n,
                first_index_from(staff, name@, 0) == first_index_from(staff, name@, i as int),
            decreases n - i,
        {
            if same_text(self.depts[k].1[i].as_str(), name) {
                assert(staff[i as int] == name@);
                assert(first_index_from(staff, name@, i as int) == Some(i as int));
                self.depts[k].1.swap_remove(i);
                proof {
                    assert(self@[k as int].1 =~= swap_removed(staff, i as int));
                    assert(self@ =~= before.update(k as int, (before[k as int].0, swap_removed(staff, i as int))));
                    assert forall|a: int, b: int| 0 <= a < b < self@.len() implies self@[a].0 != self@[b].0 by {
                        assert(before[a].0 == self@[a].0);
                        assert(before[b].0 == self@[b].0);
                        assert(before[a].0 != before[b].0);
                    }
                    assert(dept_index(before, dept@) == Some(k as int));
                    assert(first_index_from(before[k as int].1, name@, 0) == Some(i as int));
                    assert(self@ == before.update(k as int, (before[k as int].0, swap_removed(before[k as int].1, i as int))));
                }
                return Outcome::Done;
            }
            i = i + 1;
        }
        Outcome::NoSuchEmployee(String::from_str(name), String::from_str(dept))
    }

    /// Sorts the employees of department `dept` in place. Returns whether the
    /// department is there.
    pub fn sort_dept(&mut self, dept: &str) -> (r: bool)
        requires
            old(self).wf(),
        ensures
            final(self).wf(),
            r == dept_index(old(self)@, dept@) is Some,
            final(self)@.len() == old(self)@.len(),
            forall|j: int| 0 <= j < old(self)@.len() ==> (#[trigger] final(self)@[j]).0 == old(self)@[j].0,
            match dept_index(old(self)@, dept@) {
                None => final(self)@ == old(self)@,
                Some(k) => {
                    &&& forall|j: int| 0 <= j < old(self)@.len() && j != k ==> #[trigger] final(self)@[j] == old(self)@[j]
                    &&& final(self)@[k].1.to_multiset() == old(self)@[k].1.to_multiset()
                    &&& sorted_names(final(self)@[k].1)
                },
            },
    {
        let ghost before = self@;
        match self.position(dept) {
            Some(k) => {
                let entry = &mut self.depts[k];
                sort_strings(&mut entry.1);
                proof {
                    assert forall|j: int| 0 <= j < before.len() && j != k implies #[trigger] self@[j] == before[j] by {}
                    assert forall|a: int, b: int| 0 <= a < b < self@.len() implies self@[a].0 != self@[b].0 by {
                        assert(before[a].0 == self@[a].0);
                        assert(before[b].0 == self@[b].0);
                    }
                }
                true
            },
            None => false,
        }
    }

    /// Every employee with the department they belong to, department by
    /// department in the order they were created.
    pub fn all_pairs(&self) -> (r: Vec<(String, String)>)
        ensures
            r@.map_values(|p: (String, String)| (p.0@, p.1@)) == pairs_of(self@),
    {
        let mut out: Vec<(String, String)> = Vec::new();
        let mut d: usize = 0;
        while d < self.depts.len()
            invariant
                d <= self.depts@.len(),
                self@.len() == self.depts@.len(),
                out@.map_values(|p: (String, String)| (p.0@, p.1@)) == pairs_of(self@.subrange(0, d as int)),
            decreases self.depts@.len() - d,
        {
            let ghost start = out@.map_values(|p: (String, String)| (p.0@, p.1@));
            let staff = &self.depts[d].1;
            let mut e: usize = 0;
            while e < staff.len()
                invariant
                    d < self.depts@.len(),
                    self@.len() == self.depts@.len(),
                    staff == &self.depts@[d as int].1,
                    e <= staff@.len(),
                    out@.map_values(|p: (String, String)| (p.0@, p.1@)) == start + dept_pairs(self@[d as int].0, self@[d as int].1.subrange(0, e as int)),
                decreases staff@.len() - e,
            {
                let ghost prev = out@.map_values(|p: (String, String)| (p.0@, p.1@));
                out.push((staff[e].clone(), self.depts[d].0.clone()));
                proof {
                    assert(out@.map_values(|p: (String, String)| (p.0@, p.1@)) =~= prev.push((staff@[e as int]@, self@[d as int].0)));
                    let names = self@[d as int].1;
                    assert(names.subrange(0, e + 1).drop_last() =~= names.subrange(0, e as int));
                    assert(names.subrange(0, e + 1).last() == staff@[e as int]@);
                    assert(dept_pairs(self@[d as int].0, names.subrange(0, e + 1)) == dept_pairs(self@[d as int].0, names.subrange(0, e as int)).push((staff@[e as int]@, self@[d as int].0)));
                    assert(out@.map_values(|p: (String, String)| (p.0@, p.1@)) =~= start + dept_pairs(self@[d as int].0, names.subrange(0, e + 1)));
                }
                e = e + 1;
            }
            proof {
                let names = self@[d as int].1;
                assert(names.subrange(0, names.len() as int) =~= names);
                assert(self@.subrange(0, d + 1).drop_last() =~= self@.subrange(0, d as int));
            }
            d = d + 1;
        }
        assert(self@.subrange(0, self@.len() as int) =~= self@);
        out
    }

    /// Removes every department.
    pub fn clear(&mut self)
        ensures
            final(self)@ == Seq::<(Seq<char>, Seq<Seq<char>>)>::empty(),
            final(self).wf(),
    {
        self.depts.clear();
        assert(self@ =~= Seq::<(Seq<char>, Seq<Seq<char>>)>::empty());
    }
}

fn word_position(words: &Vec<&str>, word: &str) -> (r: Option<usize>)
    ensures
        r matches Some(k) ==> word_index(words@, word@) == Some(k as int),
        r is None ==> word_index(words@, word@) is None,
{
    let ghost views = words@.map_values(|w: &str| w@);
    let mut k: usize = 0;
    while k < words.len()
        invariant
            k <= words@.len(),
            views == words@.map_values(|w: &str| w@),
            first_index_from(views, word@, 0) == first_index_from(views, word@, k as int),
        decreases words@.len() - k,
    {
        if same_text(words[k], word) {
            return Some(k);
        }
        k = k + 1;
    }
    None
}

fn name_from(words: &Vec<&str>, from: usize, to: usize) -> (r: String)
    requires
        from <= to <= words@.len(),
    ensures
        r@ == name_of(words@, from as int, to as int),
{
    let part = &words.as_slice()[from..to];
    assert(part@ == words@.subrange(from as int, to as int));
    let joined = join_words(part);
    assert(part@.map_values(|w: &str| w@) =~= words@.subrange(from as int, to as int).map_values(|w: &str| w@));
    String::from_str(clean(joined.as_str()))
}

/// Adds an employee to a department: `add <name> to <department>`. The
/// department is created when it is not there.
pub fn add_employee(words: Vec<&str>, employees: &mut Company) -> (r: Outcome)
    requires
        old(employees).wf(),
        words@.len() > 0 ==> words@[0]@ != seq!['t', 'o'],
    ensures
        final(employees).wf(),
        words@.len() >= 4 && word_index(words@, seq!['t', 'o']) is Some ==> {
            let t = word_index(words@, seq!['t', 'o'])->Some_0;
            &&& r == Outcome::Done
            &&& final(employees)@ == with_employee(
                old(employees)@,
                name_of(words@, t + 1, words@.len() as int),
                name_of(words@, 1, t),
            )
        },
        !(words@.len() >= 4 && word_index(words@, seq!['t', 'o']) is Some) ==> {
            &&& r == Outcome::Usage
            &&& final(employees)@ == old(employees)@
        },
{
    proof {
        reveal_strlit("to");
        assert("to"@ =~= seq!['t', 'o']);
        lemma_first_index_from(words@.map_values(|w: &str| w@), "to"@, 0);
    }
    let to_pos = match word_position(&words, "to") {
        Some(k) => k,
        None => {
            return Outcome::Usage;
        },
    };
    if words.len() < 4 {
        return Outcome::Usage;
    }
    let name = name_from(&words, 1, to_pos);
    let dept = name_from(&words, to_pos + 1, words.len());
    employees.add(dept.as_str(), name.as_str());
    Outcome::Done
}

/// Removes an employee from a department: `remove <name> from <department>`.
pub fn remove_employee(words: &Vec<&str>, employees: &mut Company) -> (r: Outcome)
    requires
        old(employees).wf(),
        words@.len() > 0 ==> words@[0]@ != seq!['f', 'r', 'o', 'm'],
    ensures
        final(employees).wf(),
        words@.len() >= 4 && word_index(words@, seq!['f', 'r', 'o', 'm']) is Some ==> {
            let f = word_index(words@, seq!['f', 'r', 'o', 'm'])->Some_0;
            let dept = name_of(words@, f + 1, words@.len() as int);
            let name = name_of(words@, 1, f);
            &&& final(employees)@ == after_removal(old(employees)@, dept, name)
            &&& removal_reports(old(employees)@, dept, name, r)
        },
        !(words@.len() >= 4 && word_index(words@, seq!['f', 'r', 'o', 'm']) is Some) ==> {
            &&& r == Outcome::Usage
            &&& final(employees)@ == old(employees)@
        },
{
    proof {
        reveal_strlit("from");
        assert("from"@ =~= seq!['f', 'r', 'o', 'm']);
        lemma_first_index_from(words@.map_values(|w: &str| w@), "from"@, 0);
    }
    let from_pos = match word_position(words, "from") {
        Some(k) => k,
        None => {
            return Outcome::Usage;
        },
    };
    if words.len() < 4 {
        return Outcome::Usage;
    }
    let name = name_from(words, 1, from_pos);
    let dept = name_from(words, from_pos + 1, words.len());
    employees.remove_employee_from(dept.as_str(), name.as_str())
}

/// Removes a department with all its employees: `removedept <department>`.
pub fn remove_dept(words: &Vec<&str>, employees: &mut Company) -> (r: Outcome)
    requires
        old(employees).wf(),
    ensures
        final(employees).wf(),
        words@.len() < 2 ==> r == Outcome::Usage && final(employees)@ == old(employees)@,
        words@.len() >= 2 ==> {
            let dept = name_of(words@, 1, words@.len() as int);
            &&& final(employees)@ == without_dept(old(employees)@, dept)
            &&& (if dept_index(old(employees)@, dept) is Some {
                r == Outcome::Done
            } else {
                r matches Outcome::NoSuchDept(x) && x@ == dept
            })
        },
{
    if words.len() < 2 {
        return Outcome::Usage;
    }
    let dept = name_from(words, 1, words.len());
    if employees.remove(dept.as_str()) {
        Outcome::Done
    } else {
        Outcome::NoSuchDept(dept)
    }
}

fn copy_names(v: &Vec<String>) -> (r: Vec<String>)
    ensures
        r@.map_values(|s: String| s@) == v@.map_values(|s: String| s@),
{
    let mut r: Vec<String> = Vec::new();
    let mut i: usize = 0;
    while i < v.len()
        invariant
            i <= v@.len(),
            r@.len() == i,
            forall|j: int| 0 <= j < i ==> (#[trigger] r@[j])@ == v@[j]@,
        decreases v@.len() - i,
    {
        r.push(v[i].clone());
        i = i + 1;
    }
    assert(r@.map_values(|s: String| s@) =~= v@.map_values(|s: String| s@));
    r
}

/// The employees of a department in alphabetical order, leaving the
/// company as it is: `dept <department>`.
pub fn dept_listing(words: &Vec<&str>, employees: &Company) -> (r: Result<Vec<String>, Outcome>)
    requires
        employees.wf(),
    ensures
        words@.len() < 2 ==> r == Err::<Vec<String>, Outcome>(Outcome::Usage),
        words@.len() >= 2 ==> {
            let dept = name_of(words@, 1, words@.len() as int);
            match dept_index(employees@, dept) {
                None => r matches Err(Outcome::NoSuchDept(x)) && x@ == dept,
                Some(k) => r matches Ok(v) && v@.map_values(|s: String| s@).to_multiset()
                    == employees@[k].1.to_multiset() && sorted_names(v@.map_values(|s: String| s@)),
            }
        },
{
    if words.len() < 2 {
        return Err(Outcome::Usage);
    }
    let dept = name_from(words, 1, words.len());
    match employees.get(dept.as_str()) {
        Some(staff) => {
            let mut listing = copy_names(staff);
            sort_strings(&mut listing);
            Ok(listing)
        },
        None => Err(Outcome::NoSuchDept(dept)),
    }
}

/// Sorts the employees of a department alphabetically, in the company
/// itself, and returns them: `deptsort <department>`.
pub fn sort_and_list_dept(words: &Vec<&str>, employees: &mut Company) -> (r: Result<Vec<String>, Outcome>)
    requires
        old(employees).wf(),
    ensures
        final(employees).wf(),
        final(employees)@.len() == old(employees)@.len(),
        words@.len() < 2 ==> r == Err::<Vec<String>, Outcome>(Outcome::Usage) && final(employees)@ == old(employees)@,
        words@.len() >= 2 ==> {
            let dept = name_of(words@, 1, words@.len() as int);
            match dept_index(old(employees)@, dept) {
                None => (r matches Err(Outcome::NoSuchDept(x)) && x@ == dept) && final(employees)@ == old(employees)@,
                Some(k) => {
                    &&& forall|j: int| 0 <= j < old(employees)@.len() && j != k ==> #[trigger] final(employees)@[j] == old(employees)@[j]
                    &&& final(employees)@[k].0 == old(employees)@[k].0
                    &&& final(employees)@[k].1.to_multiset() == old(employees)@[k].1.to_multiset()
                    &&& sorted_names(final(employees)@[k].1)
                    &&& r matches Ok(v) && v@.map_values(|s: String| s@) == final(employees)@[k].1
                },
            }
        },
{
    if words.len() < 2 {
        return Err(Outcome::Usage);
    }
    let dept = name_from(words, 1, words.len());
    if employees.sort_dept(dept.as_str()) {
        match employees.get(dept.as_str()) {
            Some(staff) => Ok(copy_names(staff)),
            None => Err(Outcome::NoSuchDept(dept)),
        }
    } else {
        Err(Outcome::NoSuchDept(dept))
    }
}

/// The names of all departments in alphabetical order: `depts`.
pub fn sorted_depts(employees: &Company) -> (r: Vec<String>)
    ensures
        r@.map_values(|s: String| s@).to_multiset() == employees@.map_values(
            |e: (Seq<char>, Seq<Seq<char>>)| e.0,
        ).to_multiset(),
        sorted_names(r@.map_values(|s: String| s@)),
{
    let mut names = employees.dept_names();
    sort_strings(&mut names);
    names
}

/// A command, by the first word of its line.
#[derive(Clone, Copy, Debug, PartialEq, Eq, Structural)]
pub enum Command {
    Help,
    Add,
    Dept,
    DeptSort,
    Depts,
    All,
    AllByDept,
    AllUniquePerDept,
    Remove,
    RemoveDept,
    Clear,
    Stop,
    Unknown,
}

/// The command that `word` names, in any case.
pub fn parse_command(word: &str) -> (r: Command)
    ensures
        r == command_spec(lower_of(word@)),
{
    let w = lowercase(word);
    let w = w.as_str();
    if same_text(w, HELP) {
        Command::Help
    } else if same_text(w, ADD) {
        Command::Add
    } else if same_text(w, DEPT) {
        Command::Dept
    } else if same_text(w, DEPT_SORT) {
        Command::DeptSort
    } else if same_text(w, DEPTS) {
        Command::Depts
    } else if same_text(w, ALL) {
        Command::All
    } else if same_text(w, ALL_BY_DEPT) {
        Command::AllByDept
    } else if same_text(w, ALL_UNIQUE_PER_DEPT) {
        Command::AllUniquePerDept
    } else if same_text(w, REMOVE) {
        Command::Remove
    } else if same_text(w, REMOVE_DEPT) {
        Command::RemoveDept
    } else if same_text(w, CLEAR) {
        Command::Clear
    } else if same_text(w, STOP) {
        Command::Stop
    } else {
        Command::Unknown
    }
}

/// The command whose name is `w`.
pub open spec fn command_spec(w: Seq<char>) -> Command {
    if w == HELP@ {
        Command::Help
    } else if w == ADD@ {
        Command::Add
    } else if w == DEPT@ {
        Command::Dept
    } else if w == DEPT_SORT@ {
        Command::DeptSort
    } else if w == DEPTS@ {
        Command::Depts
    } else if w == ALL@ {
        Command::All
    } else if w == ALL_BY_DEPT@ {
        Command::AllByDept
    } else if w == ALL_UNIQUE_PER_DEPT@ {
        Command::AllUniquePerDept
    } else if w == REMOVE@ {
        Command::Remove
    } else if w == REMOVE_DEPT@ {
        Command::RemoveDept
    } else if w == CLEAR@ {
        Command::Clear
    } else if w == STOP@ {
        Command::Stop
    } else {
        Command::Unknown
    }
}

/// Whether an answer confirms clearing the company: `yes` in any case,
/// with any whitespace around it.
pub fn confirms_clear(answer: &str) -> (r: bool)
    ensures
        r == (trim_end_spec(trim_start_spec(lower_of(answer@), false), false) == seq!['y', 'e', 's']),
{
    let lower = lowercase(answer);
    let trimmed = trim_whitespace(lower.as_str());
    proof {
        reveal_strlit("yes");
        assert("yes"@ =~= seq!['y', 'e', 's']);
    }
    same_text(trimmed, "yes")
}

} // verus!
