//! A company keeps, per department, the list of its employees, and can
//! hand a department's list back in alphabetical order.

use vstd::prelude::*;
use crate::stats::lemma_swap_to_multiset;

verus! {

/// Lexicographic order on character sequences, smallest scalar value
/// first; the empty sequence comes before everything.
pub open spec fn lex_le(a: Seq<char>, b: Seq<char>) -> bool
    decreases a.len(),
{
    if a.len() == 0 {
        true
    } else if b.len() == 0 {
        false
    } else if (a.first() as u32) == (b.first() as u32) {
        lex_le(a.drop_first(), b.drop_first())
    } else {
        (a.first() as u32) < (b.first() as u32)
    }
}

/// The order is total: one of the two directions always holds.
pub proof fn lemma_lex_total(a: Seq<char>, b: Seq<char>)
    ensures
        lex_le(a, b) || lex_le(b, a),
    decreases a.len(),
{
    if a.len() > 0 && b.len() > 0 && (a.first() as u32) == (b.first() as u32) {
        lemma_lex_total(a.drop_first(), b.drop_first());
    }
}

/// The order carries over through a middle value.
pub proof fn lemma_lex_trans(a: Seq<char>, b: Seq<char>, c: Seq<char>)
    requires
        lex_le(a, b),
        lex_le(b, c),
    ensures
        lex_le(a, c),
    decreases a.len(),
{
    if a.len() > 0 && b.len() > 0 && c.len() > 0 && (a.first() as u32) == (b.first() as u32) && (
    b.first() as u32) == (c.first() as u32) {
        lemma_lex_trans(a.drop_first(), b.drop_first(), c.drop_first());
    }
}

/// With an agreeing prefix of length `i`, the order of the whole strings
/// is the order of what follows the prefix.
proof fn lemma_lex_skip(a: Seq<char>, b: Seq<char>, i: int)
    requires
        0 <= i <= a.len(),
        i <= b.len(),
        forall|k: int| 0 <= k < i ==> (a[k] as u32) == (#[trigger] b[k]) as u32,
    ensures
        lex_le(a, b) == lex_le(a.skip(i), b.skip(i)),
    decreases i,
{
    if i > 0 {
        lemma_lex_skip(a.drop_first(), b.drop_first(), i - 1);
        assert(a.drop_first().skip(i - 1) =~= a.skip(i));
        assert(b.drop_first().skip(i - 1) =~= b.skip(i));
    } else {
        assert(a.skip(0) =~= a);
        assert(b.skip(0) =~= b);
    }
}

/// Whether `a` comes at or before `b` in the order of [`lex_le`]: the
/// strings are walked together until their characters part ways. This is
/// the order `str`'s own comparison gives, since UTF-8 byte order agrees
/// with scalar-value order.
fn str_le(a: &String, b: &String) -> (r: bool)
    ensures
        r == lex_le(a@, b@),
{
    let an = a.as_str().unicode_len();
    let bn = b.as_str().unicode_len();
    let mut i: usize = 0;
    while i < an && i < bn
        invariant
            an == a@.len(),
            bn == b@.len(),
            0 <= i <= an,
            i <= bn,
            forall|k: int| 0 <= k < i ==> (a@[k] as u32) == (#[trigger] b@[k]) as u32,
        decreases an - i,
    {
        let ca = a.as_str().get_char(i) as u32;
        let cb = b.as_str().get_char(i) as u32;
        if ca != cb {
            proof {
                lemma_lex_skip(a@, b@, i as int);
                assert(a@.skip(i as int).first() == a@[i as int]);
                assert(b@.skip(i as int).first() == b@[i as int]);
            }
            return ca < cb;
        }
        i = i + 1;
    }
    proof {
        lemma_lex_skip(a@, b@, i as int);
    }
    i == an
}

/// The names are in alphabetical order.
pub open spec fn sorted_lex(s: Seq<Seq<char>>) -> bool {
    forall|i: int, j: int| 0 <= i < j < s.len() ==> lex_le(s[i], s[j])
}

/// The views of a list of names.
pub open spec fn names_of(v: Seq<String>) -> Seq<Seq<char>> {
    v.map_values(|s: String| s@)
}

/// Sorts a list of names alphabetically, by exchanging adjacent names
/// that are out of order.
fn sort_names(v: &mut Vec<String>)
    ensures
        sorted_lex(names_of(final(v)@)),
        names_of(final(v)@).to_multiset() == names_of(old(v)@).to_multiset(),
        final(v)@.len() == old(v)@.len(),
{
    broadcast use vstd::seq_lib::group_to_multiset_ensures;

    if v.len() < 2 {
        return ;
    }
    let length = v.len();
    let mut p: usize = 0;
    while p < length - 1
        invariant
            v@.len() == length,
            2 <= length,
            0 <= p <= length - 1,
            names_of(v@).to_multiset() == names_of(old(v)@).to_multiset(),
            forall|a: int, b: int|
                0 <= a < b < length && length - p <= b ==> lex_le(v@[a]@, v@[b]@),
        decreases length - p,
    {
        let mut i: usize = 0;
        while i < length - 1 - p
            invariant
                v@.len() == length,
                2 <= length,
                0 <= p < length - 1,
                0 <= i <= length - 1 - p,
                names_of(v@).to_multiset() == names_of(old(v)@).to_multiset(),
                forall|a: int, b: int|
                    0 <= a < b < length && length - p <= b ==> lex_le(v@[a]@, v@[b]@),
                forall|k: int| 0 <= k < i ==> lex_le(v@[k]@, v@[i as int]@),
            decreases length - 1 - p - i,
        {
            let ghost before = v@;
            let swap = !str_le(&v[i], &v[i + 1]);
            proof {
                lemma_lex_total(v@[i as int]@, v@[i as int + 1]@);
            }
            if swap {
                let moved = v.remove(i);
                v.insert(i + 1, moved);
                proof {
                    assert(v@ =~= before.update(i as int, before[i as int + 1]).update(
                        i as int + 1,
                        before[i as int],
                    ));
                    assert(names_of(v@) =~= names_of(before).update(
                        i as int,
                        names_of(before)[i as int + 1],
                    ).update(i as int + 1, names_of(before)[i as int]));
                    lemma_swap_to_multiset(names_of(before), i as int, i as int + 1);
                }
            }
            proof {
                assert forall|k: int| 0 <= k < i + 1 implies lex_le(#[trigger] v@[k]@, v@[i as int + 1]@) by {
                    if swap {
                        assert(v@[i as int + 1]@ == before[i as int]@);
                        if k < i {
                            assert(v@[k]@ == before[k]@);
                            assert(lex_le(before[k]@, before[i as int]@));
                        } else {
                            assert(v@[k]@ == before[i as int + 1]@);
                            assert(lex_le(before[i as int + 1]@, before[i as int]@));
                        }
                    } else {
                        if k < i {
                            lemma_lex_trans(v@[k]@, v@[i as int]@, v@[i as int + 1]@);
                        }
                    }
                }
            }
            i = i + 1;
        }
        p = p + 1;
    }
}

/// With unique department names, at most one index can carry a given
/// name.
proof fn lemma_unique_match(deps: Seq<(Seq<char>, Seq<Seq<char>>)>, name: Seq<char>, i: int)
    requires
        forall|a: int, b: int|
            0 <= a < b < deps.len() ==> #[trigger] deps[a].0 != #[trigger] deps[b].0,
        0 <= i < deps.len(),
        deps[i].0 == name,
    ensures
        forall|j: int| 0 <= j < deps.len() && #[trigger] deps[j].0 == name ==> j == i,
{
    assert forall|j: int| 0 <= j < deps.len() && #[trigger] deps[j].0 == name implies j == i by {
        if j < i {
            assert(deps[j].0 != deps[i].0);
        } else if j > i {
            assert(deps[i].0 != deps[j].0);
        }
    }
}

/// The departments with their employee lists, in the order they were
/// first mentioned.
pub struct Company {
    departments: Vec<(String, Vec<String>)>,
}

impl Company {
    /// The department names and their employees, as plain sequences.
    pub closed spec fn spec_departments(&self) -> Seq<(Seq<char>, Seq<Seq<char>>)> {
        self.departments@.map_values(|p: (String, Vec<String>)| (p.0@, names_of(p.1@)))
    }

    /// A department name appears only once.
    pub open spec fn wf(&self) -> bool {
        forall|i: int, j: int|
            0 <= i < j < self.spec_departments().len() ==> #[trigger] self.spec_departments()[i].0
                != #[trigger] self.spec_departments()[j].0
    }

    /// A company with no departments yet.
    pub fn create_company() -> (r: Company)
        ensures
            r.wf(),
            r.spec_departments() == Seq::<(Seq<char>, Seq<Seq<char>>)>::empty(),
    {
        let r = Company { departments: Vec::new() };
        proof {
            assert(r.spec_departments() =~= Seq::<(Seq<char>, Seq<Seq<char>>)>::empty());
        }
        r
    }

    /// Adds the employee to the department's list, opening the department
    /// when it is new.
    pub fn add_employee_to_department(&mut self, department: String, employee_name: String)
        requires
            old(self).wf(),
        ensures
            final(self).wf(),
            forall|i: int|
                0 <= i < old(self).spec_departments().len() && old(self).spec_departments()[i].0
                    == department@ ==> final(self).spec_departments() == old(self).spec_departments().update(
                    i,
                    (department@, old(self).spec_departments()[i].1.push(employee_name@)),
                ),
            (forall|i: int|
                0 <= i < old(self).spec_departments().len()
                    ==> #[trigger] old(self).spec_departments()[i].0 != department@) ==> final(self).spec_departments() == old(self).spec_departments().push(
                (department@, seq![employee_name@]),
            ),
    {
        let mut i: usize = 0;
        while i < self.departments.len()
            invariant
                self == old(self),
                old(self).wf(),
                0 <= i <= self.departments@.len(),
                forall|k: int| 0 <= k < i ==> #[trigger] old(self).spec_departments()[k].0 != department@,
            decreases self.departments@.len() - i,
        {
            if self.departments[i].0.eq(&department) {
                proof {
                    assert(old(self).spec_departments()[i as int].0 == department@);
                }
                let ghost before = self.spec_departments();
                let mut pair = self.departments.remove(i);
                pair.1.push(employee_name);
                self.departments.insert(i, pair);
                proof {
                    assert(names_of(pair.1@) =~= before[i as int].1.push(pair.1@.last()@));
                    assert(self.spec_departments() =~~= before.update(
                        i as int,
                        (department@, before[i as int].1.push(pair.1@.last()@)),
                    ));
                    lemma_unique_match(old(self).spec_departments(), department@, i as int);
                    assert forall|a: int, b: int|
                        0 <= a < b < self.spec_departments().len() implies #[trigger] self.spec_departments()[a].0
                        != #[trigger] self.spec_departments()[b].0 by {
                        assert(self.spec_departments()[a].0 == old(self).spec_departments()[a].0);
                        assert(self.spec_departments()[b].0 == old(self).spec_departments()[b].0);
                    }
                }
                return ;
            }
            i = i + 1;
        }
        let ghost before = self.spec_departments();
        let mut members: Vec<String> = Vec::new();
        members.push(employee_name);
        self.departments.push((department, members));
        proof {
            assert(names_of(self.departments@.last().1@) =~= seq![
                self.departments@.last().1@[0]@,
            ]);
            assert(self.spec_departments() =~~= before.push(
                (self.departments@.last().0@, names_of(self.departments@.last().1@)),
            ));
            assert(self.departments@.last().0@ == department@);
            assert forall|a: int, b: int|
                0 <= a < b < self.spec_departments().len() implies #[trigger] self.spec_departments()[a].0
                != #[trigger] self.spec_departments()[b].0 by {
                if b < old(self).spec_departments().len() {
                    assert(self.spec_departments()[a].0 == old(self).spec_departments()[a].0);
                    assert(self.spec_departments()[b].0 == old(self).spec_departments()[b].0);
                } else {
                    assert(self.spec_departments()[a].0 == old(self).spec_departments()[a].0);
                    assert(old(self).spec_departments()[a].0 != department@);
                }
            }
        }
    }

    /// The department's employees in alphabetical order; a department not
    /// seen before is opened empty, as asking for it creates it. The
    /// department's stored list is sorted in place and returned as a
    /// copy; all other departments keep their lists.
    pub fn get_employees_of_department(&mut self, department: &String) -> (r: Vec<String>)
        requires
            old(self).wf(),
        ensures
            final(self).wf(),
            sorted_lex(names_of(r@)),
            forall|i: int|
                0 <= i < old(self).spec_departments().len() && old(self).spec_departments()[i].0
                    == department@ ==> names_of(r@).to_multiset() == old(self).spec_departments()[i].1.to_multiset() && final(self).spec_departments() == old(self).spec_departments().update(i, (department@, names_of(r@))),
            (forall|i: int|
                0 <= i < old(self).spec_departments().len()
                    ==> #[trigger] old(self).spec_departments()[i].0 != department@) ==> r@.len()
                == 0 && final(self).spec_departments() == old(self).spec_departments().push(
                (department@, Seq::<Seq<char>>::empty()),
            ),
    {
        let mut i: usize = 0;
        while i < self.departments.len()
            invariant
                self == old(self),
                old(self).wf(),
                0 <= i <= self.departments@.len(),
                forall|k: int| 0 <= k < i ==> #[trigger] old(self).spec_departments()[k].0 != department@,
            decreases self.departments@.len() - i,
        {
            if self.departments[i].0.eq(department) {
                proof {
                    assert(old(self).spec_departments()[i as int].0 == department@);
                }
                let ghost before = self.spec_departments();
                let mut pair = self.departments.remove(i);
                sort_names(&mut pair.1);
                let r = pair.1.clone();
                self.departments.insert(i, pair);
                proof {
                    assert(r@ =~= pair.1@);
                    assert(self.spec_departments() =~~= before.update(
                        i as int,
                        (department@, names_of(pair.1@)),
                    ));
                    assert(names_of(r@) =~= names_of(pair.1@));
                    lemma_unique_match(old(self).spec_departments(), department@, i as int);
                    assert forall|a: int, b: int|
                        0 <= a < b < self.spec_departments().len() implies #[trigger] self.spec_departments()[a].0
                        != #[trigger] self.spec_departments()[b].0 by {
                        assert(self.spec_departments()[a].0 == old(self).spec_departments()[a].0);
                        assert(self.spec_departments()[b].0 == old(self).spec_departments()[b].0);
                    }
                }
                return r;
            }
            i = i + 1;
        }
        let ghost before = self.spec_departments();
        self.departments.push((department.clone(), Vec::new()));
        proof {
            assert(names_of(self.departments@.last().1@) =~= Seq::<Seq<char>>::empty());
            assert(self.spec_departments() =~~= before.push(
                (department@, Seq::<Seq<char>>::empty()),
            ));
            assert forall|a: int, b: int|
                0 <= a < b < self.spec_departments().len() implies #[trigger] self.spec_departments()[a].0
                != #[trigger] self.spec_departments()[b].0 by {
                if b < old(self).spec_departments().len() {
                    assert(self.spec_departments()[a].0 == old(self).spec_departments()[a].0);
                    assert(self.spec_departments()[b].0 == old(self).spec_departments()[b].0);
                } else {
                    assert(self.spec_departments()[a].0 == old(self).spec_departments()[a].0);
                    assert(old(self).spec_departments()[a].0 != department@);
                }
            }
        }
        Vec::new()
    }

    /// A borrow of every department with its employees, in first-mention
    /// order.
    pub fn get_all_employees_by_department(&mut self) -> (r: &Vec<(String, Vec<String>)>)
        ensures
            *final(self) == *old(self),
            r@.map_values(|p: (String, Vec<String>)| (p.0@, names_of(p.1@))) == old(self).spec_departments(),
    {
        &self.departments
    }
}

} // verus!
