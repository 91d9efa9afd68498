//! From the rows of a worksheet to the students they describe.

use crate::config::{ColumnIndex, Config};
use vstd::prelude::*;

verus! {

/// The identifier of a student.
pub type Id = String;

/// What is known of a student.
#[derive(Debug)]
pub struct Student {
    pub name: String,
    /// Whether the student is let in without further checks.
    pub immediate_sign_in: bool,
}

/// The text of a `Student` value.
pub struct StudentView {
    pub name: Seq<char>,
    pub immediate_sign_in: bool,
}

impl View for Student {
    type V = StudentView;

    open spec fn view(&self) -> StudentView {
        StudentView { name: self.name@, immediate_sign_in: self.immediate_sign_in }
    }
}

impl Default for Student {
    /// A student without a name who is not let in at once.
    fn default() -> (student: Self)
        ensures
            student@ == (StudentView { name: Seq::empty(), immediate_sign_in: false }),
    {
        Student { name: String::new(), immediate_sign_in: false }
    }
}

impl Clone for Student {
    fn clone(&self) -> (copy: Self)
        ensures
            copy == *self,
    {
        Student { name: self.name.clone(), immediate_sign_in: self.immediate_sign_in }
    }
}

/// One cell of a worksheet, reduced to what the records are made from.
#[derive(Debug)]
pub struct Cell {
    /// The cell's content written out as text; empty for an empty cell.
    pub text: String,
    /// The cell's truth value, for a cell that holds one.
    pub flag: Option<bool>,
}

/// The students of a worksheet, each found under their identifier.
///
/// No identifier occurs twice. Seen from outside, the roster is the map from
/// identifiers to students.
pub struct Roster {
    entries: Vec<(Id, Student)>,
}

/// The map that a list of identifiers and students stands for, where a later
/// pair replaces an earlier one with the same identifier.
pub open spec fn map_of(entries: Seq<(Id, Student)>) -> Map<Seq<char>, StudentView>
    decreases entries.len(),
{
    if entries.len() == 0 {
        Map::empty()
    } else {
        map_of(entries.drop_last()).insert(entries.last().0@, entries.last().1@)
    }
}

/// No identifier occurs twice in `entries`.
pub open spec fn distinct_ids(entries: Seq<(Id, Student)>) -> bool {
    forall|i: int, j: int|
        #![trigger entries[i], entries[j]]
        0 <= i < j < entries.len() ==> entries[i].0@ != entries[j].0@
}

/// In a list without repeated identifiers each student is found under their
/// identifier.
proof fn lemma_listed_is_mapped(entries: Seq<(Id, Student)>, i: int)
    requires
        distinct_ids(entries),
        0 <= i < entries.len(),
    ensures
        map_of(entries).contains_key(entries[i].0@),
        map_of(entries)[entries[i].0@] == entries[i].1@,
    decreases entries.len(),
{
    if i < entries.len() - 1 {
        let earlier = entries.drop_last();
        assert(earlier[i] == entries[i]);
        assert(distinct_ids(earlier)) by {
            assert forall|a: int, b: int| 0 <= a < b < earlier.len() implies earlier[a].0@
                != earlier[b].0@ by {
                assert(entries[a].0@ != entries[b].0@);
            }
        }
        lemma_listed_is_mapped(earlier, i);
        assert(entries[i].0@ != entries[entries.len() - 1].0@);
    }
}

/// The map holds the identifiers of the list and no others.
proof fn lemma_mapped_is_listed(entries: Seq<(Id, Student)>, id: Seq<char>)
    ensures
        map_of(entries).contains_key(id) <==> exists|i: int|
            0 <= i < entries.len() && (#[trigger] entries[i]).0@ == id,
    decreases entries.len(),
{
    if entries.len() > 0 {
        let earlier = entries.drop_last();
        lemma_mapped_is_listed(earlier, id);
        if map_of(entries).contains_key(id) {
            if entries.last().0@ == id {
                assert(entries[entries.len() - 1].0@ == id);
            } else {
                let i = choose|i: int| 0 <= i < earlier.len() && (#[trigger] earlier[i]).0@ == id;
                assert(entries[i].0@ == id);
            }
        }
        if exists|i: int| 0 <= i < entries.len() && (#[trigger] entries[i]).0@ == id {
            let i = choose|i: int| 0 <= i < entries.len() && (#[trigger] entries[i]).0@ == id;
            if i < entries.len() - 1 {
                assert(earlier[i].0@ == id);
            }
        }
    }
}

/// Giving a listed identifier another student changes the map at that
/// identifier and nowhere else.
proof fn lemma_replacing_is_inserting(entries: Seq<(Id, Student)>, i: int, student: Student)
    requires
        distinct_ids(entries),
        0 <= i < entries.len(),
    ensures
        map_of(entries.update(i, (entries[i].0, student))) == map_of(entries).insert(
            entries[i].0@,
            student@,
        ),
        distinct_ids(entries.update(i, (entries[i].0, student))),
    decreases entries.len(),
{
    let changed = entries.update(i, (entries[i].0, student));
    assert(distinct_ids(changed)) by {
        assert forall|a: int, b: int| 0 <= a < b < changed.len() implies changed[a].0@
            != changed[b].0@ by {
            assert(entries[a].0@ != entries[b].0@);
        }
    }
    let earlier = entries.drop_last();
    if i == entries.len() - 1 {
        assert(changed.drop_last() == earlier);
        assert(map_of(changed) =~= map_of(entries).insert(entries[i].0@, student@));
    } else {
        assert(distinct_ids(earlier)) by {
            assert forall|a: int, b: int| 0 <= a < b < earlier.len() implies earlier[a].0@
                != earlier[b].0@ by {
                assert(entries[a].0@ != entries[b].0@);
            }
        }
        lemma_replacing_is_inserting(earlier, i, student);
        assert(changed.drop_last() == earlier.update(i, (earlier[i].0, student)));
        assert(changed.last() == entries.last());
        assert(entries[i].0@ != entries[entries.len() - 1].0@);
        assert(map_of(changed) =~= map_of(entries).insert(entries[i].0@, student@));
    }
}

impl View for Roster {
    type V = Map<Seq<char>, StudentView>;

    closed spec fn view(&self) -> Map<Seq<char>, StudentView> {
        map_of(self.entries@)
    }
}

impl Roster {
    #[verifier::type_invariant]
    spec fn no_id_twice(self) -> bool {
        distinct_ids(self.entries@)
    }

    /// A roster without students.
    pub fn new() -> (roster: Self)
        ensures
            roster@ == Map::<Seq<char>, StudentView>::empty(),
    {
        Roster { entries: Vec::new() }
    }

    /// Where in the list the identifier `id` stands, if it is listed.
    fn position(&self, id: &Id) -> (found: Option<usize>)
        ensures
            match found {
                Some(i) => i < self.entries@.len() && self.entries@[i as int].0@ == id@,
                None => forall|i: int|
                    0 <= i < self.entries@.len() ==> (#[trigger] self.entries@[i]).0@ != id@,
            },
    {
        let mut i: usize = 0;
        while i < self.entries.len()
            invariant
                i <= self.entries@.len(),
                forall|k: int| 0 <= k < i ==> (#[trigger] self.entries@[k]).0@ != id@,
            decreases self.entries@.len() - i,
        {
            if self.entries[i].0 == *id {
                return Some(i);
            }
            i += 1;
        }
        None
    }

    /// The student with the identifier `id`, if the roster has one.
    pub fn get(&self, id: &Id) -> (student: Option<&Student>)
        ensures
            match student {
                Some(student) => self@.contains_key(id@) && self@[id@] == student@,
                None => !self@.contains_key(id@),
            },
    {
        proof {
            use_type_invariant(self);
            lemma_mapped_is_listed(self.entries@, id@);
        }
        match self.position(id) {
            Some(i) => {
                proof {
                    lemma_listed_is_mapped(self.entries@, i as int);
                }
                Some(&self.entries[i].1)
            },
            None => None,
        }
    }

    /// Whether the roster has a student with the identifier `id`.
    pub fn contains(&self, id: &Id) -> (listed: bool)
        ensures
            listed == self@.contains_key(id@),
    {
        self.get(id).is_some()
    }

    /// Puts `student` under the identifier `id`, in place of whoever was
    /// there before.
    pub fn insert(&mut self, id: Id, student: Student)
        ensures
            final(self)@ == old(self)@.insert(id@, student@),
    {
        proof {
            use_type_invariant(&*self);
        }
        let found = self.position(&id);
        let mut entries: Vec<(Id, Student)> = Vec::new();
        core::mem::swap(&mut entries, &mut self.entries);
        let ghost before = entries@;
        match found {
            Some(i) => {
                proof {
                    lemma_replacing_is_inserting(before, i as int, student);
                }
                entries[i].1 = student;
                assert(entries@ == before.update(i as int, (before[i as int].0, student)));
            },
            None => {
                entries.push((id, student));
                assert(entries@.drop_last() == before);
                assert(distinct_ids(entries@)) by {
                    assert forall|a: int, b: int| 0 <= a < b < entries@.len() implies entries@[a].0@
                        != entries@[b].0@ by {
                        if b < before.len() {
                            assert(before[a].0@ != before[b].0@);
                        } else {
                            assert(before[a].0@ != id@);
                        }
                    }
                }
            },
        }
        self.entries = entries;
    }

    /// The number of students.
    pub fn len(&self) -> (n: usize)
        ensures
            n == self@.dom().len(),
            self@.dom().finite(),
    {
        proof {
            use_type_invariant(self);
            lemma_as_many_as_listed(self.entries@);
        }
        self.entries.len()
    }

    /// Whether the roster has no student.
    pub fn is_empty(&self) -> (empty: bool)
        ensures
            empty == (self@ == Map::<Seq<char>, StudentView>::empty()),
    {
        proof {
            use_type_invariant(self);
            if self.entries@.len() > 0 {
                lemma_listed_is_mapped(self.entries@, 0);
            }
        }
        self.entries.len() == 0
    }
}

/// A list without repeated identifiers maps as many identifiers as it is long.
proof fn lemma_as_many_as_listed(entries: Seq<(Id, Student)>)
    requires
        distinct_ids(entries),
    ensures
        map_of(entries).dom().finite(),
        map_of(entries).dom().len() == entries.len(),
    decreases entries.len(),
{
    if entries.len() > 0 {
        let earlier = entries.drop_last();
        assert(distinct_ids(earlier)) by {
            assert forall|a: int, b: int| 0 <= a < b < earlier.len() implies earlier[a].0@
                != earlier[b].0@ by {
                assert(entries[a].0@ != entries[b].0@);
            }
        }
        lemma_as_many_as_listed(earlier);
        lemma_mapped_is_listed(earlier, entries.last().0@);
        if map_of(earlier).contains_key(entries.last().0@) {
            let i = choose|i: int|
                0 <= i < earlier.len() && (#[trigger] earlier[i]).0@ == entries.last().0@;
            assert(entries[i].0@ != entries[entries.len() - 1].0@);
        }
        assert(map_of(entries).dom() =~= map_of(earlier).dom().insert(entries.last().0@));
    }
}

impl Roster {
    /// The students with their identifiers, each identifier once.
    pub fn into_entries(self) -> (entries: Vec<(Id, Student)>)
        ensures
            distinct_ids(entries@),
            map_of(entries@) == self@,
    {
        proof {
            use_type_invariant(&self);
        }
        self.entries
    }
}

/// The student that the row `row` describes: the name is the text of the
/// name cell and the mark is the truth value of the mark cell. A cell that
/// the row does not reach gives an empty name or no mark, and so does a mark
/// cell without a truth value.
pub open spec fn student_of(
    row: Seq<Cell>,
    name_column: ColumnIndex,
    mark_column: ColumnIndex,
) -> StudentView {
    StudentView {
        name: if name_column < row.len() {
            row[name_column as int].text@
        } else {
            Seq::empty()
        },
        immediate_sign_in: mark_column < row.len() && row[mark_column as int].flag == Some(true),
    }
}

/// The students that the rows `rows` describe. A row that does not reach
/// the identifier column describes nobody. Where two rows have the same
/// identifier, the later row counts.
pub open spec fn students_of(
    rows: Seq<Vec<Cell>>,
    id_column: ColumnIndex,
    name_column: ColumnIndex,
    mark_column: ColumnIndex,
) -> Map<Seq<char>, StudentView>
    decreases rows.len(),
{
    if rows.len() == 0 {
        Map::empty()
    } else {
        let earlier = students_of(rows.drop_last(), id_column, name_column, mark_column);
        let row = rows.last()@;
        if id_column < row.len() {
            earlier.insert(row[id_column as int].text@, student_of(row, name_column, mark_column))
        } else {
            earlier
        }
    }
}

/// Reads the student out of one row.
pub fn student_from_row(row: &Vec<Cell>, name_column: ColumnIndex, mark_column: ColumnIndex) -> (student: Student)
    ensures
        student@ == student_of(row@, name_column, mark_column),
{
    let name = if (name_column as usize) < row.len() {
        row[name_column as usize].text.clone()
    } else {
        String::new()
    };
    let immediate_sign_in = if (mark_column as usize) < row.len() {
        match row[mark_column as usize].flag {
            Some(flag) => flag,
            None => false,
        }
    } else {
        false
    };
    Student { name, immediate_sign_in }
}

/// Gathers the students from the rows of the worksheet that the settings
/// point to, with the columns that the settings name.
pub fn load_student_info_from_xlsx(config: &Config, rows: &Vec<Vec<Cell>>) -> (roster: Roster)
    ensures
        roster@ == students_of(
            rows@,
            config.student_data.id_column,
            config.student_data.name_column,
            config.student_data.immediate_sign_in.column,
        ),
{
    let id_column = config.student_data.id_column;
    let name_column = config.student_data.name_column;
    let mark_column = config.student_data.immediate_sign_in.column;
    let mut roster = Roster::new();
    let mut i: usize = 0;
    assert(rows@.take(0) == Seq::<Vec<Cell>>::empty());
    while i < rows.len()
        invariant
            i <= rows@.len(),
            roster@ == students_of(rows@.take(i as int), id_column, name_column, mark_column),
        decreases rows@.len() - i,
    {
        let row = &rows[i];
        proof {
            assert(rows@.take(i + 1).drop_last() == rows@.take(i as int));
            assert(rows@.take(i + 1).last() == rows@[i as int]);
        }
        if (id_column as usize) < row.len() {
            let id = row[id_column as usize].text.clone();
            let student = student_from_row(row, name_column, mark_column);
            roster.insert(id, student);
        }
        i += 1;
    }
    assert(rows@.take(rows@.len() as int) == rows@);
    roster
}

} // verus!
