//! The students as the application keeps them at hand.

use crate::config::Config;
use crate::spreadsheet::{load_student_info_from_xlsx, students_of, Cell, Roster, StudentView};
use vstd::prelude::*;

verus! {

/// The students read from the worksheet, together with the settings that
/// say where to find them.
pub struct StudentDatabase {
    pub students: Roster,
    pub config: Config,
}

impl StudentDatabase {
    /// A database without students that reads by the settings `config`.
    pub fn new(config: Config) -> (database: Self)
        ensures
            database.config == config,
            database.students@ == Map::<Seq<char>, StudentView>::empty(),
    {
        StudentDatabase { students: Roster::new(), config }
    }

    /// Replaces the students by those that the rows of the worksheet
    /// describe, read with the columns that the settings name.
    pub fn load_student_data(&mut self, rows: &Vec<Vec<Cell>>)
        ensures
            final(self).config == old(self).config,
            final(self).students@ == students_of(
                rows@,
                old(self).config.student_data.id_column,
                old(self).config.student_data.name_column,
                old(self).config.student_data.immediate_sign_in.column,
            ),
    {
        self.students = load_student_info_from_xlsx(&self.config, rows);
    }
}

} // verus!
