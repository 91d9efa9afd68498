//! The application's settings: what they hold, what they default to, and how
//! single settings are put back to their defaults.

use crate::text::same_text;
use vstd::prelude::*;

verus! {

/// The number of a spreadsheet column, counted from zero.
pub type ColumnIndex = u8;

/// The colour scheme of the user interface.
#[derive(Debug, Clone, Copy, PartialEq, Eq, Structural)]
pub enum Theme {
    /// Follow the operating system.
    System,
    /// Light text on dark backgrounds.
    Dark,
    /// Dark text on light backgrounds.
    Light,
}

/// What is needed to sign in to the MyStudio service.
#[derive(Debug)]
pub struct MyStudio {
    pub email: String,
    pub company_id: String,
}

/// How students that may sign in at once are marked in the sheet.
#[derive(Debug)]
pub struct ImmediateSignIn {
    /// The column that holds the mark.
    pub column: ColumnIndex,
    /// The text that stands for "enabled".
    pub enabled_symbol: String,
}

/// Where the student records are found.
#[derive(Debug)]
pub struct StudentData {
    /// The path of the workbook.
    pub filepath: String,
    /// The name of the worksheet with the records.
    pub sheet_name: String,
    /// The column with the students' names.
    pub name_column: ColumnIndex,
    /// The column with the students' identifiers.
    pub id_column: ColumnIndex,
    pub immediate_sign_in: ImmediateSignIn,
}

/// All settings of the application.
#[derive(Debug)]
pub struct Config {
    pub theme: Theme,
    pub my_studio: MyStudio,
    pub student_data: StudentData,
    /// The file the settings are kept in; not itself a setting.
    pub config_path: String,
}

/// The text of a `MyStudio` value.
pub struct MyStudioView {
    pub email: Seq<char>,
    pub company_id: Seq<char>,
}

/// The text of an `ImmediateSignIn` value.
pub struct ImmediateSignInView {
    pub column: ColumnIndex,
    pub enabled_symbol: Seq<char>,
}

/// The text of a `StudentData` value.
pub struct StudentDataView {
    pub filepath: Seq<char>,
    pub sheet_name: Seq<char>,
    pub name_column: ColumnIndex,
    pub id_column: ColumnIndex,
    pub immediate_sign_in: ImmediateSignInView,
}

/// The text of a `Config` value.
pub struct ConfigView {
    pub theme: Theme,
    pub my_studio: MyStudioView,
    pub student_data: StudentDataView,
    pub config_path: Seq<char>,
}

impl View for MyStudio {
    type V = MyStudioView;

    open spec fn view(&self) -> MyStudioView {
        MyStudioView { email: self.email@, company_id: self.company_id@ }
    }
}

impl View for ImmediateSignIn {
    type V = ImmediateSignInView;

    open spec fn view(&self) -> ImmediateSignInView {
        ImmediateSignInView { column: self.column, enabled_symbol: self.enabled_symbol@ }
    }
}

impl View for StudentData {
    type V = StudentDataView;

    open spec fn view(&self) -> StudentDataView {
        StudentDataView {
            filepath: self.filepath@,
            sheet_name: self.sheet_name@,
            name_column: self.name_column,
            id_column: self.id_column,
            immediate_sign_in: self.immediate_sign_in@,
        }
    }
}

impl View for Config {
    type V = ConfigView;

    open spec fn view(&self) -> ConfigView {
        ConfigView {
            theme: self.theme,
            my_studio: self.my_studio@,
            student_data: self.student_data@,
            config_path: self.config_path@,
        }
    }
}

/// The default sign-in data: nothing filled in.
pub open spec fn default_my_studio() -> MyStudioView {
    MyStudioView { email: Seq::empty(), company_id: Seq::empty() }
}

/// The default mark: column 0 and the text `TRUE`.
pub open spec fn default_immediate_sign_in() -> ImmediateSignInView {
    ImmediateSignInView { column: 0, enabled_symbol: "TRUE"@ }
}

/// The default place of the records: nothing filled in, every column 0.
pub open spec fn default_student_data() -> StudentDataView {
    StudentDataView {
        filepath: Seq::empty(),
        sheet_name: Seq::empty(),
        name_column: 0,
        id_column: 0,
        immediate_sign_in: default_immediate_sign_in(),
    }
}

/// The default settings, kept in the file `config_path`.
pub open spec fn default_config(config_path: Seq<char>) -> ConfigView {
    ConfigView {
        theme: Theme::System,
        my_studio: default_my_studio(),
        student_data: default_student_data(),
        config_path,
    }
}

impl Default for Theme {
    fn default() -> (theme: Self)
        ensures
            theme == Theme::System,
    {
        Theme::System
    }
}

impl Default for MyStudio {
    fn default() -> (my_studio: Self)
        ensures
            my_studio@ == default_my_studio(),
    {
        MyStudio { email: String::new(), company_id: String::new() }
    }
}

impl Default for ImmediateSignIn {
    fn default() -> (immediate_sign_in: Self)
        ensures
            immediate_sign_in@ == default_immediate_sign_in(),
    {
        ImmediateSignIn { column: 0, enabled_symbol: "TRUE".to_owned() }
    }
}

impl Default for StudentData {
    fn default() -> (student_data: Self)
        ensures
            student_data@ == default_student_data(),
    {
        StudentData {
            filepath: String::new(),
            sheet_name: String::new(),
            name_column: 0,
            id_column: 0,
            immediate_sign_in: ImmediateSignIn::default(),
        }
    }
}

impl Default for Config {
    fn default() -> (config: Self)
        ensures
            config@ == default_config(Seq::empty()),
    {
        Config {
            theme: Theme::default(),
            my_studio: MyStudio::default(),
            student_data: StudentData::default(),
            config_path: String::new(),
        }
    }
}

impl Clone for MyStudio {
    fn clone(&self) -> (copy: Self)
        ensures
            copy == *self,
    {
        MyStudio { email: self.email.clone(), company_id: self.company_id.clone() }
    }
}

impl Clone for ImmediateSignIn {
    fn clone(&self) -> (copy: Self)
        ensures
            copy == *self,
    {
        ImmediateSignIn { column: self.column, enabled_symbol: self.enabled_symbol.clone() }
    }
}

impl Clone for StudentData {
    fn clone(&self) -> (copy: Self)
        ensures
            copy == *self,
    {
        StudentData {
            filepath: self.filepath.clone(),
            sheet_name: self.sheet_name.clone(),
            name_column: self.name_column,
            id_column: self.id_column,
            immediate_sign_in: self.immediate_sign_in.clone(),
        }
    }
}

impl Clone for Config {
    fn clone(&self) -> (copy: Self)
        ensures
            copy == *self,
    {
        Config {
            theme: self.theme,
            my_studio: self.my_studio.clone(),
            student_data: self.student_data.clone(),
            config_path: self.config_path.clone(),
        }
    }
}

/// The settings that can be put back to their defaults one at a time.
#[derive(Debug, Clone, Copy, PartialEq, Eq, Structural)]
pub enum Setting {
    Theme,
    MyStudioEmail,
    MyStudioCompanyId,
    StudentDataFilepath,
    StudentDataSheetName,
    StudentDataNameColumn,
    StudentDataIdColumn,
    ImmediateSignInColumn,
    ImmediateSignInEnabledSymbol,
}

impl Setting {
    /// The identifier under which the user interface knows this setting.
    pub open spec fn id(self) -> Seq<char> {
        match self {
            Setting::Theme => "theme"@,
            Setting::MyStudioEmail => "my-studio.email"@,
            Setting::MyStudioCompanyId => "my-studio.company-id"@,
            Setting::StudentDataFilepath => "student-data.filepath"@,
            Setting::StudentDataSheetName => "student-data.sheet-name"@,
            Setting::StudentDataNameColumn => "student-data.name-column"@,
            Setting::StudentDataIdColumn => "student-data.id-column"@,
            Setting::ImmediateSignInColumn => "student-data.immediate-sign-in-column"@,
            Setting::ImmediateSignInEnabledSymbol => "student-data.immediate-sign-in-enabled-symbol"@,
        }
    }

    /// The setting that goes by the identifier `id`, if there is one. The
    /// identifiers are tried in the order in which the settings are listed.
    pub open spec fn named(id: Seq<char>) -> Option<Setting> {
        if id == Setting::Theme.id() {
            Some(Setting::Theme)
        } else if id == Setting::MyStudioEmail.id() {
            Some(Setting::MyStudioEmail)
        } else if id == Setting::MyStudioCompanyId.id() {
            Some(Setting::MyStudioCompanyId)
        } else if id == Setting::StudentDataFilepath.id() {
            Some(Setting::StudentDataFilepath)
        } else if id == Setting::StudentDataSheetName.id() {
            Some(Setting::StudentDataSheetName)
        } else if id == Setting::StudentDataNameColumn.id() {
            Some(Setting::StudentDataNameColumn)
        } else if id == Setting::StudentDataIdColumn.id() {
            Some(Setting::StudentDataIdColumn)
        } else if id == Setting::ImmediateSignInColumn.id() {
            Some(Setting::ImmediateSignInColumn)
        } else if id == Setting::ImmediateSignInEnabledSymbol.id() {
            Some(Setting::ImmediateSignInEnabledSymbol)
        } else {
            None
        }
    }

    /// The identifier under which the user interface knows this setting.
    pub fn identifier(self) -> (id: &'static str)
        ensures
            id@ == self.id(),
    {
        match self {
            Setting::Theme => "theme",
            Setting::MyStudioEmail => "my-studio.email",
            Setting::MyStudioCompanyId => "my-studio.company-id",
            Setting::StudentDataFilepath => "student-data.filepath",
            Setting::StudentDataSheetName => "student-data.sheet-name",
            Setting::StudentDataNameColumn => "student-data.name-column",
            Setting::StudentDataIdColumn => "student-data.id-column",
            Setting::ImmediateSignInColumn => "student-data.immediate-sign-in-column",
            Setting::ImmediateSignInEnabledSymbol => "student-data.immediate-sign-in-enabled-symbol",
        }
    }

    /// Every setting, in the order in which a full reset goes through them.
    pub fn all() -> (settings: Vec<Setting>)
        ensures
            settings@ == seq![
                Setting::Theme,
                Setting::MyStudioEmail,
                Setting::MyStudioCompanyId,
                Setting::StudentDataFilepath,
                Setting::StudentDataSheetName,
                Setting::StudentDataNameColumn,
                Setting::StudentDataIdColumn,
                Setting::ImmediateSignInColumn,
                Setting::ImmediateSignInEnabledSymbol,
            ],
    {
        let mut settings: Vec<Setting> = Vec::new();
        settings.push(Setting::Theme);
        settings.push(Setting::MyStudioEmail);
        settings.push(Setting::MyStudioCompanyId);
        settings.push(Setting::StudentDataFilepath);
        settings.push(Setting::StudentDataSheetName);
        settings.push(Setting::StudentDataNameColumn);
        settings.push(Setting::StudentDataIdColumn);
        settings.push(Setting::ImmediateSignInColumn);
        settings.push(Setting::ImmediateSignInEnabledSymbol);
        settings
    }

    /// Finds the setting that goes by the identifier `id`.
    pub fn parse(id: &str) -> (setting: Option<Setting>)
        ensures
            setting == Setting::named(id@),
    {
        if same_text(id, Setting::Theme.identifier()) {
            Some(Setting::Theme)
        } else if same_text(id, Setting::MyStudioEmail.identifier()) {
            Some(Setting::MyStudioEmail)
        } else if same_text(id, Setting::MyStudioCompanyId.identifier()) {
            Some(Setting::MyStudioCompanyId)
        } else if same_text(id, Setting::StudentDataFilepath.identifier()) {
            Some(Setting::StudentDataFilepath)
        } else if same_text(id, Setting::StudentDataSheetName.identifier()) {
            Some(Setting::StudentDataSheetName)
        } else if same_text(id, Setting::StudentDataNameColumn.identifier()) {
            Some(Setting::StudentDataNameColumn)
        } else if same_text(id, Setting::StudentDataIdColumn.identifier()) {
            Some(Setting::StudentDataIdColumn)
        } else if same_text(id, Setting::ImmediateSignInColumn.identifier()) {
            Some(Setting::ImmediateSignInColumn)
        } else if same_text(id, Setting::ImmediateSignInEnabledSymbol.identifier()) {
            Some(Setting::ImmediateSignInEnabledSymbol)
        } else {
            None
        }
    }
}

/// The settings `config` with `setting` put back to its default.
pub open spec fn with_default(config: ConfigView, setting: Setting) -> ConfigView {
    match setting {
        Setting::Theme => ConfigView { theme: Theme::System, ..config },
        Setting::MyStudioEmail => ConfigView {
            my_studio: MyStudioView { email: default_my_studio().email, ..config.my_studio },
            ..config
        },
        Setting::MyStudioCompanyId => ConfigView {
            my_studio: MyStudioView {
                company_id: default_my_studio().company_id,
                ..config.my_studio
            },
            ..config
        },
        Setting::StudentDataFilepath => ConfigView {
            student_data: StudentDataView {
                filepath: default_student_data().filepath,
                ..config.student_data
            },
            ..config
        },
        Setting::StudentDataSheetName => ConfigView {
            student_data: StudentDataView {
                sheet_name: default_student_data().sheet_name,
                ..config.student_data
            },
            ..config
        },
        Setting::StudentDataNameColumn => ConfigView {
            student_data: StudentDataView {
                name_column: default_student_data().name_column,
                ..config.student_data
            },
            ..config
        },
        Setting::StudentDataIdColumn => ConfigView {
            student_data: StudentDataView {
                id_column: default_student_data().id_column,
                ..config.student_data
            },
            ..config
        },
        Setting::ImmediateSignInColumn => ConfigView {
            student_data: StudentDataView {
                immediate_sign_in: ImmediateSignInView {
                    column: default_immediate_sign_in().column,
                    ..config.student_data.immediate_sign_in
                },
                ..config.student_data
            },
            ..config
        },
        Setting::ImmediateSignInEnabledSymbol => ConfigView {
            student_data: StudentDataView {
                immediate_sign_in: ImmediateSignInView {
                    enabled_symbol: default_immediate_sign_in().enabled_symbol,
                    ..config.student_data.immediate_sign_in
                },
                ..config.student_data
            },
            ..config
        },
    }
}

impl Config {
    /// Puts `setting` back to its default and leaves every other setting,
    /// and the file the settings are kept in, as they are.
    pub fn reset(&mut self, setting: Setting)
        ensures
            final(self)@ == with_default(old(self)@, setting),
    {
        match setting {
            Setting::Theme => {
                self.theme = Theme::default();
            },
            Setting::MyStudioEmail => {
                self.my_studio.email = MyStudio::default().email;
            },
            Setting::MyStudioCompanyId => {
                self.my_studio.company_id = MyStudio::default().company_id;
            },
            Setting::StudentDataFilepath => {
                self.student_data.filepath = StudentData::default().filepath;
            },
            Setting::StudentDataSheetName => {
                self.student_data.sheet_name = StudentData::default().sheet_name;
            },
            Setting::StudentDataNameColumn => {
                self.student_data.name_column = StudentData::default().name_column;
            },
            Setting::StudentDataIdColumn => {
                self.student_data.id_column = StudentData::default().id_column;
            },
            Setting::ImmediateSignInColumn => {
                self.student_data.immediate_sign_in.column = ImmediateSignIn::default().column;
            },
            Setting::ImmediateSignInEnabledSymbol => {
                self.student_data.immediate_sign_in.enabled_symbol =
                    ImmediateSignIn::default().enabled_symbol;
            },
        }
    }

    /// Puts the setting that goes by `id` back to its default. An identifier
    /// that names no setting changes nothing. Says which setting it was.
    pub fn reset_by_id(&mut self, id: &str) -> (setting: Option<Setting>)
        ensures
            setting == Setting::named(id@),
            match setting {
                Some(setting) => final(self)@ == with_default(old(self)@, setting),
                None => final(self)@ == old(self)@,
            },
    {
        let setting = Setting::parse(id);
        match setting {
            Some(setting) => self.reset(setting),
            None => {},
        }
        setting
    }

    /// Puts every setting back to its default. The file the settings are
    /// kept in stays the same.
    pub fn reset_all(&mut self)
        ensures
            final(self)@ == default_config(old(self)@.config_path),
    {
        self.reset(Setting::Theme);
        self.reset(Setting::MyStudioEmail);
        self.reset(Setting::MyStudioCompanyId);
        self.reset(Setting::StudentDataFilepath);
        self.reset(Setting::StudentDataSheetName);
        self.reset(Setting::StudentDataNameColumn);
        self.reset(Setting::StudentDataIdColumn);
        self.reset(Setting::ImmediateSignInColumn);
        self.reset(Setting::ImmediateSignInEnabledSymbol);
    }
}

/// Each setting is found again under its own identifier: no two settings
/// share one.
pub proof fn law_identifiers_name_their_settings(setting: Setting)
    ensures
        Setting::named(setting.id()) == Some(setting),
{
    reveal_strlit("theme");
    reveal_strlit("my-studio.email");
    reveal_strlit("my-studio.company-id");
    reveal_strlit("student-data.filepath");
    reveal_strlit("student-data.sheet-name");
    reveal_strlit("student-data.name-column");
    reveal_strlit("student-data.id-column");
    reveal_strlit("student-data.immediate-sign-in-column");
    reveal_strlit("student-data.immediate-sign-in-enabled-symbol");
    assert("theme"@.len() == 5);
    assert("my-studio.email"@.len() == 15);
    assert("my-studio.company-id"@.len() == 20);
    assert("student-data.filepath"@.len() == 21);
    assert("student-data.sheet-name"@.len() == 23);
    assert("student-data.name-column"@.len() == 24);
    assert("student-data.id-column"@.len() == 22);
    assert("student-data.immediate-sign-in-column"@.len() == 37);
    assert("student-data.immediate-sign-in-enabled-symbol"@.len() == 45);
}

/// Putting a setting back twice is the same as putting it back once, and
/// the order in which two settings are put back does not matter.
pub proof fn law_resets_are_independent(config: ConfigView, first: Setting, second: Setting)
    ensures
        with_default(with_default(config, first), first) == with_default(config, first),
        with_default(with_default(config, first), second) == with_default(
            with_default(config, second),
            first,
        ),
{
}

/// The student data as the settings page shows and edits it: text as text,
/// column numbers as the integers of the user interface.
#[derive(Debug)]
pub struct StudentDataForm {
    pub filepath: String,
    pub sheet_name: String,
    pub name_column: i32,
    pub id_column: i32,
    pub immediate_sign_in_column: i32,
    pub immediate_sign_in_enabled_symbol: String,
}

/// Whether `value` is the number of a column.
pub open spec fn is_column(value: i32) -> bool {
    0 <= value <= ColumnIndex::MAX
}

impl StudentDataForm {
    /// Whether every column number on the form is the number of a column.
    pub open spec fn columns_fit(self) -> bool {
        &&& is_column(self.name_column)
        &&& is_column(self.id_column)
        &&& is_column(self.immediate_sign_in_column)
    }

    /// The student data that the form stands for.
    pub open spec fn student_data(self) -> StudentDataView {
        StudentDataView {
            filepath: self.filepath@,
            sheet_name: self.sheet_name@,
            name_column: self.name_column as ColumnIndex,
            id_column: self.id_column as ColumnIndex,
            immediate_sign_in: ImmediateSignInView {
                column: self.immediate_sign_in_column as ColumnIndex,
                enabled_symbol: self.immediate_sign_in_enabled_symbol@,
            },
        }
    }

    /// Decides whether every column number on the form is the number of a
    /// column, as it has to be before the form is taken into the settings.
    pub fn has_valid_columns(&self) -> (valid: bool)
        ensures
            valid == self.columns_fit(),
    {
        column_from(self.name_column).is_some() && column_from(self.id_column).is_some()
            && column_from(self.immediate_sign_in_column).is_some()
    }
}

/// The column with the number `value`, if there is such a column.
pub fn column_from(value: i32) -> (column: Option<ColumnIndex>)
    ensures
        is_column(value) ==> column == Some(value as ColumnIndex),
        !is_column(value) ==> column is None,
{
    if 0 <= value && value <= 255 {
        Some(value as ColumnIndex)
    } else {
        None
    }
}

impl StudentData {
    /// Fills in the form of the settings page from these student data.
    pub fn to_form(&self) -> (form: StudentDataForm)
        ensures
            form.columns_fit(),
            form.student_data() == self@,
    {
        StudentDataForm {
            filepath: self.filepath.clone(),
            sheet_name: self.sheet_name.clone(),
            name_column: self.name_column as i32,
            id_column: self.id_column as i32,
            immediate_sign_in_column: self.immediate_sign_in.column as i32,
            immediate_sign_in_enabled_symbol: self.immediate_sign_in.enabled_symbol.clone(),
        }
    }

    /// Reads student data off the form of the settings page. The column
    /// numbers on the form have to be numbers of columns.
    pub fn from_form(form: &StudentDataForm) -> (student_data: StudentData)
        requires
            form.columns_fit(),
        ensures
            student_data@ == form.student_data(),
    {
        StudentData {
            filepath: form.filepath.clone(),
            sheet_name: form.sheet_name.clone(),
            name_column: form.name_column as ColumnIndex,
            id_column: form.id_column as ColumnIndex,
            immediate_sign_in: ImmediateSignIn {
                column: form.immediate_sign_in_column as ColumnIndex,
                enabled_symbol: form.immediate_sign_in_enabled_symbol.clone(),
            },
        }
    }
}

impl Config {
    /// Takes over what the settings page shows: the theme, the sign-in data
    /// and the student data on the form. The file the settings are kept in
    /// stays the same. The column numbers on the form have to be numbers of
    /// columns.
    pub fn save_to_config(&mut self, theme: Theme, my_studio: MyStudio, form: &StudentDataForm)
        requires
            form.columns_fit(),
        ensures
            final(self)@ == (ConfigView {
                theme,
                my_studio: my_studio@,
                student_data: form.student_data(),
                config_path: old(self)@.config_path,
            }),
    {
        self.theme = theme;
        self.my_studio = my_studio;
        self.student_data = StudentData::from_form(form);
    }

    /// Takes over what the settings page shows if the column numbers on the
    /// form are numbers of columns, and changes nothing if they are not.
    /// Says whether the settings were taken over.
    pub fn try_save_to_config(&mut self, theme: Theme, my_studio: MyStudio, form: &StudentDataForm) -> (saved: bool)
        ensures
            saved == form.columns_fit(),
            saved ==> final(self)@ == (ConfigView {
                theme,
                my_studio: my_studio@,
                student_data: form.student_data(),
                config_path: old(self)@.config_path,
            }),
            !saved ==> final(self)@ == old(self)@,
    {
        if form.has_valid_columns() {
            self.save_to_config(theme, my_studio, form);
            true
        } else {
            false
        }
    }
}

} // verus!
