//! The editor settings that are kept in TOML documents: how they are read
//! from a document, moved in from the settings interface, and written back.
use vstd::prelude::*;
use vstd::string::*;

use crate::dictionaries::{find_by_name, position_from, AvailableDictionary};
use crate::setting::Setting;
use crate::text::str_eq;
use crate::toml_doc::{
    entry_at, toml_get, toml_insert_bool, toml_insert_integer, toml_insert_text, toml_new,
    toml_parse, toml_parsed, empty_table, toml_remove, toml_table_contents, TomlEntry, TomlValue,
};
use crate::error::CheeseError;
use toml_edit::DocumentMut;

verus! {

/// Which theme the editor uses.
#[derive(Debug, Clone, Copy, PartialEq, Eq, Structural)]
pub enum ThemeSelection {
    Default,
    DefaultLight,
    Random,
    Preset(usize),
}

/// How a theme selection is written into a settings document.
pub open spec fn theme_value(selection: ThemeSelection) -> TomlValue {
    match selection {
        ThemeSelection::Default => TomlValue::Text("default"@),
        ThemeSelection::DefaultLight => TomlValue::Text("light"@),
        ThemeSelection::Random => TomlValue::Text("random"@),
        ThemeSelection::Preset(idx) => TomlValue::Integer(idx as i64),
    }
}

/// The theme selection a settings entry stands for, if any.
pub open spec fn theme_from_value(v: TomlValue) -> Option<ThemeSelection> {
    match v {
        TomlValue::Text(s) => if s == "default"@ {
            Some(ThemeSelection::Default)
        } else if s == "light"@ {
            Some(ThemeSelection::DefaultLight)
        } else if s == "random"@ {
            Some(ThemeSelection::Random)
        } else {
            None
        },
        TomlValue::Integer(i) => if 0 <= i <= usize::MAX {
            Some(ThemeSelection::Preset(i as usize))
        } else {
            None
        },
        _ => None,
    }
}

impl ThemeSelection {
    /// The entry that stands for this selection in a settings document.
    pub fn to_entry(&self) -> (entry: TomlEntry)
        ensures
            entry@ == theme_value(*self),
    {
        match self {
            ThemeSelection::Default => TomlEntry::Text(String::from_str("default")),
            ThemeSelection::DefaultLight => TomlEntry::Text(String::from_str("light")),
            ThemeSelection::Random => TomlEntry::Text(String::from_str("random")),
            ThemeSelection::Preset(idx) => TomlEntry::Integer(*idx as i64),
        }
    }

    /// Reads a selection from a settings entry: the names `default`,
    /// `light` and `random`, or the index of a preset.
    pub fn from_entry(entry: &TomlEntry) -> (selection: Result<ThemeSelection, ()>)
        ensures
            selection == match theme_from_value(entry@) {
                Some(s) => Ok::<ThemeSelection, ()>(s),
                None => Err(()),
            },
    {
        match entry {
            TomlEntry::Text(s) => {
                if str_eq(s.as_str(), "default") {
                    Ok(ThemeSelection::Default)
                } else if str_eq(s.as_str(), "light") {
                    Ok(ThemeSelection::DefaultLight)
                } else if str_eq(s.as_str(), "random") {
                    Ok(ThemeSelection::Random)
                } else {
                    Err(())
                }
            },
            TomlEntry::Integer(i) => {
                if 0 <= *i && (*i as u64) <= (usize::MAX as u64) {
                    Ok(ThemeSelection::Preset(*i as usize))
                } else {
                    Err(())
                }
            },
            _ => Err(()),
        }
    }
}

impl Default for ThemeSelection {
    fn default() -> (selection: Self)
        ensures
            selection == ThemeSelection::Default,
    {
        ThemeSelection::Default
    }
}

/// The settings of the editor that live in a settings document.
#[derive(Debug)]
pub struct SettingsData {
    /// visual indentation at the start of lines
    pub indent_line_start: Setting<bool>,
    /// highlight multiple spaces in a row
    pub highlight_multiple_spaces: Setting<bool>,
    /// highlight things like "word ."
    pub highlight_spaces_before_punctuation: Setting<bool>,
    /// re-open the last project when launching the app
    pub reopen_last: Setting<bool>,
    /// check against the latest released version (no network calls when false)
    pub check_for_updates: Setting<bool>,
    /// name of the spellcheck dictionary
    pub selected_dictionary: Setting<String>,
    /// the theme changed since the settings were last written out
    pub theme_settings_modified: bool,
    /// the theme in use
    pub selected_theme: ThemeSelection,
    /// the dictionaries found on disk, at most one per name
    pub available_dict: Vec<AvailableDictionary>,
}

/// The view of an optional string.
pub open spec fn text_view(v: Option<String>) -> Option<Seq<char>> {
    match v {
        Some(s) => Some(s@),
        None => None,
    }
}

/// Reading a boolean setting: a boolean stored under `key` is set on the
/// given side, anything else leaves the setting as it was.
pub open spec fn load_bool(
    pre: Setting<bool>,
    post: Setting<bool>,
    doc: DocumentMut,
    key: Seq<char>,
    project_local: bool,
) -> bool {
    match entry_at(doc, key) {
        Some(TomlValue::Boolean(b)) => Setting::set_post(pre, post, Some(b), project_local),
        _ => Setting::same_state(pre, post),
    }
}

/// Reading a string setting: a string stored under `key` is set on the
/// given side, anything else leaves the setting as it was.
pub open spec fn load_text(
    pre: Setting<String>,
    post: Setting<String>,
    doc: DocumentMut,
    key: Seq<char>,
    project_local: bool,
) -> bool {
    match entry_at(doc, key) {
        Some(TomlValue::Text(s)) => {
            &&& text_view(post.stored(project_local)) == Some(s)
            &&& Setting::set_post(pre, post, post.stored(project_local), project_local)
        },
        _ => Setting::same_state(pre, post),
    }
}

/// Reading the theme selection: a theme table takes its place (it is loaded
/// outside these settings); otherwise a valid `selected_theme` entry is used.
pub open spec fn load_theme(pre: ThemeSelection, post: ThemeSelection, doc: DocumentMut) -> bool {
    if entry_at(doc, "theme"@) == Some(TomlValue::Table) {
        post == pre
    } else {
        match entry_at(doc, "selected_theme"@) {
            Some(v) => match theme_from_value(v) {
                Some(s) => post == s,
                None => post == pre,
            },
            None => post == pre,
        }
    }
}

/// A boolean setting written under a key: stored, or removed when unset.
pub open spec fn put_bool(m: Map<Seq<char>, TomlValue>, key: Seq<char>, v: Option<bool>) -> Map<
    Seq<char>,
    TomlValue,
> {
    match v {
        Some(b) => m.insert(key, TomlValue::Boolean(b)),
        None => m.remove(key),
    }
}

/// A string setting written under a key: stored, or removed when unset.
pub open spec fn put_text(
    m: Map<Seq<char>, TomlValue>,
    key: Seq<char>,
    v: Option<Seq<char>>,
) -> Map<Seq<char>, TomlValue> {
    match v {
        Some(s) => m.insert(key, TomlValue::Text(s)),
        None => m.remove(key),
    }
}

impl SettingsData {
    /// The settings right after start: nothing stored, the built-in defaults.
    pub open spec fn initial(self) -> bool {
        &&& self.indent_line_start.global_value() is None
        &&& self.indent_line_start.local_value() is None
        &&& self.indent_line_start.default_value() == false
        &&& self.highlight_multiple_spaces.global_value() is None
        &&& self.highlight_multiple_spaces.local_value() is None
        &&& self.highlight_multiple_spaces.default_value() == true
        &&& self.highlight_spaces_before_punctuation.global_value() is None
        &&& self.highlight_spaces_before_punctuation.local_value() is None
        &&& self.highlight_spaces_before_punctuation.default_value() == true
        &&& self.reopen_last.global_value() is None
        &&& self.reopen_last.local_value() is None
        &&& self.reopen_last.default_value() == true
        &&& self.check_for_updates.global_value() is None
        &&& self.check_for_updates.local_value() is None
        &&& self.check_for_updates.default_value() == true
        &&& self.selected_dictionary.global_value() is None
        &&& self.selected_dictionary.local_value() is None
        &&& self.selected_dictionary.default_value()@ == "en_US"@
        &&& !self.theme_settings_modified
        &&& self.selected_theme == ThemeSelection::Default
        &&& self.available_dict@.len() == 0
    }

    /// What `load(doc, project_local)` does.
    pub open spec fn load_post(pre: Self, post: Self, doc: DocumentMut, project_local: bool) -> bool {
        &&& load_bool(pre.reopen_last, post.reopen_last, doc, "reopen_last"@, project_local)
        &&& load_bool(
            pre.indent_line_start,
            post.indent_line_start,
            doc,
            "indent_line_start"@,
            project_local,
        )
        &&& load_bool(
            pre.highlight_multiple_spaces,
            post.highlight_multiple_spaces,
            doc,
            "highlight_multiple_spaces"@,
            project_local,
        )
        &&& load_bool(
            pre.highlight_spaces_before_punctuation,
            post.highlight_spaces_before_punctuation,
            doc,
            "highlight_spaces_before_punctuation"@,
            project_local,
        )
        &&& load_bool(
            pre.check_for_updates,
            post.check_for_updates,
            doc,
            "check_for_updates"@,
            project_local,
        )
        &&& load_text(
            pre.selected_dictionary,
            post.selected_dictionary,
            doc,
            "selected_dictionary"@,
            project_local,
        )
        &&& load_theme(pre.selected_theme, post.selected_theme, doc)
        &&& post.theme_settings_modified == pre.theme_settings_modified
        &&& post.available_dict == pre.available_dict
    }

    /// The document contents after `save(doc, project_local)`. The spaces
    /// before punctuation setting is always written from its global value.
    pub open spec fn saved_contents(
        self,
        before: Map<Seq<char>, TomlValue>,
        project_local: bool,
    ) -> Map<Seq<char>, TomlValue> {
        let m1 = put_bool(before, "reopen_last"@, self.reopen_last.stored(project_local));
        let m2 = put_bool(m1, "indent_line_start"@, self.indent_line_start.stored(project_local));
        let m3 = put_bool(
            m2,
            "highlight_multiple_spaces"@,
            self.highlight_multiple_spaces.stored(project_local),
        );
        let m4 = put_bool(
            m3,
            "highlight_spaces_before_punctuation"@,
            self.highlight_spaces_before_punctuation.global_value(),
        );
        let m5 = put_bool(m4, "check_for_updates"@, self.check_for_updates.stored(project_local));
        let m6 = put_text(
            m5,
            "selected_dictionary"@,
            text_view(self.selected_dictionary.stored(project_local)),
        );
        if project_local {
            m6
        } else if self.selected_theme == ThemeSelection::Default {
            m6.remove("selected_theme"@)
        } else {
            m6.insert("selected_theme"@, theme_value(self.selected_theme))
        }
    }

    /// Whether anything that `save` reports changed since the last save.
    pub open spec fn any_modified(self) -> bool {
        ||| self.reopen_last.is_modified()
        ||| self.indent_line_start.is_modified()
        ||| self.highlight_multiple_spaces.is_modified()
        ||| self.highlight_spaces_before_punctuation.is_modified()
        ||| self.check_for_updates.is_modified()
        ||| self.theme_settings_modified
    }

    /// What `save(doc, project_local)` does to the settings themselves.
    pub open spec fn save_post(pre: Self, post: Self, project_local: bool) -> bool {
        &&& Setting::cleared_post(pre.reopen_last, post.reopen_last)
        &&& Setting::cleared_post(pre.indent_line_start, post.indent_line_start)
        &&& Setting::cleared_post(pre.highlight_multiple_spaces, post.highlight_multiple_spaces)
        &&& Setting::cleared_post(
            pre.highlight_spaces_before_punctuation,
            post.highlight_spaces_before_punctuation,
        )
        &&& Setting::cleared_post(pre.check_for_updates, post.check_for_updates)
        &&& Setting::cleared_post(pre.selected_dictionary, post.selected_dictionary)
        &&& post.selected_theme == pre.selected_theme
        &&& post.theme_settings_modified == (project_local && pre.theme_settings_modified)
        &&& post.available_dict == pre.available_dict
    }

    /// What `update_values(project_local)` does.
    pub open spec fn update_values_post(pre: Self, post: Self, project_local: bool) -> bool {
        &&& Setting::update_post(pre.indent_line_start, post.indent_line_start, project_local)
        &&& Setting::update_post(
            pre.highlight_multiple_spaces,
            post.highlight_multiple_spaces,
            project_local,
        )
        &&& Setting::update_post(
            pre.highlight_spaces_before_punctuation,
            post.highlight_spaces_before_punctuation,
            project_local,
        )
        &&& Setting::update_post(pre.reopen_last, post.reopen_last, project_local)
        &&& Setting::update_post(pre.check_for_updates, post.check_for_updates, project_local)
        &&& Setting::update_post(pre.selected_dictionary, post.selected_dictionary, project_local)
        &&& post.selected_theme == pre.selected_theme
        &&& post.theme_settings_modified == pre.theme_settings_modified
        &&& post.available_dict == pre.available_dict
    }

    /// The settings with their built-in defaults and nothing stored.
    pub fn new() -> (data: Self)
        ensures
            data.initial(),
    {
        SettingsData {
            reopen_last: Setting::transparent(true),
            indent_line_start: Setting::transparent(false),
            highlight_multiple_spaces: Setting::transparent(true),
            highlight_spaces_before_punctuation: Setting::transparent(true),
            check_for_updates: Setting::transparent(true),
            selected_dictionary: Setting::transparent(String::from_str("en_US")),
            theme_settings_modified: false,
            selected_theme: ThemeSelection::Default,
            available_dict: Vec::new(),
        }
    }

    /// Chooses the dictionary to load for the selected dictionary name, and
    /// clears the error of an earlier attempt: nothing when the selection
    /// is empty, otherwise the first available dictionary of that name.
    pub fn dictionary_to_load(&mut self) -> (found: Option<usize>)
        ensures
            final(self).selected_dictionary.message() is None,
            final(self).selected_dictionary.current() == old(self).selected_dictionary.current(),
            final(self).selected_dictionary.global_value() == old(
                self,
            ).selected_dictionary.global_value(),
            final(self).selected_dictionary.local_value() == old(
                self,
            ).selected_dictionary.local_value(),
            final(self).available_dict == old(self).available_dict,
            old(self).selected_dictionary.current()@.len() == 0 ==> found is None,
            old(self).selected_dictionary.current()@.len() > 0 ==> match found {
                Some(i) => position_from(
                    old(self).available_dict@,
                    old(self).selected_dictionary.current()@,
                    0,
                ) == Some(i as int),
                None => position_from(
                    old(self).available_dict@,
                    old(self).selected_dictionary.current()@,
                    0,
                ) is None,
            },
    {
        self.selected_dictionary.set_error(None);
        let selection = self.selected_dictionary.get_value();
        if selection.unicode_len() == 0 {
            return None;
        }
        find_by_name(&self.available_dict, selection.as_str())
    }

    /// Reads the settings found in `table` into one side (project-local or
    /// global); settings that are missing or of the wrong kind are left as
    /// they were.
    pub fn load(&mut self, table: &DocumentMut, project_local: bool)
        ensures
            Self::load_post(*old(self), *final(self), *table, project_local),
    {
        Self::load_bool_setting(&mut self.reopen_last, table, "reopen_last", project_local);
        Self::load_bool_setting(
            &mut self.indent_line_start,
            table,
            "indent_line_start",
            project_local,
        );
        Self::load_bool_setting(
            &mut self.highlight_multiple_spaces,
            table,
            "highlight_multiple_spaces",
            project_local,
        );
        Self::load_bool_setting(
            &mut self.highlight_spaces_before_punctuation,
            table,
            "highlight_spaces_before_punctuation",
            project_local,
        );
        Self::load_bool_setting(
            &mut self.check_for_updates,
            table,
            "check_for_updates",
            project_local,
        );
        if let Some(TomlEntry::Text(selected_dictionary)) = toml_get(table, "selected_dictionary") {
            self.selected_dictionary.set_value(Some(selected_dictionary), project_local);
        }
        let theme = toml_get(table, "theme");
        let has_theme_table = match theme {
            Some(TomlEntry::Table) => true,
            _ => false,
        };
        if !has_theme_table {
            if let Some(entry) = toml_get(table, "selected_theme") {
                if let Ok(selection) = ThemeSelection::from_entry(&entry) {
                    self.selected_theme = selection;
                }
            }
        }
    }

    fn load_bool_setting(
        setting: &mut Setting<bool>,
        table: &DocumentMut,
        key: &str,
        project_local: bool,
    )
        ensures
            load_bool(*old(setting), *final(setting), *table, key@, project_local),
    {
        if let Some(TomlEntry::Boolean(b)) = toml_get(table, key) {
            setting.set_value(Some(b), project_local);
        }
    }

    fn save_bool_setting(
        setting: &mut Setting<bool>,
        table: &mut DocumentMut,
        key: &str,
        project_local: bool,
    )
        ensures
            Setting::cleared_post(*old(setting), *final(setting)),
            toml_table_contents(*final(table)) == put_bool(
                toml_table_contents(*old(table)),
                key@,
                old(setting).stored(project_local),
            ),
    {
        setting.clear_modified();
        match setting.value(project_local) {
            Some(b) => toml_insert_bool(table, key, *b),
            None => toml_remove(table, key),
        }
    }

    /// Writes the stored values of one side into `table` (unset ones are
    /// removed) and clears the modified marks. Answers whether any setting
    /// had been modified.
    pub fn save(&mut self, table: &mut DocumentMut, project_local: bool) -> (modified: bool)
        ensures
            modified == old(self).any_modified(),
            Self::save_post(*old(self), *final(self), project_local),
            toml_table_contents(*final(table)) == old(self).saved_contents(
                toml_table_contents(*old(table)),
                project_local,
            ),
    {
        let modified = self.reopen_last.modified() || self.indent_line_start.modified()
            || self.highlight_multiple_spaces.modified()
            || self.highlight_spaces_before_punctuation.modified()
            || self.check_for_updates.modified() || self.theme_settings_modified;

        Self::save_bool_setting(&mut self.reopen_last, table, "reopen_last", project_local);
        Self::save_bool_setting(
            &mut self.indent_line_start,
            table,
            "indent_line_start",
            project_local,
        );
        Self::save_bool_setting(
            &mut self.highlight_multiple_spaces,
            table,
            "highlight_multiple_spaces",
            project_local,
        );
        Self::save_bool_setting(
            &mut self.highlight_spaces_before_punctuation,
            table,
            "highlight_spaces_before_punctuation",
            false,
        );
        Self::save_bool_setting(
            &mut self.check_for_updates,
            table,
            "check_for_updates",
            project_local,
        );

        self.selected_dictionary.clear_modified();
        match self.selected_dictionary.value(project_local) {
            Some(name) => toml_insert_text(table, "selected_dictionary", name.as_str()),
            None => toml_remove(table, "selected_dictionary"),
        }

        if !project_local {
            self.theme_settings_modified = false;
            if self.selected_theme == ThemeSelection::Default {
                toml_remove(table, "selected_theme");
            } else {
                match self.selected_theme.to_entry() {
                    TomlEntry::Text(name) => toml_insert_text(table, "selected_theme", name.as_str()),
                    TomlEntry::Integer(idx) => toml_insert_integer(table, "selected_theme", idx),
                    _ => {},
                }
            }
        }
        modified
    }

    /// Moves what the user entered in the interface of one side into the
    /// stored values (see [`Setting::update_value`]).
    pub fn update_values(&mut self, project_local: bool)
        ensures
            Self::update_values_post(*old(self), *final(self), project_local),
    {
        self.indent_line_start.update_value(project_local);
        self.highlight_multiple_spaces.update_value(project_local);
        self.highlight_spaces_before_punctuation.update_value(project_local);
        self.reopen_last.update_value(project_local);
        self.check_for_updates.update_value(project_local);
        self.selected_dictionary.update_value(project_local);
    }

    /// Reads the global settings from the text of the settings file, or
    /// from an empty document when there is no file (`None`). Answers the
    /// document, which is kept to write the settings back into. A text that
    /// is not TOML is refused with `invalid toml settings file: ` and the
    /// parser's message, and the settings are left as they were.
    pub fn load_settings_text(&mut self, text: Option<&str>) -> (r: Result<DocumentMut, CheeseError>)
        ensures
            match text {
                None => r matches Ok(d) && toml_table_contents(d) == empty_table()
                    && Self::load_post(*old(self), *final(self), d, false),
                Some(t) => match toml_parsed(t@) {
                    None => r matches Err(e) && (exists|err: Seq<char>|
                        e.message@ == #[trigger] settings_parse_message(err)) && *final(self)
                        == *old(self),
                    Some(m) => r matches Ok(d) && toml_table_contents(d) == m && Self::load_post(
                        *old(self),
                        *final(self),
                        d,
                        false,
                    ),
                },
            },
    {
        let doc = match text {
            Some(t) => match toml_parse(t) {
                Ok(d) => d,
                Err(err) => {
                    let mut message = String::from_str("invalid toml settings file: ");
                    message.append(err.as_str());
                    assert(message@ == settings_parse_message(err@));
                    return Err(CheeseError::new(message));
                },
            },
            None => toml_new(),
        };
        self.load(&doc, false);
        Ok(doc)
    }

    /// Records that the selected dictionary, described by `description`,
    /// could not be loaded because of `err`: the message is kept as the
    /// dictionary setting's error, and answered (to be logged). Nothing
    /// else changes.
    pub fn dictionary_load_failed(&mut self, description: &str, err: &CheeseError) -> (message: String)
        ensures
            message@ == dictionary_error_message(description@, err.message@),
            final(self).selected_dictionary.message() == Some(message),
            final(self).selected_dictionary.global_value() == old(
                self,
            ).selected_dictionary.global_value(),
            final(self).selected_dictionary.local_value() == old(
                self,
            ).selected_dictionary.local_value(),
            final(self).selected_dictionary.default_value() == old(
                self,
            ).selected_dictionary.default_value(),
            final(self).selected_dictionary.global_entry() == old(
                self,
            ).selected_dictionary.global_entry(),
            final(self).selected_dictionary.local_entry() == old(
                self,
            ).selected_dictionary.local_entry(),
            final(self).selected_dictionary.is_modified() == old(
                self,
            ).selected_dictionary.is_modified(),
            final(self).reopen_last == old(self).reopen_last,
            final(self).indent_line_start == old(self).indent_line_start,
            final(self).highlight_multiple_spaces == old(self).highlight_multiple_spaces,
            final(self).highlight_spaces_before_punctuation == old(
                self,
            ).highlight_spaces_before_punctuation,
            final(self).check_for_updates == old(self).check_for_updates,
            final(self).selected_theme == old(self).selected_theme,
            final(self).theme_settings_modified == old(self).theme_settings_modified,
            final(self).available_dict == old(self).available_dict,
    {
        let mut message = String::from_str(
            "An error was encountered loading the dictionary from ",
        );
        message.append(description);
        message.append(": ");
        message.append(err.message.as_str());
        assert(message@ == dictionary_error_message(description@, err.message@));
        self.selected_dictionary.set_error(Some(message.clone()));
        message
    }
}

/// The message for a settings file that is not TOML.
pub open spec fn settings_parse_message(err: Seq<char>) -> Seq<char> {
    "invalid toml settings file: "@ + err
}

/// The message for a selected dictionary that could not be loaded.
pub open spec fn dictionary_error_message(description: Seq<char>, err: Seq<char>) -> Seq<char> {
    "An error was encountered loading the dictionary from "@ + description + ": "@ + err
}

/// Whether the settings must be applied now, given the time `now` and the
/// deadlines of the global (`next_apply`) and project-local
/// (`pl_next_apply`) settings, all in the same unit. A global deadline that
/// has come answers `(true, false)`; otherwise a project-local one that has
/// come answers `(true, true)`; otherwise `(false, false)`. Whenever the
/// answer is `true`, the global deadline is cleared, also when it was the
/// project-local one that came; the project-local deadline is never
/// cleared here.
pub fn need_processing(now: u128, next_apply: &mut Option<u128>, pl_next_apply: Option<u128>) -> (r: (
    bool,
    bool,
))
    ensures
        match *old(next_apply) {
            Some(t) if t <= now => r == (true, false) && *final(next_apply) is None,
            _ => match pl_next_apply {
                Some(t) if t <= now => r == (true, true) && *final(next_apply) is None,
                _ => r == (false, false) && *final(next_apply) == *old(next_apply),
            },
        },
{
    if let Some(t) = *next_apply {
        if now >= t {
            *next_apply = None;
            return (true, false);
        }
    }
    if let Some(t) = pl_next_apply {
        if now >= t {
            *next_apply = None;
            return (true, true);
        }
    }
    (false, false)
}

/// The keys under which settings are stored are all different.
proof fn lemma_setting_keys_distinct()
    ensures
        "reopen_last"@ != "indent_line_start"@,
        "reopen_last"@ != "highlight_multiple_spaces"@,
        "reopen_last"@ != "highlight_spaces_before_punctuation"@,
        "reopen_last"@ != "check_for_updates"@,
        "reopen_last"@ != "selected_dictionary"@,
        "reopen_last"@ != "selected_theme"@,
        "reopen_last"@ != "theme"@,
        "indent_line_start"@ != "highlight_multiple_spaces"@,
        "indent_line_start"@ != "highlight_spaces_before_punctuation"@,
        "indent_line_start"@ != "check_for_updates"@,
        "indent_line_start"@ != "selected_dictionary"@,
        "indent_line_start"@ != "selected_theme"@,
        "indent_line_start"@ != "theme"@,
        "highlight_multiple_spaces"@ != "highlight_spaces_before_punctuation"@,
        "highlight_multiple_spaces"@ != "check_for_updates"@,
        "highlight_multiple_spaces"@ != "selected_dictionary"@,
        "highlight_multiple_spaces"@ != "selected_theme"@,
        "highlight_multiple_spaces"@ != "theme"@,
        "highlight_spaces_before_punctuation"@ != "check_for_updates"@,
        "highlight_spaces_before_punctuation"@ != "selected_dictionary"@,
        "highlight_spaces_before_punctuation"@ != "selected_theme"@,
        "highlight_spaces_before_punctuation"@ != "theme"@,
        "check_for_updates"@ != "selected_dictionary"@,
        "check_for_updates"@ != "selected_theme"@,
        "check_for_updates"@ != "theme"@,
        "selected_dictionary"@ != "selected_theme"@,
        "selected_dictionary"@ != "theme"@,
        "selected_theme"@ != "theme"@,
{
    reveal_strlit("reopen_last");
    reveal_strlit("indent_line_start");
    reveal_strlit("highlight_multiple_spaces");
    reveal_strlit("highlight_spaces_before_punctuation");
    reveal_strlit("check_for_updates");
    reveal_strlit("selected_dictionary");
    reveal_strlit("selected_theme");
    reveal_strlit("theme");
    assert("reopen_last"@[0] != "indent_line_start"@[0]);
    assert("reopen_last"@[0] != "highlight_multiple_spaces"@[0]);
    assert("reopen_last"@[0] != "highlight_spaces_before_punctuation"@[0]);
    assert("reopen_last"@[0] != "check_for_updates"@[0]);
    assert("reopen_last"@[0] != "selected_dictionary"@[0]);
    assert("reopen_last"@[0] != "selected_theme"@[0]);
    assert("reopen_last"@[0] != "theme"@[0]);
    assert("indent_line_start"@[0] != "highlight_multiple_spaces"@[0]);
    assert("indent_line_start"@[0] != "highlight_spaces_before_punctuation"@[0]);
    assert("indent_line_start"@[0] != "check_for_updates"@[0]);
    assert("indent_line_start"@[0] != "selected_dictionary"@[0]);
    assert("indent_line_start"@[0] != "selected_theme"@[0]);
    assert("indent_line_start"@[0] != "theme"@[0]);
    assert("highlight_multiple_spaces"@[10] != "highlight_spaces_before_punctuation"@[10]);
    assert("highlight_multiple_spaces"@[0] != "check_for_updates"@[0]);
    assert("highlight_multiple_spaces"@[0] != "selected_dictionary"@[0]);
    assert("highlight_multiple_spaces"@[0] != "selected_theme"@[0]);
    assert("highlight_multiple_spaces"@[0] != "theme"@[0]);
    assert("highlight_spaces_before_punctuation"@[0] != "check_for_updates"@[0]);
    assert("highlight_spaces_before_punctuation"@[0] != "selected_dictionary"@[0]);
    assert("highlight_spaces_before_punctuation"@[0] != "selected_theme"@[0]);
    assert("highlight_spaces_before_punctuation"@[0] != "theme"@[0]);
    assert("check_for_updates"@[0] != "selected_dictionary"@[0]);
    assert("check_for_updates"@[0] != "selected_theme"@[0]);
    assert("check_for_updates"@[0] != "theme"@[0]);
    assert("selected_dictionary"@[9] != "selected_theme"@[9]);
    assert("selected_dictionary"@[0] != "theme"@[0]);
    assert("selected_theme"@[0] != "theme"@[0]);
}

/// A theme selection written into a settings document reads back as the
/// same selection, for every preset index that fits the integers TOML holds.
pub proof fn lemma_theme_selection_round_trip(selection: ThemeSelection)
    requires
        selection matches ThemeSelection::Preset(i) ==> i <= i64::MAX,
    ensures
        theme_from_value(theme_value(selection)) == Some(selection),
{
    reveal_strlit("default");
    reveal_strlit("light");
    reveal_strlit("random");
    assert("default"@[0] != "light"@[0]);
    assert("default"@[0] != "random"@[0]);
    assert("light"@[0] != "random"@[0]);
}

/// Settings written out by `save` read back the same with `load`: loading a
/// saved (global) document into fresh settings gives the stored global
/// values and the theme selection that were saved. The document must hold
/// no theme table, which takes the place of the selection, and a preset
/// index must fit the integers TOML holds.
pub proof fn lemma_saved_settings_load_back(
    data: SettingsData,
    doc: DocumentMut,
    doc_saved: DocumentMut,
    start: SettingsData,
    loaded: SettingsData,
)
    requires
        toml_table_contents(doc_saved) == data.saved_contents(toml_table_contents(doc), false),
        start.initial(),
        SettingsData::load_post(start, loaded, doc_saved, false),
        entry_at(doc, "theme"@) != Some(TomlValue::Table),
        data.selected_theme matches ThemeSelection::Preset(i) ==> i <= i64::MAX,
    ensures
        loaded.reopen_last.global_value() == data.reopen_last.global_value(),
        loaded.indent_line_start.global_value() == data.indent_line_start.global_value(),
        loaded.highlight_multiple_spaces.global_value()
            == data.highlight_multiple_spaces.global_value(),
        loaded.highlight_spaces_before_punctuation.global_value()
            == data.highlight_spaces_before_punctuation.global_value(),
        loaded.check_for_updates.global_value() == data.check_for_updates.global_value(),
        text_view(loaded.selected_dictionary.global_value()) == text_view(
            data.selected_dictionary.global_value(),
        ),
        loaded.selected_theme == data.selected_theme,
{
    lemma_setting_keys_distinct();
    lemma_theme_selection_round_trip(data.selected_theme);
    let m = toml_table_contents(doc_saved);
    assert(m.dom().contains("theme"@) == toml_table_contents(doc).dom().contains("theme"@));
    if m.dom().contains("theme"@) {
        assert(m["theme"@] == toml_table_contents(doc)["theme"@]);
    }
}

/// The keys that settings are stored under.
pub open spec fn is_settings_key(key: Seq<char>) -> bool {
    ||| key == "reopen_last"@
    ||| key == "indent_line_start"@
    ||| key == "highlight_multiple_spaces"@
    ||| key == "highlight_spaces_before_punctuation"@
    ||| key == "check_for_updates"@
    ||| key == "selected_dictionary"@
    ||| key == "selected_theme"@
}

/// Saving leaves every key that is not a settings key as it was, so that
/// the settings can share a document with other data (the project file).
pub proof fn lemma_save_keeps_other_keys(
    data: SettingsData,
    before: Map<Seq<char>, TomlValue>,
    project_local: bool,
    key: Seq<char>,
)
    requires
        !is_settings_key(key),
    ensures
        data.saved_contents(before, project_local).dom().contains(key) == before.dom().contains(
            key,
        ),
        before.dom().contains(key) ==> data.saved_contents(before, project_local)[key]
            == before[key],
{
}

/// After a global save nothing counts as modified: saving again at once
/// reports no change.
pub proof fn lemma_second_save_reports_nothing(pre: SettingsData, post: SettingsData)
    requires
        SettingsData::save_post(pre, post, false),
    ensures
        !post.any_modified(),
{
}

/// The entry a boolean setting is saved as: its value, or none when unset.
pub open spec fn bool_entry(v: Option<bool>) -> Option<TomlValue> {
    match v {
        Some(b) => Some(TomlValue::Boolean(b)),
        None => None,
    }
}

/// The entry a string setting is saved as: its text, or none when unset.
pub open spec fn text_entry(v: Option<String>) -> Option<TomlValue> {
    match v {
        Some(s) => Some(TomlValue::Text(s@)),
        None => None,
    }
}

/// Saving one side writes that side's stored values: after
/// `save(doc, project_local)` each setting's key holds the value stored on
/// that side (the key is gone when that side holds none). The one
/// exception is the spaces-before-punctuation setting, which is always
/// written from its global value.
pub proof fn lemma_save_writes_the_saved_side(
    data: SettingsData,
    doc: DocumentMut,
    doc_saved: DocumentMut,
    project_local: bool,
)
    requires
        toml_table_contents(doc_saved) == data.saved_contents(
            toml_table_contents(doc),
            project_local,
        ),
    ensures
        entry_at(doc_saved, "reopen_last"@) == bool_entry(data.reopen_last.stored(project_local)),
        entry_at(doc_saved, "indent_line_start"@) == bool_entry(
            data.indent_line_start.stored(project_local),
        ),
        entry_at(doc_saved, "highlight_multiple_spaces"@) == bool_entry(
            data.highlight_multiple_spaces.stored(project_local),
        ),
        entry_at(doc_saved, "highlight_spaces_before_punctuation"@) == bool_entry(
            data.highlight_spaces_before_punctuation.global_value(),
        ),
        entry_at(doc_saved, "check_for_updates"@) == bool_entry(
            data.check_for_updates.stored(project_local),
        ),
        entry_at(doc_saved, "selected_dictionary"@) == text_entry(
            data.selected_dictionary.stored(project_local),
        ),
{
    lemma_setting_keys_distinct();
}

/// Loading a document into either side reads every setting stored there
/// into that side: a boolean under a boolean setting's key, and a string
/// under `selected_dictionary`, become the values stored on that side; on
/// the project-local side they are then the values in effect.
pub proof fn lemma_load_reads_into_the_loaded_side(
    pre: SettingsData,
    post: SettingsData,
    doc: DocumentMut,
    project_local: bool,
)
    requires
        SettingsData::load_post(pre, post, doc, project_local),
    ensures
        entry_at(doc, "selected_dictionary"@) matches Some(TomlValue::Text(s)) ==> {
            &&& text_view(post.selected_dictionary.stored(project_local)) == Some(s)
            &&& project_local ==> post.selected_dictionary.current()@ == s
        },
        entry_at(doc, "reopen_last"@) matches Some(TomlValue::Boolean(b)) ==> {
            &&& post.reopen_last.stored(project_local) == Some(b)
            &&& project_local ==> post.reopen_last.current() == b
        },
        entry_at(doc, "indent_line_start"@) matches Some(TomlValue::Boolean(b)) ==> {
            &&& post.indent_line_start.stored(project_local) == Some(b)
            &&& project_local ==> post.indent_line_start.current() == b
        },
        entry_at(doc, "highlight_multiple_spaces"@) matches Some(TomlValue::Boolean(b)) ==> {
            &&& post.highlight_multiple_spaces.stored(project_local) == Some(b)
            &&& project_local ==> post.highlight_multiple_spaces.current() == b
        },
        entry_at(doc, "highlight_spaces_before_punctuation"@) matches Some(TomlValue::Boolean(b))
            ==> {
            &&& post.highlight_spaces_before_punctuation.stored(project_local) == Some(b)
            &&& project_local ==> post.highlight_spaces_before_punctuation.current() == b
        },
        entry_at(doc, "check_for_updates"@) matches Some(TomlValue::Boolean(b)) ==> {
            &&& post.check_for_updates.stored(project_local) == Some(b)
            &&& project_local ==> post.check_for_updates.current() == b
        },
{
}

/// A project-local save read back with a project-local load gives the
/// project-local values that were saved (the spaces-before-punctuation
/// setting comes back as its global value, which is what is written).
pub proof fn lemma_local_settings_load_back(
    data: SettingsData,
    doc: DocumentMut,
    doc_saved: DocumentMut,
    start: SettingsData,
    loaded: SettingsData,
)
    requires
        toml_table_contents(doc_saved) == data.saved_contents(toml_table_contents(doc), true),
        start.initial(),
        SettingsData::load_post(start, loaded, doc_saved, true),
    ensures
        loaded.reopen_last.local_value() == data.reopen_last.local_value(),
        loaded.indent_line_start.local_value() == data.indent_line_start.local_value(),
        loaded.highlight_multiple_spaces.local_value()
            == data.highlight_multiple_spaces.local_value(),
        loaded.highlight_spaces_before_punctuation.local_value()
            == data.highlight_spaces_before_punctuation.global_value(),
        loaded.check_for_updates.local_value() == data.check_for_updates.local_value(),
        text_view(loaded.selected_dictionary.local_value()) == text_view(
            data.selected_dictionary.local_value(),
        ),
{
    lemma_setting_keys_distinct();
}

} // verus!
