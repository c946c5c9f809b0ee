//! A single user setting: a global value, a project-local override, a
//! default, and the text the user is currently typing for it.
use vstd::prelude::*;

verus! {

/// How a setting's value is shown in the settings interface and read back
/// from it, and how two values are compared.
pub trait SettingFormat<T, U> {
    /// The interface representation of a value.
    spec fn convert_spec(value: T) -> U;

    /// The value that an interface entry stands for, or why it is refused.
    spec fn validate_spec(input: U) -> Result<T, &'static str>;

    /// Whether two values are the same setting.
    spec fn same_spec(a: T, b: T) -> bool;

    fn convert(value: T) -> (shown: U)
        ensures
            shown == Self::convert_spec(value),
    ;

    fn validate(input: &U) -> (read: Result<T, &'static str>)
        ensures
            read == Self::validate_spec(*input),
    ;

    fn duplicate(value: &T) -> (copy: T)
        ensures
            copy == *value,
    ;

    fn same(a: &T, b: &T) -> (equal: bool)
        ensures
            equal == Self::same_spec(*a, *b),
    ;
}

/// The interface shows the value itself.
#[derive(Debug, Clone, Copy)]
pub struct Transparent;

impl SettingFormat<bool, bool> for Transparent {
    open spec fn convert_spec(value: bool) -> bool {
        value
    }

    open spec fn validate_spec(input: bool) -> Result<bool, &'static str> {
        Ok(input)
    }

    open spec fn same_spec(a: bool, b: bool) -> bool {
        a == b
    }

    fn convert(value: bool) -> (shown: bool) {
        value
    }

    fn validate(input: &bool) -> (read: Result<bool, &'static str>) {
        Ok(*input)
    }

    fn duplicate(value: &bool) -> (copy: bool) {
        *value
    }

    fn same(a: &bool, b: &bool) -> (equal: bool) {
        *a == *b
    }
}

impl SettingFormat<String, String> for Transparent {
    open spec fn convert_spec(value: String) -> String {
        value
    }

    open spec fn validate_spec(input: String) -> Result<String, &'static str> {
        Ok(input)
    }

    open spec fn same_spec(a: String, b: String) -> bool {
        a@ == b@
    }

    fn convert(value: String) -> (shown: String) {
        value
    }

    fn validate(input: &String) -> (read: Result<String, &'static str>) {
        Ok(input.clone())
    }

    fn duplicate(value: &String) -> (copy: String) {
        value.clone()
    }

    fn same(a: &String, b: &String) -> (equal: bool) {
        *a == *b
    }
}

/// One setting. Every interface should let the user edit
/// [`Self::interface_value`] (or [`Self::pl_interface_value`] for the
/// project-local override).
#[derive(Debug)]
pub struct Setting<T, U = T, F = Transparent> {
    /// The global value, if it has been defined.
    value: Option<T>,
    /// The project-local override, if it has been defined.
    pl_value: Option<T>,
    /// The value used when neither is defined.
    default: T,
    /// What the user currently has entered in the settings interface.
    pub interface_value: U,
    /// Same, for the project-local settings interface.
    pub pl_interface_value: U,
    /// Set when the stored value changes through the interface; cleared
    /// when the settings are written out.
    modified: bool,
    format: F,
    /// Why the last entry could not be used, if it could not.
    pub error_message: Option<String>,
}

/// The value in effect: the project-local override, else the global value,
/// else the default.
pub open spec fn effective<T>(pl_value: Option<T>, value: Option<T>, default: T) -> T {
    match pl_value {
        Some(v) => v,
        None => match value {
            Some(v) => v,
            None => default,
        },
    }
}

impl<T, U, F: SettingFormat<T, U>> Setting<T, U, F> {
    pub closed spec fn global_value(self) -> Option<T> {
        self.value
    }

    pub closed spec fn local_value(self) -> Option<T> {
        self.pl_value
    }

    pub closed spec fn default_value(self) -> T {
        self.default
    }

    pub closed spec fn is_modified(self) -> bool {
        self.modified
    }

    /// The global interface entry.
    pub closed spec fn global_entry(self) -> U {
        self.interface_value
    }

    /// The project-local interface entry.
    pub closed spec fn local_entry(self) -> U {
        self.pl_interface_value
    }

    /// The message of the last refused entry.
    pub closed spec fn message(self) -> Option<String> {
        self.error_message
    }

    /// The stored value on one side: project-local or global.
    pub open spec fn stored(self, project_local: bool) -> Option<T> {
        if project_local {
            self.local_value()
        } else {
            self.global_value()
        }
    }

    /// The interface entry on one side: project-local or global.
    pub open spec fn entry(self, project_local: bool) -> U {
        if project_local {
            self.local_entry()
        } else {
            self.global_entry()
        }
    }

    /// The value in effect.
    pub open spec fn current(self) -> T {
        effective(self.local_value(), self.global_value(), self.default_value())
    }

    /// The entry shown for a stored value (the default when there is none).
    pub open spec fn shown(self, value: Option<T>) -> U {
        match value {
            Some(v) => F::convert_spec(v),
            None => F::convert_spec(self.default_value()),
        }
    }

    /// What `update_value(project_local)` does: when the entry of that side
    /// reads as a value that differs from the value in effect, the value is
    /// stored on that side, shown in both entries and the setting is marked
    /// modified; otherwise nothing changes.
    pub open spec fn update_post(pre: Self, post: Self, project_local: bool) -> bool {
        &&& {
            let read = F::validate_spec(pre.entry(project_local));
            if read is Ok && !F::same_spec(read->Ok_0, pre.current()) {
                &&& post.stored(project_local) == Some(read->Ok_0)
                &&& post.stored(!project_local) == pre.stored(!project_local)
                &&& post.global_entry() == F::convert_spec(read->Ok_0)
                &&& post.local_entry() == F::convert_spec(read->Ok_0)
                &&& post.is_modified()
            } else {
                &&& post.stored(project_local) == pre.stored(project_local)
                &&& post.stored(!project_local) == pre.stored(!project_local)
                &&& post.global_entry() == pre.global_entry()
                &&& post.local_entry() == pre.local_entry()
                &&& post.is_modified() == pre.is_modified()
            }
        }
        &&& post.default_value() == pre.default_value()
        &&& post.message() == pre.message()
    }

    /// What `set_value(value, project_local)` does: `value` is stored on
    /// that side and shown (the default when it is `None`) in both entries.
    pub open spec fn set_post(pre: Self, post: Self, value: Option<T>, project_local: bool) -> bool {
        &&& post.stored(project_local) == value
        &&& post.stored(!project_local) == pre.stored(!project_local)
        &&& post.default_value() == pre.default_value()
        &&& post.global_entry() == pre.shown(value)
        &&& post.local_entry() == pre.shown(value)
        &&& post.is_modified() == pre.is_modified()
        &&& post.message() == pre.message()
    }

    /// What `clear_modified()` does: only the modified mark goes.
    pub open spec fn cleared_post(pre: Self, post: Self) -> bool {
        &&& !post.is_modified()
        &&& post.global_value() == pre.global_value()
        &&& post.local_value() == pre.local_value()
        &&& post.default_value() == pre.default_value()
        &&& post.global_entry() == pre.global_entry()
        &&& post.local_entry() == pre.local_entry()
        &&& post.message() == pre.message()
    }

    /// What `reset_value(project_local)` does: the stored value of that side
    /// is forgotten, its entry shows the default, and the setting is marked
    /// modified; the other side is untouched.
    pub open spec fn reset_post(pre: Self, post: Self, project_local: bool) -> bool {
        &&& post.stored(project_local) is None
        &&& post.stored(!project_local) == pre.stored(!project_local)
        &&& post.entry(project_local) == F::convert_spec(pre.default_value())
        &&& post.entry(!project_local) == pre.entry(!project_local)
        &&& post.default_value() == pre.default_value()
        &&& post.is_modified()
        &&& post.message() == pre.message()
    }

    /// Two settings that cannot be told apart through their observers.
    pub open spec fn same_state(a: Self, b: Self) -> bool {
        &&& a.global_value() == b.global_value()
        &&& a.local_value() == b.local_value()
        &&& a.default_value() == b.default_value()
        &&& a.global_entry() == b.global_entry()
        &&& a.local_entry() == b.local_entry()
        &&& a.is_modified() == b.is_modified()
        &&& a.message() == b.message()
    }

    /// A setting with nothing stored, showing its default.
    pub fn with_validation_fn(default: T, format: F) -> (setting: Self)
        ensures
            setting.global_value() is None,
            setting.local_value() is None,
            setting.default_value() == default,
            setting.global_entry() == F::convert_spec(default),
            setting.local_entry() == F::convert_spec(default),
            !setting.is_modified(),
            setting.message() is None,
    {
        let shown = F::convert(F::duplicate(&default));
        let pl_shown = F::convert(F::duplicate(&default));
        Setting {
            value: None,
            pl_value: None,
            interface_value: shown,
            pl_interface_value: pl_shown,
            default,
            modified: false,
            format,
            error_message: None,
        }
    }

    /// The value in effect: the project-local override, else the global
    /// value, else the default.
    pub fn get_value(&self) -> (current: &T)
        ensures
            *current == self.current(),
    {
        match &self.pl_value {
            Some(v) => v,
            None => match &self.value {
                Some(v) => v,
                None => &self.default,
            },
        }
    }

    /// Stores `value` on one side and shows it (or the default, when it is
    /// `None`) in both interface entries.
    pub fn set_value(&mut self, value: Option<T>, project_local: bool)
        ensures
            Self::set_post(*old(self), *final(self), value, project_local),
    {
        let shown_value = match &value {
            Some(v) => F::duplicate(v),
            None => F::duplicate(&self.default),
        };
        let pl_shown_value = match &value {
            Some(v) => F::duplicate(v),
            None => F::duplicate(&self.default),
        };
        self.pl_interface_value = F::convert(pl_shown_value);
        self.interface_value = F::convert(shown_value);
        if project_local {
            self.pl_value = value;
        } else {
            self.value = value;
        }
    }

    /// Moves the entry of one side into its stored value, when the entry
    /// is valid and differs from the value in effect.
    pub fn update_value(&mut self, project_local: bool)
        ensures
            Self::update_post(*old(self), *final(self), project_local),
    {
        let read = if project_local {
            F::validate(&self.pl_interface_value)
        } else {
            F::validate(&self.interface_value)
        };
        if let Ok(new_value) = read {
            if !F::same(&new_value, self.get_value()) {
                self.set_value(Some(new_value), project_local);
                self.modified = true;
            }
        }
    }

    /// Forgets the stored value of one side and shows the default there.
    pub fn reset_value(&mut self, project_local: bool)
        ensures
            Self::reset_post(*old(self), *final(self), project_local),
    {
        if project_local {
            self.pl_value = None;
            self.pl_interface_value = F::convert(F::duplicate(&self.default));
        } else {
            self.value = None;
            self.interface_value = F::convert(F::duplicate(&self.default));
        }
        self.modified = true;
    }

    /// The stored value of one side.
    pub fn value(&self, project_local: bool) -> (stored: &Option<T>)
        ensures
            *stored == self.stored(project_local),
    {
        if project_local {
            &self.pl_value
        } else {
            &self.value
        }
    }

    /// The interface entry of one side, for the settings interface to edit.
    pub fn interface_value(&mut self, project_local: bool) -> (entry: &mut U)
        ensures
            *entry == old(self).entry(project_local),
            final(self).entry(project_local) == *final(entry),
            final(self).entry(!project_local) == old(self).entry(!project_local),
            final(self).global_value() == old(self).global_value(),
            final(self).local_value() == old(self).local_value(),
            final(self).default_value() == old(self).default_value(),
            final(self).is_modified() == old(self).is_modified(),
            final(self).message() == old(self).message(),
    {
        if project_local {
            &mut self.pl_interface_value
        } else {
            &mut self.interface_value
        }
    }

    /// Whether the stored value changed through the interface since the
    /// settings were last written out.
    pub fn modified(&self) -> (changed: bool)
        ensures
            changed == self.is_modified(),
    {
        self.modified
    }

    /// Records why the last entry or use of the setting failed (or clears it).
    pub fn set_error(&mut self, message: Option<String>)
        ensures
            final(self).message() == message,
            final(self).global_value() == old(self).global_value(),
            final(self).local_value() == old(self).local_value(),
            final(self).default_value() == old(self).default_value(),
            final(self).global_entry() == old(self).global_entry(),
            final(self).local_entry() == old(self).local_entry(),
            final(self).is_modified() == old(self).is_modified(),
    {
        self.error_message = message;
    }

    /// Marks the setting as written out.
    pub fn clear_modified(&mut self)
        ensures
            Self::cleared_post(*old(self), *final(self)),
    {
        self.modified = false;
    }
}

impl<T> Setting<T, T, Transparent> where Transparent: SettingFormat<T, T> {
    /// A setting whose interface shows the value itself.
    pub fn transparent(default: T) -> (setting: Self)
        ensures
            setting.global_value() is None,
            setting.local_value() is None,
            setting.default_value() == default,
            setting.global_entry() == <Transparent as SettingFormat<T, T>>::convert_spec(default),
            setting.local_entry() == <Transparent as SettingFormat<T, T>>::convert_spec(default),
            !setting.is_modified(),
            setting.message() is None,
    {
        Self::with_validation_fn(default, Transparent)
    }
}

/// A format whose interface entry reads back as the value it shows, and
/// whose comparison calls every value the same as itself.
pub open spec fn round_trips<T, U, F: SettingFormat<T, U>>() -> bool {
    &&& forall|v: T| #[trigger] F::validate_spec(F::convert_spec(v)) == Ok::<T, &'static str>(v)
    &&& forall|v: T| #[trigger] F::same_spec(v, v)
}

/// Moving the interface entry into the setting twice does what moving it
/// once does, for a format that round-trips.
pub proof fn lemma_update_value_idempotent<T, U, F: SettingFormat<T, U>>(
    s0: Setting<T, U, F>,
    s1: Setting<T, U, F>,
    s2: Setting<T, U, F>,
    project_local: bool,
)
    requires
        round_trips::<T, U, F>(),
        Setting::update_post(s0, s1, project_local),
        Setting::update_post(s1, s2, project_local),
    ensures
        Setting::same_state(s1, s2),
{
    let read = F::validate_spec(s0.entry(project_local));
    if read is Ok && !F::same_spec(read->Ok_0, s0.current()) {
        let v = read->Ok_0;
        assert(F::validate_spec(F::convert_spec(v)) == Ok::<T, &'static str>(v));
        assert(s1.entry(project_local) == F::convert_spec(v));
        if project_local {
            assert(s1.current() == v);
            assert(F::same_spec(v, v));
        } else {
            assert(s1.local_value() == s0.local_value());
            assert(s1.global_value() == Some(v));
            if s0.local_value() is None {
                assert(s1.current() == v);
                assert(F::same_spec(v, v));
            } else {
                assert(s1.current() == s0.current());
            }
        }
    }
}

/// Resetting both sides brings the setting back to its default.
pub proof fn lemma_reset_both_sides_restores_default<T, U, F: SettingFormat<T, U>>(
    s0: Setting<T, U, F>,
    s1: Setting<T, U, F>,
    s2: Setting<T, U, F>,
    first_local: bool,
)
    requires
        Setting::reset_post(s0, s1, first_local),
        Setting::reset_post(s1, s2, !first_local),
    ensures
        s2.current() == s0.default_value(),
        s2.entry(true) == F::convert_spec(s0.default_value()),
        s2.entry(false) == F::convert_spec(s0.default_value()),
{
}

/// A stored project-local value is the value in effect, whatever the global
/// value is; a stored global value is in effect when there is no
/// project-local one.
pub proof fn lemma_local_value_takes_precedence<T, U, F: SettingFormat<T, U>>(
    s: Setting<T, U, F>,
    v: T,
)
    ensures
        s.local_value() == Some(v) ==> s.current() == v,
        (s.local_value() is None && s.global_value() == Some(v)) ==> s.current() == v,
        (s.local_value() is None && s.global_value() is None) ==> s.current() == s.default_value(),
{
}

/// The transparent formats round-trip.
pub proof fn lemma_transparent_round_trips()
    ensures
        round_trips::<bool, bool, Transparent>(),
        round_trips::<String, String, Transparent>(),
{
}

/// The transparent formats compare by plain equality: two booleans are the
/// same setting exactly when they are equal, and so are two strings.
pub proof fn lemma_transparent_same_is_equality(a: bool, b: bool, x: String, y: String)
    ensures
        <Transparent as SettingFormat<bool, bool>>::same_spec(a, b) <==> a == b,
        <Transparent as SettingFormat<String, String>>::same_spec(x, y) <==> x@ == y@,
{
}

/// Moving the entry of a boolean setting in: when the entered value differs
/// from the value in effect it is stored on that side, becomes the value in
/// effect and the setting is marked modified; when it is the value in
/// effect nothing changes.
pub proof fn lemma_bool_update_applies_entry(
    pre: Setting<bool>,
    post: Setting<bool>,
    project_local: bool,
)
    requires
        Setting::update_post(pre, post, project_local),
    ensures
        pre.entry(project_local) != pre.current() ==> {
            &&& post.stored(project_local) == Some(pre.entry(project_local))
            &&& post.is_modified()
            &&& project_local ==> post.current() == pre.entry(project_local)
            &&& pre.local_value() is None ==> post.current() == pre.entry(project_local)
        },
        pre.entry(project_local) == pre.current() ==> Setting::same_state(pre, post),
{
}

/// Moving the entry of a string setting in: when the entered text differs
/// from the value in effect it is stored on that side and the setting is
/// marked modified; when it is the same text nothing changes.
pub proof fn lemma_text_update_applies_entry(
    pre: Setting<String>,
    post: Setting<String>,
    project_local: bool,
)
    requires
        Setting::update_post(pre, post, project_local),
    ensures
        pre.entry(project_local)@ != pre.current()@ ==> {
            &&& post.stored(project_local) == Some(pre.entry(project_local))
            &&& post.is_modified()
        },
        pre.entry(project_local)@ == pre.current()@ ==> Setting::same_state(pre, post),
{
}

} // verus!
