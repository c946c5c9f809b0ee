//! A box for editing the name of a file object: it shows the name with an
//! edit button, or a text field with confirm and cancel buttons.
use vstd::prelude::*;
use vstd::string::*;

use crate::focus_jumper::{after_receive, received, FocusJumper, FocusTarget};

verus! {

/// The identifier under which the name field asks for the focus.
pub open spec fn name_field_id() -> Seq<char> {
    "name_edit_field"@
}

/// What the user did with the name box during one frame.
#[derive(Debug, Clone, Copy)]
pub struct NameBoxInput {
    /// the confirm button was clicked
    pub confirm_clicked: bool,
    /// the cancel button was clicked
    pub cancel_clicked: bool,
    /// the text field lost the focus
    pub lost_focus: bool,
    pub enter_pressed: bool,
    pub escape_pressed: bool,
    /// the edit button was clicked
    pub edit_clicked: bool,
    pub f2_pressed: bool,
}

impl NameBoxInput {
    /// The edit is confirmed: by the button, or by Enter as the field loses
    /// the focus.
    pub open spec fn confirms(self) -> bool {
        self.confirm_clicked || (self.lost_focus && self.enter_pressed)
    }

    /// The edit is cancelled: by the button, or by Escape as the field loses
    /// the focus.
    pub open spec fn cancels(self) -> bool {
        self.cancel_clicked || (self.lost_focus && self.escape_pressed)
    }

    /// Editing starts: by the edit button or by F2.
    pub open spec fn starts_edit(self) -> bool {
        self.edit_clicked || self.f2_pressed
    }
}

/// The state of a name box.
#[derive(Debug)]
pub struct NameBox {
    editing: bool,
    /// The text in the edit field while editing.
    pub edit_content: String,
}

impl NameBox {
    pub closed spec fn is_editing(self) -> bool {
        self.editing
    }

    pub closed spec fn content(self) -> String {
        self.edit_content
    }

    /// A box that shows the name.
    pub fn new() -> (name_box: Self)
        ensures
            !name_box.is_editing(),
            name_box.content()@ == Seq::<char>::empty(),
    {
        NameBox { editing: false, edit_content: String::new() }
    }

    /// Whether the box shows the edit field.
    pub fn editing(&self) -> (editing: bool)
        ensures
            editing == self.is_editing(),
    {
        self.editing
    }

    /// The text shown when not editing: the name, or `empty_text` when the
    /// name is empty.
    pub fn shown_name<'a>(text: &'a str, empty_text: &'a str) -> (shown: &'a str)
        ensures
            shown@ == if text@.len() > 0 {
                text@
            } else {
                empty_text@
            },
    {
        if text.unicode_len() > 0 {
            text
        } else {
            empty_text
        }
    }

    /// One frame of the box. While editing, the field takes the focus when
    /// it was asked for, a confirmed edit becomes the name, and confirming
    /// or cancelling ends the edit. Otherwise, starting an edit copies the
    /// name into the field and asks for the focus. Answers whether the name
    /// changed and whether the field takes the focus.
    pub fn step(&mut self, text: &mut String, focus: &mut FocusJumper, input: &NameBoxInput) -> (outcome: (
        bool,
        bool,
    ))
        ensures
            old(self).is_editing() ==> {
                &&& outcome.1 == received(old(focus).pending(), FocusTarget::Id("name_edit_field"))
                &&& final(focus).pending() == after_receive(
                    old(focus).pending(),
                    FocusTarget::Id("name_edit_field"),
                )
                &&& outcome.0 == input.confirms()
                &&& input.confirms() ==> *final(text) == old(self).content()
                    && final(self).content()@ == Seq::<char>::empty()
                &&& !input.confirms() ==> *final(text) == *old(text) && final(self).content()
                    == old(self).content()
                &&& final(self).is_editing() == !(input.confirms() || input.cancels())
            },
            !old(self).is_editing() ==> {
                &&& !outcome.0
                &&& !outcome.1
                &&& *final(text) == *old(text)
                &&& input.starts_edit() ==> {
                    &&& final(self).is_editing()
                    &&& final(self).content() == *old(text)
                    &&& final(focus).pending() == Some(FocusTarget::Id("name_edit_field"))
                }
                &&& !input.starts_edit() ==> {
                    &&& !final(self).is_editing()
                    &&& final(self).content() == old(self).content()
                    &&& final(focus).pending() == old(focus).pending()
                }
            },
    {
        if self.editing {
            let take_focus = focus.recieve(&FocusTarget::Id("name_edit_field"));
            let confirm = input.confirm_clicked || (input.lost_focus && input.enter_pressed);
            let cancel = input.cancel_clicked || (input.lost_focus && input.escape_pressed);
            if confirm {
                let mut taken = String::new();
                std::mem::swap(&mut taken, &mut self.edit_content);
                *text = taken;
                self.editing = false;
            }
            if cancel {
                self.editing = false;
            }
            (confirm, take_focus)
        } else {
            if input.edit_clicked || input.f2_pressed {
                self.edit_content = text.clone();
                self.editing = true;
                focus.send(FocusTarget::Id("name_edit_field"));
            }
            (false, false)
        }
    }
}

impl Default for NameBox {
    fn default() -> (name_box: Self)
        ensures
            !name_box.is_editing(),
            name_box.content()@ == Seq::<char>::empty(),
    {
        NameBox::new()
    }
}

} // verus!
