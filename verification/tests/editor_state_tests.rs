use cheese_paper::promise::{Pending, Promise};
use cheese_paper::remote_version::Version;
use cheese_paper::text::{str_eq, to_chars, trimmed_range};
use cheese_paper::{FocusJumper, FocusTarget, NameBox, NameBoxInput};

#[test]
fn focus_is_received_once() {
    let mut jumper = FocusJumper::new();
    jumper.send(FocusTarget::Id("name_edit_field"));
    assert!(!jumper.recieve(&FocusTarget::Id("other")));
    assert!(!jumper.recieve(&FocusTarget::Page(1)));
    assert!(jumper.recieve(&FocusTarget::Id("name_edit_field")));
    assert!(!jumper.recieve(&FocusTarget::Id("name_edit_field")));
    jumper.send(FocusTarget::Page(4));
    assert!(jumper.recieve(&FocusTarget::Page(4)));
}

fn no_input() -> NameBoxInput {
    NameBoxInput {
        confirm_clicked: false,
        cancel_clicked: false,
        lost_focus: false,
        enter_pressed: false,
        escape_pressed: false,
        edit_clicked: false,
        f2_pressed: false,
    }
}

#[test]
fn name_box_edit_and_confirm() {
    let mut name_box = NameBox::new();
    let mut focus = FocusJumper::new();
    let mut name = "Amaryllis".to_string();
    assert_eq!(NameBox::shown_name(&name, "Unnamed Character"), "Amaryllis");
    let (modified, _) = name_box.step(&mut name, &mut focus, &NameBoxInput { f2_pressed: true, ..no_input() });
    assert!(!modified);
    assert!(name_box.editing());
    assert_eq!(name_box.edit_content, "Amaryllis");
    name_box.edit_content = "Lis".to_string();
    let (modified, take_focus) = name_box.step(&mut name, &mut focus, &NameBoxInput {
        lost_focus: true,
        enter_pressed: true,
        ..no_input()
    });
    assert!(take_focus);
    assert!(modified);
    assert_eq!(name, "Lis");
    assert!(!name_box.editing());
}

#[test]
fn name_box_cancel() {
    let mut name_box = NameBox::new();
    let mut focus = FocusJumper::new();
    let mut name = String::new();
    assert_eq!(NameBox::shown_name(&name, "Unnamed Character"), "Unnamed Character");
    name_box.step(&mut name, &mut focus, &NameBoxInput { edit_clicked: true, ..no_input() });
    name_box.edit_content = "Rose".to_string();
    let (modified, _) = name_box.step(&mut name, &mut focus, &NameBoxInput { cancel_clicked: true, ..no_input() });
    assert!(!modified);
    assert_eq!(name, "");
    assert!(!name_box.editing());
}

struct Countdown(u32, &'static str);

impl Pending<&'static str> for Countdown {
    fn poll_once(&mut self) -> Option<&'static str> {
        if self.0 == 0 {
            Some(self.1)
        } else {
            self.0 -= 1;
            None
        }
    }
}

#[test]
fn promise_becomes_ready() {
    let mut promise = Promise::make(Countdown(2, "done"));
    assert!(promise.get().is_none());
    assert_eq!(promise.get(), Some(&"done"));
    assert_eq!(promise.get(), Some(&"done"));
    let mut ready = Promise::make(Countdown(0, "now"));
    assert!(matches!(ready, Promise::Ready("now")));
    ready.poll();
    assert!(matches!(ready, Promise::Ready("now")));
}

#[test]
fn trimming_uses_unicode_white_space() {
    let chars = to_chars("\u{3000} \tword  with space\u{a0}\n");
    let (a, b) = trimmed_range(&chars, 0, chars.len());
    let kept: String = chars[a..b].iter().collect();
    assert_eq!(kept, "word  with space");
    assert_eq!(kept, "\u{3000} \tword  with space\u{a0}\n".trim());
    assert!(str_eq("äbc", "äbc"));
    assert!(!str_eq("abc", "abd"));
}

struct Answer(Option<Result<std::rc::Rc<String>, cheese_paper::CheeseError>>);

impl Pending<Result<std::rc::Rc<String>, cheese_paper::CheeseError>> for Answer {
    fn poll_once(&mut self) -> Option<Result<std::rc::Rc<String>, cheese_paper::CheeseError>> {
        self.0.take()
    }
}

#[test]
fn latest_version_once_answered() {
    let mut version = Version::from_pending(Answer(Some(Ok(std::rc::Rc::new("0.9.1".to_string())))));
    assert_eq!(version.latest().as_deref().map(|s| s.as_str()), Some("0.9.1"));
    assert_eq!(Version::<Answer>::current(), "0.9.0");
    let mut failed = Version::from_pending(Answer(Some(Err(cheese_paper::CheeseError::new("offline".to_string())))));
    assert!(failed.latest().is_none());
    let mut waiting = Version::from_pending(Answer(None));
    assert!(waiting.latest().is_none());
}
