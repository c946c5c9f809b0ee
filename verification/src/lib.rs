//! Verified core of the Cheese Paper editor: settings and the documents
//! they are kept in, the update check against the latest release, the
//! spellcheck dictionary with the words the user added, and small pieces of
//! editor state (focus requests, the name box, background requests).

pub mod dictionaries;
pub mod dictionary;
pub mod error;
pub mod focus_jumper;
pub mod message;
pub mod name_box;
pub mod promise;
pub mod release;
pub mod remote_version;
pub mod setting;
pub mod settings;
pub mod text;
pub mod toml_doc;

pub use dictionaries::AvailableDictionary;
pub use dictionary::DictionaryWrapper;
pub use error::CheeseError;
pub use focus_jumper::{FocusJumper, FocusTarget};
pub use message::{GenericMessage, Message, UpdateMessage};
pub use name_box::{NameBox, NameBoxInput};
pub use promise::{Pending, Promise};
pub use release::{CodebergRelease, PlatformVersions};
pub use setting::{Setting, SettingFormat, Transparent};
pub use settings::{SettingsData, ThemeSelection};
