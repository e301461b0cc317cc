//! The redeem definitions and the credentials, as they are once loaded.

use vstd::prelude::*;

verus! {

/// One redeem action: the text on its button, the identifier the backend
/// knows it by, and whether the user is asked for text before it is sent.
#[derive(Debug, PartialEq, Eq)]
pub struct ApiButton {
    pub name: String,
    pub api_name: String,
    pub requires_input: bool,
}

/// What an [`ApiButton`] holds, as mathematical values.
pub ghost struct ButtonView {
    pub name: Seq<char>,
    pub api_name: Seq<char>,
    pub requires_input: bool,
}

impl ButtonView {
    /// A definition is well formed when its action identifier is not empty.
    /// Loading does not ask for it; what is proved of well-formed
    /// definitions names it as a premise.
    pub open spec fn wf(self) -> bool {
        self.api_name.len() > 0
    }
}

impl View for ApiButton {
    type V = ButtonView;

    open spec fn view(&self) -> ButtonView {
        ButtonView {
            name: self.name@,
            api_name: self.api_name@,
            requires_input: self.requires_input,
        }
    }
}

impl Clone for ApiButton {
    fn clone(&self) -> (copy: Self)
        ensures
            copy@ == self@,
    {
        ApiButton {
            name: self.name.clone(),
            api_name: self.api_name.clone(),
            requires_input: self.requires_input,
        }
    }
}

impl ApiButton {
    /// Whether the action identifier is present.
    pub fn has_action(&self) -> (present: bool)
        ensures
            present == self@.wf(),
    {
        !self.api_name.as_str().is_empty()
    }
}

/// The views of a run of definitions, in the same order.
pub open spec fn button_views(buttons: Seq<ApiButton>) -> Seq<ButtonView> {
    buttons.map_values(|b: ApiButton| b@)
}

/// Whether every definition of the run is well formed.
pub open spec fn all_wf(buttons: Seq<ButtonView>) -> bool {
    forall|i: int| 0 <= i < buttons.len() ==> (#[trigger] buttons[i]).wf()
}

/// Why a configuration could not be had.
#[derive(Debug, Clone, Copy, PartialEq, Eq, Structural)]
pub enum ConfigError {
    /// There is no file, and none could be written in its place.
    Missing,
    /// The file is there and cannot be read.
    Unreadable,
    /// The content does not fit the schema.
    Unparsable,
}

/// The redeem definitions, in the order in which their buttons are drawn.
#[derive(Debug, PartialEq, Eq)]
pub struct AppConfig {
    pub buttons: Vec<ApiButton>,
}

impl View for AppConfig {
    type V = Seq<ButtonView>;

    open spec fn view(&self) -> Seq<ButtonView> {
        button_views(self.buttons@)
    }
}

impl Clone for AppConfig {
    fn clone(&self) -> (copy: Self)
        ensures
            copy@ == self@,
    {
        let mut buttons: Vec<ApiButton> = Vec::new();
        let mut i: usize = 0;
        while i < self.buttons.len()
            invariant
                i <= self.buttons.len(),
                buttons@.len() == i,
                forall|j: int| 0 <= j < i ==> (#[trigger] buttons@[j])@ == self.buttons@[j]@,
            decreases self.buttons.len() - i,
        {
            buttons.push(self.buttons[i].clone());
            i += 1;
        }
        assert(button_views(buttons@) =~= self@);
        AppConfig { buttons }
    }
}

impl AppConfig {
    /// Takes the entries of a parsed file as the configuration: every entry,
    /// in file order. Nothing beyond the schema is asked of an entry, so
    /// equal identifiers, empty button texts and empty identifiers are all
    /// let through.
    pub fn load(entries: Vec<ApiButton>) -> (loaded: Result<AppConfig, ConfigError>)
        ensures
            loaded matches Ok(config) && config@ == button_views(entries@),
    {
        Ok(AppConfig { buttons: entries })
    }

    /// The number of definitions.
    pub fn len(&self) -> (n: usize)
        ensures
            n == self@.len(),
    {
        self.buttons.len()
    }
}

/// Why the credentials could not be had.
#[derive(Debug, Clone, Copy, PartialEq, Eq, Structural)]
pub enum AuthError {
    /// There is no file.
    Missing,
    /// The file is there and cannot be read.
    Unreadable,
    /// The content does not fit the schema.
    Unparsable,
}

/// The stored session: who is logged in, and the cookies that say so.
/// Nothing here renews or changes them.
#[derive(Debug, PartialEq, Eq)]
pub struct AuthData {
    pub username: String,
    pub password: String,
    pub cookies: String,
}

/// What an [`AuthData`] holds, as mathematical values.
pub ghost struct AuthView {
    pub username: Seq<char>,
    pub password: Seq<char>,
    pub cookies: Seq<char>,
}

impl View for AuthData {
    type V = AuthView;

    open spec fn view(&self) -> AuthView {
        AuthView { username: self.username@, password: self.password@, cookies: self.cookies@ }
    }
}

impl Clone for AuthData {
    fn clone(&self) -> (copy: Self)
        ensures
            copy@ == self@,
    {
        AuthData {
            username: self.username.clone(),
            password: self.password.clone(),
            cookies: self.cookies.clone(),
        }
    }
}

} // verus!
