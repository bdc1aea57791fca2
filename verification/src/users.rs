//! Users that can be picked from the user menu.

use vstd::prelude::*;
use vstd::string::*;

use crate::menu::MenuItem;
use crate::text::clone_option;

verus! {

/// A user of the system: the login name and, if known, the full name.
pub struct User {
    pub username: String,
    pub name: Option<String>,
}

/// The mathematical content of a [`User`].
pub struct UserView {
    pub username: Seq<char>,
    pub name: Option<Seq<char>>,
}

impl View for User {
    type V = UserView;

    open spec fn view(&self) -> UserView {
        UserView { username: self.username@, name: self.name.deep_view() }
    }
}

impl DeepView for User {
    type V = UserView;

    open spec fn deep_view(&self) -> UserView {
        self@
    }
}

impl Default for User {
    fn default() -> (r: User)
        ensures
            r@ == (UserView { username: Seq::empty(), name: None }),
    {
        User { username: String::new(), name: None }
    }
}

impl UserView {
    /// The menu entry of the user: the full name followed by the login name
    /// in parentheses, or the login name alone.
    pub open spec fn label(self) -> Seq<char> {
        match self.name {
            Some(name) => name + " ("@ + self.username + ")"@,
            None => self.username,
        }
    }
}

impl MenuItem for User {
    open spec fn label(&self) -> Seq<char> {
        self@.label()
    }

    fn format(&self) -> (r: String) {
        match &self.name {
            Some(name) => {
                let mut r = name.clone();
                r.append(" (");
                r.append(self.username.as_str());
                r.append(")");
                r
            },
            None => self.username.clone(),
        }
    }
}

impl User {
    /// An independent copy.
    pub fn duplicate(&self) -> (r: User)
        ensures
            r@ == self@,
    {
        User { username: self.username.clone(), name: clone_option(&self.name) }
    }
}

} // verus!
