//! Value objects of a user record, as the upstream service describes them.
use vstd::prelude::*;

verus! {

/// A user's id.
#[derive(Clone, Debug, PartialEq, Eq)]
pub struct UserId(String);

impl UserId {
    pub fn new(s: String) -> (r: Self)
        ensures
            r@ == s@,
    {
        UserId(s)
    }

    /// The id as text.
    pub fn as_str(&self) -> (r: &str)
        ensures
            r@ == self@,
    {
        self.0.as_str()
    }
}

impl View for UserId {
    type V = Seq<char>;

    closed spec fn view(&self) -> Seq<char> {
        self.0@
    }
}

/// A user's pronouns, as free text.
#[derive(Clone, Debug, PartialEq, Eq)]
pub struct Pronouns(String);

impl Pronouns {
    pub fn new(s: String) -> (r: Self)
        ensures
            r@ == s@,
    {
        Pronouns(s)
    }

    /// The pronouns as text.
    pub fn as_str(&self) -> (r: &str)
        ensures
            r@ == self@,
    {
        self.0.as_str()
    }
}

impl View for Pronouns {
    type V = Seq<char>;

    closed spec fn view(&self) -> Seq<char> {
        self.0@
    }
}

/// The colours a user name is drawn in.
#[derive(Clone, Debug, PartialEq, Eq)]
pub struct NameStyle {
    pub style: String,
    pub color_from: Color,
    pub color_to: Color,
}

/// A colour for light and for dark backgrounds.
#[derive(Clone, Debug, PartialEq, Eq)]
pub struct Color {
    pub light: String,
    pub dark: String,
}

/// A user's role on the site.
#[derive(Clone, Copy, Debug, PartialEq, Eq, Structural)]
pub enum Role {
    Banned,
    User,
    Trusted,
    Moderator,
    Admin,
    Programmer,
}

/// A link to a user's account on another service.
#[derive(Clone, Debug, PartialEq, Eq)]
pub struct Social {
    pub uri: String,
}

/// A user's icon.
#[derive(Clone, Debug, PartialEq, Eq)]
pub struct Icon {
    pub uri: Option<String>,
}

/// The icon of a supporter.
#[derive(Clone, Debug, PartialEq, Eq)]
pub struct SupporterIcon {
    pub uri: String,
}

/// A user's image.
#[derive(Clone, Debug, PartialEq, Eq)]
pub struct Image {
    pub uri: Option<String>,
}

} // verus!
