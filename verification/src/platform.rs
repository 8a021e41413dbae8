//! The conventions of a platform that the resolver depends on.

use vstd::prelude::*;

verus! {

/// How paths are written and programs are named on a platform. It is
/// chosen once, at startup, and handed to whatever builds a path.
#[derive(Clone, Copy, Debug, PartialEq, Eq, Structural)]
pub enum PathStyle {
    /// `/` separates segments; programs and scripts go by their bare
    /// names.
    Posix,
    /// `\` separates segments and `/` is understood too; a program's file
    /// ends in `.exe`, and a script is run through its `.cmd` shim.
    Windows,
}

impl PathStyle {
    /// The character put between two segments when a path is built.
    pub open spec fn separator(self) -> char {
        match self {
            PathStyle::Posix => '/',
            PathStyle::Windows => '\\',
        }
    }

    /// Whether a character ends a segment when a path is read.
    pub open spec fn is_separator(self, c: char) -> bool {
        c == '/' || (self == PathStyle::Windows && c == '\\')
    }

    /// What follows a program's name to make the name of its file.
    pub open spec fn executable_suffix(self) -> Seq<char> {
        match self {
            PathStyle::Posix => Seq::empty(),
            PathStyle::Windows => ".exe"@,
        }
    }

    /// What follows a script's name to make the file that runs it.
    pub open spec fn script_suffix(self) -> Seq<char> {
        match self {
            PathStyle::Posix => Seq::empty(),
            PathStyle::Windows => ".cmd"@,
        }
    }

    /// The separator, as a text of one character.
    pub fn separator_text(self) -> (text: &'static str)
        ensures
            text@ == seq![self.separator()],
    {
        proof {
            reveal_strlit("/");
            reveal_strlit("\\");
        }
        let text: &'static str = match self {
            PathStyle::Posix => "/",
            PathStyle::Windows => "\\",
        };
        assert(text@ =~= seq![self.separator()]);
        text
    }

    /// Whether a character ends a segment when a path is read.
    pub fn separates(self, c: char) -> (yes: bool)
        ensures
            yes == self.is_separator(c),
    {
        match self {
            PathStyle::Posix => c == '/',
            PathStyle::Windows => c == '/' || c == '\\',
        }
    }

    /// What follows a program's name to make the name of its file.
    pub fn executable_suffix_text(self) -> (text: &'static str)
        ensures
            text@ == self.executable_suffix(),
    {
        proof {
            reveal_strlit("");
        }
        let text: &'static str = match self {
            PathStyle::Posix => "",
            PathStyle::Windows => ".exe",
        };
        assert(text@ =~= self.executable_suffix());
        text
    }

    /// What follows a script's name to make the file that runs it.
    pub fn script_suffix_text(self) -> (text: &'static str)
        ensures
            text@ == self.script_suffix(),
    {
        proof {
            reveal_strlit("");
        }
        let text: &'static str = match self {
            PathStyle::Posix => "",
            PathStyle::Windows => ".cmd",
        };
        assert(text@ =~= self.script_suffix());
        text
    }
}

} // verus!
