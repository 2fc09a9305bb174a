//! The syntax-highlighting themes that a settings file can select.

use vstd::prelude::*;

verus! {

/// A colour scheme of the syntax highlighter.
#[derive(Debug, Clone, Copy, PartialEq, Eq, Structural)]
pub enum Theme {
    /// Solarized, dark. The theme of a fresh installation, and of every name
    /// that selects no other.
    SolarizedDark,
    /// Base16 Mocha, dark.
    Base16Mocha,
    /// Base16 Ocean, dark.
    Base16Ocean,
    /// Base16 Eighties, dark.
    Base16Eighties,
    /// Inspired GitHub, the one light theme.
    InspiredGitHub,
}

impl Theme {
    /// Whether the theme draws light text on a dark background.
    pub open spec fn spec_is_dark(self) -> bool {
        !(self is InspiredGitHub)
    }

    /// Whether the theme draws light text on a dark background: every theme
    /// but `InspiredGitHub` does.
    #[verifier::when_used_as_spec(spec_is_dark)]
    pub fn is_dark(self) -> (dark: bool)
        ensures
            dark == self.spec_is_dark(),
    {
        match self {
            Theme::SolarizedDark
            | Theme::Base16Mocha
            | Theme::Base16Ocean
            | Theme::Base16Eighties => true,
            Theme::InspiredGitHub => false,
        }
    }
}

} // verus!
