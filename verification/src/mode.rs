//! The session mode and the small closed sets of settings derived from it.

use vstd::prelude::*;

verus! {

/// Whether the compilation serves a development session or a production
/// build.
#[derive(Clone, Copy, PartialEq, Eq, Structural, Debug)]
pub enum NextMode {
    Development,
    Build,
}

/// Whether emitted chunks are minified.
#[derive(Clone, Copy, PartialEq, Eq, Structural, Debug)]
pub enum MinifyType {
    Minify,
    NoMinify,
}

/// Which runtime flavour the chunking stage emits.
#[derive(Clone, Copy, PartialEq, Eq, Structural, Debug)]
pub enum RuntimeType {
    Development,
    Production,
}

impl NextMode {
    /// The resolution condition name that the mode contributes.
    pub open spec fn condition_spec(self) -> Seq<char> {
        match self {
            NextMode::Development => "development"@,
            NextMode::Build => "production"@,
        }
    }

    /// The resolution condition name that the mode contributes:
    /// `development` for a development session, `production` for a build.
    pub fn condition(self) -> (r: String)
        ensures
            r@ == self.condition_spec(),
    {
        match self {
            NextMode::Development => "development".to_owned(),
            NextMode::Build => "production".to_owned(),
        }
    }

    /// Whether this is a development session.
    pub fn is_development(self) -> (r: bool)
        ensures
            r == (self is Development),
    {
        matches!(self, NextMode::Development)
    }

    /// Production builds minify; development sessions do not.
    pub fn minify_type(self) -> (r: MinifyType)
        ensures
            r == (match self {
                NextMode::Development => MinifyType::NoMinify,
                NextMode::Build => MinifyType::Minify,
            }),
    {
        match self {
            NextMode::Development => MinifyType::NoMinify,
            NextMode::Build => MinifyType::Minify,
        }
    }

    /// The runtime flavour matching the mode.
    pub fn runtime_type(self) -> (r: RuntimeType)
        ensures
            r == (match self {
                NextMode::Development => RuntimeType::Development,
                NextMode::Build => RuntimeType::Production,
            }),
    {
        match self {
            NextMode::Development => RuntimeType::Development,
            NextMode::Build => RuntimeType::Production,
        }
    }
}

} // verus!
