//! How the windows of a session are shown.
use vstd::prelude::*;

use crate::text::same;

verus! {

#[derive(Debug, Clone, Copy, PartialEq, Eq, Structural)]
pub enum PresentationMode {
    /// One window that holds a whole desktop.
    Desktop,
    /// A window of its own for each application window.
    Rootless,
}

pub open spec fn presentation_of(value: Option<Seq<char>>) -> PresentationMode {
    if value == Some("rootless"@) {
        PresentationMode::Rootless
    } else {
        PresentationMode::Desktop
    }
}

impl PresentationMode {
    /// The mode that a profile names; a desktop, unless it names rootless.
    pub fn parse(value: Option<&str>) -> (result: Self)
        ensures
            result == presentation_of(value.deep_view()),
    {
        match value {
            Some(value) => if same(value, "rootless") {
                PresentationMode::Rootless
            } else {
                PresentationMode::Desktop
            },
            None => PresentationMode::Desktop,
        }
    }

    pub fn is_rootless(&self) -> (result: bool)
        ensures
            result == (*self == PresentationMode::Rootless),
    {
        match self {
            PresentationMode::Rootless => true,
            PresentationMode::Desktop => false,
        }
    }
}

} // verus!
