//! What the extension's control file declares, as far as the SQL document
//! depends on it.

use vstd::prelude::*;

verus! {

/// The parsed control file of the extension.
#[derive(Debug, Clone)]
pub struct ControlFile {
    /// The version that the control file declares as the default one.
    pub default_version: String,
    /// The schema that the extension is installed into, if it names one.
    pub schema: Option<String>,
}

/// The content of a [`ControlFile`], with its strings as texts.
pub struct ControlFileView {
    pub default_version: Seq<char>,
    pub schema: Option<Seq<char>>,
}

impl View for ControlFile {
    type V = ControlFileView;

    open spec fn view(&self) -> ControlFileView {
        ControlFileView {
            default_version: self.default_version@,
            schema: crate::text::option_text(self.schema),
        }
    }
}

} // verus!
