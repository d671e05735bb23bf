//! The settings a user has made for the language server.

use vstd::prelude::*;

verus! {

/// The JSON text of an object without members: what the language server is
/// given where nothing is configured.
pub const EMPTY_OBJECT: &'static str = "{}";

/// The settings found for a language server, each value as JSON text.
#[derive(Clone, Debug, PartialEq, Eq)]
pub struct LspSettings {
    pub initialization_options: Option<String>,
    pub settings: Option<String>,
}

pub struct LspSettingsView {
    pub initialization_options: Option<Seq<char>>,
    pub settings: Option<Seq<char>>,
}

impl View for LspSettings {
    type V = LspSettingsView;

    open spec fn view(&self) -> LspSettingsView {
        LspSettingsView {
            initialization_options: self.initialization_options.deep_view(),
            settings: self.settings.deep_view(),
        }
    }
}

/// The view of what a lookup of the settings gave.
pub open spec fn lookup_view(lookup: Option<LspSettings>) -> Option<LspSettingsView> {
    match lookup {
        Some(settings) => Some(settings@),
        None => None,
    }
}

/// The value, or the empty object where there is none.
pub open spec fn spec_or_empty_object(value: Option<Seq<char>>) -> Seq<char> {
    match value {
        Some(value) => value,
        None => EMPTY_OBJECT@,
    }
}

/// The initialization options for the language server: the configured ones,
/// or the empty object where the lookup gave nothing or none are
/// configured.
pub open spec fn spec_initialization_options(lookup: Option<LspSettingsView>) -> Seq<char> {
    match lookup {
        Some(settings) => spec_or_empty_object(settings.initialization_options),
        None => EMPTY_OBJECT@,
    }
}

/// The workspace configuration for the language server: the configured
/// settings, or the empty object where the lookup gave nothing or none are
/// configured.
pub open spec fn spec_workspace_configuration(lookup: Option<LspSettingsView>) -> Seq<char> {
    match lookup {
        Some(settings) => spec_or_empty_object(settings.settings),
        None => EMPTY_OBJECT@,
    }
}

/// The value, or the empty object where there is none.
pub fn or_empty_object(value: Option<String>) -> (text: String)
    ensures
        text@ == spec_or_empty_object(value.deep_view()),
{
    match value {
        Some(value) => value,
        None => String::from_str(EMPTY_OBJECT),
    }
}

} // verus!
