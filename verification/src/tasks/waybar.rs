//! Keeping the bar's stylesheet in step with the installed modules.
//!
//! The caller reads and writes the files; the functions here say what is to
//! be written, if anything.

use crate::services::waybar_style::{
    check_injection, inject_module_css, injected, injection_defect, remove_module_css, removed,
    InjectionDefect,
};
use vstd::prelude::*;

verus! {

/// What a stylesheet that could not be read counts as: an empty one.
pub open spec fn sheet_or_empty(existing: Option<String>) -> Seq<char> {
    match existing {
        Some(text) => text@,
        None => Seq::empty(),
    }
}

/// What is to be done about the bar's stylesheet once a module is installed.
#[derive(Debug, Clone, PartialEq, Eq)]
pub enum CssInjection {
    /// The module ships no readable stylesheet: nothing is written.
    NoStyle,
    /// The module's style is refused, for the reason given: nothing is
    /// written, and the reason is to be told.
    Refused(InjectionDefect),
    /// The bar's stylesheet is to be written with this text.
    Write(String),
}

/// What to do about the bar's stylesheet after the module `uuid` was
/// installed. `module_css` is the module's own stylesheet, if it ships a
/// readable one; `existing_css` is the bar's stylesheet, if it could be read.
/// A style that cannot be put in safely is refused and reported as such.
pub fn handle_css_injection(
    uuid: &str,
    module_css: Option<String>,
    existing_css: Option<String>,
) -> (outcome: CssInjection)
    ensures
        match module_css {
            None => outcome is NoStyle,
            Some(css) => match injection_defect(uuid@, css@) {
                Some(defect) => outcome matches CssInjection::Refused(d) && d == defect,
                None => outcome matches CssInjection::Write(sheet) && sheet@ == injected(
                    sheet_or_empty(existing_css),
                    uuid@,
                    css@,
                ),
            },
        },
{
    let css = match module_css {
        Some(css) => css,
        None => {
            return CssInjection::NoStyle;
        },
    };
    match check_injection(uuid, css.as_str()) {
        Ok(_) => {},
        Err(defect) => {
            return CssInjection::Refused(defect);
        },
    }
    let existing = match existing_css {
        Some(existing) => existing,
        None => String::new(),
    };
    CssInjection::Write(inject_module_css(existing.as_str(), uuid, css.as_str()))
}

/// What to write to the bar's stylesheet after the module `uuid` was
/// uninstalled. Where the stylesheet could not be read, nothing is written.
pub fn handle_css_removal(uuid: &str, existing_css: Option<String>) -> (to_write: Option<String>)
    ensures
        match existing_css {
            None => to_write is None,
            Some(existing) => to_write matches Some(sheet) && sheet@ == removed(
                existing@,
                uuid@,
            ),
        },
{
    match existing_css {
        Some(existing) => Some(remove_module_css(existing.as_str(), uuid)),
        None => None,
    }
}

} // verus!
