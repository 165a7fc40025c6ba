//! The user's persisted scheme choices: which color scheme each theme
//! applies. The surrounding process reads and writes the preference file;
//! this type holds and updates the record.

use vstd::prelude::*;

use crate::theme::ThemeType;

verus! {

/// The last-chosen color scheme names, one per theme.
#[derive(Debug, Clone)]
pub struct Config {
    /// The scheme the Dark theme applies.
    pub dark: String,
    /// The scheme the Light theme applies.
    pub light: String,
}

impl Config {
    /// Builds a record from the two scheme names.
    pub fn new(dark: String, light: String) -> (r: Config)
        ensures
            r.dark@ == dark@,
            r.light@ == light@,
    {
        Config { dark, light }
    }

    /// The scheme name the record holds for a theme.
    pub open spec fn scheme_for_spec(&self, t: ThemeType) -> Seq<char> {
        match t {
            ThemeType::Dark => self.dark@,
            ThemeType::Light => self.light@,
        }
    }

    /// The scheme name to apply for a theme.
    pub fn scheme_for(&self, typ: ThemeType) -> (r: &str)
        ensures
            r@ == self.scheme_for_spec(typ),
    {
        match typ {
            ThemeType::Dark => self.dark.as_str(),
            ThemeType::Light => self.light.as_str(),
        }
    }

    /// Records a newly chosen scheme for one theme, leaving the other
    /// theme's choice as it was.
    pub fn set_scheme(&mut self, typ: ThemeType, val: String)
        ensures
            final(self).scheme_for_spec(typ) == val@,
            match typ {
                ThemeType::Dark => final(self).light == old(self).light,
                ThemeType::Light => final(self).dark == old(self).dark,
            },
    {
        match typ {
            ThemeType::Dark => {
                self.dark = val;
            },
            ThemeType::Light => {
                self.light = val;
            },
        }
    }
}

impl Default for Config {
    /// The record a fresh preference file starts with: the stock scheme for
    /// both themes.
    fn default() -> (r: Config)
        ensures
            r.dark@ == "Breeze"@,
            r.light@ == "Breeze"@,
    {
        Config { dark: String::from_str("Breeze"), light: String::from_str("Breeze") }
    }
}

} // verus!
