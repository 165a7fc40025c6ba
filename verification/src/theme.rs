//! The two-valued appearance theme and its decoding from the raw
//! desktop-settings value.

use vstd::prelude::*;

verus! {

/// The appearance mode driving which terminal profile is active.
#[derive(Clone, Copy, Debug, PartialEq, Eq, Structural)]
pub enum ThemeType {
    Dark,
    Light,
}

impl ThemeType {
    /// Maps the raw appearance integer to a theme: 1 is Dark, 2 is Light,
    /// anything else is no theme at all.
    pub fn try_from(value: u32) -> (r: Result<ThemeType, ()>)
        ensures
            value == 1 ==> r == Result::<ThemeType, ()>::Ok(ThemeType::Dark),
            value == 2 ==> r == Result::<ThemeType, ()>::Ok(ThemeType::Light),
            value != 1 && value != 2 ==> r == Result::<ThemeType, ()>::Err(()),
    {
        match value {
            1u32 => Ok(ThemeType::Dark),
            2u32 => Ok(ThemeType::Light),
            _ => Err(()),
        }
    }

    /// The fixed display name of this theme's profile.
    pub fn display_name(self) -> (r: &'static str)
        ensures
            r@ == display_name_spec(self),
    {
        match self {
            ThemeType::Dark => "Dark",
            ThemeType::Light => "Light",
        }
    }

    /// The file name of this theme's profile, as the main configuration
    /// file's selector names it.
    pub fn profile_file_name(self) -> (r: &'static str)
        ensures
            r@ == profile_file_spec(self),
    {
        match self {
            ThemeType::Dark => "Dark.profile",
            ThemeType::Light => "Light.profile",
        }
    }
}

/// The fixed display name of a theme's profile.
pub open spec fn display_name_spec(t: ThemeType) -> Seq<char> {
    match t {
        ThemeType::Dark => "Dark"@,
        ThemeType::Light => "Light"@,
    }
}

/// The file name of a theme's profile.
pub open spec fn profile_file_spec(t: ThemeType) -> Seq<char> {
    match t {
        ThemeType::Dark => "Dark.profile"@,
        ThemeType::Light => "Light.profile"@,
    }
}

impl Default for ThemeType {
    /// The theme assumed when the settings value names no theme.
    fn default() -> (r: Self)
        ensures
            r == ThemeType::Light,
    {
        ThemeType::Light
    }
}

/// What `decode` returns for a given raw appearance integer.
pub open spec fn decode_spec(value: u32) -> ThemeType {
    if value == 1 {
        ThemeType::Dark
    } else {
        ThemeType::Light
    }
}

/// Decodes the raw appearance integer: 1 is Dark, 2 is Light, and any other
/// value falls back to the default theme (Light). Decoding never fails.
pub fn decode(value: u32) -> (r: ThemeType)
    ensures
        r == decode_spec(value),
        value == 1 ==> r == ThemeType::Dark,
        value == 2 ==> r == ThemeType::Light,
        value != 1 && value != 2 ==> r == ThemeType::Light,
{
    match ThemeType::try_from(value) {
        Ok(t) => t,
        Err(()) => ThemeType::default(),
    }
}

} // verus!
