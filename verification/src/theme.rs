//! From the theme that the user asked for to the theme that the window gets.

use vstd::prelude::*;

use crate::names::ThemeSetting;

verus! {

/// A theme that a window can have.
#[derive(Clone, Copy, Debug, PartialEq, Eq, Structural)]
pub enum ConcreteTheme {
    Light,
    Dark,
}

/// What the host says of its own colour scheme.
#[derive(Clone, Copy, Debug, PartialEq, Eq, Structural)]
pub enum OsThemeHint {
    /// The host prefers a light scheme.
    Light,
    /// The host prefers a dark scheme.
    Dark,
    /// The host answered and states no preference.
    Unknown,
    /// The host could not be asked, or did not answer.
    Unavailable,
}

/// The theme for a setting, given what the host says. `Light` and `Dark`
/// stand whatever the host says; `Auto` follows the host where it states a
/// preference and is `Dark` where it states none or cannot be asked.
pub open spec fn resolved(setting: ThemeSetting, hint: OsThemeHint) -> ConcreteTheme {
    match setting {
        ThemeSetting::Light => ConcreteTheme::Light,
        ThemeSetting::Dark => ConcreteTheme::Dark,
        ThemeSetting::Auto => match hint {
            OsThemeHint::Light => ConcreteTheme::Light,
            OsThemeHint::Dark => ConcreteTheme::Dark,
            OsThemeHint::Unknown => ConcreteTheme::Dark,
            OsThemeHint::Unavailable => ConcreteTheme::Dark,
        },
    }
}

/// The theme for a setting, given what the host says: see `resolved`.
pub fn resolve_with_hint(setting: ThemeSetting, hint: OsThemeHint) -> (theme: ConcreteTheme)
    ensures
        theme == resolved(setting, hint),
{
    match setting {
        ThemeSetting::Light => ConcreteTheme::Light,
        ThemeSetting::Dark => ConcreteTheme::Dark,
        ThemeSetting::Auto => match hint {
            OsThemeHint::Light => ConcreteTheme::Light,
            _ => ConcreteTheme::Dark,
        },
    }
}

/// The theme for a setting. The host is asked, through `provider`, only
/// where the setting is `Auto`; the document is not touched.
pub fn resolve<F: FnOnce() -> OsThemeHint>(setting: ThemeSetting, provider: F) -> (theme:
    ConcreteTheme)
    requires
        setting is Auto ==> provider.requires(()),
    ensures
        setting is Light ==> theme is Light,
        setting is Dark ==> theme is Dark,
        setting is Auto ==> exists|hint: OsThemeHint|
            provider.ensures((), hint) && theme == resolved(setting, hint),
{
    match setting {
        ThemeSetting::Auto => {
            let hint = provider();
            resolve_with_hint(setting, hint)
        },
        _ => resolve_with_hint(setting, OsThemeHint::Unknown),
    }
}

/// Asks the host for its colour scheme with `dark_light::detect`. Each of
/// the three modes that it can report becomes the hint of the same meaning,
/// and an error becomes `Unavailable`. Nothing is claimed of which comes back.
#[verifier::external_body]
fn host_theme_hint() -> OsThemeHint {
    match dark_light::detect() {
        Ok(dark_light::Mode::Light) => OsThemeHint::Light,
        Ok(dark_light::Mode::Dark) => OsThemeHint::Dark,
        Ok(dark_light::Mode::Unspecified) => OsThemeHint::Unknown,
        Err(_) => OsThemeHint::Unavailable,
    }
}

/// The theme for a setting on this host: `Auto` asks the host itself, and
/// what it gets then is the host's to say; `Light` and `Dark` stand.
pub fn resolve_on_host(setting: ThemeSetting) -> (theme: ConcreteTheme)
    ensures
        setting is Light ==> theme is Light,
        setting is Dark ==> theme is Dark,
{
    match setting {
        ThemeSetting::Auto => resolve_with_hint(setting, host_theme_hint()),
        _ => resolve_with_hint(setting, OsThemeHint::Unknown),
    }
}

} // verus!
