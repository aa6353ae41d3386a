//! The fixed catalog of evasions, in the order in which they are applied.

use vstd::prelude::*;

verus! {

/// One countermeasure against an automation-detection signal.
#[derive(Clone, Copy, Debug, PartialEq, Eq, Structural)]
pub enum Evasion {
    /// Helpers that the other scripts rely on.
    Utils,
    /// The `chrome.app` object.
    ChromeApp,
    /// The `chrome.runtime` object; takes whether it runs on insecure origins.
    ChromeRuntime,
    /// `contentWindow` of iframes.
    IframeContentWindow,
    /// The media codecs that the browser reports.
    MediaCodecs,
    /// `navigator.languages`; takes the language tags.
    NavigatorLanguages,
    /// `navigator.permissions`.
    NavigatorPermissions,
    /// `navigator.plugins`.
    NavigatorPlugins,
    /// `navigator.vendor`; takes the vendor.
    NavigatorVendor,
    /// Removal of `navigator.webdriver`.
    NavigatorWebdriver,
    /// The protocol override of user agent, accepted languages and platform.
    UserAgentOverride,
    /// The WebGL vendor and renderer; takes both.
    WebglVendor,
    /// `window.outerWidth` and `window.outerHeight`.
    WindowOuterdimensions,
    /// The hairline rendering fix.
    HairlineFix,
}

/// The number of evasions in the catalog.
pub const CATALOG_LEN: usize = 14;

/// The catalog, in order of application.
pub open spec fn catalog() -> Seq<Evasion> {
    seq![
        Evasion::Utils,
        Evasion::ChromeApp,
        Evasion::ChromeRuntime,
        Evasion::IframeContentWindow,
        Evasion::MediaCodecs,
        Evasion::NavigatorLanguages,
        Evasion::NavigatorPermissions,
        Evasion::NavigatorPlugins,
        Evasion::NavigatorVendor,
        Evasion::NavigatorWebdriver,
        Evasion::UserAgentOverride,
        Evasion::WebglVendor,
        Evasion::WindowOuterdimensions,
        Evasion::HairlineFix,
    ]
}

impl Evasion {
    /// Whether the evasion is a script registered for every new document,
    /// rather than a protocol override.
    pub open spec fn spec_is_script(self) -> bool {
        self != Evasion::UserAgentOverride
    }

    /// Whether the evasion is a script registered for every new document.
    pub fn is_script(self) -> (r: bool)
        ensures
            r == self.spec_is_script(),
    {
        !matches!(self, Evasion::UserAgentOverride)
    }
}

/// The evasion at a position of the catalog.
pub fn catalog_entry(index: usize) -> (r: Evasion)
    requires
        index < catalog().len(),
    ensures
        r == catalog()[index as int],
{
    match index {
        0 => Evasion::Utils,
        1 => Evasion::ChromeApp,
        2 => Evasion::ChromeRuntime,
        3 => Evasion::IframeContentWindow,
        4 => Evasion::MediaCodecs,
        5 => Evasion::NavigatorLanguages,
        6 => Evasion::NavigatorPermissions,
        7 => Evasion::NavigatorPlugins,
        8 => Evasion::NavigatorVendor,
        9 => Evasion::NavigatorWebdriver,
        10 => Evasion::UserAgentOverride,
        11 => Evasion::WebglVendor,
        12 => Evasion::WindowOuterdimensions,
        _ => Evasion::HairlineFix,
    }
}

} // verus!
