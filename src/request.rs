//! The caller's configuration of one activation, and the defaults that stand
//! for each field left out.

use vstd::prelude::*;
use crate::text::views;

verus! {

/// What the caller asks of one activation. A field left `None` takes its
/// documented default.
#[derive(Debug)]
pub struct ActivationRequest {
    /// The user agent; when absent it is asked of the browser.
    pub user_agent: Option<String>,
    /// The language tags, in order of preference.
    pub languages: Option<Vec<String>>,
    /// The navigator vendor.
    pub vendor: Option<String>,
    /// The platform announced with the user agent.
    pub platform: Option<String>,
    /// The WebGL vendor.
    pub webgl_vendor: Option<String>,
    /// The WebGL renderer.
    pub renderer: Option<String>,
    /// Whether to apply the hairline rendering fix.
    pub fix_hairline: Option<bool>,
    /// Whether the runtime object is also offered on insecure origins.
    pub run_on_insecure_origins: Option<bool>,
}

/// The text of a field, or the default where it is absent.
pub open spec fn text_or(field: Option<String>, default: Seq<char>) -> Seq<char> {
    match field {
        Some(s) => s@,
        None => default,
    }
}

impl ActivationRequest {
    /// A request that leaves every field to its default.
    pub fn new() -> (r: ActivationRequest)
        ensures
            r.user_agent is None,
            r.languages is None,
            r.vendor is None,
            r.platform is None,
            r.webgl_vendor is None,
            r.renderer is None,
            r.fix_hairline is None,
            r.run_on_insecure_origins is None,
    {
        ActivationRequest {
            user_agent: None,
            languages: None,
            vendor: None,
            platform: None,
            webgl_vendor: None,
            renderer: None,
            fix_hairline: None,
            run_on_insecure_origins: None,
        }
    }

    /// The language tags in effect: `["en-US", "en"]` by default.
    pub open spec fn spec_languages(&self) -> Seq<Seq<char>> {
        match self.languages {
            Some(v) => views(v@),
            None => seq!["en-US"@, "en"@],
        }
    }

    /// The navigator vendor in effect: `"Google Inc."` by default.
    pub open spec fn spec_vendor(&self) -> Seq<char> {
        text_or(self.vendor, "Google Inc."@)
    }

    /// The platform in effect: the literal `"None"` by default.
    pub open spec fn spec_platform(&self) -> Seq<char> {
        text_or(self.platform, "None"@)
    }

    /// The WebGL vendor in effect: `"Intel Inc."` by default.
    pub open spec fn spec_webgl_vendor(&self) -> Seq<char> {
        text_or(self.webgl_vendor, "Intel Inc."@)
    }

    /// The WebGL renderer in effect: `"Intel Iris OpenGL Engine"` by default.
    pub open spec fn spec_renderer(&self) -> Seq<char> {
        text_or(self.renderer, "Intel Iris OpenGL Engine"@)
    }

    /// Whether the hairline fix is applied: unless it is explicitly refused.
    pub open spec fn spec_fix_hairline(&self) -> bool {
        self.fix_hairline != Some(false)
    }

    /// Whether the runtime object runs on insecure origins: no by default.
    pub open spec fn spec_run_on_insecure_origins(&self) -> bool {
        self.run_on_insecure_origins == Some(true)
    }

    /// The language tags in effect.
    pub fn languages(&self) -> (r: Vec<String>)
        ensures
            views(r@) == self.spec_languages(),
    {
        match &self.languages {
            Some(v) => {
                let mut r: Vec<String> = Vec::new();
                let mut i: usize = 0;
                while i < v.len()
                    invariant
                        i <= v.len(),
                        views(r@) =~= views(v@).take(i as int),
                    decreases v.len() - i,
                {
                    let ghost before = r@;
                    let s = v[i].clone();
                    r.push(s);
                    assert(r@ == before.push(s));
                    assert(views(r@) =~= views(before).push(s@));
                    assert(views(v@).take(i + 1) =~= views(v@).take(i as int).push(v@[i as int]@));
                    i = i + 1;
                }
                assert(views(v@).take(v.len() as int) =~= views(v@));
                r
            },
            None => {
                let r = vec![String::from_str("en-US"), String::from_str("en")];
                assert(views(r@) =~= seq!["en-US"@, "en"@]);
                r
            },
        }
    }

    /// The navigator vendor in effect.
    pub fn vendor(&self) -> (r: String)
        ensures
            r@ == self.spec_vendor(),
    {
        match &self.vendor {
            Some(s) => s.clone(),
            None => String::from_str("Google Inc."),
        }
    }

    /// The platform in effect.
    pub fn platform(&self) -> (r: String)
        ensures
            r@ == self.spec_platform(),
    {
        match &self.platform {
            Some(s) => s.clone(),
            None => String::from_str("None"),
        }
    }

    /// The WebGL vendor in effect.
    pub fn webgl_vendor(&self) -> (r: String)
        ensures
            r@ == self.spec_webgl_vendor(),
    {
        match &self.webgl_vendor {
            Some(s) => s.clone(),
            None => String::from_str("Intel Inc."),
        }
    }

    /// The WebGL renderer in effect.
    pub fn renderer(&self) -> (r: String)
        ensures
            r@ == self.spec_renderer(),
    {
        match &self.renderer {
            Some(s) => s.clone(),
            None => String::from_str("Intel Iris OpenGL Engine"),
        }
    }

    /// Whether the hairline fix is applied.
    pub fn fix_hairline(&self) -> (r: bool)
        ensures
            r == self.spec_fix_hairline(),
    {
        match self.fix_hairline {
            Some(b) => b,
            None => true,
        }
    }

    /// Whether the runtime object runs on insecure origins.
    pub fn run_on_insecure_origins(&self) -> (r: bool)
        ensures
            r == self.spec_run_on_insecure_origins(),
    {
        match self.run_on_insecure_origins {
            Some(b) => b,
            None => false,
        }
    }
}

} // verus!
