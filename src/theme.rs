use vstd::prelude::*;

verus! {

/// The colour theme of a dataset's public search page.
#[derive(PartialEq, Eq, Structural, Debug, Clone, Copy)]
pub enum PublicPageTheme {
    Light,
    Dark,
}

impl Default for PublicPageTheme {
    /// A page is light unless configured otherwise.
    fn default() -> (r: PublicPageTheme)
        ensures
            r == PublicPageTheme::Light,
    {
        PublicPageTheme::Light
    }
}

impl PublicPageTheme {
    /// The name the page configuration uses for the theme.
    pub fn name(&self) -> (r: &'static str)
        ensures
            *self == PublicPageTheme::Light ==> r@ == "light"@,
            *self == PublicPageTheme::Dark ==> r@ == "dark"@,
    {
        match self {
            PublicPageTheme::Light => "light",
            PublicPageTheme::Dark => "dark",
        }
    }
}

} // verus!
