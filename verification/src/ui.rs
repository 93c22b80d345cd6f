//! The application shell: its navigation bar and its error component.
use vstd::prelude::*;
use crate::text::owned;
use crate::template::pairs_view;

verus! {

/// The application: its root pages, each reached from the navigation bar.
#[derive(Debug, Clone, Copy)]
pub struct RampGUI;

/// The navigation bar: each root page's icon and label, in order.
pub open spec fn navigation_bar() -> Seq<(Seq<char>, Seq<char>)> {
    seq![
        ("home"@, "home"@),
        ("car"@, "dashboard"@),
        ("phone"@, "ios"@),
        ("phone"@, "android"@),
        ("phone"@, "macos"@),
        ("phone"@, "windows"@),
        ("phone"@, "linux"@),
        ("phone"@, "wasm"@),
    ]
}

impl RampGUI {
    /// The navigation bar of the interface: the start page, the dashboard and
    /// one page for each platform, each with its icon and label.
    pub fn interface() -> (r: Vec<(String, String)>)
        ensures
            pairs_view(r@) == navigation_bar(),
    {
        let mut v: Vec<(String, String)> = Vec::new();
        v.push((owned("home"), owned("home")));
        v.push((owned("car"), owned("dashboard")));
        v.push((owned("phone"), owned("ios")));
        v.push((owned("phone"), owned("android")));
        v.push((owned("phone"), owned("macos")));
        v.push((owned("phone"), owned("windows")));
        v.push((owned("phone"), owned("linux")));
        v.push((owned("phone"), owned("wasm")));
        assert(pairs_view(v@) =~= navigation_bar());
        v
    }

    /// The accent of the dark theme: a hex color and its opacity.
    pub fn theme() -> (r: (&'static str, u8))
        ensures
            r.0@ == "#ff1f23"@,
            r.1 == 255,
    {
        ("#ff1f23", 255)
    }
}

/// The component that shows an error.
#[derive(Debug, Clone, Copy)]
pub struct ErrorComponent;

impl ErrorComponent {
    /// A new error component.
    pub fn new() -> (r: ErrorComponent)
        ensures
            r == ErrorComponent,
    {
        ErrorComponent
    }
}

} // verus!
