//! App icons: every icon of a project is made from one source image, resized
//! for Android and iOS, converted to an ICO for Windows and the web, and
//! registered in a Windows resource script.
use vstd::prelude::*;
use crate::text::{concat, concat3, opt_view};
use crate::helper::{capitalize_first, capitalized};
use crate::session::Session;
use crate::outside::{decode_png, decoded_png, encode_ico, encode_png, ico_encoded, png_encoded, resize_rgba};

verus! {

/// Why an icon could not be made.
#[derive(Debug, Clone, Copy, PartialEq, Eq)]
pub enum IconError {
    /// The source image could not be decoded.
    Open,
    /// The resized image could not be encoded.
    Save,
}

/// The side of the square icon that Windows and the web get.
pub const ICO_SIDE: u32 = 64;

/// `r` is what encoding the RGBA8 pixels `p` of `w` by `h` as PNG gives: the
/// file's bytes, or `Save` when encoding fails.
pub open spec fn encodes_png(p: Seq<u8>, w: u32, h: u32, r: Result<Vec<u8>, IconError>) -> bool {
    match png_encoded(p, w, h) {
        Some(b) => r matches Ok(v) && v@ == b,
        None => r == Err::<Vec<u8>, IconError>(IconError::Save),
    }
}

/// `r` is what encoding the RGBA8 pixels `p` of 64 by 64 as ICO gives: the
/// file's bytes, or `Save` when encoding fails.
pub open spec fn encodes_ico(p: Seq<u8>, r: Result<Vec<u8>, IconError>) -> bool {
    match ico_encoded(p, ICO_SIDE, ICO_SIDE) {
        Some(b) => r matches Ok(v) && v@ == b,
        None => r == Err::<Vec<u8>, IconError>(IconError::Save),
    }
}

/// Encodes RGBA8 pixels of `width` by `height` as a PNG file.
pub fn png_of_pixels(pixels: &Vec<u8>, width: u32, height: u32) -> (r: Result<Vec<u8>, IconError>)
    requires
        pixels.len() == width * height * 4,
    ensures
        encodes_png(pixels@, width, height, r),
{
    match encode_png(pixels, width, height) {
        Ok(b) => Ok(b),
        Err(_) => Err(IconError::Save),
    }
}

/// Encodes RGBA8 pixels of 64 by 64 as an ICO file.
pub fn ico_of_pixels(pixels: &Vec<u8>) -> (r: Result<Vec<u8>, IconError>)
    requires
        pixels.len() == ICO_SIDE * ICO_SIDE * 4,
    ensures
        encodes_ico(pixels@, r),
{
    match encode_ico(pixels, ICO_SIDE, ICO_SIDE) {
        Ok(b) => Ok(b),
        Err(_) => Err(IconError::Save),
    }
}

/// Resizes the PNG image in `input` (the bytes of the file) to `width` by
/// `height` with the Lanczos3 filter and gives the bytes of the PNG file: an
/// input that does not decode as PNG is `Open`; otherwise the result is the PNG
/// encoding of some RGBA8 buffer of `width` by `height` pixels (the resize).
pub fn resize_png(input: &[u8], width: u32, height: u32) -> (r: Result<Vec<u8>, IconError>)
    requires
        width * height * 4 <= usize::MAX,
    ensures
        decoded_png(input@) is None ==> r == Err::<Vec<u8>, IconError>(IconError::Open),
        decoded_png(input@) is Some ==> exists|p: Seq<u8>|
            p.len() == width * height * 4 && #[trigger] encodes_png(p, width, height, r),
{
    let (w, h, pixels) = match decode_png(input) {
        Ok(img) => img,
        Err(_) => return Err(IconError::Open),
    };
    let resized = resize_rgba(&pixels, w, h, width, height);
    let r = png_of_pixels(&resized, width, height);
    assert(encodes_png(resized@, width, height, r));
    r
}

/// Converts the PNG image in `input` (the bytes of the file) to a 64 by 64
/// icon and gives the bytes of the ICO file: an input that does not decode as
/// PNG is `Open`; otherwise the result is the ICO encoding of some 64 by 64
/// RGBA8 buffer (the resize).
pub fn convert_png_to_ico(input: &[u8]) -> (r: Result<Vec<u8>, IconError>)
    ensures
        decoded_png(input@) is None ==> r == Err::<Vec<u8>, IconError>(IconError::Open),
        decoded_png(input@) is Some ==> exists|p: Seq<u8>|
            p.len() == ICO_SIDE * ICO_SIDE * 4 && #[trigger] encodes_ico(p, r),
{
    let (w, h, pixels) = match decode_png(input) {
        Ok(img) => img,
        Err(_) => return Err(IconError::Open),
    };
    let resized = resize_rgba(&pixels, w, h, ICO_SIDE, ICO_SIDE);
    let r = ico_of_pixels(&resized);
    assert(encodes_ico(resized@, r));
    r
}

/// The text before the icon path in the build script.
pub open spec fn build_script_head() -> Seq<char> {
    "\n        use std::io;\n\n        fn main() {\n            if std::env::var(\"CARGO_CFG_TARGET_OS\").unwrap() == \"windows\" && std::path::Path::new(\""@
}

/// The text after the icon path in the build script.
pub open spec fn build_script_tail() -> Seq<char> {
    "\").exists() {\n                embed_resource::compile(\"app.rc\", embed_resource::NONE)\n                .manifest_optional();\n            }\n    }\n    \n        "@
}

/// The build script that a project gets with its icons: on a Windows target,
/// when the icon at `ico_path` exists, it compiles `app.rc` with
/// `embed_resource`.
pub open spec fn build_script(ico_path: Seq<char>) -> Seq<char> {
    build_script_head() + ico_path + build_script_tail()
}

/// The build script for the icon at `ico_path`.
pub fn build_script_text(ico_path: &str) -> (r: String)
    ensures
        r@ == build_script(ico_path@),
{
    concat3(
        "\n        use std::io;\n\n        fn main() {\n            if std::env::var(\"CARGO_CFG_TARGET_OS\").unwrap() == \"windows\" && std::path::Path::new(\"",
        ico_path,
        "\").exists() {\n                embed_resource::compile(\"app.rc\", embed_resource::NONE)\n                .manifest_optional();\n            }\n    }\n    \n        ",
    )
}

/// Where the icons of a project go, in the order they are made: the source
/// image, the Android launcher icons with their sides, the Windows icon, the
/// web icon (a copy of the Windows icon), the Windows resource script and its
/// text, the build script that compiles it and the script's text, and, on a macOS host, the iOS
/// icons with their sides and the macOS icon set.
#[derive(Debug)]
pub struct IconPlan {
    pub source: String,
    pub android: Vec<(String, u32)>,
    pub windows_icon: String,
    pub favicon: String,
    pub rc_path: String,
    pub rc_content: String,
    pub build_script: String,
    pub build_content: String,
    pub ios: Vec<(String, u32)>,
    pub icns: Option<String>,
}

/// Paths with their sides, as sequences.
pub open spec fn sized_view(v: Seq<(String, u32)>) -> Seq<(Seq<char>, u32)> {
    v.map_values(|p: (String, u32)| (p.0@, p.1))
}

/// The directory of the current project.
pub open spec fn project_root(s: Session) -> Seq<char> {
    opt_view(s.projects_path)->Some_0 + "/"@ + opt_view(s.current_project)->Some_0
}

/// The Android launcher icon of one density bucket.
pub open spec fn launcher_icon(root: Seq<char>, density: Seq<char>) -> Seq<char> {
    root + "/android/app/src/main/res/mipmap-"@ + density + "/ic_launcher.png"@
}

/// The directory that holds a project's icons.
pub open spec fn icons_dir(root: Seq<char>) -> Seq<char> {
    root + "/assets/resources/icons/"@
}

/// An iOS icon of the app bundle of the project `cur`.
pub open spec fn ios_icon(root: Seq<char>, cur: Seq<char>, side: Seq<char>) -> Seq<char> {
    root + "/ios/"@ + capitalized(cur) + ".app/Assets/ios_icon"@ + side + ".png"@
}

/// One Android launcher icon.
fn launcher_icon_exec(root: &str, density: &str) -> (r: String)
    ensures
        r@ == launcher_icon(root@, density@),
{
    concat(concat3(root, "/android/app/src/main/res/mipmap-", density).as_str(), "/ic_launcher.png")
}

/// One iOS icon.
fn ios_icon_exec(root: &str, cap: &str, side: &str) -> (r: String)
    ensures
        r@ == root@ + "/ios/"@ + cap@ + ".app/Assets/ios_icon"@ + side@ + ".png"@,
{
    let a = concat3(root, "/ios/", cap);
    let b = concat3(a.as_str(), ".app/Assets/ios_icon", side);
    concat(b.as_str(), ".png")
}

/// The plan for updating the icons of the session's current project from
/// `<project>/assets/resources/icons/icon.png`: Android icons of 48, 72, 96,
/// 144 and 192 pixels, `windows_icon.ico` and `favicon.ico`, `app.rc` naming
/// the Windows icon, `build.rs`, and on a macOS host the iOS icons of 120 and
/// 180 pixels and `macos_icon.icns`.
pub fn update_icons(session: &Session) -> (r: IconPlan)
    requires
        session.projects_path is Some,
        session.current_project is Some,
    ensures
        ({
            let root = project_root(*session);
            let cur = opt_view(session.current_project)->Some_0;
            &&& r.source@ == icons_dir(root) + "icon.png"@
            &&& sized_view(r.android@) == seq![
                (launcher_icon(root, "mdpi"@), 48u32),
                (launcher_icon(root, "hdpi"@), 72u32),
                (launcher_icon(root, "xhdpi"@), 96u32),
                (launcher_icon(root, "xxhdpi"@), 144u32),
                (launcher_icon(root, "xxxhdpi"@), 192u32),
            ]
            &&& r.windows_icon@ == icons_dir(root) + "windows_icon.ico"@
            &&& r.favicon@ == icons_dir(root) + "favicon.ico"@
            &&& r.rc_path@ == root + "/app.rc"@
            &&& r.rc_content@ == "IDI_ICON1 ICON \""@ + r.windows_icon@ + "\""@
            &&& r.build_script@ == root + "/build.rs"@
            &&& r.build_content@ == build_script(r.windows_icon@)
            &&& session.os@ == "macos"@ ==> sized_view(r.ios@) == seq![
                (ios_icon(root, cur, "120"@), 120u32),
                (ios_icon(root, cur, "180"@), 180u32),
            ] && opt_view(r.icns) == Some(icons_dir(root) + "macos_icon.icns"@)
            &&& session.os@ != "macos"@ ==> r.ios@.len() == 0 && r.icns is None
        }),
{
    let projects = session.projects_path.as_ref().unwrap();
    let cur = session.current_project.as_ref().unwrap();
    let root = concat3(projects.as_str(), "/", cur.as_str());
    let icons = concat(root.as_str(), "/assets/resources/icons/");
    let mut android: Vec<(String, u32)> = Vec::new();
    android.push((launcher_icon_exec(root.as_str(), "mdpi"), 48));
    android.push((launcher_icon_exec(root.as_str(), "hdpi"), 72));
    android.push((launcher_icon_exec(root.as_str(), "xhdpi"), 96));
    android.push((launcher_icon_exec(root.as_str(), "xxhdpi"), 144));
    android.push((launcher_icon_exec(root.as_str(), "xxxhdpi"), 192));
    let windows_icon = concat(icons.as_str(), "windows_icon.ico");
    let rc_content = concat3("IDI_ICON1 ICON \"", windows_icon.as_str(), "\"");
    let build_content = build_script_text(windows_icon.as_str());
    let mut ios: Vec<(String, u32)> = Vec::new();
    let icns = if crate::text::str_eq(session.os.as_str(), "macos") {
        let cap = capitalize_first(cur.as_str());
        ios.push((ios_icon_exec(root.as_str(), cap.as_str(), "120"), 120));
        ios.push((ios_icon_exec(root.as_str(), cap.as_str(), "180"), 180));
        Some(concat(icons.as_str(), "macos_icon.icns"))
    } else {
        None
    };
    let plan = IconPlan {
        source: concat(icons.as_str(), "icon.png"),
        android,
        windows_icon,
        favicon: concat(icons.as_str(), "favicon.ico"),
        rc_path: concat(root.as_str(), "/app.rc"),
        rc_content,
        build_script: concat(root.as_str(), "/build.rs"),
        build_content,
        ios,
        icns,
    };
    assert(sized_view(plan.android@) =~= seq![
        (launcher_icon(root@, "mdpi"@), 48u32),
        (launcher_icon(root@, "hdpi"@), 72u32),
        (launcher_icon(root@, "xhdpi"@), 96u32),
        (launcher_icon(root@, "xxhdpi"@), 144u32),
        (launcher_icon(root@, "xxxhdpi"@), 192u32),
    ]);
    proof {
        if session.os@ == "macos"@ {
            assert(sized_view(plan.ios@) =~= seq![
                (ios_icon(root@, cur@, "120"@), 120u32),
                (ios_icon(root@, cur@, "180"@), 180u32),
            ]);
        }
    }
    plan
}

} // verus!
