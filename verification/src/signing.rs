//! Signing and provisioning iOS builds: the keychain that holds the signing
//! identity, the certificates that it needs, and the provisioning profiles
//! that let an app run on a device.
use vstd::prelude::*;
use crate::text::{chars_of, concat, concat3, contains, opt_view, owned, str_contains, str_eq};
use crate::helper::{capitalize_first, capitalized};
use crate::session::{lookup_key, PathKey, Session, SessionError};
use crate::device::{mobileprovision_files, provision_files};
use crate::icons::project_root;
use crate::template::pairs_view;

verus! {

/// Why an app bundle could not be signed.
#[derive(Debug)]
pub enum SignError {
    /// A tool path that signing needs is not configured.
    Session(SessionError),
    /// `codesign` failed on the entitlements; what it printed.
    SignFailed(String),
}

/// What `security show-keychain-info` printed about the login keychain.
#[derive(Debug, Clone, Copy, PartialEq, Eq)]
pub enum KeychainState {
    /// The keychain could not be found.
    Missing,
    /// The keychain is locked: wait and ask again.
    Locked,
    /// The keychain can be used.
    Unlocked,
}

/// The app bundle of the current project for a target:
/// `<project>/<target>/<Project>.app`.
pub open spec fn app_bundle_of(s: Session, target: Seq<char>) -> Seq<char> {
    project_root(s) + "/"@ + target + "/"@ + capitalized(opt_view(s.current_project)->Some_0) + ".app"@
}

/// The app bundle of the current project for a target.
pub fn app_bundle(session: &Session, target_os: &str) -> (r: String)
    requires
        session.projects_path is Some,
        session.current_project is Some,
    ensures
        r@ == app_bundle_of(*session, target_os@),
{
    let projects = session.projects_path.as_ref().unwrap();
    let cur = session.current_project.as_ref().unwrap();
    let root = concat3(projects.as_str(), "/", cur.as_str());
    let cap = capitalize_first(cur.as_str());
    let a = concat3(root.as_str(), "/", target_os);
    let b = concat3(a.as_str(), "/", cap.as_str());
    concat(b.as_str(), ".app")
}

/// Reads what `security show-keychain-info` printed: a keychain that could not
/// be found is missing; otherwise one whose report mentions `locked` is locked.
pub fn keychain_state(info: &str) -> (r: KeychainState)
    ensures
        contains(info@, "could not be found"@) ==> r == KeychainState::Missing,
        !contains(info@, "could not be found"@) && contains(info@, "locked"@) ==> r == KeychainState::Locked,
        !contains(info@, "could not be found"@) && !contains(info@, "locked"@) ==> r == KeychainState::Unlocked,
{
    if str_contains(info, "could not be found") {
        KeychainState::Missing
    } else if str_contains(info, "locked") {
        KeychainState::Locked
    } else {
        KeychainState::Unlocked
    }
}

/// How to sign an iOS app bundle: wait until `keychain` is unlocked, then run
/// `codesign` with `codesign_args`.
#[derive(Debug)]
pub struct SignPlan {
    pub keychain: String,
    pub app_bundle: String,
    pub codesign_args: Vec<String>,
}

/// Strings, as sequences.
pub open spec fn strs(v: Seq<String>) -> Seq<Seq<char>> {
    v.map_values(|s: String| s@)
}

/// How to sign the current project's build for `target_os`: nothing to do for
/// a target other than `ios`; for `ios`, the login keychain in the keystore
/// directory and `codesign --force --sign <identity> --entitlements
/// <bundle>/entitlements.plist <bundle>` on the iOS app bundle.
pub fn sign_build(session: &Session, target_os: &str) -> (r: Result<Option<SignPlan>, SignError>)
    requires
        target_os@ == "ios"@ && lookup_key(session.paths, PathKey::Keystore) is Ok ==> session.projects_path is Some
            && session.current_project is Some,
    ensures
        target_os@ != "ios"@ ==> r matches Ok(None),
        target_os@ == "ios"@ ==> match lookup_key(session.paths, PathKey::Keystore) {
            Err(k) => r matches Err(SignError::Session(e)) && e == SessionError::PathNotSet(k),
            Ok(ks) => r matches Ok(Some(p)) && {
                &&& p.keychain@ == ks + "/login.keychain-db"@
                &&& p.app_bundle@ == app_bundle_of(*session, "ios"@)
                &&& strs(p.codesign_args@) == seq![
                    "--force"@,
                    "--sign"@,
                    session.certs.macos@,
                    "--entitlements"@,
                    p.app_bundle@ + "/entitlements.plist"@,
                    p.app_bundle@,
                ]
            },
        },
{
    if !str_eq(target_os, "ios") {
        return Ok(None);
    }
    let keystore = match session.path_for(PathKey::Keystore) {
        Ok(k) => k,
        Err(e) => return Err(SignError::Session(e)),
    };
    let bundle = app_bundle(session, "ios");
    let mut args: Vec<String> = Vec::new();
    args.push(owned("--force"));
    args.push(owned("--sign"));
    args.push(owned(session.certs.macos.as_str()));
    args.push(owned("--entitlements"));
    args.push(concat(bundle.as_str(), "/entitlements.plist"));
    args.push(owned(bundle.as_str()));
    let plan = SignPlan {
        keychain: concat(keystore.as_str(), "/login.keychain-db"),
        app_bundle: bundle,
        codesign_args: args,
    };
    assert(strs(plan.codesign_args@) =~= seq![
        "--force"@,
        "--sign"@,
        session.certs.macos@,
        "--entitlements"@,
        plan.app_bundle@ + "/entitlements.plist"@,
        plan.app_bundle@,
    ]);
    Ok(Some(plan))
}

/// What a run of `codesign` means: success signs the bundle; a failure that is
/// not about parsing the entitlements means the bundle still lacks them, and
/// provisioning goes on; a failure to parse the entitlements is an error.
pub fn sign_outcome(success: bool, stderr: &str) -> (r: Result<(), SignError>)
    ensures
        success ==> r is Ok,
        !success && !contains(stderr@, "failed to parse entitlements"@) ==> r is Ok,
        !success && contains(stderr@, "failed to parse entitlements"@) ==> (r matches Err(SignError::SignFailed(m)) && m@ == stderr@),
{
    if !success && str_contains(stderr, "failed to parse entitlements") {
        return Err(SignError::SignFailed(owned(stderr)));
    }
    Ok(())
}

/// Whether the keychain can be set up: `security show-keychain-info` succeeded
/// and did not report it locked.
pub fn keychain_ready(success: bool, info: &str) -> (r: bool)
    ensures
        r == (success && !contains(info@, "locked"@)),
{
    success && !str_contains(info, "locked")
}

/// The files of a signing setup in the keystore directory: the login keychain,
/// the private key `ramp.pem`, the request `ramp.csr`, where the downloaded
/// development certificate lands and where it is kept, and the certificate
/// authorities, each a file and the address it is fetched from.
#[derive(Debug)]
pub struct KeychainPlan {
    pub keystore: String,
    pub keychain: String,
    pub key_path: String,
    pub csr_path: String,
    pub cert_download: String,
    pub cert_path: String,
    pub authorities: Vec<(String, String)>,
}

/// The certificate authorities that a signing setup imports, each a file in
/// the keystore directory `ks` and its address.
pub open spec fn authorities_in(ks: Seq<char>) -> Seq<(Seq<char>, Seq<char>)> {
    seq![
        (ks + "/AppleWWDRCA.cer"@, "https://www.apple.com/certificateauthority/AppleWWDRCAG3.cer"@),
        (ks + "/AppleRootCA.cer"@, "https://www.apple.com/certificateauthority/AppleRootCA-G3.cer"@),
        (ks + "/AppleDevIDCA.cer"@, "https://www.apple.com/certificateauthority/DeveloperIDG2CA.cer"@),
    ]
}

/// The signing setup of the session: none on a host other than macOS; on
/// macOS, the files in the keystore directory that `get_path` gives.
pub fn setup_keychain(session: &Session) -> (r: Result<Option<KeychainPlan>, SessionError>)
    ensures
        session.os@ != "macos"@ ==> r matches Ok(None),
        session.os@ == "macos"@ ==> match lookup_key(session.paths, PathKey::Keystore) {
            Err(k) => r == Err::<Option<KeychainPlan>, SessionError>(SessionError::PathNotSet(k)),
            Ok(ks) => r matches Ok(Some(p)) && {
                &&& p.keystore@ == ks
                &&& p.keychain@ == ks + "/login.keychain-db"@
                &&& p.key_path@ == ks + "/ramp.pem"@
                &&& p.csr_path@ == ks + "/ramp.csr"@
                &&& p.cert_download@ == session.home@ + "/Downloads/development.cer"@
                &&& p.cert_path@ == ks + "/development.cer"@
                &&& pairs_view(p.authorities@) == authorities_in(ks)
            },
        },
{
    if !str_eq(session.os.as_str(), "macos") {
        return Ok(None);
    }
    let ks = match session.path_for(PathKey::Keystore) {
        Ok(k) => k,
        Err(e) => return Err(e),
    };
    let mut authorities: Vec<(String, String)> = Vec::new();
    authorities.push((
        concat(ks.as_str(), "/AppleWWDRCA.cer"),
        owned("https://www.apple.com/certificateauthority/AppleWWDRCAG3.cer"),
    ));
    authorities.push((
        concat(ks.as_str(), "/AppleRootCA.cer"),
        owned("https://www.apple.com/certificateauthority/AppleRootCA-G3.cer"),
    ));
    authorities.push((
        concat(ks.as_str(), "/AppleDevIDCA.cer"),
        owned("https://www.apple.com/certificateauthority/DeveloperIDG2CA.cer"),
    ));
    let plan = KeychainPlan {
        keychain: concat(ks.as_str(), "/login.keychain-db"),
        key_path: concat(ks.as_str(), "/ramp.pem"),
        csr_path: concat(ks.as_str(), "/ramp.csr"),
        cert_download: concat(session.home.as_str(), "/Downloads/development.cer"),
        cert_path: concat(ks.as_str(), "/development.cer"),
        keystore: ks,
        authorities,
    };
    assert(pairs_view(plan.authorities@) =~= authorities_in(plan.keystore@));
    Ok(Some(plan))
}

/// The keystore directory to record when none is recorded yet:
/// `<home>/Library/Keychains`.
pub fn default_keystore(session: &Session) -> (r: Option<String>)
    ensures
        session.paths.value(PathKey::Keystore) is None ==> opt_view(r) == Some(session.home@ + "/Library/Keychains"@),
        session.paths.value(PathKey::Keystore) is Some ==> r is None,
{
    match &session.paths.keystore_path {
        Some(_) => None,
        None => Some(concat(session.home.as_str(), "/Library/Keychains")),
    }
}

/// The subject of a certificate signing request:
/// `/CN=<name> /emailAddress=<email>`, with ` /O=<org>` after the name when
/// the organization is not empty.
pub fn csr_subject(full_name: &str, org: &str, email: &str) -> (r: String)
    ensures
        org@.len() == 0 ==> r@ == "/CN="@ + full_name@ + " /emailAddress="@ + email@,
        org@.len() > 0 ==> r@ == "/CN="@ + full_name@ + " /O="@ + org@ + " /emailAddress="@ + email@,
{
    let head = concat("/CN=", full_name);
    if chars_of(org).len() == 0 {
        concat3(head.as_str(), " /emailAddress=", email)
    } else {
        let with_org = concat3(head.as_str(), " /O=", org);
        concat3(with_org.as_str(), " /emailAddress=", email)
    }
}

/// Whether importing a certificate authority went well: it succeeded, or the
/// keychain already holds it.
pub fn import_accepted(success: bool, stderr: &str) -> (r: bool)
    ensures
        r == (success || contains(stderr@, "already exists"@)),
{
    success || str_contains(stderr, "already exists")
}

/// How many provisioning profiles a directory holds.
#[derive(Debug)]
pub enum ProfileFiles {
    /// No file ends with `.mobileprovision`.
    NoProfile,
    /// Exactly one does; its name.
    One(String),
    /// Several do.
    Several,
}

/// Reads a directory listing for provisioning profiles.
pub fn profile_files(names: &Vec<String>) -> (r: ProfileFiles)
    ensures
        ({
            let found = provision_files(strs(names@));
            &&& found.len() == 0 ==> r is NoProfile
            &&& found.len() == 1 ==> (r matches ProfileFiles::One(f) && f@ == found[0])
            &&& found.len() > 1 ==> r is Several
        }),
{
    let found = mobileprovision_files(names);
    assert(strs(names@) == names@.map_values(|s: String| s@));
    assert(found@.map_values(|s: String| s@).len() == found@.len());
    if found.len() == 0 {
        ProfileFiles::NoProfile
    } else if found.len() == 1 {
        assert(found@.map_values(|s: String| s@)[0] == found@[0]@);
        ProfileFiles::One(owned(found[0].as_str()))
    } else {
        ProfileFiles::Several
    }
}

/// Where a downloaded provisioning profile goes: it is moved from
/// `<home>/Downloads/<file>` into the app bundle of the target, installed from
/// there, and its entitlements are written next to it.
#[derive(Debug)]
pub struct ProfileMove {
    pub origin: String,
    pub destination: String,
    pub profile: String,
    pub entitlements: String,
}

/// Where the downloaded provisioning profile `file` goes for `target_os`.
pub fn profile_move(session: &Session, target_os: &str, file: &str) -> (r: ProfileMove)
    requires
        session.projects_path is Some,
        session.current_project is Some,
    ensures
        r.origin@ == session.home@ + "/Downloads/"@ + file@,
        r.destination@ == app_bundle_of(*session, target_os@),
        r.profile@ == r.destination@ + "/"@ + file@,
        r.entitlements@ == r.destination@ + "/entitlements.plist"@,
{
    let destination = app_bundle(session, target_os);
    ProfileMove {
        origin: concat3(session.home.as_str(), "/Downloads/", file),
        profile: concat3(destination.as_str(), "/", file),
        entitlements: concat(destination.as_str(), "/entitlements.plist"),
        destination,
    }
}

/// The `ideviceprovision` tool, found with the configured Homebrew path.
pub fn ideviceprovision(session: &Session) -> (r: Result<String, SessionError>)
    ensures
        match lookup_key(session.paths, PathKey::Homebrew) {
            Ok(h) => r matches Ok(t) && t@ == h + "/ideviceprovision"@,
            Err(k) => r == Err::<String, SessionError>(SessionError::PathNotSet(k)),
        },
{
    match session.path_for(PathKey::Homebrew) {
        Ok(h) => Ok(concat(h.as_str(), "/ideviceprovision")),
        Err(e) => Err(e),
    }
}

/// Why checking a device's provisioning failed.
#[derive(Debug)]
pub enum ProvisionError {
    /// `security cms` could not decode the profile; what it printed.
    DecodeFailed(String),
    /// The decoded profile is not valid UTF-8.
    NotText,
    /// The profile lists the device but has no readable name.
    NameMissing,
    /// `ideviceprovision list` failed.
    ListFailed,
    /// A tool path that the check needs is not configured.
    Session(SessionError),
}

/// What checking whether a device is provisioned does next.
#[derive(Debug)]
pub enum ProvisionAction {
    /// Decode the profile at this path with `security cms -D -i`.
    Decode(String),
    /// List the profiles installed on the device with `<tool> list --udid
    /// <udid>` and look for the named profile.
    ListInstalled { tool: String, profile_name: String },
    /// The check is over: whether the device is provisioned, or why that is
    /// not known.
    Done(Result<bool, ProvisionError>),
}

/// The first step of checking a device, given the file names in its app
/// bundle: with exactly one provisioning profile, decode it; with none or
/// several, the device counts as not provisioned.
pub fn provision_check_start(app_bundle_path: &str, names: &Vec<String>) -> (r: ProvisionAction)
    ensures
        ({
            let found = provision_files(strs(names@));
            &&& found.len() == 1 ==> (r matches ProvisionAction::Decode(p) && p@ == app_bundle_path@ + "/"@ + found[0])
            &&& found.len() != 1 ==> (r matches ProvisionAction::Done(Ok(false)))
        }),
{
    match profile_files(names) {
        ProfileFiles::One(f) => ProvisionAction::Decode(concat3(app_bundle_path, "/", f.as_str())),
        _ => ProvisionAction::Done(Ok(false)),
    }
}

/// The step after decoding the profile, given whether `security` succeeded,
/// the decoded text (`None` when it is not valid UTF-8) and what `security`
/// printed on failure: a profile that does not list the device ends the check
/// with `false`; one that lists it and names itself leads to the listing of
/// the device's installed profiles with `ideviceprovision`.
pub fn provision_check_decoded(
    session: &Session,
    udid: &str,
    success: bool,
    xml: Option<String>,
    stderr: &str,
) -> (r: ProvisionAction)
    ensures
        !success ==> (r matches ProvisionAction::Done(Err(ProvisionError::DecodeFailed(m))) && m@ == stderr@),
        success && xml is None ==> (r matches ProvisionAction::Done(Err(ProvisionError::NotText))),
        success && xml is Some ==> ({
            let x = opt_view(xml)->Some_0;
            &&& !crate::device::lists_device(x, udid@) ==> (r matches ProvisionAction::Done(Ok(false)))
            &&& crate::device::lists_device(x, udid@) ==> match crate::device::profile_name_of(x) {
                Some(n) if n.len() > 0 => match lookup_key(session.paths, PathKey::Homebrew) {
                    Ok(h) => r matches ProvisionAction::ListInstalled { tool, profile_name }
                        && tool@ == h + "/ideviceprovision"@ && profile_name@ == n,
                    Err(k) => r matches ProvisionAction::Done(Err(ProvisionError::Session(e))) && e == SessionError::PathNotSet(k),
                },
                _ => r matches ProvisionAction::Done(Err(ProvisionError::NameMissing)),
            }
        }),
{
    if !success {
        return ProvisionAction::Done(Err(ProvisionError::DecodeFailed(owned(stderr))));
    }
    let x = match xml {
        Some(x) => x,
        None => return ProvisionAction::Done(Err(ProvisionError::NotText)),
    };
    match crate::device::check_provision_profile(x.as_str(), udid) {
        crate::device::ProvisionCheck::NotProvisioned => ProvisionAction::Done(Ok(false)),
        crate::device::ProvisionCheck::NameMissing => ProvisionAction::Done(Err(ProvisionError::NameMissing)),
        crate::device::ProvisionCheck::CheckInstalled(name) => match ideviceprovision(session) {
            Ok(tool) => ProvisionAction::ListInstalled { tool, profile_name: name },
            Err(e) => ProvisionAction::Done(Err(ProvisionError::Session(e))),
        },
    }
}

/// The last step, given whether listing the installed profiles succeeded and
/// what it printed: the device is provisioned when the listing names the
/// profile.
pub fn provision_check_listed(success: bool, listing: &str, profile_name: &str) -> (r: ProvisionAction)
    ensures
        !success ==> (r matches ProvisionAction::Done(Err(ProvisionError::ListFailed))),
        success ==> (r matches ProvisionAction::Done(Ok(b)) && b == contains(listing@, profile_name@)),
{
    if !success {
        return ProvisionAction::Done(Err(ProvisionError::ListFailed));
    }
    ProvisionAction::Done(Ok(crate::device::profile_installed(listing, profile_name)))
}

} // verus!
