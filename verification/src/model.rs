//! The data a launch is synthesised from: the version manifest, the
//! authenticated session, the optional instance profile, the directory
//! layout, and the process specification the engine produces.
//!
//! Directory-layout paths are joined with `/`, which every platform the
//! launcher targets accepts in Java command lines; only the classpath
//! separator is platform-specific.

use vstd::prelude::*;

use crate::rules::Rule;
use crate::text::spec_contains;
use crate::text::contains_str;

verus! {

/// The kind of a release, as the version manifest reports it.
#[derive(Clone, Copy, Debug, PartialEq, Eq, Structural)]
pub enum VersionKind {
    Release,
    Snapshot,
    OldBeta,
    OldAlpha,
}

/// The lower-case name of a version kind, the form argument resolution
/// substitutes for the version-type placeholder.
pub open spec fn spec_kind_name(k: VersionKind) -> Seq<char> {
    match k {
        VersionKind::Release => "release"@,
        VersionKind::Snapshot => "snapshot"@,
        VersionKind::OldBeta => "oldbeta"@,
        VersionKind::OldAlpha => "oldalpha"@,
    }
}

impl VersionKind {
    /// Returns the lower-case manifest name of this kind.
    pub fn name(&self) -> (r: &'static str)
        ensures
            r@ == spec_kind_name(*self),
    {
        match self {
            VersionKind::Release => "release",
            VersionKind::Snapshot => "snapshot",
            VersionKind::OldBeta => "oldbeta",
            VersionKind::OldAlpha => "oldalpha",
        }
    }
}

/// One value of a modern argument list entry: a single token or several.
#[derive(Clone, Debug)]
pub enum ArgumentValueType {
    Single(String),
    Multiple(Vec<String>),
}

/// One entry of a modern argument list: unconditional, or gated by rules.
#[derive(Clone, Debug)]
pub enum ArgumentValue {
    Simple(String),
    Conditional { rules: Vec<Rule>, value: ArgumentValueType },
}

/// The modern argument lists of a manifest, one per phase.
#[derive(Clone, Debug)]
pub struct Arguments {
    pub jvm: Option<Vec<ArgumentValue>>,
    pub game: Option<Vec<ArgumentValue>>,
}

/// What a library offers for download: an optional primary artifact
/// (named by its download URL) and optional OS-qualified classifier
/// bundles (named by their classifier keys).  This engine reads only
/// which of the two are present; fetching them happens elsewhere.
#[derive(Clone, Debug)]
pub struct LibraryDownloads {
    pub artifact: Option<String>,
    pub classifiers: Option<Vec<String>>,
}

/// One library entry of a version manifest.
#[derive(Clone, Debug)]
pub struct Library {
    /// Maven-style coordinate, `group:artifact:version`.
    pub name: String,
    pub downloads: LibraryDownloads,
    /// Inclusion rules; an empty list means the library always applies.
    pub rules: Vec<Rule>,
}

/// A library is native-only when its coordinate carries a natives
/// classifier marker, or when it offers classifier bundles and no primary
/// artifact.  Such a library never joins the classpath; its contents are
/// loaded through the JVM library path instead.
pub open spec fn spec_is_native_library(lib: Library) -> bool {
    ||| spec_contains(lib.name@, ":natives-"@)
    ||| (lib.downloads.artifact is None && lib.downloads.classifiers is Some)
}

impl Library {
    /// Whether this library is native-only and must stay off the classpath.
    pub fn is_native_library(&self) -> (r: bool)
        ensures
            r == spec_is_native_library(*self),
    {
        if contains_str(self.name.as_str(), ":natives-") {
            return true;
        }
        self.downloads.artifact.is_none() && self.downloads.classifiers.is_some()
    }
}

/// A parsed version manifest, as far as launch synthesis reads it.
#[derive(Clone, Debug)]
pub struct VersionInfo {
    pub id: String,
    pub main_class: String,
    /// Asset-index name.
    pub assets: String,
    pub version_type: VersionKind,
    /// Modern argument lists; present on 1.13-and-later manifests.
    pub arguments: Option<Arguments>,
    /// Legacy flat argument string; present on older manifests.
    pub minecraft_arguments: Option<String>,
    pub libraries: Vec<Library>,
}

/// The player profile of an authenticated session.
#[derive(Clone, Debug)]
pub struct PlayerProfile {
    pub name: String,
    pub id: String,
}

/// An authenticated session: profile plus an opaque bearer token.  The
/// token reaches game-phase arguments only; the JVM-phase resolver has no
/// access to this type at all.
#[derive(Clone, Debug)]
pub struct AuthResult {
    pub profile: PlayerProfile,
    pub access_token: String,
}

/// Per-instance settings.
#[derive(Clone, Debug)]
pub struct InstanceSettings {
    /// Memory ceiling in megabytes; `None` keeps the fixed defaults.
    pub memory_mb: Option<u32>,
    /// Extra raw JVM arguments, passed through verbatim.
    pub java_args: Vec<String>,
}

/// A named instance profile.  Launching without one uses defaults and the
/// shared game directory.
#[derive(Clone, Debug)]
pub struct InstanceConfig {
    pub name: String,
    pub settings: InstanceSettings,
}

/// The on-disk layout of the launcher's data directory.  All path
/// computation is pure; existence checks are the caller's.
#[derive(Clone, Debug)]
pub struct MinecraftDir {
    pub base_path: String,
}

/// Path of the primary jar of version `id`.
pub open spec fn spec_version_jar_path(dir: MinecraftDir, id: Seq<char>) -> Seq<char> {
    dir.base_path@ + "/versions/"@ + id + "/"@ + id + ".jar"@
}

/// Path of the extracted-natives directory of version `id`.
pub open spec fn spec_natives_dir(dir: MinecraftDir, id: Seq<char>) -> Seq<char> {
    dir.base_path@ + "/versions/"@ + id + "/natives"@
}

/// Path of the shared assets directory.
pub open spec fn spec_assets_dir(dir: MinecraftDir) -> Seq<char> {
    dir.base_path@ + "/assets"@
}

/// Path of a library jar, given its repository-relative path.
pub open spec fn spec_library_path(dir: MinecraftDir, relative: Seq<char>) -> Seq<char> {
    dir.base_path@ + "/libraries/"@ + relative
}

impl MinecraftDir {
    /// Returns the path of the primary jar of version `id`.
    pub fn version_jar_path(&self, id: &str) -> (r: String)
        ensures
            r@ == spec_version_jar_path(*self, id@),
    {
        let mut r = self.base_path.clone();
        r.append("/versions/");
        r.append(id);
        r.append("/");
        r.append(id);
        r.append(".jar");
        r
    }

    /// Returns the path of the natives directory of version `id`.
    pub fn natives_dir(&self, id: &str) -> (r: String)
        ensures
            r@ == spec_natives_dir(*self, id@),
    {
        let mut r = self.base_path.clone();
        r.append("/versions/");
        r.append(id);
        r.append("/natives");
        r
    }

    /// Returns the path of the shared assets directory.
    pub fn assets_dir(&self) -> (r: String)
        ensures
            r@ == spec_assets_dir(*self),
    {
        let mut r = self.base_path.clone();
        r.append("/assets");
        r
    }

    /// Returns the path of a library jar, given its repository-relative
    /// path.
    pub fn library_path(&self, relative: &str) -> (r: String)
        ensures
            r@ == spec_library_path(*self, relative@),
    {
        let mut r = self.base_path.clone();
        r.append("/libraries/");
        r.append(relative);
        r
    }
}

/// Why a launch could not be carried through, or how the game ended when
/// it did run and failed.
#[derive(Clone, Debug, PartialEq, Eq)]
pub enum LaunchError {
    /// The version's primary jar is absent on disk; assembly stops before
    /// any process is spawned.
    MainJarMissing { path: String },
    /// After filtering, no classpath entry remained.
    EmptyClasspath,
    /// A legacy argument string used a placeholder this launcher does not
    /// know; the manifest is not understood.
    UnknownLegacyVariable { name: String },
    /// The game process ended with a non-zero exit code, or was
    /// terminated by a signal (`code` is then `None`).
    ExitFailure { code: Option<i32> },
}

/// A ready-to-spawn process: executable, arguments in order, and working
/// directory.  The caller spawns it with stdio inherited from the
/// launcher, so the game can use the console interactively.
#[derive(Clone, Debug)]
pub struct ProcessSpec {
    pub program: String,
    pub args: Vec<String>,
    pub working_dir: String,
}

} // verus!
