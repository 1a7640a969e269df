//! Placeholder resolution for argument strings.
//!
//! Each phase has its own substitution table, applied in one left-to-right
//! scan of the input: at each position the first table pattern that
//! matches is replaced, and the scan continues after the emitted
//! replacement, which is never rescanned — a placeholder occurring inside
//! a substituted value stays literal, so no substitution can inject text
//! for another.  The JVM-phase table is built without the session:
//! credentials cannot reach JVM arguments by construction.  The game-phase
//! table extends it with the session values and a fixed set of
//! placeholders this launcher pins to defaults.  The legacy path instead
//! looks whole tokens up in a closed table, and an unknown name there is
//! an error.

use vstd::prelude::*;

use crate::model::AuthResult;
use crate::model::InstanceConfig;
use crate::model::LaunchError;
use crate::model::MinecraftDir;
use crate::model::VersionInfo;
use crate::model::spec_assets_dir;
use crate::model::spec_kind_name;
use crate::model::spec_natives_dir;
use crate::text::match_at;
use crate::text::str_eq;
use crate::GameLauncher;

verus! {

/// Views of a vector of substitution pairs.
pub open spec fn pairs_views(v: Seq<(String, String)>) -> Seq<(Seq<char>, Seq<char>)> {
    v.map_values(|p: (String, String)| (p.0@, p.1@))
}

/// The first pair of `subs` whose pattern is a prefix of `s`, in table
/// order.  An empty pattern never matches.
pub open spec fn spec_first_match(
    s: Seq<char>,
    subs: Seq<(Seq<char>, Seq<char>)>,
) -> Option<(Seq<char>, Seq<char>)>
    decreases subs.len(),
{
    if subs.len() == 0 {
        Option::None
    } else if 1 <= subs[0].0.len() && subs[0].0.len() <= s.len() && s.subrange(
        0,
        subs[0].0.len() as int,
    ) == subs[0].0 {
        Option::Some(subs[0])
    } else {
        spec_first_match(s, subs.drop_first())
    }
}

/// A matched pair's pattern is nonempty and a prefix of `s`.
pub proof fn lemma_first_match_bounds(s: Seq<char>, subs: Seq<(Seq<char>, Seq<char>)>)
    ensures
        spec_first_match(s, subs) is Some ==> {
            let p = spec_first_match(s, subs)->0;
            1 <= p.0.len() <= s.len() && s.subrange(0, p.0.len() as int) == p.0
        },
    decreases subs.len(),
{
    if subs.len() > 0 {
        lemma_first_match_bounds(s, subs.drop_first());
    }
}

/// `s` resolved against the table `subs` in one left-to-right scan: at
/// each position the first matching pattern is replaced by its value and
/// the scan resumes after the value, which is never rescanned; a position
/// where nothing matches passes through.  (The bounds in the matched
/// branch always hold — see `lemma_first_match_bounds` — and make
/// termination evident.)
pub open spec fn spec_scan_subs(s: Seq<char>, subs: Seq<(Seq<char>, Seq<char>)>) -> Seq<char>
    decreases s.len(),
{
    if s.len() == 0 {
        Seq::empty()
    } else {
        match spec_first_match(s, subs) {
            Option::Some(p) => if 1 <= p.0.len() && p.0.len() <= s.len() {
                p.1 + spec_scan_subs(s.skip(p.0.len() as int), subs)
            } else {
                seq![s[0]] + spec_scan_subs(s.drop_first(), subs)
            },
            Option::None => seq![s[0]] + spec_scan_subs(s.drop_first(), subs),
        }
    }
}

/// A string that is exactly a placeholder resolves to exactly its table
/// value, verbatim: the value is emitted and the scan ends, so
/// placeholder text inside a substituted value can never trigger a
/// further substitution.
pub proof fn lemma_whole_pattern_resolves_verbatim(
    s: Seq<char>,
    subs: Seq<(Seq<char>, Seq<char>)>,
)
    requires
        spec_first_match(s, subs) matches Option::Some(p) && p.0 == s,
    ensures
        spec_first_match(s, subs) matches Option::Some(p) ==> spec_scan_subs(s, subs) == p.1,
{
    lemma_first_match_bounds(s, subs);
    let p = spec_first_match(s, subs)->0;
    assert(s.skip(p.0.len() as int).len() == 0);
    assert(p.1 + spec_scan_subs(s.skip(p.0.len() as int), subs) =~= p.1);
}

/// The game directory: the per-instance directory when an instance is
/// given, else the shared base directory.  Every resolution path uses
/// this one computation.
pub open spec fn spec_game_dir(dir: &MinecraftDir, instance: Option<&InstanceConfig>) -> Seq<char> {
    match instance {
        Option::Some(inst) => dir.base_path@ + "/instances/"@ + inst.name@,
        Option::None => dir.base_path@,
    }
}

/// The JVM-phase substitution table: directory and version placeholders
/// only.  It is built without the session, so no credential can appear in
/// a JVM argument.
pub open spec fn spec_jvm_substitutions(
    version: &VersionInfo,
    dir: &MinecraftDir,
    instance: Option<&InstanceConfig>,
) -> Seq<(Seq<char>, Seq<char>)> {
    seq![
        ("${game_directory}"@, spec_game_dir(dir, instance)),
        ("${assets_root}"@, spec_assets_dir(*dir)),
        ("${assets_index_name}"@, version.assets@),
        ("${version_name}"@, version.id@),
        ("${version_type}"@, spec_kind_name(version.version_type)),
        ("${launcher_name}"@, "rustified"@),
        ("${launcher_version}"@, "1.0.0"@),
        ("${natives_directory}"@, spec_natives_dir(*dir, version.id@)),
    ]
}

/// The game-phase substitution table: the JVM-phase table, then the
/// session values, then placeholders this launcher pins to fixed
/// defaults (no client id or xuid, 854x480 resolution, no quick play).
pub open spec fn spec_game_substitutions(
    version: &VersionInfo,
    auth: &AuthResult,
    dir: &MinecraftDir,
    instance: Option<&InstanceConfig>,
) -> Seq<(Seq<char>, Seq<char>)> {
    spec_jvm_substitutions(version, dir, instance) + seq![
        ("${auth_player_name}"@, auth.profile.name@),
        ("${auth_uuid}"@, auth.profile.id@),
        ("${auth_access_token}"@, auth.access_token@),
        ("${user_type}"@, "msa"@),
        ("${clientid}"@, Seq::<char>::empty()),
        ("${auth_xuid}"@, Seq::<char>::empty()),
        ("${resolution_width}"@, "854"@),
        ("${resolution_height}"@, "480"@),
        ("${quickPlayPath}"@, Seq::<char>::empty()),
        ("${quickPlaySingleplayer}"@, Seq::<char>::empty()),
        ("${quickPlayMultiplayer}"@, Seq::<char>::empty()),
        ("${quickPlayRealms}"@, Seq::<char>::empty()),
    ]
}

/// A game-phase argument string after resolution.
pub open spec fn spec_resolve_game(
    s: Seq<char>,
    version: &VersionInfo,
    auth: &AuthResult,
    dir: &MinecraftDir,
    instance: Option<&InstanceConfig>,
) -> Seq<char> {
    spec_scan_subs(s, spec_game_substitutions(version, auth, dir, instance))
}

/// A JVM-phase argument string after resolution.
pub open spec fn spec_resolve_jvm(
    s: Seq<char>,
    version: &VersionInfo,
    dir: &MinecraftDir,
    instance: Option<&InstanceConfig>,
) -> Seq<char> {
    spec_scan_subs(s, spec_jvm_substitutions(version, dir, instance))
}

/// The value of a legacy placeholder name, or `None` for a name outside
/// the closed legacy table.
pub open spec fn spec_legacy_value(
    name: Seq<char>,
    auth: &AuthResult,
    dir: &MinecraftDir,
    instance: Option<&InstanceConfig>,
) -> Option<Seq<char>> {
    if name == "auth_player_name"@ {
        Option::Some(auth.profile.name@)
    } else if name == "auth_uuid"@ {
        Option::Some(auth.profile.id@)
    } else if name == "auth_access_token"@ {
        Option::Some(auth.access_token@)
    } else if name == "user_type"@ {
        Option::Some("msa"@)
    } else if name == "game_directory"@ {
        Option::Some(spec_game_dir(dir, instance))
    } else if name == "assets_root"@ {
        Option::Some(spec_assets_dir(*dir))
    } else {
        Option::None
    }
}

/// Whether `e` is the unknown-legacy-placeholder error for `name`.
pub open spec fn spec_is_unknown_variable_error(e: LaunchError, name: Seq<char>) -> bool {
    match e {
        LaunchError::UnknownLegacyVariable { name: n } => n@ == name,
        _ => false,
    }
}

/// Computes the game directory for this launch.
pub fn game_directory(dir: &MinecraftDir, instance: Option<&InstanceConfig>) -> (r: String)
    ensures
        r@ == spec_game_dir(dir, instance),
{
    match instance {
        Option::Some(inst) => {
            let mut r = dir.base_path.clone();
            r.append("/instances/");
            r.append(inst.name.as_str());
            r
        },
        Option::None => dir.base_path.clone(),
    }
}

/// The index of the first pair of `subs` whose pattern matches in `s` at
/// position `i`, in table order.
fn first_match_index(s: &str, i: usize, subs: &Vec<(String, String)>) -> (r: Option<usize>)
    requires
        i <= s@.len(),
        s@.len() <= usize::MAX,
    ensures
        match r {
            Option::Some(k) => k < subs@.len() && spec_first_match(
                s@.skip(i as int),
                pairs_views(subs@),
            ) == Option::Some(pairs_views(subs@)[k as int]),
            Option::None => spec_first_match(s@.skip(i as int), pairs_views(subs@)) is None,
        },
{
    let n = s.unicode_len();
    let ghost t = s@.skip(i as int);
    let mut k: usize = 0;
    proof {
        assert(pairs_views(subs@).skip(0) =~= pairs_views(subs@));
    }
    while k < subs.len()
        invariant
            k <= subs@.len(),
            i <= n,
            n == s@.len(),
            t == s@.skip(i as int),
            spec_first_match(t, pairs_views(subs@)) == spec_first_match(
                t,
                pairs_views(subs@).skip(k as int),
            ),
        decreases subs@.len() - k,
    {
        proof {
            let ghost p = subs@[k as int];
            assert(pairs_views(subs@).skip(k as int)[0] == (p.0@, p.1@));
            assert(pairs_views(subs@).skip(k as int).drop_first() =~= pairs_views(subs@).skip(
                k + 1,
            ));
        }
        let pat = &subs[k].0;
        let m = pat.as_str().unicode_len();
        if m >= 1 && m <= n - i && match_at(s, i, pat.as_str()) {
            proof {
                assert(t.subrange(0, m as int) =~= s@.subrange(i as int, i + m));
            }
            return Option::Some(k);
        } else {
            proof {
                if 1 <= m && m <= n - i {
                    assert(t.subrange(0, m as int) =~= s@.subrange(i as int, i + m));
                }
            }
        }
        k = k + 1;
    }
    Option::None
}

/// Resolves `s` against the table `subs` in one left-to-right scan.
/// Emitted replacement values are never rescanned.
pub fn scan_substitutions(s: &str, subs: &Vec<(String, String)>) -> (r: String)
    ensures
        r@ == spec_scan_subs(s@, pairs_views(subs@)),
{
    let n = s.unicode_len();
    let ghost table = pairs_views(subs@);
    let mut out = String::new();
    let mut i: usize = 0;
    proof {
        assert(s@.skip(0) =~= s@);
        assert(out@ + spec_scan_subs(s@, table) =~= spec_scan_subs(s@, table));
    }
    while i < n
        invariant
            i <= n,
            n == s@.len(),
            table == pairs_views(subs@),
            spec_scan_subs(s@, table) == out@ + spec_scan_subs(s@.skip(i as int), table),
        decreases n - i,
    {
        let ghost t = s@.skip(i as int);
        match first_match_index(s, i, subs) {
            Option::Some(k) => {
                let ghost p = table[k as int];
                proof {
                    lemma_first_match_bounds(t, table);
                    assert(spec_scan_subs(t, table) == p.1 + spec_scan_subs(
                        t.skip(p.0.len() as int),
                        table,
                    ));
                }
                let m = subs[k].0.as_str().unicode_len();
                proof {
                    assert(m == p.0.len());
                    assert(t.skip(m as int) =~= s@.skip(i + m));
                    assert((out@ + p.1) + spec_scan_subs(s@.skip(i + m), table) =~= out@ + (p.1
                        + spec_scan_subs(s@.skip(i + m), table)));
                }
                out.append(subs[k].1.as_str());
                i = i + m;
            },
            Option::None => {
                let piece = s.substring_char(i, i + 1);
                proof {
                    assert(piece@ =~= seq![s@[i as int]]);
                    assert(t[0] == s@[i as int]);
                    assert(t.drop_first() =~= s@.skip(i + 1));
                    assert(spec_scan_subs(t, table) == seq![s@[i as int]] + spec_scan_subs(
                        s@.skip(i + 1),
                        table,
                    ));
                    assert((out@ + seq![s@[i as int]]) + spec_scan_subs(s@.skip(i + 1), table)
                        =~= out@ + (seq![s@[i as int]] + spec_scan_subs(s@.skip(i + 1), table)));
                }
                out.append(piece);
                i = i + 1;
            },
        }
    }
    proof {
        assert(s@.skip(i as int).len() == 0);
        assert(out@ + spec_scan_subs(s@.skip(i as int), table) =~= out@);
    }
    out
}

/// Builds the JVM-phase substitution table.  The session is not an input:
/// the table cannot mention credentials.
pub fn jvm_substitutions(
    version: &VersionInfo,
    dir: &MinecraftDir,
    instance: Option<&InstanceConfig>,
) -> (r: Vec<(String, String)>)
    ensures
        pairs_views(r@) == spec_jvm_substitutions(version, dir, instance),
{
    let mut v: Vec<(String, String)> = Vec::new();
    v.push((String::from_str("${game_directory}"), game_directory(dir, instance)));
    v.push((String::from_str("${assets_root}"), dir.assets_dir()));
    v.push((String::from_str("${assets_index_name}"), version.assets.clone()));
    v.push((String::from_str("${version_name}"), version.id.clone()));
    v.push((String::from_str("${version_type}"), String::from_str(version.version_type.name())));
    v.push((String::from_str("${launcher_name}"), String::from_str("rustified")));
    v.push((String::from_str("${launcher_version}"), String::from_str("1.0.0")));
    v.push((String::from_str("${natives_directory}"), dir.natives_dir(version.id.as_str())));
    proof {
        assert(pairs_views(v@) =~= spec_jvm_substitutions(version, dir, instance));
    }
    v
}

/// Builds the game-phase substitution table: the JVM-phase table extended
/// with session values and pinned defaults.
pub fn game_substitutions(
    version: &VersionInfo,
    auth: &AuthResult,
    dir: &MinecraftDir,
    instance: Option<&InstanceConfig>,
) -> (r: Vec<(String, String)>)
    ensures
        pairs_views(r@) == spec_game_substitutions(version, auth, dir, instance),
{
    let mut v = jvm_substitutions(version, dir, instance);
    v.push((String::from_str("${auth_player_name}"), auth.profile.name.clone()));
    v.push((String::from_str("${auth_uuid}"), auth.profile.id.clone()));
    v.push((String::from_str("${auth_access_token}"), auth.access_token.clone()));
    v.push((String::from_str("${user_type}"), String::from_str("msa")));
    v.push((String::from_str("${clientid}"), String::new()));
    v.push((String::from_str("${auth_xuid}"), String::new()));
    v.push((String::from_str("${resolution_width}"), String::from_str("854")));
    v.push((String::from_str("${resolution_height}"), String::from_str("480")));
    v.push((String::from_str("${quickPlayPath}"), String::new()));
    v.push((String::from_str("${quickPlaySingleplayer}"), String::new()));
    v.push((String::from_str("${quickPlayMultiplayer}"), String::new()));
    v.push((String::from_str("${quickPlayRealms}"), String::new()));
    proof {
        assert(pairs_views(v@) =~= spec_game_substitutions(version, auth, dir, instance));
    }
    v
}

impl GameLauncher {
    /// Resolves a game-phase argument string.  Placeholders outside the
    /// table are left verbatim.
    pub fn resolve_argument_variables(
        &self,
        arg: &str,
        version_info: &VersionInfo,
        auth: &AuthResult,
        minecraft_dir: &MinecraftDir,
        instance: Option<&InstanceConfig>,
    ) -> (r: String)
        ensures
            r@ == spec_resolve_game(arg@, version_info, auth, minecraft_dir, instance),
    {
        let subs = game_substitutions(version_info, auth, minecraft_dir, instance);
        scan_substitutions(arg, &subs)
    }

    /// Resolves a JVM-phase argument string.  The session is not an
    /// input, so credentials cannot appear in the result unless the
    /// manifest or configuration text itself contains them.
    pub fn resolve_jvm_argument_variables(
        &self,
        arg: &str,
        version_info: &VersionInfo,
        minecraft_dir: &MinecraftDir,
        instance: Option<&InstanceConfig>,
    ) -> (r: String)
        ensures
            r@ == spec_resolve_jvm(arg@, version_info, minecraft_dir, instance),
    {
        let subs = jvm_substitutions(version_info, minecraft_dir, instance);
        scan_substitutions(arg, &subs)
    }

    /// Looks a legacy placeholder name up.  A name outside the closed
    /// legacy table is a hard error: such a manifest is not understood.
    pub fn resolve_legacy_variable(
        &self,
        var_name: &str,
        auth: &AuthResult,
        minecraft_dir: &MinecraftDir,
        instance: Option<&InstanceConfig>,
    ) -> (r: Result<String, LaunchError>)
        ensures
            match spec_legacy_value(var_name@, auth, minecraft_dir, instance) {
                Option::Some(v) => r is Ok && r->Ok_0@ == v,
                Option::None => r is Err && spec_is_unknown_variable_error(r->Err_0, var_name@),
            },
    {
        if str_eq(var_name, "auth_player_name") {
            Result::Ok(auth.profile.name.clone())
        } else if str_eq(var_name, "auth_uuid") {
            Result::Ok(auth.profile.id.clone())
        } else if str_eq(var_name, "auth_access_token") {
            Result::Ok(auth.access_token.clone())
        } else if str_eq(var_name, "user_type") {
            Result::Ok(String::from_str("msa"))
        } else if str_eq(var_name, "game_directory") {
            Result::Ok(game_directory(minecraft_dir, instance))
        } else if str_eq(var_name, "assets_root") {
            Result::Ok(minecraft_dir.assets_dir())
        } else {
            Result::Err(LaunchError::UnknownLegacyVariable { name: String::from_str(var_name) })
        }
    }
}

/// The game-phase, JVM-phase and legacy resolution paths all compute the
/// game directory the same way: each draws it from `spec_game_dir`, so
/// for equal inputs the three directories are equal.
pub proof fn lemma_game_directory_agreement(
    version: &VersionInfo,
    auth: &AuthResult,
    dir: &MinecraftDir,
    instance: Option<&InstanceConfig>,
)
    ensures
        spec_jvm_substitutions(version, dir, instance)[0] == (
            "${game_directory}"@,
            spec_game_dir(dir, instance),
        ),
        spec_game_substitutions(version, auth, dir, instance)[0] == (
            "${game_directory}"@,
            spec_game_dir(dir, instance),
        ),
        spec_legacy_value("game_directory"@, auth, dir, instance) == Option::Some(
            spec_game_dir(dir, instance),
        ),
{
    reveal_strlit("game_directory");
    reveal_strlit("auth_player_name");
    reveal_strlit("auth_uuid");
    reveal_strlit("auth_access_token");
    reveal_strlit("user_type");
    assert("game_directory"@.len() == 14);
    assert("game_directory"@ != "auth_player_name"@);
    assert("game_directory"@ != "auth_uuid"@);
    assert("game_directory"@ != "auth_access_token"@);
    assert("game_directory"@ != "user_type"@);
}

/// The JVM-phase substitution table is exactly the auth-free prefix of
/// the game-phase table: the tables agree on every directory and version
/// placeholder, and only the game-phase table carries session values.
pub proof fn lemma_jvm_table_is_game_prefix(
    version: &VersionInfo,
    auth: &AuthResult,
    dir: &MinecraftDir,
    instance: Option<&InstanceConfig>,
)
    ensures
        spec_jvm_substitutions(version, dir, instance).len() == 8,
        spec_game_substitutions(version, auth, dir, instance).len() == 20,
        spec_game_substitutions(version, auth, dir, instance).take(8) == spec_jvm_substitutions(
            version,
            dir,
            instance,
        ),
{
    assert(spec_game_substitutions(version, auth, dir, instance).take(8)
        =~= spec_jvm_substitutions(version, dir, instance));
}

} // verus!
