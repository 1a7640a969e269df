//! Assembly of the JVM-phase and game-phase argument lists.
//!
//! The JVM phase always emits heap flags, a fixed collector-tuning block,
//! the instance's raw extra arguments, the natives path property and two
//! launcher-identity properties, then the manifest's modern JVM entries.
//! The game phase either expands the manifest's modern game entries or
//! tokenises its legacy argument string; a literal `--demo` token is
//! dropped on both paths, and legacy launches append a fixed block of
//! essential arguments that old manifests are known to omit.

use vstd::prelude::*;

use crate::model::ArgumentValue;
use crate::model::ArgumentValueType;
use crate::model::AuthResult;
use crate::model::InstanceConfig;
use crate::model::LaunchError;
use crate::model::MinecraftDir;
use crate::model::VersionInfo;
use crate::model::spec_assets_dir;
use crate::model::spec_natives_dir;
use crate::resolve::spec_game_dir;
use crate::resolve::spec_legacy_value;
use crate::resolve::spec_is_unknown_variable_error;
use crate::resolve::spec_resolve_game;
use crate::resolve::spec_resolve_jvm;
use crate::resolve::game_directory;
use crate::rules::spec_eval_rules;
use crate::text::lemma_concat_assoc;
use crate::text::lemma_views_push;
use crate::text::match_at;
use crate::text::seq_views;
use crate::text::spec_decimal;
use crate::text::spec_split_ws;
use crate::text::split_whitespace_tokens;
use crate::text::str_eq;
use crate::text::u32_to_decimal;
use crate::GameLauncher;
use crate::Os;

verus! {

/// The heap flags: half / all of the instance's memory ceiling when one
/// is configured, else the fixed 1G / 2G defaults.
pub open spec fn spec_memory_flags(instance: Option<&InstanceConfig>) -> (Seq<char>, Seq<char>) {
    match instance {
        Option::Some(inst) => match inst.settings.memory_mb {
            Option::Some(m) => (
                "-Xms"@ + spec_decimal((m / 2) as nat) + "M"@,
                "-Xmx"@ + spec_decimal(m as nat) + "M"@,
            ),
            Option::None => ("-Xms1G"@, "-Xmx2G"@),
        },
        Option::None => ("-Xms1G"@, "-Xmx2G"@),
    }
}

/// The fixed collector-tuning block, emitted on every launch.
pub open spec fn spec_fixed_gc_args() -> Seq<Seq<char>> {
    seq![
        "-XX:+UseG1GC"@,
        "-XX:+UnlockExperimentalVMOptions"@,
        "-XX:G1NewSizePercent=20"@,
        "-XX:G1ReservePercent=20"@,
        "-XX:MaxGCPauseMillis=50"@,
        "-XX:G1HeapRegionSize=32M"@,
    ]
}

/// The instance's raw extra JVM arguments, passed through verbatim.
pub open spec fn spec_instance_java_args(instance: Option<&InstanceConfig>) -> Seq<Seq<char>> {
    match instance {
        Option::Some(inst) => seq_views(inst.settings.java_args@),
        Option::None => Seq::empty(),
    }
}

/// The natives-directory system property.
pub open spec fn spec_natives_property(version: &VersionInfo, dir: &MinecraftDir) -> Seq<char> {
    "-Djava.library.path="@ + spec_natives_dir(*dir, version.id@)
}

/// The tokens contributed by a list of raw values in a JVM-phase entry.
pub open spec fn spec_jvm_value_tokens(
    vs: Seq<String>,
    version: &VersionInfo,
    dir: &MinecraftDir,
    instance: Option<&InstanceConfig>,
) -> Seq<Seq<char>>
    decreases vs.len(),
{
    if vs.len() == 0 {
        Seq::empty()
    } else {
        seq![spec_resolve_jvm(vs[0]@, version, dir, instance)] + spec_jvm_value_tokens(
            vs.drop_first(),
            version,
            dir,
            instance,
        )
    }
}

/// The tokens contributed by one modern JVM-phase entry: a simple value
/// resolves to one token; a conditional one resolves to zero, one or
/// many, as its rules and shape dictate.
pub open spec fn spec_jvm_entry_tokens(
    a: ArgumentValue,
    version: &VersionInfo,
    dir: &MinecraftDir,
    instance: Option<&InstanceConfig>,
    os: Os,
) -> Seq<Seq<char>> {
    match a {
        ArgumentValue::Simple(v) => seq![spec_resolve_jvm(v@, version, dir, instance)],
        ArgumentValue::Conditional { rules, value } => if spec_eval_rules(rules@, os) {
            match value {
                ArgumentValueType::Single(v) => seq![
                    spec_resolve_jvm(v@, version, dir, instance),
                ],
                ArgumentValueType::Multiple(vs) => spec_jvm_value_tokens(
                    vs@,
                    version,
                    dir,
                    instance,
                ),
            }
        } else {
            Seq::empty()
        },
    }
}

/// The tokens of a modern JVM-phase argument list, in manifest order.
pub open spec fn spec_modern_jvm_tokens(
    list: Seq<ArgumentValue>,
    version: &VersionInfo,
    dir: &MinecraftDir,
    instance: Option<&InstanceConfig>,
    os: Os,
) -> Seq<Seq<char>>
    decreases list.len(),
{
    if list.len() == 0 {
        Seq::empty()
    } else {
        spec_jvm_entry_tokens(list[0], version, dir, instance, os) + spec_modern_jvm_tokens(
            list.drop_first(),
            version,
            dir,
            instance,
            os,
        )
    }
}

/// The manifest's modern JVM tokens, or nothing when the manifest has no
/// modern JVM list.  Legacy manifests carry no JVM arguments, so there is
/// no legacy path here.
pub open spec fn spec_manifest_jvm_tokens(
    version: &VersionInfo,
    dir: &MinecraftDir,
    instance: Option<&InstanceConfig>,
    os: Os,
) -> Seq<Seq<char>> {
    match version.arguments {
        Option::Some(arguments) => match arguments.jvm {
            Option::Some(list) => spec_modern_jvm_tokens(list@, version, dir, instance, os),
            Option::None => Seq::empty(),
        },
        Option::None => Seq::empty(),
    }
}

/// The full JVM-phase argument list.  The session is not an input: no
/// credential can reach a JVM-phase token.
pub open spec fn spec_jvm_args(
    version: &VersionInfo,
    dir: &MinecraftDir,
    instance: Option<&InstanceConfig>,
    os: Os,
) -> Seq<Seq<char>> {
    seq![spec_memory_flags(instance).0, spec_memory_flags(instance).1] + spec_fixed_gc_args()
        + spec_instance_java_args(instance) + seq![
        spec_natives_property(version, dir),
        "-Dminecraft.launcher.brand=rustified"@,
        "-Dminecraft.launcher.version=1.0.0"@,
    ] + spec_manifest_jvm_tokens(version, dir, instance, os)
}

/// A resolved game-phase token, minus a literal `--demo`: the launcher
/// always supplies real authentication and never runs the demo.
pub open spec fn spec_demo_filtered(t: Seq<char>) -> Seq<Seq<char>> {
    if t == "--demo"@ {
        Seq::empty()
    } else {
        seq![t]
    }
}

/// The tokens contributed by a list of raw values in a game-phase entry.
pub open spec fn spec_game_value_tokens(
    vs: Seq<String>,
    version: &VersionInfo,
    auth: &AuthResult,
    dir: &MinecraftDir,
    instance: Option<&InstanceConfig>,
) -> Seq<Seq<char>>
    decreases vs.len(),
{
    if vs.len() == 0 {
        Seq::empty()
    } else {
        spec_demo_filtered(spec_resolve_game(vs[0]@, version, auth, dir, instance))
            + spec_game_value_tokens(vs.drop_first(), version, auth, dir, instance)
    }
}

/// The tokens contributed by one modern game-phase entry.
pub open spec fn spec_game_entry_tokens(
    a: ArgumentValue,
    version: &VersionInfo,
    auth: &AuthResult,
    dir: &MinecraftDir,
    instance: Option<&InstanceConfig>,
    os: Os,
) -> Seq<Seq<char>> {
    match a {
        ArgumentValue::Simple(v) => spec_demo_filtered(
            spec_resolve_game(v@, version, auth, dir, instance),
        ),
        ArgumentValue::Conditional { rules, value } => if spec_eval_rules(rules@, os) {
            match value {
                ArgumentValueType::Single(v) => spec_demo_filtered(
                    spec_resolve_game(v@, version, auth, dir, instance),
                ),
                ArgumentValueType::Multiple(vs) => spec_game_value_tokens(
                    vs@,
                    version,
                    auth,
                    dir,
                    instance,
                ),
            }
        } else {
            Seq::empty()
        },
    }
}

/// The tokens of a modern game-phase argument list, in manifest order.
pub open spec fn spec_modern_game_tokens(
    list: Seq<ArgumentValue>,
    version: &VersionInfo,
    auth: &AuthResult,
    dir: &MinecraftDir,
    instance: Option<&InstanceConfig>,
    os: Os,
) -> Seq<Seq<char>>
    decreases list.len(),
{
    if list.len() == 0 {
        Seq::empty()
    } else {
        spec_game_entry_tokens(list[0], version, auth, dir, instance, os)
            + spec_modern_game_tokens(list.drop_first(), version, auth, dir, instance, os)
    }
}

/// Whether a legacy token is a placeholder, `${name}`.
pub open spec fn spec_is_placeholder(t: Seq<char>) -> bool {
    t.len() >= 2 && t.subrange(0, 2) == "${"@ && t[t.len() - 1] == '}'
}

/// The placeholder name between the braces.
pub open spec fn spec_placeholder_name(t: Seq<char>) -> Seq<char>
    recommends
        spec_is_placeholder(t),
{
    t.subrange(2, t.len() - 1)
}

/// Legacy tokenisation outcome: each placeholder token is replaced by its
/// legacy value, a literal `--demo` is dropped, every other token passes
/// through; the first unknown placeholder name is a hard error.
pub open spec fn spec_parse_legacy(
    tokens: Seq<Seq<char>>,
    auth: &AuthResult,
    dir: &MinecraftDir,
    instance: Option<&InstanceConfig>,
) -> Result<Seq<Seq<char>>, Seq<char>>
    decreases tokens.len(),
{
    if tokens.len() == 0 {
        Result::Ok(Seq::empty())
    } else {
        let t = tokens[0];
        if spec_is_placeholder(t) {
            match spec_legacy_value(spec_placeholder_name(t), auth, dir, instance) {
                Option::Some(v) => match spec_parse_legacy(
                    tokens.drop_first(),
                    auth,
                    dir,
                    instance,
                ) {
                    Result::Ok(r) => Result::Ok(seq![v] + r),
                    Result::Err(e) => Result::Err(e),
                },
                Option::None => Result::Err(spec_placeholder_name(t)),
            }
        } else if t == "--demo"@ {
            spec_parse_legacy(tokens.drop_first(), auth, dir, instance)
        } else {
            match spec_parse_legacy(tokens.drop_first(), auth, dir, instance) {
                Result::Ok(r) => Result::Ok(seq![t] + r),
                Result::Err(e) => Result::Err(e),
            }
        }
    }
}

/// The fixed essential-argument block appended after a legacy string,
/// because old manifests are known to omit arguments the modern protocol
/// expects.
pub open spec fn spec_essential_args(
    auth: &AuthResult,
    dir: &MinecraftDir,
    instance: Option<&InstanceConfig>,
) -> Seq<Seq<char>> {
    seq![
        "--username"@,
        auth.profile.name@,
        "--uuid"@,
        auth.profile.id@,
        "--accessToken"@,
        auth.access_token@,
        "--userType"@,
        "msa"@,
        "--gameDir"@,
        spec_game_dir(dir, instance),
    ]
}

/// The full game-phase argument list: modern expansion when the manifest
/// has modern arguments, else legacy tokenisation plus the essential
/// block, else nothing (bare manifests launch with no game arguments).
pub open spec fn spec_game_args(
    version: &VersionInfo,
    auth: &AuthResult,
    dir: &MinecraftDir,
    instance: Option<&InstanceConfig>,
    os: Os,
) -> Result<Seq<Seq<char>>, Seq<char>> {
    match version.arguments {
        Option::Some(arguments) => Result::Ok(
            match arguments.game {
                Option::Some(list) => spec_modern_game_tokens(
                    list@,
                    version,
                    auth,
                    dir,
                    instance,
                    os,
                ),
                Option::None => Seq::empty(),
            },
        ),
        Option::None => match version.minecraft_arguments {
            Option::Some(legacy) => match spec_parse_legacy(
                spec_split_ws(legacy@),
                auth,
                dir,
                instance,
            ) {
                Result::Ok(toks) => Result::Ok(
                    toks + spec_essential_args(auth, dir, instance),
                ),
                Result::Err(name) => Result::Err(name),
            },
            Option::None => Result::Ok(Seq::empty()),
        },
    }
}

/// Computes the heap flags for this launch.
pub fn memory_flags(instance: Option<&InstanceConfig>) -> (r: (String, String))
    ensures
        r.0@ == spec_memory_flags(instance).0,
        r.1@ == spec_memory_flags(instance).1,
{
    match instance {
        Option::Some(inst) => match inst.settings.memory_mb {
            Option::Some(m) => {
                let mut xms = String::from_str("-Xms");
                let half = u32_to_decimal(m / 2);
                xms.append(half.as_str());
                xms.append("M");
                let mut xmx = String::from_str("-Xmx");
                let full = u32_to_decimal(m);
                xmx.append(full.as_str());
                xmx.append("M");
                (xms, xmx)
            },
            Option::None => (String::from_str("-Xms1G"), String::from_str("-Xmx2G")),
        },
        Option::None => (String::from_str("-Xms1G"), String::from_str("-Xmx2G")),
    }
}

impl GameLauncher {
    /// Appends the tokens of one modern JVM-phase entry.
    pub fn add_conditional_jvm_argument(
        &self,
        args: &mut Vec<String>,
        arg: &ArgumentValue,
        version_info: &VersionInfo,
        minecraft_dir: &MinecraftDir,
        instance: Option<&InstanceConfig>,
        os: Os,
    )
        ensures
            seq_views(final(args)@) == seq_views(old(args)@) + spec_jvm_entry_tokens(
                *arg,
                version_info,
                minecraft_dir,
                instance,
                os,
            ),
    {
        let ghost base = seq_views(args@);
        match arg {
            ArgumentValue::Simple(value) => {
                let resolved = self.resolve_jvm_argument_variables(
                    value.as_str(),
                    version_info,
                    minecraft_dir,
                    instance,
                );
                proof {
                    lemma_views_push(args@, resolved);
                }
                args.push(resolved);
            },
            ArgumentValue::Conditional { rules, value } => {
                if self.evaluate_rules(rules, os) {
                    match value {
                        ArgumentValueType::Single(val) => {
                            let resolved = self.resolve_jvm_argument_variables(
                                val.as_str(),
                                version_info,
                                minecraft_dir,
                                instance,
                            );
                            proof {
                                lemma_views_push(args@, resolved);
                            }
                            args.push(resolved);
                        },
                        ArgumentValueType::Multiple(vals) => {
                            let ghost full = spec_jvm_value_tokens(
                                vals@,
                                version_info,
                                minecraft_dir,
                                instance,
                            );
                            let mut i: usize = 0;
                            proof {
                                assert(vals@.skip(0) =~= vals@);
                            }
                            while i < vals.len()
                                invariant
                                    i <= vals@.len(),
                                    seq_views(args@) + spec_jvm_value_tokens(
                                        vals@.skip(i as int),
                                        version_info,
                                        minecraft_dir,
                                        instance,
                                    ) == base + full,
                                decreases vals@.len() - i,
                            {
                                proof {
                                    assert(vals@.skip(i as int)[0] == vals@[i as int]);
                                    assert(vals@.skip(i as int).drop_first() =~= vals@.skip(
                                        i + 1,
                                    ));
                                }
                                let resolved = self.resolve_jvm_argument_variables(
                                    vals[i].as_str(),
                                    version_info,
                                    minecraft_dir,
                                    instance,
                                );
                                proof {
                                    lemma_views_push(args@, resolved);
                                    lemma_concat_assoc(
                                        seq_views(args@),
                                        seq![resolved@],
                                        spec_jvm_value_tokens(
                                            vals@.skip(i + 1),
                                            version_info,
                                            minecraft_dir,
                                            instance,
                                        ),
                                    );
                                }
                                args.push(resolved);
                                i = i + 1;
                            }
                            proof {
                                assert(vals@.skip(vals@.len() as int).len() == 0);
                                assert(seq_views(args@) + Seq::<Seq<char>>::empty()
                                    =~= seq_views(args@));
                            }
                        },
                    }
                } else {
                    proof {
                        assert(base + Seq::<Seq<char>>::empty() =~= base);
                    }
                }
            },
        }
    }

    /// Appends the full JVM-phase argument list: heap flags, the fixed
    /// collector block, instance extras, the natives and launcher
    /// properties, then the manifest's modern JVM entries.
    pub fn add_jvm_arguments(
        &self,
        args: &mut Vec<String>,
        version_info: &VersionInfo,
        minecraft_dir: &MinecraftDir,
        instance: Option<&InstanceConfig>,
        os: Os,
    )
        ensures
            seq_views(final(args)@) == seq_views(old(args)@) + spec_jvm_args(
                version_info,
                minecraft_dir,
                instance,
                os,
            ),
    {
        let ghost base = seq_views(args@);
        let flags = memory_flags(instance);
        args.push(flags.0);
        args.push(flags.1);
        args.push(String::from_str("-XX:+UseG1GC"));
        args.push(String::from_str("-XX:+UnlockExperimentalVMOptions"));
        args.push(String::from_str("-XX:G1NewSizePercent=20"));
        args.push(String::from_str("-XX:G1ReservePercent=20"));
        args.push(String::from_str("-XX:MaxGCPauseMillis=50"));
        args.push(String::from_str("-XX:G1HeapRegionSize=32M"));
        proof {
            assert(seq_views(args@) =~= base + seq![
                spec_memory_flags(instance).0,
                spec_memory_flags(instance).1,
            ] + spec_fixed_gc_args());
        }
        let ghost with_gc = seq_views(args@);
        match instance {
            Option::Some(inst) => {
                let mut i: usize = 0;
                proof {
                    assert(inst.settings.java_args@.skip(0) =~= inst.settings.java_args@);
                    assert(with_gc + seq_views(inst.settings.java_args@.skip(0))
                        =~= with_gc + spec_instance_java_args(instance));
                }
                while i < inst.settings.java_args.len()
                    invariant
                        i <= inst.settings.java_args@.len(),
                        seq_views(args@) + seq_views(inst.settings.java_args@.skip(i as int))
                            == with_gc + spec_instance_java_args(instance),
                    decreases inst.settings.java_args@.len() - i,
                {
                    proof {
                        assert(seq_views(inst.settings.java_args@.skip(i as int))[0]
                            == inst.settings.java_args@[i as int]@);
                        assert(seq_views(inst.settings.java_args@.skip(i as int)).drop_first()
                            =~= seq_views(inst.settings.java_args@.skip(i + 1)));
                        assert(seq_views(inst.settings.java_args@.skip(i as int))
                            =~= seq![inst.settings.java_args@[i as int]@] + seq_views(
                            inst.settings.java_args@.skip(i + 1),
                        ));
                    }
                    let extra = inst.settings.java_args[i].clone();
                    proof {
                        lemma_views_push(args@, extra);
                        lemma_concat_assoc(
                            seq_views(args@),
                            seq![extra@],
                            seq_views(inst.settings.java_args@.skip(i + 1)),
                        );
                    }
                    args.push(extra);
                    i = i + 1;
                }
                proof {
                    assert(seq_views(inst.settings.java_args@.skip(
                        inst.settings.java_args@.len() as int,
                    )).len() == 0);
                    assert(seq_views(args@) + seq_views(inst.settings.java_args@.skip(
                        inst.settings.java_args@.len() as int,
                    )) =~= seq_views(args@));
                }
            },
            Option::None => {
                proof {
                    assert(with_gc + spec_instance_java_args(instance) =~= with_gc);
                }
            },
        }
        proof {
            assert(seq_views(args@) == with_gc + spec_instance_java_args(instance));
        }
        let mut natives_prop = String::from_str("-Djava.library.path=");
        let natives = minecraft_dir.natives_dir(version_info.id.as_str());
        natives_prop.append(natives.as_str());
        args.push(natives_prop);
        args.push(String::from_str("-Dminecraft.launcher.brand=rustified"));
        args.push(String::from_str("-Dminecraft.launcher.version=1.0.0"));
        proof {
            assert(seq_views(args@) =~= base + seq![
                spec_memory_flags(instance).0,
                spec_memory_flags(instance).1,
            ] + spec_fixed_gc_args() + spec_instance_java_args(instance) + seq![
                spec_natives_property(version_info, minecraft_dir),
                "-Dminecraft.launcher.brand=rustified"@,
                "-Dminecraft.launcher.version=1.0.0"@,
            ]);
        }
        let ghost with_props = seq_views(args@);
        match &version_info.arguments {
            Option::Some(arguments) => match &arguments.jvm {
                Option::Some(jvm_list) => {
                    let ghost full = spec_modern_jvm_tokens(
                        jvm_list@,
                        version_info,
                        minecraft_dir,
                        instance,
                        os,
                    );
                    let mut i: usize = 0;
                    proof {
                        assert(jvm_list@.skip(0) =~= jvm_list@);
                    }
                    while i < jvm_list.len()
                        invariant
                            i <= jvm_list@.len(),
                            seq_views(args@) + spec_modern_jvm_tokens(
                                jvm_list@.skip(i as int),
                                version_info,
                                minecraft_dir,
                                instance,
                                os,
                            ) == with_props + full,
                        decreases jvm_list@.len() - i,
                    {
                        proof {
                            assert(jvm_list@.skip(i as int)[0] == jvm_list@[i as int]);
                            assert(jvm_list@.skip(i as int).drop_first() =~= jvm_list@.skip(
                                i + 1,
                            ));
                        }
                        let ghost before = seq_views(args@);
                        self.add_conditional_jvm_argument(
                            args,
                            &jvm_list[i],
                            version_info,
                            minecraft_dir,
                            instance,
                            os,
                        );
                        proof {
                            lemma_concat_assoc(
                                before,
                                spec_jvm_entry_tokens(
                                    jvm_list@[i as int],
                                    version_info,
                                    minecraft_dir,
                                    instance,
                                    os,
                                ),
                                spec_modern_jvm_tokens(
                                    jvm_list@.skip(i + 1),
                                    version_info,
                                    minecraft_dir,
                                    instance,
                                    os,
                                ),
                            );
                        }
                        i = i + 1;
                    }
                    proof {
                        assert(spec_modern_jvm_tokens(
                            jvm_list@.skip(jvm_list@.len() as int),
                            version_info,
                            minecraft_dir,
                            instance,
                            os,
                        ).len() == 0);
                        assert(seq_views(args@) + spec_modern_jvm_tokens(
                            jvm_list@.skip(jvm_list@.len() as int),
                            version_info,
                            minecraft_dir,
                            instance,
                            os,
                        ) =~= seq_views(args@));
                    }
                },
                Option::None => {
                    proof {
                        assert(with_props + spec_manifest_jvm_tokens(
                            version_info,
                            minecraft_dir,
                            instance,
                            os,
                        ) =~= with_props);
                    }
                },
            },
            Option::None => {
                proof {
                    assert(with_props + spec_manifest_jvm_tokens(
                        version_info,
                        minecraft_dir,
                        instance,
                        os,
                    ) =~= with_props);
                }
            },
        }
    }

    /// Appends the tokens of one modern game-phase entry, dropping a
    /// resolved `--demo`.
    pub fn add_conditional_argument(
        &self,
        args: &mut Vec<String>,
        arg: &ArgumentValue,
        version_info: &VersionInfo,
        auth: &AuthResult,
        minecraft_dir: &MinecraftDir,
        instance: Option<&InstanceConfig>,
        os: Os,
    )
        ensures
            seq_views(final(args)@) == seq_views(old(args)@) + spec_game_entry_tokens(
                *arg,
                version_info,
                auth,
                minecraft_dir,
                instance,
                os,
            ),
    {
        let ghost base = seq_views(args@);
        match arg {
            ArgumentValue::Simple(value) => {
                let resolved = self.resolve_argument_variables(
                    value.as_str(),
                    version_info,
                    auth,
                    minecraft_dir,
                    instance,
                );
                if !str_eq(resolved.as_str(), "--demo") {
                    proof {
                        lemma_views_push(args@, resolved);
                    }
                    args.push(resolved);
                } else {
                    proof {
                        assert(base + Seq::<Seq<char>>::empty() =~= base);
                    }
                }
            },
            ArgumentValue::Conditional { rules, value } => {
                if self.evaluate_rules(rules, os) {
                    match value {
                        ArgumentValueType::Single(val) => {
                            let resolved = self.resolve_argument_variables(
                                val.as_str(),
                                version_info,
                                auth,
                                minecraft_dir,
                                instance,
                            );
                            if !str_eq(resolved.as_str(), "--demo") {
                                proof {
                                    lemma_views_push(args@, resolved);
                                }
                                args.push(resolved);
                            } else {
                                proof {
                                    assert(base + Seq::<Seq<char>>::empty() =~= base);
                                }
                            }
                        },
                        ArgumentValueType::Multiple(vals) => {
                            let ghost full = spec_game_value_tokens(
                                vals@,
                                version_info,
                                auth,
                                minecraft_dir,
                                instance,
                            );
                            let mut i: usize = 0;
                            proof {
                                assert(vals@.skip(0) =~= vals@);
                            }
                            while i < vals.len()
                                invariant
                                    i <= vals@.len(),
                                    seq_views(args@) + spec_game_value_tokens(
                                        vals@.skip(i as int),
                                        version_info,
                                        auth,
                                        minecraft_dir,
                                        instance,
                                    ) == base + full,
                                decreases vals@.len() - i,
                            {
                                proof {
                                    assert(vals@.skip(i as int)[0] == vals@[i as int]);
                                    assert(vals@.skip(i as int).drop_first() =~= vals@.skip(
                                        i + 1,
                                    ));
                                }
                                let resolved = self.resolve_argument_variables(
                                    vals[i].as_str(),
                                    version_info,
                                    auth,
                                    minecraft_dir,
                                    instance,
                                );
                                let ghost rest = spec_game_value_tokens(
                                    vals@.skip(i + 1),
                                    version_info,
                                    auth,
                                    minecraft_dir,
                                    instance,
                                );
                                if !str_eq(resolved.as_str(), "--demo") {
                                    proof {
                                        lemma_views_push(args@, resolved);
                                        lemma_concat_assoc(
                                            seq_views(args@),
                                            seq![resolved@],
                                            rest,
                                        );
                                    }
                                    args.push(resolved);
                                } else {
                                    proof {
                                        assert(seq_views(args@) + Seq::<Seq<char>>::empty()
                                            =~= seq_views(args@));
                                        lemma_concat_assoc(
                                            seq_views(args@),
                                            Seq::<Seq<char>>::empty(),
                                            rest,
                                        );
                                    }
                                }
                                i = i + 1;
                            }
                            proof {
                                assert(spec_game_value_tokens(
                                    vals@.skip(vals@.len() as int),
                                    version_info,
                                    auth,
                                    minecraft_dir,
                                    instance,
                                ).len() == 0);
                                assert(seq_views(args@) + Seq::<Seq<char>>::empty()
                                    =~= seq_views(args@));
                            }
                        },
                    }
                } else {
                    proof {
                        assert(base + Seq::<Seq<char>>::empty() =~= base);
                    }
                }
            },
        }
    }

    /// Tokenises a legacy argument string: placeholders are looked up in
    /// the closed legacy table, a literal `--demo` is dropped, other
    /// tokens pass through; an unknown placeholder name is a hard error.
    pub fn parse_legacy_arguments(
        &self,
        arguments: &str,
        auth: &AuthResult,
        minecraft_dir: &MinecraftDir,
        instance: Option<&InstanceConfig>,
    ) -> (r: Result<Vec<String>, LaunchError>)
        ensures
            match spec_parse_legacy(spec_split_ws(arguments@), auth, minecraft_dir, instance) {
                Result::Ok(ts) => r is Ok && seq_views(r->Ok_0@) == ts,
                Result::Err(name) => r is Err && spec_is_unknown_variable_error(r->Err_0, name),
            },
    {
        let parts = split_whitespace_tokens(arguments);
        let ghost tokens = seq_views(parts@);
        let mut out: Vec<String> = Vec::new();
        let mut i: usize = 0;
        proof {
            assert(tokens.skip(0) =~= tokens);
            assert(seq_views(out@) =~= Seq::<Seq<char>>::empty());
        }
        while i < parts.len()
            invariant
                i <= parts@.len(),
                tokens == seq_views(parts@),
                tokens == spec_split_ws(arguments@),
                spec_parse_legacy(tokens, auth, minecraft_dir, instance) == match spec_parse_legacy(
                    tokens.skip(i as int),
                    auth,
                    minecraft_dir,
                    instance,
                ) {
                    Result::Ok(rest) => Result::<Seq<Seq<char>>, Seq<char>>::Ok(
                        seq_views(out@) + rest,
                    ),
                    Result::Err(e) => Result::<Seq<Seq<char>>, Seq<char>>::Err(e),
                },
            decreases parts@.len() - i,
        {
            proof {
                assert(tokens.skip(i as int)[0] == parts@[i as int]@);
                assert(tokens.skip(i as int).drop_first() =~= tokens.skip(i + 1));
                reveal_strlit("${");
            }
            let part = &parts[i];
            let n = part.as_str().unicode_len();
            let is_placeholder = n >= 2 && match_at(part.as_str(), 0, "${") && part.as_str()
                .get_char(n - 1) == '}';
            proof {
                assert(is_placeholder == spec_is_placeholder(part@));
            }
            if is_placeholder {
                proof {
                    if n == 2 {
                        assert(part@.subrange(0, 2)[1] == part@[1]);
                        assert(part@[1] == '{');
                        assert(part@[1] == '}');
                        assert(false);
                    }
                }
                let name = part.as_str().substring_char(2, n - 1);
                proof {
                    assert(name@ =~= spec_placeholder_name(part@));
                }
                match self.resolve_legacy_variable(name, auth, minecraft_dir, instance) {
                    Result::Ok(v) => {
                        proof {
                            lemma_views_push(out@, v);
                            lemma_concat_assoc(
                                seq_views(out@),
                                seq![v@],
                                match spec_parse_legacy(
                                    tokens.skip(i + 1),
                                    auth,
                                    minecraft_dir,
                                    instance,
                                ) {
                                    Result::Ok(rest) => rest,
                                    Result::Err(_) => Seq::empty(),
                                },
                            );
                        }
                        out.push(v);
                    },
                    Result::Err(e) => {
                        proof {
                            assert(spec_is_placeholder(tokens.skip(i as int)[0]));
                            assert(spec_parse_legacy(
                                tokens.skip(i as int),
                                auth,
                                minecraft_dir,
                                instance,
                            ) == Result::<Seq<Seq<char>>, Seq<char>>::Err(
                                spec_placeholder_name(part@),
                            ));
                        }
                        return Result::Err(e);
                    },
                }
            } else if str_eq(part.as_str(), "--demo") {
                // dropped: the launcher never runs the demo
            } else {
                let kept = part.clone();
                proof {
                    lemma_views_push(out@, kept);
                    lemma_concat_assoc(
                        seq_views(out@),
                        seq![kept@],
                        match spec_parse_legacy(
                            tokens.skip(i + 1),
                            auth,
                            minecraft_dir,
                            instance,
                        ) {
                            Result::Ok(rest) => rest,
                            Result::Err(_) => Seq::empty(),
                        },
                    );
                }
                out.push(kept);
            }
            i = i + 1;
        }
        proof {
            assert(tokens.skip(tokens.len() as int).len() == 0);
            assert(seq_views(out@) + Seq::<Seq<char>>::empty() =~= seq_views(out@));
        }
        Result::Ok(out)
    }

    /// Appends the fixed essential-argument block for legacy launches.
    pub fn add_essential_arguments(
        &self,
        args: &mut Vec<String>,
        auth: &AuthResult,
        minecraft_dir: &MinecraftDir,
        instance: Option<&InstanceConfig>,
    )
        ensures
            seq_views(final(args)@) == seq_views(old(args)@) + spec_essential_args(
                auth,
                minecraft_dir,
                instance,
            ),
    {
        let ghost base = seq_views(args@);
        args.push(String::from_str("--username"));
        args.push(auth.profile.name.clone());
        args.push(String::from_str("--uuid"));
        args.push(auth.profile.id.clone());
        args.push(String::from_str("--accessToken"));
        args.push(auth.access_token.clone());
        args.push(String::from_str("--userType"));
        args.push(String::from_str("msa"));
        args.push(String::from_str("--gameDir"));
        args.push(game_directory(minecraft_dir, instance));
        proof {
            assert(seq_views(args@) =~= base + spec_essential_args(auth, minecraft_dir, instance));
        }
    }

    /// Appends the game-phase argument list, modern or legacy as the
    /// manifest dictates.  On a legacy error nothing is appended.
    pub fn add_game_arguments(
        &self,
        args: &mut Vec<String>,
        version_info: &VersionInfo,
        auth: &AuthResult,
        minecraft_dir: &MinecraftDir,
        instance: Option<&InstanceConfig>,
        os: Os,
    ) -> (r: Result<(), LaunchError>)
        ensures
            match spec_game_args(version_info, auth, minecraft_dir, instance, os) {
                Result::Ok(ts) => r is Ok && seq_views(final(args)@) == seq_views(old(args)@) + ts,
                Result::Err(name) => r is Err && spec_is_unknown_variable_error(r->Err_0, name)
                    && final(args)@ == old(args)@,
            },
    {
        let ghost base = seq_views(args@);
        match &version_info.arguments {
            Option::Some(arguments) => {
                match &arguments.game {
                    Option::Some(game_list) => {
                        let ghost full = spec_modern_game_tokens(
                            game_list@,
                            version_info,
                            auth,
                            minecraft_dir,
                            instance,
                            os,
                        );
                        let mut i: usize = 0;
                        proof {
                            assert(game_list@.skip(0) =~= game_list@);
                        }
                        while i < game_list.len()
                            invariant
                                i <= game_list@.len(),
                                seq_views(args@) + spec_modern_game_tokens(
                                    game_list@.skip(i as int),
                                    version_info,
                                    auth,
                                    minecraft_dir,
                                    instance,
                                    os,
                                ) == base + full,
                            decreases game_list@.len() - i,
                        {
                            proof {
                                assert(game_list@.skip(i as int)[0] == game_list@[i as int]);
                                assert(game_list@.skip(i as int).drop_first() =~= game_list@.skip(
                                    i + 1,
                                ));
                            }
                            let ghost before = seq_views(args@);
                            self.add_conditional_argument(
                                args,
                                &game_list[i],
                                version_info,
                                auth,
                                minecraft_dir,
                                instance,
                                os,
                            );
                            proof {
                                lemma_concat_assoc(
                                    before,
                                    spec_game_entry_tokens(
                                        game_list@[i as int],
                                        version_info,
                                        auth,
                                        minecraft_dir,
                                        instance,
                                        os,
                                    ),
                                    spec_modern_game_tokens(
                                        game_list@.skip(i + 1),
                                        version_info,
                                        auth,
                                        minecraft_dir,
                                        instance,
                                        os,
                                    ),
                                );
                            }
                            i = i + 1;
                        }
                        proof {
                            assert(spec_modern_game_tokens(
                                game_list@.skip(game_list@.len() as int),
                                version_info,
                                auth,
                                minecraft_dir,
                                instance,
                                os,
                            ).len() == 0);
                            assert(seq_views(args@) + Seq::<Seq<char>>::empty()
                                =~= seq_views(args@));
                        }
                        Result::Ok(())
                    },
                    Option::None => {
                        proof {
                            assert(base + Seq::<Seq<char>>::empty() =~= base);
                        }
                        Result::Ok(())
                    },
                }
            },
            Option::None => {
                match &version_info.minecraft_arguments {
                    Option::Some(legacy) => {
                        match self.parse_legacy_arguments(
                            legacy.as_str(),
                            auth,
                            minecraft_dir,
                            instance,
                        ) {
                            Result::Ok(parsed) => {
                                let ghost toks = seq_views(parsed@);
                                let mut i: usize = 0;
                                proof {
                                    assert(toks.skip(0) =~= toks);
                                }
                                while i < parsed.len()
                                    invariant
                                        i <= parsed@.len(),
                                        toks == seq_views(parsed@),
                                        seq_views(args@) + toks.skip(i as int) == base + toks,
                                    decreases parsed@.len() - i,
                                {
                                    proof {
                                        assert(toks.skip(i as int)[0] == parsed@[i as int]@);
                                        assert(toks.skip(i as int).drop_first() =~= toks.skip(
                                            i + 1,
                                        ));
                                        assert(toks.skip(i as int) =~= seq![parsed@[i as int]@]
                                            + toks.skip(i + 1));
                                    }
                                    let tok = parsed[i].clone();
                                    proof {
                                        lemma_views_push(args@, tok);
                                        lemma_concat_assoc(
                                            seq_views(args@),
                                            seq![tok@],
                                            toks.skip(i + 1),
                                        );
                                    }
                                    args.push(tok);
                                    i = i + 1;
                                }
                                proof {
                                    assert(toks.skip(toks.len() as int).len() == 0);
                                    assert(seq_views(args@) + Seq::<Seq<char>>::empty()
                                        =~= seq_views(args@));
                                    assert(seq_views(args@) == base + toks);
                                }
                                self.add_essential_arguments(args, auth, minecraft_dir, instance);
                                proof {
                                    lemma_concat_assoc(
                                        base,
                                        toks,
                                        spec_essential_args(auth, minecraft_dir, instance),
                                    );
                                }
                                Result::Ok(())
                            },
                            Result::Err(e) => Result::Err(e),
                        }
                    },
                    Option::None => {
                        proof {
                            assert(base + Seq::<Seq<char>>::empty() =~= base);
                        }
                        Result::Ok(())
                    },
                }
            },
        }
    }
}

/// No value list of a modern game-phase entry ever contributes a literal
/// `--demo` token: the filter runs after resolution.
pub proof fn lemma_game_value_tokens_demo_free(
    vs: Seq<String>,
    version: &VersionInfo,
    auth: &AuthResult,
    dir: &MinecraftDir,
    instance: Option<&InstanceConfig>,
)
    ensures
        forall|j: int|
            0 <= j < spec_game_value_tokens(vs, version, auth, dir, instance).len()
                ==> #[trigger] spec_game_value_tokens(vs, version, auth, dir, instance)[j]
                != "--demo"@,
    decreases vs.len(),
{
    if vs.len() > 0 {
        lemma_game_value_tokens_demo_free(vs.drop_first(), version, auth, dir, instance);
        let head = spec_demo_filtered(spec_resolve_game(vs[0]@, version, auth, dir, instance));
        let rest = spec_game_value_tokens(vs.drop_first(), version, auth, dir, instance);
        assert forall|j: int|
            0 <= j < spec_game_value_tokens(vs, version, auth, dir, instance).len()
                implies #[trigger] spec_game_value_tokens(vs, version, auth, dir, instance)[j]
            != "--demo"@ by {
            if j < head.len() {
                assert(spec_game_value_tokens(vs, version, auth, dir, instance)[j] == head[j]);
            } else {
                assert(spec_game_value_tokens(vs, version, auth, dir, instance)[j] == rest[
                    j - head.len()
                ]);
            }
        }
    }
}

/// No modern game-phase entry ever contributes a literal `--demo` token.
pub proof fn lemma_game_entry_tokens_demo_free(
    a: ArgumentValue,
    version: &VersionInfo,
    auth: &AuthResult,
    dir: &MinecraftDir,
    instance: Option<&InstanceConfig>,
    os: Os,
)
    ensures
        forall|j: int|
            0 <= j < spec_game_entry_tokens(a, version, auth, dir, instance, os).len()
                ==> #[trigger] spec_game_entry_tokens(a, version, auth, dir, instance, os)[j]
                != "--demo"@,
{
    match a {
        ArgumentValue::Simple(_) => {},
        ArgumentValue::Conditional { rules, value } => {
            if spec_eval_rules(rules@, os) {
                match value {
                    ArgumentValueType::Single(_) => {},
                    ArgumentValueType::Multiple(vals) => {
                        lemma_game_value_tokens_demo_free(vals@, version, auth, dir, instance);
                    },
                }
            }
        },
    }
}

/// The modern game-phase branch never emits a literal `--demo` token,
/// whatever the manifest contains.
pub proof fn lemma_modern_game_tokens_demo_free(
    list: Seq<ArgumentValue>,
    version: &VersionInfo,
    auth: &AuthResult,
    dir: &MinecraftDir,
    instance: Option<&InstanceConfig>,
    os: Os,
)
    ensures
        forall|j: int|
            0 <= j < spec_modern_game_tokens(list, version, auth, dir, instance, os).len()
                ==> #[trigger] spec_modern_game_tokens(list, version, auth, dir, instance, os)[j]
                != "--demo"@,
    decreases list.len(),
{
    if list.len() > 0 {
        lemma_game_entry_tokens_demo_free(list[0], version, auth, dir, instance, os);
        lemma_modern_game_tokens_demo_free(
            list.drop_first(),
            version,
            auth,
            dir,
            instance,
            os,
        );
        let head = spec_game_entry_tokens(list[0], version, auth, dir, instance, os);
        let rest = spec_modern_game_tokens(list.drop_first(), version, auth, dir, instance, os);
        assert forall|j: int|
            0 <= j < spec_modern_game_tokens(list, version, auth, dir, instance, os).len()
                implies #[trigger] spec_modern_game_tokens(
                list,
                version,
                auth,
                dir,
                instance,
                os,
            )[j] != "--demo"@ by {
            if j < head.len() {
                assert(spec_modern_game_tokens(list, version, auth, dir, instance, os)[j]
                    == head[j]);
            } else {
                assert(spec_modern_game_tokens(list, version, auth, dir, instance, os)[j]
                    == rest[j - head.len()]);
            }
        }
    }
}

/// The legacy branch emits no literal `--demo` token either, provided no
/// legacy substitution value is itself that text: pass-through tokens
/// are filtered directly, and placeholder tokens become the values the
/// hypotheses constrain.
pub proof fn lemma_parse_legacy_demo_free(
    tokens: Seq<Seq<char>>,
    auth: &AuthResult,
    dir: &MinecraftDir,
    instance: Option<&InstanceConfig>,
)
    requires
        auth.profile.name@ != "--demo"@,
        auth.profile.id@ != "--demo"@,
        auth.access_token@ != "--demo"@,
        spec_game_dir(dir, instance) != "--demo"@,
        spec_assets_dir(*dir) != "--demo"@,
    ensures
        spec_parse_legacy(tokens, auth, dir, instance) is Ok ==> forall|j: int|
            0 <= j < spec_parse_legacy(tokens, auth, dir, instance)->Ok_0.len()
                ==> #[trigger] spec_parse_legacy(tokens, auth, dir, instance)->Ok_0[j]
                != "--demo"@,
    decreases tokens.len(),
{
    reveal_strlit("--demo");
    reveal_strlit("msa");
    assert("msa"@.len() == 3);
    assert("--demo"@.len() == 6);
    assert("msa"@ != "--demo"@);
    if tokens.len() > 0 {
        lemma_parse_legacy_demo_free(tokens.drop_first(), auth, dir, instance);
        if spec_parse_legacy(tokens, auth, dir, instance) is Ok {
            let t = tokens[0];
            let out = spec_parse_legacy(tokens, auth, dir, instance)->Ok_0;
            let rest = spec_parse_legacy(tokens.drop_first(), auth, dir, instance)->Ok_0;
            if spec_is_placeholder(t) {
                assert(spec_legacy_value(spec_placeholder_name(t), auth, dir, instance) is Some);
                let v = spec_legacy_value(
                    spec_placeholder_name(t),
                    auth,
                    dir,
                    instance,
                )->Some_0;
                assert(v != "--demo"@);
                assert forall|j: int| 0 <= j < out.len() implies #[trigger] out[j]
                    != "--demo"@ by {
                    if j == 0 {
                        assert(out[0] == v);
                    } else {
                        assert(out[j] == rest[j - 1]);
                    }
                }
            } else if t == "--demo"@ {
            } else {
                assert forall|j: int| 0 <= j < out.len() implies #[trigger] out[j]
                    != "--demo"@ by {
                    if j == 0 {
                        assert(out[0] == t);
                    } else {
                        assert(out[j] == rest[j - 1]);
                    }
                }
            }
        }
    }
}

/// A literal `--demo` never appears in the assembled game-phase argument
/// list: the modern branch filters unconditionally, and the legacy
/// branch filters pass-through tokens and appends only values the
/// hypotheses constrain.
pub proof fn lemma_game_args_demo_free(
    version: &VersionInfo,
    auth: &AuthResult,
    dir: &MinecraftDir,
    instance: Option<&InstanceConfig>,
    os: Os,
)
    requires
        auth.profile.name@ != "--demo"@,
        auth.profile.id@ != "--demo"@,
        auth.access_token@ != "--demo"@,
        spec_game_dir(dir, instance) != "--demo"@,
        spec_assets_dir(*dir) != "--demo"@,
    ensures
        spec_game_args(version, auth, dir, instance, os) is Ok ==> forall|j: int|
            0 <= j < spec_game_args(version, auth, dir, instance, os)->Ok_0.len()
                ==> #[trigger] spec_game_args(version, auth, dir, instance, os)->Ok_0[j]
                != "--demo"@,
{
    reveal_strlit("--demo");
    reveal_strlit("--username");
    reveal_strlit("--uuid");
    reveal_strlit("--accessToken");
    reveal_strlit("--userType");
    reveal_strlit("--gameDir");
    reveal_strlit("msa");
    assert("--demo"@.len() == 6);
    assert("--username"@.len() == 10);
    assert("--accessToken"@.len() == 13);
    assert("--userType"@.len() == 10);
    assert("--gameDir"@.len() == 9);
    assert("msa"@.len() == 3);
    assert("--uuid"@[2] == 'u' && "--demo"@[2] == 'd');
    match version.arguments {
        Option::Some(arguments) => {
            match arguments.game {
                Option::Some(list) => {
                    lemma_modern_game_tokens_demo_free(list@, version, auth, dir, instance, os);
                },
                Option::None => {},
            }
        },
        Option::None => {
            match version.minecraft_arguments {
                Option::Some(legacy) => {
                    let toks = spec_split_ws(legacy@);
                    lemma_parse_legacy_demo_free(toks, auth, dir, instance);
                    if spec_parse_legacy(toks, auth, dir, instance) is Ok {
                        let parsed = spec_parse_legacy(toks, auth, dir, instance)->Ok_0;
                        let ess = spec_essential_args(auth, dir, instance);
                        let out = spec_game_args(version, auth, dir, instance, os)->Ok_0;
                        assert(out == parsed + ess);
                        assert(ess[0] == "--username"@ && ess[0] != "--demo"@);
                        assert(ess[1] == auth.profile.name@ && ess[1] != "--demo"@);
                        assert(ess[2] == "--uuid"@ && ess[2] != "--demo"@);
                        assert(ess[3] == auth.profile.id@ && ess[3] != "--demo"@);
                        assert(ess[4] == "--accessToken"@ && ess[4] != "--demo"@);
                        assert(ess[5] == auth.access_token@ && ess[5] != "--demo"@);
                        assert(ess[6] == "--userType"@ && ess[6] != "--demo"@);
                        assert(ess[7] == "msa"@ && ess[7] != "--demo"@);
                        assert(ess[8] == "--gameDir"@ && ess[8] != "--demo"@);
                        assert(ess[9] == spec_game_dir(dir, instance) && ess[9] != "--demo"@);
                        assert forall|j: int| 0 <= j < out.len() implies #[trigger] out[j]
                            != "--demo"@ by {
                            if j < parsed.len() {
                                assert(out[j] == parsed[j]);
                            } else {
                                assert(out[j] == ess[j - parsed.len()]);
                            }
                        }
                    }
                },
                Option::None => {},
            }
        },
    }
}

} // verus!
