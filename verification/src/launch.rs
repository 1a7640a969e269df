//! Composition of the full process specification, and the mapping of the
//! game's exit status to a launch outcome.
//!
//! The command line is the Java executable, the JVM-phase arguments, the
//! `-cp` pair, the main class, then the game-phase arguments; the working
//! directory is the game directory.  The caller spawns the result with
//! inherited stdio, waits, and maps the exit status through
//! `exit_outcome`.

use vstd::prelude::*;

use crate::arguments::spec_game_args;
use crate::arguments::spec_jvm_args;
use crate::classpath::spec_classpath_candidates;
use crate::classpath::spec_is_main_jar_error;
use crate::classpath::spec_present;
use crate::text::spec_dedup_first;
use crate::model::AuthResult;
use crate::model::InstanceConfig;
use crate::model::LaunchError;
use crate::model::MinecraftDir;
use crate::model::ProcessSpec;
use crate::model::VersionInfo;
use crate::resolve::game_directory;
use crate::resolve::spec_game_dir;
use crate::resolve::spec_is_unknown_variable_error;
use crate::resolve::spec_legacy_value;
use crate::text::lemma_views_push;
use crate::text::seq_views;
use crate::text::spec_join;
use crate::GameLauncher;
use crate::Os;
use crate::spec_classpath_separator;

verus! {

/// The full argument vector of a launch whose classpath and game
/// arguments both resolved: JVM phase, `-cp` pair, main class, game
/// phase.
pub open spec fn spec_command_args(
    version: &VersionInfo,
    auth: &AuthResult,
    dir: &MinecraftDir,
    instance: Option<&InstanceConfig>,
    os: Os,
    exists: Seq<bool>,
) -> Seq<Seq<char>>
    recommends
        spec_game_args(version, auth, dir, instance, os) is Ok,
{
    spec_jvm_args(version, dir, instance, os) + seq![
        "-cp"@,
        spec_join(
            spec_dedup_first(spec_present(spec_classpath_candidates(version, dir, os), exists)),
            spec_classpath_separator(os),
        ),
        version.main_class@,
    ] + spec_game_args(version, auth, dir, instance, os)->Ok_0
}

impl GameLauncher {
    /// Composes the process specification for one launch.
    ///
    /// `exists` reports, for each path of `classpath_candidates` in
    /// order, whether it exists on disk.  Fails when the primary jar is
    /// absent or when a legacy placeholder is unknown; no other input is
    /// rejected.
    pub fn build_process_spec(
        &self,
        version_info: &VersionInfo,
        auth: &AuthResult,
        minecraft_dir: &MinecraftDir,
        java_executable: &str,
        instance: Option<&InstanceConfig>,
        os: Os,
        exists: &Vec<bool>,
    ) -> (r: Result<ProcessSpec, LaunchError>)
        requires
            exists@.len() == spec_classpath_candidates(version_info, minecraft_dir, os).len(),
        ensures
            ({
                let cands = spec_classpath_candidates(version_info, minecraft_dir, os);
                &&& !exists@[0] ==> r is Err && spec_is_main_jar_error(r->Err_0, cands[0])
                &&& exists@[0] ==> match spec_game_args(
                    version_info,
                    auth,
                    minecraft_dir,
                    instance,
                    os,
                ) {
                    Result::Ok(_) => r is Ok && r->Ok_0.program@ == java_executable@
                        && seq_views(r->Ok_0.args@) == spec_command_args(
                        version_info,
                        auth,
                        minecraft_dir,
                        instance,
                        os,
                        exists@,
                    ) && r->Ok_0.working_dir@ == spec_game_dir(minecraft_dir, instance),
                    Result::Err(name) => r is Err && spec_is_unknown_variable_error(
                        r->Err_0,
                        name,
                    ),
                }
            }),
    {
        let ghost jvm = spec_jvm_args(version_info, minecraft_dir, instance, os);
        let mut cmd_args: Vec<String> = Vec::new();
        proof {
            assert(seq_views(cmd_args@) =~= Seq::<Seq<char>>::empty());
            assert(Seq::<Seq<char>>::empty() + jvm =~= jvm);
        }
        self.add_jvm_arguments(&mut cmd_args, version_info, minecraft_dir, instance, os);
        match self.add_classpath(&mut cmd_args, version_info, minecraft_dir, os, exists) {
            Result::Err(e) => {
                return Result::Err(e);
            },
            Result::Ok(()) => {},
        }
        let ghost cp = spec_join(
            spec_dedup_first(
                spec_present(
                    spec_classpath_candidates(version_info, minecraft_dir, os),
                    exists@,
                ),
            ),
            spec_classpath_separator(os),
        );
        let main_class = version_info.main_class.clone();
        proof {
            lemma_views_push(cmd_args@, main_class);
        }
        cmd_args.push(main_class);
        proof {
            assert(seq_views(cmd_args@) =~= jvm + seq!["-cp"@, cp, version_info.main_class@]);
        }
        match self.add_game_arguments(
            &mut cmd_args,
            version_info,
            auth,
            minecraft_dir,
            instance,
            os,
        ) {
            Result::Err(e) => {
                return Result::Err(e);
            },
            Result::Ok(()) => {},
        }
        proof {
            assert(seq_views(cmd_args@) =~= spec_command_args(
                version_info,
                auth,
                minecraft_dir,
                instance,
                os,
                exists@,
            ));
        }
        let working_dir = game_directory(minecraft_dir, instance);
        Result::Ok(
            ProcessSpec {
                program: String::from_str(java_executable),
                args: cmd_args,
                working_dir,
            },
        )
    }
}

/// Maps the game process's exit status to a launch outcome: success for
/// a zero exit, otherwise a failure carrying the exit code, or `None` of
/// a signal-terminated process.
pub fn exit_outcome(success: bool, code: Option<i32>) -> (r: Result<(), LaunchError>)
    ensures
        success ==> r is Ok,
        !success ==> r == Result::<(), LaunchError>::Err(LaunchError::ExitFailure { code }),
{
    if success {
        Result::Ok(())
    } else {
        Result::Err(LaunchError::ExitFailure { code })
    }
}

/// Legacy tokenisation succeeds or fails identically for any two
/// sessions, and on failure reports the same placeholder name: whether a
/// name is known does not depend on the session's values.
pub proof fn lemma_parse_legacy_session_independent(
    tokens: Seq<Seq<char>>,
    a1: &AuthResult,
    a2: &AuthResult,
    dir: &MinecraftDir,
    instance: Option<&InstanceConfig>,
)
    ensures
        crate::arguments::spec_parse_legacy(tokens, a1, dir, instance) is Ok
            <==> crate::arguments::spec_parse_legacy(tokens, a2, dir, instance) is Ok,
        crate::arguments::spec_parse_legacy(tokens, a1, dir, instance) is Err
            ==> crate::arguments::spec_parse_legacy(tokens, a1, dir, instance)->Err_0
            == crate::arguments::spec_parse_legacy(tokens, a2, dir, instance)->Err_0,
    decreases tokens.len(),
{
    if tokens.len() > 0 {
        lemma_parse_legacy_session_independent(tokens.drop_first(), a1, a2, dir, instance);
        let t = tokens[0];
        if crate::arguments::spec_is_placeholder(t) {
            let name = crate::arguments::spec_placeholder_name(t);
            assert(spec_legacy_value(name, a1, dir, instance) is Some <==> spec_legacy_value(
                name,
                a2,
                dir,
                instance,
            ) is Some);
        }
    }
}

/// The credential-exclusion guarantee: the JVM-phase portion of the
/// command line — heap flags through main class — is the same for any
/// two sessions, because `spec_jvm_args` takes no session at all; and
/// launch synthesis succeeds or fails identically for any two sessions,
/// with the same error.  A session value can influence game-phase tokens
/// only.
pub proof fn lemma_jvm_phase_session_independent(
    version: &VersionInfo,
    a1: &AuthResult,
    a2: &AuthResult,
    dir: &MinecraftDir,
    instance: Option<&InstanceConfig>,
    os: Os,
    exists: Seq<bool>,
)
    ensures
        spec_game_args(version, a1, dir, instance, os) is Ok <==> spec_game_args(
            version,
            a2,
            dir,
            instance,
            os,
        ) is Ok,
        spec_game_args(version, a1, dir, instance, os) is Err ==> spec_game_args(
            version,
            a1,
            dir,
            instance,
            os,
        )->Err_0 == spec_game_args(version, a2, dir, instance, os)->Err_0,
        spec_game_args(version, a1, dir, instance, os) is Ok ==> spec_command_args(
            version,
            a1,
            dir,
            instance,
            os,
            exists,
        ).take(spec_jvm_args(version, dir, instance, os).len() as int + 3) == spec_command_args(
            version,
            a2,
            dir,
            instance,
            os,
            exists,
        ).take(spec_jvm_args(version, dir, instance, os).len() as int + 3),
{
    match version.arguments {
        Option::Some(_) => {},
        Option::None => {
            match version.minecraft_arguments {
                Option::Some(legacy) => {
                    lemma_parse_legacy_session_independent(
                        crate::text::spec_split_ws(legacy@),
                        a1,
                        a2,
                        dir,
                        instance,
                    );
                },
                Option::None => {},
            }
        },
    }
    if spec_game_args(version, a1, dir, instance, os) is Ok {
        let n = spec_jvm_args(version, dir, instance, os).len() as int;
        assert(spec_command_args(version, a1, dir, instance, os, exists).take(n + 3)
            =~= spec_command_args(version, a2, dir, instance, os, exists).take(n + 3));
    }
}

} // verus!
