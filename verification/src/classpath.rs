//! Classpath construction.
//!
//! The classpath starts with the version's primary jar — whose absence is
//! the one hard failure here — followed by the jar of every library that
//! its rules admit, that has a primary artifact and that is not
//! native-only, in manifest order.  The caller reports which candidate
//! paths exist on disk; a missing library jar is skipped (some manifest
//! libraries are legitimately optional), and the survivors are
//! de-duplicated — a path keeps its first position only — and joined
//! with the platform separator.

use vstd::prelude::*;

use crate::model::LaunchError;
use crate::model::Library;
use crate::model::MinecraftDir;
use crate::model::VersionInfo;
use crate::model::spec_is_native_library;
use crate::model::spec_library_path;
use crate::model::spec_version_jar_path;
use crate::rules::evaluate_rule_list;
use crate::rules::spec_eval_rules;
use crate::text::dedup_first;
use crate::text::join_with;
use crate::text::spec_dedup_first;
use crate::text::lemma_concat_assoc;
use crate::text::lemma_views_push;
use crate::text::replace_all;
use crate::text::seq_views;
use crate::text::spec_join;
use crate::text::spec_replace;
use crate::text::spec_split_sep;
use crate::text::split_on_char;
use crate::GameLauncher;
use crate::Os;
use crate::spec_classpath_separator;

verus! {

/// Whether a library's rules admit it: an empty rule list always does,
/// otherwise first-match evaluation decides.
pub open spec fn spec_lib_included(lib: Library, os: Os) -> bool {
    lib.rules@.len() == 0 || spec_eval_rules(lib.rules@, os)
}

/// The repository-relative jar path of a Maven coordinate
/// `group:artifact:version`: the group's dots become directories, then
/// `artifact/version/artifact-version.jar`.  A coordinate with fewer
/// than three segments has no jar path.
pub open spec fn spec_library_rel_path(name: Seq<char>) -> Option<Seq<char>> {
    let parts = spec_split_sep(name, ':');
    if parts.len() < 3 {
        Option::None
    } else {
        Option::Some(
            spec_replace(parts[0], "."@, "/"@) + "/"@ + parts[1] + "/"@ + parts[2] + "/"@
                + parts[1] + "-"@ + parts[2] + ".jar"@,
        )
    }
}

/// The classpath contribution of one library: its resolved jar path when
/// its rules admit it, it has a primary artifact, it is not native-only
/// and its coordinate is well formed; nothing otherwise.
pub open spec fn spec_lib_candidate(lib: Library, dir: &MinecraftDir, os: Os) -> Seq<Seq<char>> {
    if spec_lib_included(lib, os) && lib.downloads.artifact is Some && !spec_is_native_library(lib)
        && spec_library_rel_path(lib.name@) is Some {
        seq![spec_library_path(*dir, spec_library_rel_path(lib.name@)->Some_0)]
    } else {
        Seq::empty()
    }
}

/// The candidate jar paths of a library list, in manifest order.
pub open spec fn spec_lib_candidates(libs: Seq<Library>, dir: &MinecraftDir, os: Os) -> Seq<
    Seq<char>,
>
    decreases libs.len(),
{
    if libs.len() == 0 {
        Seq::empty()
    } else {
        spec_lib_candidate(libs[0], dir, os) + spec_lib_candidates(libs.drop_first(), dir, os)
    }
}

/// Every candidate classpath path, primary jar first.  These are the
/// paths whose on-disk existence the caller reports back.
pub open spec fn spec_classpath_candidates(
    version: &VersionInfo,
    dir: &MinecraftDir,
    os: Os,
) -> Seq<Seq<char>> {
    seq![spec_version_jar_path(*dir, version.id@)] + spec_lib_candidates(
        version.libraries@,
        dir,
        os,
    )
}

/// The candidates whose paths exist on disk, in order.
pub open spec fn spec_present(cands: Seq<Seq<char>>, exists: Seq<bool>) -> Seq<Seq<char>>
    recommends
        cands.len() == exists.len(),
    decreases cands.len(),
{
    if cands.len() == 0 {
        Seq::empty()
    } else {
        (if exists[0] {
            seq![cands[0]]
        } else {
            Seq::empty()
        }) + spec_present(cands.drop_first(), exists.drop_first())
    }
}

/// Whether `e` is the missing-primary-jar error for `path`.
pub open spec fn spec_is_main_jar_error(e: LaunchError, path: Seq<char>) -> bool {
    match e {
        LaunchError::MainJarMissing { path: p } => p@ == path,
        _ => false,
    }
}

/// Computes a library jar's repository-relative path from its Maven
/// coordinate, or nothing for a coordinate with fewer than three
/// segments.
pub fn get_library_path(name: &str) -> (r: Option<String>)
    ensures
        match spec_library_rel_path(name@) {
            Option::Some(p) => r is Some && r->0@ == p,
            Option::None => r is None,
        },
{
    let parts = split_on_char(name, ':');
    if parts.len() < 3 {
        return Option::None;
    }
    proof {
        assert(seq_views(parts@)[0] == parts@[0]@);
        assert(seq_views(parts@)[1] == parts@[1]@);
        assert(seq_views(parts@)[2] == parts@[2]@);
    }
    let mut path = replace_all(parts[0].as_str(), ".", "/");
    path.append("/");
    path.append(parts[1].as_str());
    path.append("/");
    path.append(parts[2].as_str());
    path.append("/");
    path.append(parts[1].as_str());
    path.append("-");
    path.append(parts[2].as_str());
    path.append(".jar");
    Option::Some(path)
}

impl GameLauncher {
    /// Lists every candidate classpath path for this launch, primary jar
    /// first.  The caller checks which of them exist on disk and hands
    /// the outcomes to `add_classpath`.
    pub fn classpath_candidates(
        &self,
        version_info: &VersionInfo,
        minecraft_dir: &MinecraftDir,
        os: Os,
    ) -> (r: Vec<String>)
        ensures
            seq_views(r@) == spec_classpath_candidates(version_info, minecraft_dir, os),
            r@.len() >= 1,
    {
        let mut out: Vec<String> = Vec::new();
        out.push(minecraft_dir.version_jar_path(version_info.id.as_str()));
        let ghost primary = seq![spec_version_jar_path(*minecraft_dir, version_info.id@)];
        let ghost libs = version_info.libraries@;
        let ghost full = spec_lib_candidates(libs, minecraft_dir, os);
        proof {
            assert(seq_views(out@) =~= primary);
            assert(libs.skip(0) =~= libs);
        }
        let mut i: usize = 0;
        while i < version_info.libraries.len()
            invariant
                i <= libs.len(),
                libs == version_info.libraries@,
                full == spec_lib_candidates(libs, minecraft_dir, os),
                primary == seq![spec_version_jar_path(*minecraft_dir, version_info.id@)],
                seq_views(out@) + spec_lib_candidates(libs.skip(i as int), minecraft_dir, os)
                    == primary + full,
            decreases libs.len() - i,
        {
            proof {
                assert(libs.skip(i as int)[0] == libs[i as int]);
                assert(libs.skip(i as int).drop_first() =~= libs.skip(i + 1));
            }
            let lib = &version_info.libraries[i];
            let ghost rest = spec_lib_candidates(libs.skip(i + 1), minecraft_dir, os);
            let included = lib.rules.len() == 0 || evaluate_rule_list(&lib.rules, os);
            if included && lib.downloads.artifact.is_some() && !lib.is_native_library() {
                match get_library_path(lib.name.as_str()) {
                    Option::Some(rel) => {
                        let full_path = minecraft_dir.library_path(rel.as_str());
                        proof {
                            lemma_views_push(out@, full_path);
                            lemma_concat_assoc(seq_views(out@), seq![full_path@], rest);
                        }
                        out.push(full_path);
                    },
                    Option::None => {
                        proof {
                            assert(spec_lib_candidate(libs[i as int], minecraft_dir, os)
                                =~= Seq::<Seq<char>>::empty());
                            assert(seq_views(out@) + Seq::<Seq<char>>::empty()
                                =~= seq_views(out@));
                        }
                    },
                }
            } else {
                proof {
                    assert(spec_lib_candidate(libs[i as int], minecraft_dir, os)
                        =~= Seq::<Seq<char>>::empty());
                    assert(seq_views(out@) + Seq::<Seq<char>>::empty() =~= seq_views(out@));
                }
            }
            i = i + 1;
        }
        proof {
            assert(spec_lib_candidates(libs.skip(libs.len() as int), minecraft_dir, os).len()
                == 0);
            assert(seq_views(out@) + spec_lib_candidates(
                libs.skip(libs.len() as int),
                minecraft_dir,
                os,
            ) =~= seq_views(out@));
            assert(primary + full =~= spec_classpath_candidates(version_info, minecraft_dir, os));
        }
        out
    }

    /// Appends `-cp` and the joined classpath, each path at its first
    /// occurrence only.  Fails, appending nothing, when the primary jar
    /// is absent; a missing library jar is skipped instead, since some
    /// manifest libraries are optional.
    ///
    /// `exists` reports, for each path of `classpath_candidates` in
    /// order, whether it exists on disk.
    pub fn add_classpath(
        &self,
        args: &mut Vec<String>,
        version_info: &VersionInfo,
        minecraft_dir: &MinecraftDir,
        os: Os,
        exists: &Vec<bool>,
    ) -> (r: Result<(), LaunchError>)
        requires
            exists@.len() == spec_classpath_candidates(version_info, minecraft_dir, os).len(),
        ensures
            ({
                let cands = spec_classpath_candidates(version_info, minecraft_dir, os);
                &&& !exists@[0] ==> r is Err && spec_is_main_jar_error(r->Err_0, cands[0])
                    && final(args)@ == old(args)@
                &&& exists@[0] ==> r is Ok && seq_views(final(args)@) == seq_views(old(args)@)
                    + seq![
                    "-cp"@,
                    spec_join(
                        spec_dedup_first(spec_present(cands, exists@)),
                        spec_classpath_separator(os),
                    ),
                ]
            }),
    {
        let ghost base = seq_views(args@);
        let cands = self.classpath_candidates(version_info, minecraft_dir, os);
        let ghost cv = seq_views(cands@);
        if !exists[0] {
            return Result::Err(LaunchError::MainJarMissing { path: cands[0].clone() });
        }
        let mut entries: Vec<String> = Vec::new();
        let mut i: usize = 0;
        proof {
            assert(cv.skip(0) =~= cv);
            assert(exists@.skip(0) =~= exists@);
            assert(seq_views(entries@) =~= Seq::<Seq<char>>::empty());
        }
        while i < cands.len()
            invariant
                i <= cands@.len(),
                cv == seq_views(cands@),
                cands@.len() == exists@.len(),
                seq_views(entries@) + spec_present(cv.skip(i as int), exists@.skip(i as int))
                    == spec_present(cv, exists@),
            decreases cands@.len() - i,
        {
            proof {
                assert(cv.skip(i as int)[0] == cands@[i as int]@);
                assert(exists@.skip(i as int)[0] == exists@[i as int]);
                assert(cv.skip(i as int).drop_first() =~= cv.skip(i + 1));
                assert(exists@.skip(i as int).drop_first() =~= exists@.skip(i + 1));
            }
            let ghost rest = spec_present(cv.skip(i + 1), exists@.skip(i + 1));
            if exists[i] {
                let entry = cands[i].clone();
                proof {
                    lemma_views_push(entries@, entry);
                    lemma_concat_assoc(seq_views(entries@), seq![entry@], rest);
                }
                entries.push(entry);
            } else {
                proof {
                    assert(seq_views(entries@) + Seq::<Seq<char>>::empty()
                        =~= seq_views(entries@));
                    lemma_concat_assoc(seq_views(entries@), Seq::<Seq<char>>::empty(), rest);
                }
            }
            i = i + 1;
        }
        proof {
            assert(spec_present(cv.skip(cv.len() as int), exists@.skip(cv.len() as int)).len()
                == 0);
            assert(seq_views(entries@) + spec_present(
                cv.skip(cv.len() as int),
                exists@.skip(cv.len() as int),
            ) =~= seq_views(entries@));
        }
        let entries = dedup_first(&entries);
        proof {
            lemma_built_classpath_nonempty(cv, exists@);
        }
        if entries.len() == 0 {
            // With the primary jar present the survivor list can never be
            // empty; the guard mirrors the documented hard failure.
            return Result::Err(LaunchError::EmptyClasspath);
        }
        let joined = join_with(&entries, os.classpath_separator());
        let flag = String::from_str("-cp");
        proof {
            lemma_views_push(args@, flag);
            lemma_views_push(args@.push(flag), joined);
            lemma_concat_assoc(base, seq!["-cp"@], seq![joined@]);
            assert(seq!["-cp"@] + seq![joined@] =~= seq!["-cp"@, joined@]);
        }
        args.push(flag);
        args.push(joined);
        Result::Ok(())
    }
}

/// A classpath that is built at all is never empty: the candidate list
/// always starts with the primary jar, so whenever the primary jar is
/// present at least one entry survives filtering and de-duplication.
/// The empty-classpath failure can therefore only accompany a missing
/// primary jar.
pub proof fn lemma_built_classpath_nonempty(cands: Seq<Seq<char>>, exists: Seq<bool>)
    requires
        cands.len() == exists.len(),
        cands.len() >= 1,
        exists[0],
    ensures
        spec_present(cands, exists).len() >= 1,
        spec_dedup_first(spec_present(cands, exists)).len() >= 1,
{
}

/// Whether `t` is the jar path of some library of `libs` that is not
/// native-only, that its rules admit, and that has a primary artifact.
pub open spec fn spec_from_nonnative_library(
    libs: Seq<Library>,
    dir: &MinecraftDir,
    os: Os,
    t: Seq<char>,
) -> bool {
    exists|k: int|
        0 <= k < libs.len() && !spec_is_native_library(#[trigger] libs[k]) && spec_lib_included(
            libs[k],
            os,
        ) && libs[k].downloads.artifact is Some && spec_library_rel_path(libs[k].name@) is Some
            && t == spec_library_path(*dir, spec_library_rel_path(libs[k].name@)->Some_0)
}

/// A native-only library never reaches the classpath: every candidate
/// beyond the primary jar is the jar path of a library that is not
/// native-only, that its rules admit, and that has a primary artifact —
/// even when the native-only library offers classifier bundles for the
/// current platform.
pub proof fn lemma_native_libraries_never_on_classpath(
    libs: Seq<Library>,
    dir: &MinecraftDir,
    os: Os,
)
    ensures
        forall|j: int|
            0 <= j < spec_lib_candidates(libs, dir, os).len() ==> spec_from_nonnative_library(
                libs,
                dir,
                os,
                #[trigger] spec_lib_candidates(libs, dir, os)[j],
            ),
    decreases libs.len(),
{
    if libs.len() > 0 {
        lemma_native_libraries_never_on_classpath(libs.drop_first(), dir, os);
        let head = spec_lib_candidate(libs[0], dir, os);
        let tail = libs.drop_first();
        let rest = spec_lib_candidates(tail, dir, os);
        assert forall|j: int| 0 <= j < spec_lib_candidates(libs, dir, os).len()
            implies spec_from_nonnative_library(
            libs,
            dir,
            os,
            spec_lib_candidates(libs, dir, os)[j],
        ) by {
            let t = spec_lib_candidates(libs, dir, os)[j];
            if j < head.len() {
                assert(t == head[j]);
                assert(!spec_is_native_library(libs[0]));
                assert(spec_from_nonnative_library(libs, dir, os, t));
            } else {
                let j2 = j - head.len();
                assert(t == rest[j2]);
                assert(spec_from_nonnative_library(tail, dir, os, t));
                let k2 = choose|k2: int|
                    0 <= k2 < tail.len() && !spec_is_native_library(#[trigger] tail[k2])
                        && spec_lib_included(tail[k2], os) && tail[k2].downloads.artifact is Some
                        && spec_library_rel_path(tail[k2].name@) is Some && t
                        == spec_library_path(
                        *dir,
                        spec_library_rel_path(tail[k2].name@)->Some_0,
                    );
                assert(tail[k2] == libs[k2 + 1]);
                assert(!spec_is_native_library(libs[k2 + 1]));
                assert(spec_from_nonnative_library(libs, dir, os, t));
            }
        }
    }
}

} // verus!
