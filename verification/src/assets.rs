//! Discovery of the visualizer's asset directories.
//!
//! The visualizer needs a directory of presets and a directory of textures.
//! They are taken from two environment variables when both are set, and
//! otherwise looked for under the common installation roots. What the
//! environment holds and which paths are directories is handed in as plain
//! values; the choice among them is made here.

use vstd::prelude::*;
use vstd::string::StringExecFns;

verus! {

/// Name of the environment variable that holds the preset directory.
pub const PRESET_PATH_VAR: &'static str = "PROJECTM_PRESET_PATH";

/// Name of the environment variable that holds the texture directory.
pub const TEXTURE_PATH_VAR: &'static str = "PROJECTM_TEXTURE_PATH";

/// The installation roots that are searched, in this order.
pub open spec fn common_asset_roots() -> Seq<Seq<char>> {
    seq!["/usr/share/projectm"@, "/usr/local/share/projectm"@]
}

/// The preset directory under an installation root.
pub open spec fn presets_under(root: Seq<char>) -> Seq<char> {
    root + "/"@ + "presets"@
}

/// The texture directory under an installation root.
pub open spec fn textures_under(root: Seq<char>) -> Seq<char> {
    root + "/"@ + "textures"@
}

/// Whether both asset directories exist under `root`, given the paths that
/// are directories.
pub open spec fn installed_under(directories: Seq<Seq<char>>, root: Seq<char>) -> bool {
    directories.contains(presets_under(root)) && directories.contains(textures_under(root))
}

/// The first of `roots` under which both asset directories exist.
pub open spec fn first_installed(
    directories: Seq<Seq<char>>,
    roots: Seq<Seq<char>>,
) -> Option<Seq<char>>
    decreases roots.len(),
{
    if roots.len() == 0 {
        None
    } else if installed_under(directories, roots[0]) {
        Some(roots[0])
    } else {
        first_installed(directories, roots.skip(1))
    }
}

/// The error reported when both variables are set but do not both name a
/// directory.
pub open spec fn invalid_env_message() -> Seq<char> {
    "Invalid asset paths from environment variables: "@ + PRESET_PATH_VAR@ + " or "@
        + TEXTURE_PATH_VAR@ + " are invalid."@
}

/// The error reported when no asset directories are found anywhere.
pub open spec fn not_found_message() -> Seq<char> {
    "ProjectM asset paths not found."@
}

/// The preset and texture directories to use, or the error to report.
///
/// With both variables set, their values are taken if both are directories,
/// and it is an error if not: the common roots are not consulted then. With
/// one or none set, the variables are ignored and the first common root that
/// holds both directories is taken.
pub open spec fn resolved_paths(
    preset_env: Option<Seq<char>>,
    texture_env: Option<Seq<char>>,
    directories: Seq<Seq<char>>,
) -> Result<(Seq<char>, Seq<char>), Seq<char>> {
    if preset_env is Some && texture_env is Some {
        if directories.contains(preset_env->0) && directories.contains(texture_env->0) {
            Ok((preset_env->0, texture_env->0))
        } else {
            Err(invalid_env_message())
        }
    } else {
        match first_installed(directories, common_asset_roots()) {
            Some(root) => Ok((presets_under(root), textures_under(root))),
            None => Err(not_found_message()),
        }
    }
}

/// The paths whose being a directory decides `resolved_paths`.
pub open spec fn candidate_paths(
    preset_env: Option<Seq<char>>,
    texture_env: Option<Seq<char>>,
) -> Seq<Seq<char>> {
    if preset_env is Some && texture_env is Some {
        seq![preset_env->0, texture_env->0]
    } else {
        root_paths(common_asset_roots())
    }
}

/// The preset and texture directory of each root, root by root.
pub open spec fn root_paths(roots: Seq<Seq<char>>) -> Seq<Seq<char>>
    decreases roots.len(),
{
    if roots.len() == 0 {
        Seq::empty()
    } else {
        root_paths(roots.drop_last()).push(presets_under(roots.last())).push(
            textures_under(roots.last()),
        )
    }
}

/// The outcome of a resolution as plain sequences of characters.
pub open spec fn outcome_view(
    outcome: Result<(String, String), String>,
) -> Result<(Seq<char>, Seq<char>), Seq<char>> {
    match outcome {
        Ok((presets, textures)) => Ok((presets@, textures@)),
        Err(message) => Err(message@),
    }
}

/// What `first_installed` finds is the earliest root that holds both
/// directories, and it finds nothing only where no root holds both.
pub proof fn lemma_first_installed_is_earliest(directories: Seq<Seq<char>>, roots: Seq<Seq<char>>)
    ensures
        match first_installed(directories, roots) {
            Some(root) => exists|i: int|
                0 <= i < roots.len() && roots[i] == root && installed_under(directories, root)
                    && forall|j: int| 0 <= j < i ==> !installed_under(directories, #[trigger] roots[j]),
            None => forall|j: int|
                0 <= j < roots.len() ==> !installed_under(directories, #[trigger] roots[j]),
        },
    decreases roots.len(),
{
    if roots.len() > 0 && !installed_under(directories, roots[0]) {
        let rest = roots.skip(1);
        lemma_first_installed_is_earliest(directories, rest);
        match first_installed(directories, rest) {
            Some(root) => {
                let k = choose|k: int|
                    0 <= k < rest.len() && rest[k] == root && installed_under(directories, root)
                        && forall|j: int|
                        0 <= j < k ==> !installed_under(directories, #[trigger] rest[j]);
                assert(roots[k + 1] == root);
                assert forall|j: int| 0 <= j < k + 1 implies !installed_under(
                    directories,
                    #[trigger] roots[j],
                ) by {
                    if j > 0 {
                        assert(roots[j] == rest[j - 1]);
                    }
                }
            },
            None => {
                assert forall|j: int| 0 <= j < roots.len() implies !installed_under(
                    directories,
                    #[trigger] roots[j],
                ) by {
                    if j > 0 {
                        assert(roots[j] == rest[j - 1]);
                    }
                }
            },
        }
    }
}

/// The directories that a resolution returns are among those handed in.
pub proof fn lemma_resolved_paths_are_directories(
    preset_env: Option<Seq<char>>,
    texture_env: Option<Seq<char>>,
    directories: Seq<Seq<char>>,
)
    ensures
        resolved_paths(preset_env, texture_env, directories) matches Ok((presets, textures))
            ==> directories.contains(presets) && directories.contains(textures),
{
    lemma_first_installed_is_earliest(directories, common_asset_roots());
}

/// Every root's two directories are among `root_paths`.
pub proof fn lemma_root_paths_hold_each_root(roots: Seq<Seq<char>>, i: int)
    requires
        0 <= i < roots.len(),
    ensures
        root_paths(roots).contains(presets_under(roots[i])),
        root_paths(roots).contains(textures_under(roots[i])),
    decreases roots.len(),
{
    let paths = root_paths(roots);
    let earlier = root_paths(roots.drop_last());
    assert(paths.len() == earlier.len() + 2);
    if i == roots.len() - 1 {
        assert(paths[earlier.len() as int] == presets_under(roots[i]));
        assert(paths[earlier.len() as int + 1] == textures_under(roots[i]));
    } else {
        lemma_root_paths_hold_each_root(roots.drop_last(), i);
        let a = choose|a: int| 0 <= a < earlier.len() && earlier[a] == presets_under(roots[i]);
        let b = choose|b: int| 0 <= b < earlier.len() && earlier[b] == textures_under(roots[i]);
        assert(paths[a] == presets_under(roots[i]));
        assert(paths[b] == textures_under(roots[i]));
    }
}

/// Whether a root holds both directories depends only on the root's two
/// paths.
proof fn lemma_first_installed_agrees(
    first: Seq<Seq<char>>,
    second: Seq<Seq<char>>,
    roots: Seq<Seq<char>>,
)
    requires
        forall|i: int|
            0 <= i < roots.len() ==> installed_under(first, #[trigger] roots[i]) == installed_under(
                second,
                roots[i],
            ),
    ensures
        first_installed(first, roots) == first_installed(second, roots),
    decreases roots.len(),
{
    if roots.len() > 0 {
        assert(installed_under(first, roots[0]) == installed_under(second, roots[0]));
        let rest = roots.skip(1);
        assert forall|i: int| 0 <= i < rest.len() implies installed_under(
            first,
            #[trigger] rest[i],
        ) == installed_under(second, rest[i]) by {
            assert(rest[i] == roots[i + 1]);
        }
        lemma_first_installed_agrees(first, second, rest);
    }
}

/// Two file-system snapshots that agree on the candidate paths resolve alike:
/// probing the candidates is enough.
pub proof fn lemma_candidates_decide(
    preset_env: Option<Seq<char>>,
    texture_env: Option<Seq<char>>,
    first: Seq<Seq<char>>,
    second: Seq<Seq<char>>,
)
    requires
        forall|path: Seq<char>| #[trigger]
            candidate_paths(preset_env, texture_env).contains(path) ==> first.contains(path)
                == second.contains(path),
    ensures
        resolved_paths(preset_env, texture_env, first) == resolved_paths(
            preset_env,
            texture_env,
            second,
        ),
{
    let candidates = candidate_paths(preset_env, texture_env);
    if preset_env is Some && texture_env is Some {
        assert(candidates[0] == preset_env->0);
        assert(candidates[1] == texture_env->0);
        assert(candidates.contains(preset_env->0));
        assert(candidates.contains(texture_env->0));
    } else {
        let roots = common_asset_roots();
        assert forall|i: int| 0 <= i < roots.len() implies installed_under(
            first,
            #[trigger] roots[i],
        ) == installed_under(second, roots[i]) by {
            lemma_root_paths_hold_each_root(roots, i);
        }
        lemma_first_installed_agrees(first, second, roots);
    }
}

/// The installation roots that are searched, in search order.
pub fn common_roots() -> (roots: Vec<String>)
    ensures
        roots.deep_view() == common_asset_roots(),
{
    let mut roots: Vec<String> = Vec::new();
    roots.push(String::from_str("/usr/share/projectm"));
    roots.push(String::from_str("/usr/local/share/projectm"));
    assert(roots.deep_view() =~= common_asset_roots());
    roots
}

/// The preset directory under `root`.
pub fn presets_dir(root: &String) -> (path: String)
    ensures
        path@ == presets_under(root@),
{
    root.clone().concat("/").concat("presets")
}

/// The texture directory under `root`.
pub fn textures_dir(root: &String) -> (path: String)
    ensures
        path@ == textures_under(root@),
{
    root.clone().concat("/").concat("textures")
}

/// Whether `path` is among `directories`.
pub fn is_listed(directories: &Vec<String>, path: &String) -> (listed: bool)
    ensures
        listed == directories.deep_view().contains(path@),
{
    let mut i: usize = 0;
    while i < directories.len()
        invariant
            i <= directories.len(),
            forall|j: int| 0 <= j < i ==> directories.deep_view()[j] != path@,
        decreases directories.len() - i,
    {
        if directories[i] == *path {
            assert(directories.deep_view()[i as int] == path@);
            return true;
        }
        i += 1;
    }
    false
}

/// The paths that a caller has to probe: `resolve_asset_paths` asks of no
/// other path whether it is a directory.
pub fn asset_path_candidates(
    preset_env: &Option<String>,
    texture_env: &Option<String>,
) -> (paths: Vec<String>)
    ensures
        paths.deep_view() == candidate_paths(preset_env.deep_view(), texture_env.deep_view()),
{
    let mut paths: Vec<String> = Vec::new();
    match (preset_env, texture_env) {
        (Some(presets), Some(textures)) => {
            paths.push(presets.clone());
            paths.push(textures.clone());
            assert(paths.deep_view() =~= seq![presets@, textures@]);
        },
        _ => {
            let roots = common_roots();
            let mut i: usize = 0;
            assert(roots.deep_view().take(0) =~= Seq::<Seq<char>>::empty());
            while i < roots.len()
                invariant
                    i <= roots.len(),
                    paths.deep_view() == root_paths(roots.deep_view().take(i as int)),
                decreases roots.len() - i,
            {
                let ghost before = paths.deep_view();
                let ghost done = roots.deep_view().take(i as int);
                paths.push(presets_dir(&roots[i]));
                paths.push(textures_dir(&roots[i]));
                i += 1;
                proof {
                    let next = roots.deep_view().take(i as int);
                    assert(next.drop_last() =~= done);
                    assert(next.last() == roots[i - 1]@);
                    assert(paths.deep_view() =~= before.push(presets_under(next.last())).push(
                        textures_under(next.last()),
                    ));
                }
            }
            assert(roots.deep_view().take(i as int) =~= roots.deep_view());
        },
    }
    paths
}

/// Chooses the preset and texture directories.
///
/// `preset_env` and `texture_env` are the values of the two environment
/// variables, `None` where one is unset; `directories` lists the paths that
/// are directories, of which only `asset_path_candidates` matter.
pub fn resolve_asset_paths(
    preset_env: Option<String>,
    texture_env: Option<String>,
    directories: &Vec<String>,
) -> (outcome: Result<(String, String), String>)
    ensures
        outcome_view(outcome) == resolved_paths(
            preset_env.deep_view(),
            texture_env.deep_view(),
            directories.deep_view(),
        ),
{
    match (preset_env, texture_env) {
        (Some(presets), Some(textures)) => {
            if is_listed(directories, &presets) && is_listed(directories, &textures) {
                Ok((presets, textures))
            } else {
                let message = String::from_str("Invalid asset paths from environment variables: ")
                    .concat(PRESET_PATH_VAR)
                    .concat(" or ")
                    .concat(TEXTURE_PATH_VAR)
                    .concat(" are invalid.");
                Err(message)
            }
        },
        _ => {
            let roots = common_roots();
            let mut i: usize = 0;
            assert(roots.deep_view().skip(0) =~= roots.deep_view());
            while i < roots.len()
                invariant
                    i <= roots.len(),
                    roots.deep_view() == common_asset_roots(),
                    !(preset_env is Some && texture_env is Some),
                    first_installed(directories.deep_view(), roots.deep_view())
                        == first_installed(directories.deep_view(), roots.deep_view().skip(i as int)),
                decreases roots.len() - i,
            {
                let presets = presets_dir(&roots[i]);
                let textures = textures_dir(&roots[i]);
                let ghost rest = roots.deep_view().skip(i as int);
                assert(rest[0] == roots[i as int]@);
                assert(rest.skip(1) =~= roots.deep_view().skip(i + 1));
                if is_listed(directories, &presets) && is_listed(directories, &textures) {
                    assert(first_installed(directories.deep_view(), rest) == Some(rest[0]));
                    return Ok((presets, textures));
                }
                i += 1;
            }
            Err(String::from_str("ProjectM asset paths not found."))
        },
    }
}

} // verus!
