//! The ordered-candidate scan that resolves the language-server binary.

use vstd::prelude::*;
use vstd::string::StringExecFns;
use crate::fs_model::FsSnapshot;

verus! {

/// How many candidate install locations are probed.
pub const CANDIDATE_COUNT: usize = 5;

/// The unqualified binary name, returned when no candidate matches so
/// that the host's ambient search path can resolve it.
pub open spec fn binary_name_spec() -> Seq<char> {
    "mojo-lsp-server"@
}

/// The bare binary name as an executable string.
pub fn binary_name() -> (name: String)
    ensures
        name@ == binary_name_spec(),
{
    String::from_str("mojo-lsp-server")
}

/// The suffix appended to the home directory for candidate `i`.
///
/// Candidates are ordered by installation-method preference: the pixi
/// global install first, then pip/uv user site-packages for recent
/// interpreter versions, and the deprecated modular CLI tree last.
pub open spec fn candidate_suffix(i: int) -> Seq<char> {
    if i == 0 {
        "/.pixi/bin/mojo-lsp-server"@
    } else if i == 1 {
        "/.local/lib/python3.13/site-packages/max/bin/mojo-lsp-server"@
    } else if i == 2 {
        "/.local/lib/python3.12/site-packages/max/bin/mojo-lsp-server"@
    } else if i == 3 {
        "/.local/lib/python3.11/site-packages/max/bin/mojo-lsp-server"@
    } else {
        "/.modular/pkg/packages.modular.com_mojo/bin/mojo-lsp-server"@
    }
}

/// Candidate absolute path `i` for the given home directory.
pub open spec fn candidate_spec(home: Seq<char>, i: int) -> Seq<char> {
    home + candidate_suffix(i)
}

/// A missing home value is treated as the empty string; resolution
/// never fails on its account.
pub open spec fn effective_home(home: Option<Seq<char>>) -> Seq<char> {
    match home {
        Some(h) => h,
        None => Seq::<char>::empty(),
    }
}

/// The view of an optional home string handed to the locator.
pub open spec fn home_view(home: Option<&str>) -> Option<Seq<char>> {
    match home {
        Some(h) => Some(h@),
        None => None::<Seq<char>>,
    }
}

/// The result of the ordered scan starting at candidate `i`: the first
/// candidate from `i` on that the snapshot holds as a regular file, or
/// the bare binary name if none is held.
pub open spec fn locate_from(home: Seq<char>, fs: FsSnapshot, i: int) -> Seq<char>
    decreases 5 - i when i <= 5
{
    if i >= 5 {
        binary_name_spec()
    } else if fs.has_regular_file(candidate_spec(home, i)) {
        candidate_spec(home, i)
    } else {
        locate_from(home, fs, i + 1)
    }
}

/// What the locator returns for a home value and a snapshot: the
/// highest-priority candidate held as a regular file, or the bare
/// binary name when none is.
pub open spec fn locate_spec(home: Option<Seq<char>>, fs: FsSnapshot) -> Seq<char> {
    locate_from(effective_home(home), fs, 0)
}

/// Build the ordered candidate list for `home`.
pub fn candidate_paths(home: &str) -> (paths: Vec<String>)
    ensures
        paths@.len() == 5,
        forall|i: int| 0 <= i < 5 ==> paths@[i]@ == candidate_spec(home@, i),
{
    let mut paths: Vec<String> = Vec::new();
    paths.push(String::from_str(home).concat("/.pixi/bin/mojo-lsp-server"));
    paths.push(
        String::from_str(home).concat("/.local/lib/python3.13/site-packages/max/bin/mojo-lsp-server"),
    );
    paths.push(
        String::from_str(home).concat("/.local/lib/python3.12/site-packages/max/bin/mojo-lsp-server"),
    );
    paths.push(
        String::from_str(home).concat("/.local/lib/python3.11/site-packages/max/bin/mojo-lsp-server"),
    );
    paths.push(
        String::from_str(home).concat("/.modular/pkg/packages.modular.com_mojo/bin/mojo-lsp-server"),
    );
    paths
}

/// Every candidate suffix is a non-empty string.
proof fn lemma_suffix_nonempty(i: int)
    ensures
        candidate_suffix(i).len() > 0,
{
    reveal_strlit("/.pixi/bin/mojo-lsp-server");
    reveal_strlit("/.local/lib/python3.13/site-packages/max/bin/mojo-lsp-server");
    reveal_strlit("/.local/lib/python3.12/site-packages/max/bin/mojo-lsp-server");
    reveal_strlit("/.local/lib/python3.11/site-packages/max/bin/mojo-lsp-server");
    reveal_strlit("/.modular/pkg/packages.modular.com_mojo/bin/mojo-lsp-server");
}

/// The scan from `k` returns candidate `i` when `i` is the first index
/// at or after `k` whose candidate the snapshot holds as a regular file.
proof fn lemma_locate_from_hits(home: Seq<char>, fs: FsSnapshot, k: int, i: int)
    requires
        0 <= k <= i < 5,
        fs.has_regular_file(candidate_spec(home, i)),
        forall|j: int| k <= j < i ==> !fs.has_regular_file(candidate_spec(home, j)),
    ensures
        locate_from(home, fs, k) == candidate_spec(home, i),
    decreases i - k,
{
    if k < i {
        lemma_locate_from_hits(home, fs, k + 1, i);
    }
}

/// The scan from `k` falls through to the bare name when no candidate
/// at or after `k` is held as a regular file.
proof fn lemma_locate_from_misses(home: Seq<char>, fs: FsSnapshot, k: int)
    requires
        0 <= k <= 5,
        forall|j: int| k <= j < 5 ==> !fs.has_regular_file(candidate_spec(home, j)),
    ensures
        locate_from(home, fs, k) == binary_name_spec(),
    decreases 5 - k,
{
    if k < 5 {
        lemma_locate_from_misses(home, fs, k + 1);
    }
}

/// First match wins: when one or more candidates are held as regular
/// files, the locator returns the candidate with the lowest index among
/// them — the earliest, highest-priority install location.
pub proof fn lemma_first_match_wins(home: Option<Seq<char>>, fs: FsSnapshot, i: int)
    requires
        0 <= i < 5,
        fs.has_regular_file(candidate_spec(effective_home(home), i)),
        forall|j: int| 0 <= j < i ==> !fs.has_regular_file(candidate_spec(effective_home(home), j)),
    ensures
        locate_spec(home, fs) == candidate_spec(effective_home(home), i),
{
    lemma_locate_from_hits(effective_home(home), fs, 0, i);
}

/// When exactly one candidate is held as a regular file, the locator
/// returns that candidate's path.
pub proof fn lemma_unique_match(home: Option<Seq<char>>, fs: FsSnapshot, i: int)
    requires
        0 <= i < 5,
        fs.has_regular_file(candidate_spec(effective_home(home), i)),
        forall|j: int|
            0 <= j < 5 && j != i ==> !fs.has_regular_file(candidate_spec(effective_home(home), j)),
    ensures
        locate_spec(home, fs) == candidate_spec(effective_home(home), i),
{
    lemma_first_match_wins(home, fs, i);
}

/// When no candidate is held as a regular file, the locator returns the
/// unqualified binary name — never an empty string, never an error.
pub proof fn lemma_fallback(home: Option<Seq<char>>, fs: FsSnapshot)
    requires
        forall|j: int| 0 <= j < 5 ==> !fs.has_regular_file(candidate_spec(effective_home(home), j)),
    ensures
        locate_spec(home, fs) == binary_name_spec(),
        binary_name_spec().len() > 0,
{
    lemma_locate_from_misses(effective_home(home), fs, 0);
    reveal_strlit("mojo-lsp-server");
}

/// The locator never yields an empty string: a matched candidate ends
/// in a non-empty suffix, and the fallback is the non-empty bare name.
pub proof fn lemma_result_nonempty(home: Option<Seq<char>>, fs: FsSnapshot)
    ensures
        locate_spec(home, fs).len() > 0,
{
    lemma_locate_from_nonempty(effective_home(home), fs, 0);
}

/// The scan from any start index yields a non-empty string.
proof fn lemma_locate_from_nonempty(home: Seq<char>, fs: FsSnapshot, k: int)
    requires
        0 <= k <= 5,
    ensures
        locate_from(home, fs, k).len() > 0,
    decreases 5 - k,
{
    reveal_strlit("mojo-lsp-server");
    if k < 5 {
        lemma_suffix_nonempty(k);
        lemma_locate_from_nonempty(home, fs, k + 1);
    }
}

/// A missing home value behaves exactly as the empty home string.
pub proof fn lemma_missing_home(fs: FsSnapshot)
    ensures
        locate_spec(None, fs) == locate_spec(Some(Seq::<char>::empty()), fs),
{
}

/// Resolution is deterministic: with the home value and the snapshot
/// unchanged, any two results that satisfy the locator's contract are
/// identical, so repeated calls yield the same string.
pub proof fn lemma_deterministic(
    home: Option<Seq<char>>,
    fs: FsSnapshot,
    r1: Seq<char>,
    r2: Seq<char>,
)
    requires
        r1 == locate_spec(home, fs),
        r2 == locate_spec(home, fs),
    ensures
        r1 == r2,
{
}

/// Resolve the language-server binary: probe the candidates in priority
/// order against the snapshot and return the first held as a regular
/// file, falling back to the bare binary name.
pub fn locate(home: Option<&str>, fs: &FsSnapshot) -> (result: String)
    ensures
        result@ == locate_spec(home_view(home), *fs),
        result@.len() > 0,
{
    let h: &str = match home {
        Some(h) => h,
        None => "",
    };
    proof {
        reveal_strlit("");
        assert(h@ =~= effective_home(home_view(home)));
    }
    let paths = candidate_paths(h);
    let mut i: usize = 0;
    while i < CANDIDATE_COUNT
        invariant
            paths@.len() == 5,
            forall|j: int| 0 <= j < 5 ==> paths@[j]@ == candidate_spec(h@, j),
            i <= 5,
            forall|j: int| 0 <= j < i ==> !fs.has_regular_file(candidate_spec(h@, j)),
            h@ == effective_home(home_view(home)),
        decreases 5 - i,
    {
        if fs.contains_regular_file(&paths[i]) {
            proof {
                lemma_first_match_wins(home_view(home), *fs, i as int);
                lemma_result_nonempty(home_view(home), *fs);
            }
            return paths[i].clone();
        }
        i += 1;
    }
    proof {
        lemma_fallback(home_view(home), *fs);
    }
    binary_name()
}

/// A command descriptor for the host to launch: a command path or bare
/// name, its arguments, and its environment.
pub struct LaunchCommand {
    pub command: String,
    pub args: Vec<String>,
    pub env: Vec<(String, String)>,
}

/// The command the host should launch for the language server: the
/// located binary path (or bare name), an empty argument list, and a
/// default (empty) environment.
pub fn language_server_command(home: Option<&str>, fs: &FsSnapshot) -> (cmd: LaunchCommand)
    ensures
        cmd.command@ == locate_spec(home_view(home), *fs),
        cmd.command@.len() > 0,
        cmd.args@.len() == 0,
        cmd.env@.len() == 0,
{
    LaunchCommand { command: locate(home, fs), args: Vec::new(), env: Vec::new() }
}

} // verus!
