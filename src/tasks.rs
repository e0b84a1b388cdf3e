//! Development tasks (tests, lints, CI, image builds) as plans of commands.
//! A runner executes a plan; the library decides what runs and reads the
//! image name that `docker load` reports.

use vstd::prelude::*;

use crate::text::{trim, trimmed};

verus! {

/// Directory a command runs in.
#[derive(Clone, Copy, Debug, PartialEq, Eq, Structural)]
pub enum WorkDir {
    /// The repository root.
    Root,
    /// The task runner's own crate.
    Xtask,
}

/// One command.
#[derive(Clone, Debug)]
pub struct Invocation {
    pub program: String,
    pub args: Vec<String>,
    pub dir: WorkDir,
    /// Its standard output is kept for the caller.
    pub capture_stdout: bool,
}

/// Commands run in order. With `keep_going`, every command runs and the
/// stage fails if any did; without it the first failure ends the stage.
#[derive(Clone, Debug)]
pub struct Stage {
    pub steps: Vec<Invocation>,
    pub keep_going: bool,
}

/// Stages run in order while they succeed.
#[derive(Clone, Debug)]
pub struct Job {
    pub stages: Vec<Stage>,
}

/// Jobs that all run; the plan fails if any did, with the error of the
/// last failing job when `last_failure_wins`, else of the first.
#[derive(Clone, Debug)]
pub struct Plan {
    pub jobs: Vec<Job>,
    pub last_failure_wins: bool,
}

/// Which job's error a plan reports, given which jobs failed.
pub fn reported_failure(plan: &Plan, failed: &Vec<bool>) -> (r: Option<usize>)
    requires
        failed@.len() == plan.jobs@.len(),
    ensures
        r is None <==> forall|i: int| 0 <= i < failed@.len() ==> !(#[trigger] failed@[i]),
        r matches Some(i) ==> i < failed@.len() && failed@[i as int] && if plan.last_failure_wins {
            forall|j: int| i < j < failed@.len() ==> !(#[trigger] failed@[j])
        } else {
            forall|j: int| 0 <= j < i ==> !(#[trigger] failed@[j])
        },
{
    let mut found: Option<usize> = None;
    let mut k: usize = 0;
    while k < failed.len()
        invariant
            k <= failed@.len(),
            match found {
                None => forall|j: int| 0 <= j < k ==> !(#[trigger] failed@[j]),
                Some(i) => i < k && failed@[i as int] && if plan.last_failure_wins {
                    forall|j: int| i < j < k ==> !(#[trigger] failed@[j])
                } else {
                    forall|j: int| 0 <= j < i ==> !(#[trigger] failed@[j])
                },
            },
        decreases failed.len() - k,
    {
        if failed[k] && (found.is_none() || plan.last_failure_wins) {
            found = Some(k);
        }
        k = k + 1;
    }
    found
}

/// The command `program args...` in `dir`.
pub open spec fn runs(inv: Invocation, program: Seq<char>, args: Seq<Seq<char>>, dir: WorkDir) -> bool {
    &&& inv.program@ == program
    &&& inv.dir == dir
    &&& inv.args@.len() == args.len()
    &&& forall|i: int| 0 <= i < args.len() ==> (#[trigger] inv.args@[i])@ == args[i]
}

fn strings(a: Vec<&str>) -> (r: Vec<String>)
    ensures
        r@.len() == a@.len(),
        forall|i: int| 0 <= i < a@.len() ==> (#[trigger] r@[i])@ == a@[i]@,
{
    let mut r: Vec<String> = Vec::new();
    let mut i: usize = 0;
    while i < a.len()
        invariant
            i <= a@.len(),
            r@.len() == i,
            forall|j: int| 0 <= j < i ==> (#[trigger] r@[j])@ == a@[j]@,
        decreases a.len() - i,
    {
        r.push(String::from_str(a[i]));
        i = i + 1;
    }
    r
}

fn invocation(program: &str, args: Vec<&str>, dir: WorkDir) -> (r: Invocation)
    ensures
        r.program@ == program@,
        r.dir == dir,
        !r.capture_stdout,
        r.args@.len() == args@.len(),
        forall|i: int| 0 <= i < args@.len() ==> (#[trigger] r.args@[i])@ == args@[i]@,
{
    Invocation { program: String::from_str(program), args: strings(args), dir, capture_stdout: false }
}

/// `cargo test --all-features`.
pub fn test_rust() -> (r: Job)
    ensures
        r.stages@.len() == 1,
        r.stages@[0].steps@.len() == 1,
        runs(r.stages@[0].steps@[0], "cargo"@, seq!["test"@, "--all-features"@], WorkDir::Root),
{
    let step = invocation("cargo", vec!["test", "--all-features"], WorkDir::Root);
    Job { stages: vec![Stage { steps: vec![step], keep_going: false }] }
}

/// The test suite: the Rust tests.
pub fn test() -> (r: Job)
    ensures
        r.stages@.len() == 1,
        r.stages@[0].steps@.len() == 1,
        runs(r.stages@[0].steps@[0], "cargo"@, seq!["test"@, "--all-features"@], WorkDir::Root),
{
    test_rust()
}

/// Clippy with warnings denied and a rustfmt check, both run; then the same
/// for the task runner, if the first two passed.
pub fn lint_rust() -> (r: Job)
    ensures
        r.stages@.len() == 2,
        r.stages@[0].keep_going && r.stages@[1].keep_going,
        r.stages@[0].steps@.len() == 2 && r.stages@[1].steps@.len() == 2,
        runs(
            r.stages@[0].steps@[0],
            "cargo"@,
            seq!["clippy"@, "--"@, "-D"@, "warnings"@],
            WorkDir::Root,
        ),
        runs(r.stages@[0].steps@[1], "cargo"@, seq!["fmt"@, "--check"@], WorkDir::Root),
        runs(
            r.stages@[1].steps@[0],
            "cargo"@,
            seq!["clippy"@, "--"@, "-D"@, "warnings"@],
            WorkDir::Xtask,
        ),
        runs(r.stages@[1].steps@[1], "cargo"@, seq!["fmt"@, "--check"@], WorkDir::Xtask),
{
    let root = Stage {
        steps: vec![
            invocation("cargo", vec!["clippy", "--", "-D", "warnings"], WorkDir::Root),
            invocation("cargo", vec!["fmt", "--check"], WorkDir::Root),
        ],
        keep_going: true,
    };
    let xtask = Stage {
        steps: vec![
            invocation("cargo", vec!["clippy", "--", "-D", "warnings"], WorkDir::Xtask),
            invocation("cargo", vec!["fmt", "--check"], WorkDir::Xtask),
        ],
        keep_going: true,
    };
    Job { stages: vec![root, xtask] }
}

/// mypy, pylint and black on the CLI, stopping at the first failure.
pub fn lint_cli() -> (r: Job)
    ensures
        r.stages@.len() == 1,
        !r.stages@[0].keep_going,
        r.stages@[0].steps@.len() == 3,
        runs(r.stages@[0].steps@[0], "mypy"@, seq!["--strict"@, "./cli"@], WorkDir::Root),
        runs(
            r.stages@[0].steps@[1],
            "pylint"@,
            seq!["cli/kworkspace"@, "cli/setup.py"@],
            WorkDir::Root,
        ),
        runs(r.stages@[0].steps@[2], "black"@, seq!["--check"@, "cli/kworkspace"@], WorkDir::Root),
{
    Job {
        stages: vec![
            Stage {
                steps: vec![
                    invocation("mypy", vec!["--strict", "./cli"], WorkDir::Root),
                    invocation("pylint", vec!["cli/kworkspace", "cli/setup.py"], WorkDir::Root),
                    invocation("black", vec!["--check", "cli/kworkspace"], WorkDir::Root),
                ],
                keep_going: false,
            },
        ],
    }
}

/// CI for the operator: the tests, then the lints, each run regardless of
/// the other; when both fail, the lints' error is reported.
pub fn ci_rust() -> (r: Plan)
    ensures
        r.last_failure_wins,
        r.jobs@.len() == 2,
        r.jobs@[0].stages@.len() == 1 && r.jobs@[0].stages@[0].steps@.len() == 1,
        runs(
            r.jobs@[0].stages@[0].steps@[0],
            "cargo"@,
            seq!["test"@, "--all-features"@],
            WorkDir::Root,
        ),
        r.jobs@[1].stages@.len() == 2,
        r.jobs@[1].stages@[0].steps@.len() == 2,
        runs(
            r.jobs@[1].stages@[0].steps@[0],
            "cargo"@,
            seq!["clippy"@, "--"@, "-D"@, "warnings"@],
            WorkDir::Root,
        ),
{
    Plan { jobs: vec![test_rust(), lint_rust()], last_failure_wins: true }
}

/// CI for the CLI: its lints.
pub fn ci_cli() -> (r: Plan)
    ensures
        r.jobs@.len() == 1,
        r.jobs@[0].stages@.len() == 1,
        r.jobs@[0].stages@[0].steps@.len() == 3,
        runs(r.jobs@[0].stages@[0].steps@[0], "mypy"@, seq!["--strict"@, "./cli"@], WorkDir::Root),
{
    Plan { jobs: vec![lint_cli()], last_failure_wins: true }
}

/// All CI: the operator's, then the CLI's, each run regardless; the CLI's
/// error wins over the operator's, and within the operator's the lints' over
/// the tests'.
pub fn ci() -> (r: Plan)
    ensures
        r.last_failure_wins,
        r.jobs@.len() == 3,
        runs(
            r.jobs@[0].stages@[0].steps@[0],
            "cargo"@,
            seq!["test"@, "--all-features"@],
            WorkDir::Root,
        ),
        r.jobs@[1].stages@.len() == 2,
        r.jobs@[2].stages@[0].steps@.len() == 3,
        runs(r.jobs@[2].stages@[0].steps@[0], "mypy"@, seq!["--strict"@, "./cli"@], WorkDir::Root),
{
    let rust = ci_rust();
    let cli = ci_cli();
    let mut jobs = rust.jobs;
    let mut more = cli.jobs;
    jobs.append(&mut more);
    Plan { jobs, last_failure_wins: true }
}

/// `nix build .#<package>`, then `docker load --input ./result` with its
/// output kept, stopping at the first failure.
pub fn nix_build_and_load_docker_image(flake_package_name: &str) -> (r: Stage)
    ensures
        !r.keep_going,
        r.steps@.len() == 2,
        runs(r.steps@[0], "nix"@, seq!["build"@, ".#"@ + flake_package_name@], WorkDir::Root),
        runs(r.steps@[1], "docker"@, seq!["load"@, "--input"@, "./result"@], WorkDir::Root),
        r.steps@[1].capture_stdout,
{
    let target = String::from_str(".#").concat(flake_package_name);
    let build = Invocation {
        program: String::from_str("nix"),
        args: vec![String::from_str("build"), target],
        dir: WorkDir::Root,
        capture_stdout: false,
    };
    let load = Invocation {
        program: String::from_str("docker"),
        args: strings(vec!["load", "--input", "./result"]),
        dir: WorkDir::Root,
        capture_stdout: true,
    };
    Stage { steps: vec![build, load], keep_going: false }
}

/// Build and load the operator image.
pub fn build_docker_image_operator() -> (r: Stage)
    ensures
        r.steps@.len() == 2,
        runs(r.steps@[0], "nix"@, seq!["build"@, ".#docker-image-operator"@], WorkDir::Root),
        r.steps@[1].capture_stdout,
{
    let r = nix_build_and_load_docker_image("docker-image-operator");
    proof {
        reveal_strlit(".#");
        reveal_strlit("docker-image-operator");
        reveal_strlit(".#docker-image-operator");
    }
    assert(".#"@ + "docker-image-operator"@ =~= ".#docker-image-operator"@);
    r
}

/// Build and load the CLI image.
pub fn build_docker_image_cli() -> (r: Stage)
    ensures
        r.steps@.len() == 2,
        runs(r.steps@[0], "nix"@, seq!["build"@, ".#docker-image-cli"@], WorkDir::Root),
        r.steps@[1].capture_stdout,
{
    let r = nix_build_and_load_docker_image("docker-image-cli");
    proof {
        reveal_strlit(".#");
        reveal_strlit("docker-image-cli");
        reveal_strlit(".#docker-image-cli");
    }
    assert(".#"@ + "docker-image-cli"@ =~= ".#docker-image-cli"@);
    r
}

/// Build the operator image, then the CLI image.
pub fn build_all_docker_images() -> (r: Job)
    ensures
        r.stages@.len() == 2,
        runs(r.stages@[0].steps@[0], "nix"@, seq!["build"@, ".#docker-image-operator"@], WorkDir::Root),
        runs(r.stages@[1].steps@[0], "nix"@, seq!["build"@, ".#docker-image-cli"@], WorkDir::Root),
{
    Job { stages: vec![build_docker_image_operator(), build_docker_image_cli()] }
}

/// Build all images and load them into the local daemon.
pub fn cmd_docker_build() -> (r: Job)
    ensures
        r.stages@.len() == 2,
        runs(r.stages@[0].steps@[0], "nix"@, seq!["build"@, ".#docker-image-operator"@], WorkDir::Root),
        runs(r.stages@[1].steps@[0], "nix"@, seq!["build"@, ".#docker-image-cli"@], WorkDir::Root),
{
    build_all_docker_images()
}

/// Index of the first `'\n'` at or after `i`, or the length.
pub open spec fn line_end(s: Seq<char>, i: int) -> int
    decreases s.len() - i,
{
    if i >= s.len() || i < 0 {
        s.len() as int
    } else if s[i] == '\n' {
        i
    } else {
        line_end(s, i + 1)
    }
}

/// Index of the first `':'` of `s`, or the length.
pub open spec fn colon_index(s: Seq<char>) -> int
    decreases s.len(),
{
    if s.len() == 0 {
        0
    } else if s[0] == ':' {
        0
    } else {
        1 + colon_index(s.drop_first())
    }
}

/// A line of `docker load` output that names the loaded image.
pub open spec fn is_image_line(line: Seq<char>) -> bool {
    let t = trim(line);
    t.len() >= 13 && t.subrange(0, 13) == "Loaded image:"@
}

/// The image name on such a line: what follows its first colon, trimmed.
pub open spec fn image_name_of(line: Seq<char>) -> Seq<char> {
    if colon_index(line) < line.len() {
        trim(line.subrange(colon_index(line) + 1, line.len() as int))
    } else {
        trim(Seq::empty())
    }
}

/// The line that starts at `i`.
pub open spec fn line_at(s: Seq<char>, i: int) -> Seq<char> {
    s.subrange(i, line_end(s, i))
}

/// `i` starts a line of `s`.
pub open spec fn line_start(s: Seq<char>, i: int) -> bool {
    0 <= i < s.len() && (i == 0 || s[i - 1] == '\n')
}

proof fn lemma_line_end(s: Seq<char>, i: int, j: int)
    requires
        0 <= i <= j <= s.len(),
        forall|k: int| i <= k < j ==> s[k] != '\n',
    ensures
        line_end(s, i) == line_end(s, j),
    decreases j - i,
{
    if i < j {
        lemma_line_end(s, i + 1, j);
    }
}

proof fn lemma_colon_index(s: Seq<char>, k: int)
    requires
        0 <= k <= s.len(),
        forall|j: int| 0 <= j < k ==> s[j] != ':',
        k == s.len() || s[k] == ':',
    ensures
        colon_index(s) == k,
    decreases k,
{
    if k > 0 {
        assert forall|j: int| 0 <= j < k - 1 implies s.drop_first()[j] != ':' by {
            assert(s.drop_first()[j] == s[j + 1]);
        }
        lemma_colon_index(s.drop_first(), k - 1);
    }
}

/// The image name that `docker load` reports: on its first line that,
/// trimmed, starts with `Loaded image:`.
pub fn loaded_image_name(stdout: &str) -> (r: Option<String>)
    ensures
        r is None <==> forall|i: int| line_start(stdout@, i) ==> !is_image_line(
            #[trigger] line_at(stdout@, i),
        ),
        r matches Some(name) ==> exists|i: int|
            line_start(stdout@, i) && is_image_line(#[trigger] line_at(stdout@, i)) && name@
                == image_name_of(line_at(stdout@, i)) && forall|k: int|
                0 <= k < i && line_start(stdout@, k) ==> !is_image_line(line_at(stdout@, k)),
{
    let n = stdout.unicode_len();
    let mut i: usize = 0;
    proof {
        reveal_strlit("Loaded image:");
    }
    while i < n
        invariant
            n == stdout@.len(),
            i <= n,
            i == 0 || i == n || line_start(stdout@, i as int),
            forall|k: int| 0 <= k < i && line_start(stdout@, k) ==> !is_image_line(
                #[trigger] line_at(stdout@, k),
            ),
        decreases n - i,
    {
        let mut j: usize = i;
        while j < n && stdout.get_char(j) != '\n'
            invariant
                n == stdout@.len(),
                i <= j <= n,
                forall|k: int| i <= k < j ==> stdout@[k] != '\n',
            decreases n - j,
        {
            j = j + 1;
        }
        proof {
            lemma_line_end(stdout@, i as int, j as int);
        }
        let line = stdout.substring_char(i, j);
        assert(line@ == line_at(stdout@, i as int));
        let t = trimmed(line);
        proof {
            reveal_strlit("Loaded image:");
        }
        assert(i == 0 || line_start(stdout@, i as int));
        assert("Loaded image:"@.len() == 13);
        assert(t@ == trim(line_at(stdout@, i as int)));
        if matches_prefix(t, "Loaded image:") {
            let m = line.unicode_len();
            let mut c: usize = 0;
            while c < m && line.get_char(c) != ':'
                invariant
                    m == line@.len(),
                    c <= m,
                    forall|k: int| 0 <= k < c ==> line@[k] != ':',
                decreases m - c,
            {
                c = c + 1;
            }
            proof {
                lemma_colon_index(line@, c as int);
            }
            let start = if c < m { c + 1 } else { m };
            let rest = line.substring_char(start, m);
            let name = trimmed(rest);
            assert(rest@ =~= Seq::<char>::empty() || c < m);
            assert(line_start(stdout@, i as int));
            assert(is_image_line(line_at(stdout@, i as int)));
            assert(name@ == image_name_of(line_at(stdout@, i as int)));
            return Some(String::from_str(name));
        }
        assert forall|k: int| 0 <= k < j + 1 && k <= n && line_start(stdout@, k) implies !is_image_line(
            #[trigger] line_at(stdout@, k),
        ) by {
            if k > i {
                assert(stdout@[k - 1] != '\n');
            }
        }
        if j == n {
            i = n;
        } else {
            i = j + 1;
        }
    }
    None
}

/// Whether `t` starts with `p`.
fn matches_prefix(t: &str, p: &str) -> (r: bool)
    ensures
        r == (t@.len() >= p@.len() && t@.subrange(0, p@.len() as int) == p@),
{
    crate::text::matches_at(t, 0, p)
}

/// `cargo fmt` for the repository and the task runner, then black on the
/// CLI and nixpkgs-fmt on the flake, stopping at the first failure.
pub fn format() -> (r: Job)
    ensures
        r.stages@.len() == 1,
        !r.stages@[0].keep_going,
        r.stages@[0].steps@.len() == 4,
        runs(r.stages@[0].steps@[0], "cargo"@, seq!["fmt"@], WorkDir::Root),
        runs(r.stages@[0].steps@[1], "cargo"@, seq!["fmt"@], WorkDir::Xtask),
        runs(r.stages@[0].steps@[2], "black"@, seq!["cli"@], WorkDir::Root),
        runs(r.stages@[0].steps@[3], "nixpkgs-fmt"@, seq!["flake.nix"@], WorkDir::Root),
{
    Job {
        stages: vec![
            Stage {
                steps: vec![
                    invocation("cargo", vec!["fmt"], WorkDir::Root),
                    invocation("cargo", vec!["fmt"], WorkDir::Xtask),
                    invocation("black", vec!["cli"], WorkDir::Root),
                    invocation("nixpkgs-fmt", vec!["flake.nix"], WorkDir::Root),
                ],
                keep_going: false,
            },
        ],
    }
}

/// `helm lint` of the chart in strict mode.
pub fn lint_kubernetes() -> (r: Job)
    ensures
        r.stages@.len() == 1,
        r.stages@[0].steps@.len() == 1,
        runs(r.stages@[0].steps@[0], "helm"@, seq!["lint"@, "deploy/helm"@, "--strict"@], WorkDir::Root),
{
    Job {
        stages: vec![
            Stage {
                steps: vec![invocation("helm", vec!["lint", "deploy/helm", "--strict"], WorkDir::Root)],
                keep_going: false,
            },
        ],
    }
}

/// All lints: Rust, CLI and chart, each run regardless of the others; the
/// first failing one's error is reported.
pub fn lint() -> (r: Plan)
    ensures
        !r.last_failure_wins,
        r.jobs@.len() == 3,
        r.jobs@[0].stages@.len() == 2,
        r.jobs@[1].stages@[0].steps@.len() == 3,
        r.jobs@[2].stages@[0].steps@.len() == 1,
{
    Plan { jobs: vec![lint_rust(), lint_cli(), lint_kubernetes()], last_failure_wins: false }
}

/// Push both built images, operator first, stopping at the first failure.
pub fn publish_docker_images(operator_image: &str, cli_image: &str) -> (r: Stage)
    ensures
        !r.keep_going,
        r.steps@.len() == 2,
        runs(r.steps@[0], "docker"@, seq!["push"@, operator_image@], WorkDir::Root),
        runs(r.steps@[1], "docker"@, seq!["push"@, cli_image@], WorkDir::Root),
{
    Stage {
        steps: vec![
            invocation("docker", vec!["push", operator_image], WorkDir::Root),
            invocation("docker", vec!["push", cli_image], WorkDir::Root),
        ],
        keep_going: false,
    }
}

/// Index of the first `':'` of `s` at or after `i`, or the length.
pub open spec fn colon_from(s: Seq<char>, i: int) -> int
    decreases s.len() - i,
{
    if i >= s.len() || i < 0 {
        s.len() as int
    } else if s[i] == ':' {
        i
    } else {
        colon_from(s, i + 1)
    }
}

/// The tag of an image name: the text between its first and second colon.
pub open spec fn image_tag_of(name: Seq<char>) -> Option<Seq<char>> {
    let c = colon_from(name, 0);
    if c < name.len() {
        Some(name.subrange(c + 1, colon_from(name, c + 1)))
    } else {
        None
    }
}

proof fn lemma_colon_from(s: Seq<char>, i: int, j: int)
    requires
        0 <= i <= j <= s.len(),
        forall|k: int| i <= k < j ==> s[k] != ':',
    ensures
        colon_from(s, i) == colon_from(s, j),
    decreases j - i,
{
    if i < j {
        lemma_colon_from(s, i + 1, j);
    }
}

fn next_colon(s: &str, from: usize) -> (r: usize)
    requires
        from <= s@.len(),
    ensures
        r as int == colon_from(s@, from as int),
        from <= r <= s@.len(),
{
    let n = s.unicode_len();
    let mut i = from;
    while i < n && s.get_char(i) != ':'
        invariant
            from <= i <= n,
            n == s@.len(),
            forall|k: int| from <= k < i ==> s@[k] != ':',
        decreases n - i,
    {
        i = i + 1;
    }
    proof {
        lemma_colon_from(s@, from as int, i as int);
    }
    i
}

/// The tag of an image name, as `kind_install` reads it.
pub fn image_tag(name: &str) -> (r: Option<String>)
    ensures
        match image_tag_of(name@) {
            None => r is None,
            Some(t) => r matches Some(s) && s@ == t,
        },
{
    let c = next_colon(name, 0);
    if c == name.unicode_len() {
        return None;
    }
    let end = next_colon(name, c + 1);
    Some(String::from_str(name.substring_char(c + 1, end)))
}

/// Load the operator image into kind, install or upgrade the chart with that
/// image's tag, then restart the operator pods; `None` when the image name has
/// no tag.
pub fn kind_install(operator_image: &str) -> (r: Option<Stage>)
    ensures
        image_tag_of(operator_image@) is None ==> r is None,
        image_tag_of(operator_image@) matches Some(tag) ==> (r matches Some(st) && {
            &&& !st.keep_going
            &&& st.steps@.len() == 3
            &&& runs(
                st.steps@[0],
                "kind"@,
                seq!["load"@, "docker-image"@, operator_image@],
                WorkDir::Root,
            )
            &&& st.steps@[1].program@ == "helm"@
            &&& st.steps@[1].args@.len() == 11
            &&& st.steps@[1].args@[10]@ == "image.tag="@ + tag
            &&& runs(
                st.steps@[2],
                "kubectl"@,
                seq![
                    "delete"@,
                    "--namespace"@,
                    "default"@,
                    "pods"@,
                    "-l"@,
                    "app.kubernetes.io/name=kube-workspace-operator"@,
                ],
                WorkDir::Root,
            )
        }),
{
    let tag = match image_tag(operator_image) {
        None => return None,
        Some(t) => t,
    };
    let load = invocation("kind", vec!["load", "docker-image", operator_image], WorkDir::Root);
    let mut helm_args = strings(
        vec![
            "upgrade",
            "--install",
            "--wait-for-jobs",
            "kube-workspace",
            "./deploy/helm",
            "--values",
            "./tests/fixtures/values.yaml",
            "--set",
            "image.pullPolicy=Never",
            "--set",
        ],
    );
    helm_args.push(String::from_str("image.tag=").concat(tag.as_str()));
    let helm = Invocation {
        program: String::from_str("helm"),
        args: helm_args,
        dir: WorkDir::Root,
        capture_stdout: false,
    };
    let restart = invocation(
        "kubectl",
        vec!["delete", "--namespace", "default", "pods", "-l", "app.kubernetes.io/name=kube-workspace-operator"],
        WorkDir::Root,
    );
    Some(Stage { steps: vec![load, helm, restart], keep_going: false })
}

} // verus!
