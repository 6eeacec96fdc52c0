//! The arguments handed to the container engine.

use vstd::prelude::*;

verus! {

/// What one invocation of the tool was asked to do.
pub struct Config {
    /// The host path of the credentials file, as given.
    pub adc: String,
    /// Where the credentials file appears inside the container.
    pub adc_docker: String,
    /// The Google Cloud project id.
    pub project: String,
    /// The build context directory.
    pub context: String,
    /// Extra arguments placed after the image in the run invocation.
    pub args: Vec<String>,
}

/// The characters of each string, in order.
pub open spec fn views(v: Seq<String>) -> Seq<Seq<char>> {
    v.map_values(|s: String| s@)
}

/// The engine program that every invocation runs.
pub open spec fn engine() -> Seq<char> {
    "docker"@
}

/// Whether any extra argument is non-empty.
pub open spec fn any_non_empty(args: Seq<Seq<char>>) -> bool {
    exists|i: int| 0 <= i < args.len() && #[trigger] args[i].len() > 0
}

/// The non-empty extra arguments, in their order.
pub open spec fn kept_args(args: Seq<Seq<char>>) -> Seq<Seq<char>> {
    args.filter(|a: Seq<char>| a.len() > 0)
}

/// The arguments of the quiet build of `context`.
pub open spec fn build_args(context: Seq<char>) -> Seq<Seq<char>> {
    seq!["build"@, "-q"@, context]
}

/// The arguments of the run of `image`, with the host credentials at `host`
/// mounted read-only at `inside` and the project exported.
pub open spec fn run_args(
    inside: Seq<char>,
    project: Seq<char>,
    host: Seq<char>,
    image: Seq<char>,
    extra: Seq<Seq<char>>,
) -> Seq<Seq<char>> {
    seq![
        "run"@,
        "--rm"@,
        "-e"@,
        "GOOGLE_APPLICATION_CREDENTIALS="@ + inside,
        "-e"@,
        "GOOGLE_CLOUD_PROJECT="@ + project,
        "-v"@,
        host + ":"@ + inside + ":ro"@,
        image,
    ] + kept_args(extra)
}

/// The engine program's name.
pub fn engine_program() -> (r: String)
    ensures
        r@ == engine(),
{
    String::from_str("docker")
}

/// The arguments of the quiet build of `context`.
pub fn build_command_args(context: &String) -> (r: Vec<String>)
    ensures
        views(r@) == build_args(context@),
{
    let mut v: Vec<String> = Vec::new();
    v.push(String::from_str("build"));
    v.push(String::from_str("-q"));
    v.push(context.clone());
    assert(views(v@) =~= build_args(context@));
    v
}

/// Appends a copy of `s` with `tail` after it.
fn joined(s: &String, tail: &str) -> (r: String)
    ensures
        r@ == s@ + tail@,
{
    let mut r = s.clone();
    r.append(tail);
    r
}

/// The arguments of the run of `image` under `config`, with the host
/// credentials resolved to `host`. The non-empty extra arguments follow the
/// image, in order; empty ones are left out.
pub fn run_command_args(config: &Config, host: &String, image: &String) -> (r: Vec<String>)
    ensures
        views(r@) == run_args(
            config.adc_docker@,
            config.project@,
            host@,
            image@,
            views(config.args@),
        ),
{
    let mut v: Vec<String> = Vec::new();
    v.push(String::from_str("run"));
    v.push(String::from_str("--rm"));
    v.push(String::from_str("-e"));
    let mut cred = String::from_str("GOOGLE_APPLICATION_CREDENTIALS=");
    cred.append(config.adc_docker.as_str());
    v.push(cred);
    v.push(String::from_str("-e"));
    let mut proj = String::from_str("GOOGLE_CLOUD_PROJECT=");
    proj.append(config.project.as_str());
    v.push(proj);
    v.push(String::from_str("-v"));
    let mut mount = joined(host, ":");
    mount.append(config.adc_docker.as_str());
    mount.append(":ro");
    v.push(mount);
    v.push(image.clone());
    let ghost head = views(v@);
    let ghost extra = views(config.args@);
    let mut i: usize = 0;
    assert(extra.subrange(0, 0) =~= Seq::<Seq<char>>::empty());
    proof {
        reveal(Seq::filter);
        assert(views(v@) =~= head + kept_args(extra.subrange(0, 0)));
    }
    while i < config.args.len()
        invariant
            i <= config.args@.len(),
            extra == views(config.args@),
            head.len() == 9,
            views(v@) == head + kept_args(extra.subrange(0, i as int)),
        decreases config.args.len() - i,
    {
        let ghost before = v@;
        proof {
            reveal(Seq::filter);
            assert(extra.subrange(0, i + 1).drop_last() =~= extra.subrange(0, i as int));
            assert(extra.subrange(0, i + 1).last() == config.args@[i as int]@);
        }
        if !config.args[i].as_str().is_empty() {
            v.push(config.args[i].clone());
            assert(v@ == before.push(config.args@[i as int]));
            assert(views(v@) =~= views(before).push(config.args@[i as int]@));
        }
        i = i + 1;
    }
    assert(extra.subrange(0, i as int) =~= extra);
    assert(head =~= seq![
        "run"@,
        "--rm"@,
        "-e"@,
        "GOOGLE_APPLICATION_CREDENTIALS="@ + config.adc_docker@,
        "-e"@,
        "GOOGLE_CLOUD_PROJECT="@ + config.project@,
        "-v"@,
        host@ + ":"@ + config.adc_docker@ + ":ro"@,
        image@,
    ]);
    v
}

/// No extra argument is kept when all of them are empty.
pub proof fn lemma_all_empty_kept_none(extra: Seq<Seq<char>>)
    requires
        !any_non_empty(extra),
    ensures
        kept_args(extra) == Seq::<Seq<char>>::empty(),
    decreases extra.len(),
{
    reveal(Seq::filter);
    if extra.len() > 0 {
        let rest = extra.drop_last();
        assert forall|i: int| 0 <= i < rest.len() implies !(#[trigger] rest[i].len() > 0) by {
            assert(rest[i] == extra[i]);
        }
        assert(!(extra[extra.len() - 1].len() > 0));
        lemma_all_empty_kept_none(rest);
    }
}

/// The image is the ninth run argument, and exactly the non-empty extra
/// arguments follow it, in order. Extra arguments that are all empty are
/// left out entirely.
pub proof fn lemma_extra_args_placement(
    inside: Seq<char>,
    project: Seq<char>,
    host: Seq<char>,
    image: Seq<char>,
    extra: Seq<Seq<char>>,
)
    ensures
        run_args(inside, project, host, image, extra)[8] == image,
        run_args(inside, project, host, image, extra).subrange(
            9,
            run_args(inside, project, host, image, extra).len() as int,
        ) == extra.filter(|a: Seq<char>| a.len() > 0),
        !any_non_empty(extra) ==> run_args(inside, project, host, image, extra).len() == 9,
{
    let r = run_args(inside, project, host, image, extra);
    assert(r.subrange(9, r.len() as int) =~= kept_args(extra));
    if !any_non_empty(extra) {
        lemma_all_empty_kept_none(extra);
    }
}

} // verus!
