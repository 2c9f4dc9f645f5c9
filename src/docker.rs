//! The argument lists handed to the container CLI, and what its answers mean.
//! Running the CLI is the caller's part.
use vstd::prelude::*;
use vstd::string::{StrSliceExecFns, StringExecFns};

use crate::error::{ExitCode, WorkerError, WorkerErrorKind};
use crate::text::{decimal, push_decimal};

verus! {

/// Folder that every pooled container holds, where a component's code is copied.
pub const CODE_FOLDER: &'static str = "/home/sl";

/// Image of the pooled general-purpose containers.
pub const CONTAINER_IMAGE_TAG: &'static str = "python:3.7-alpine";

/// Seconds a pooled container sleeps, so that it stays up until used.
pub const SLEEP_TIME: &'static str = "1000000000";

/// Containers waiting in the idle pool's channel.
pub const CACHE_SLOTS: usize = 3;

/// Threads that fill the idle pool.
pub const PRODUCERS: usize = 2;

/// Pause after starting a pooled container, which gives no readiness signal, in milliseconds.
pub const PROVISIONAL_WAIT_MS: u64 = 1000;

/// Pause of a pool producer after a failed creation, in milliseconds.
pub const ERROR_BACKOFF_MS: u64 = 10000;

/// The command a pooled container runs: a long sleep.
pub fn idle_container_command() -> (r: Vec<String>)
    ensures
        texts(r@) == seq!["sleep"@, SLEEP_TIME@],
{
    let mut v: Vec<String> = Vec::new();
    v.push(text_of("sleep"));
    v.push(text_of(SLEEP_TIME));
    assert(texts(v@) =~= seq!["sleep"@, SLEEP_TIME@]);
    v
}

/// The command that makes the code folder in a fresh pooled container.
pub fn code_folder_command() -> (r: Vec<String>)
    ensures
        texts(r@) == seq!["mkdir"@, "-p"@, CODE_FOLDER@],
{
    let mut v: Vec<String> = Vec::new();
    v.push(text_of("mkdir"));
    v.push(text_of("-p"));
    v.push(text_of(CODE_FOLDER));
    assert(texts(v@) =~= seq!["mkdir"@, "-p"@, CODE_FOLDER@]);
    v
}

/// What one finished run of the container CLI printed, and how it ended.
#[derive(Clone, Debug)]
pub struct CliOutput {
    pub exit: ExitCode,
    pub stdout: String,
    pub stderr: String,
}

pub open spec fn texts(v: Seq<String>) -> Seq<Seq<char>> {
    v.map_values(|s: String| s@)
}

/// A finished CLI run that did not exit with status zero is a `ContainerCli` error.
pub fn check_cli_output(out: CliOutput) -> (r: Result<CliOutput, WorkerError>)
    ensures
        out.exit.spec_success() <==> r is Ok,
        r matches Ok(o) ==> o.exit == out.exit && o.stdout@ == out.stdout@ && o.stderr@ == out.stderr@,
        r matches Err(e) ==> (e.kind matches WorkerErrorKind::ContainerCli(x, o, d) && x == out.exit && o@
            == out.stdout@ && d@ == out.stderr@),
{
    if out.exit.success() {
        Ok(out)
    } else {
        Err(WorkerError::new(WorkerErrorKind::ContainerCli(out.exit, out.stdout, out.stderr)))
    }
}

fn text_of(s: &str) -> (r: String)
    ensures
        r@ == s@,
{
    String::from_str(s)
}

/// `s` with every colon replaced by an underscore.
pub open spec fn without_colons(s: Seq<char>) -> Seq<char> {
    s.map_values(|c: char| if c == ':' { '_' } else { c })
}

/// The container name for `image` and the number `id`: `v9_<image>_<id>`,
/// with colons (invalid in names) turned into underscores.
pub open spec fn container_name_spec(image: Seq<char>, id: u64) -> Seq<char> {
    without_colons("v9_"@ + image + "_"@ + decimal(id as nat))
}

pub fn container_name_for(image: &str, id: u64) -> (r: String)
    ensures
        r@ == container_name_spec(image@, id),
{
    let mut raw = String::from_str("v9_");
    raw.append(image);
    raw.append("_");
    push_decimal(&mut raw, id);
    let raw_str = raw.as_str();
    let n = raw_str.unicode_len();
    let mut res = String::new();
    let mut i: usize = 0;
    while i < n
        invariant
            n == raw_str@.len(),
            raw_str@ == "v9_"@ + image@ + "_"@ + decimal(id as nat),
            i <= n,
            res@ == without_colons(raw_str@.take(i as int)),
        decreases n - i,
    {
        let c = raw_str.get_char(i);
        if c == ':' {
            res.append("_");
        } else {
            res.append(raw_str.substring_char(i, i + 1));
        }
        proof {
            reveal_strlit("_");
        }
        assert(res@ =~= without_colons(raw_str@.take(i as int + 1)));
        i = i + 1;
    }
    assert(raw_str@.take(n as int) =~= raw_str@);
    res
}

/// Relies on rand::random: some `u64`, of which nothing is known.
#[verifier::external_body]
fn random_u64() -> (r: u64) {
    rand::random::<u64>()
}

/// A fresh random container name for `image`.
pub fn container_name(image: &str) -> (r: String)
    ensures
        exists|id: u64| r@ == container_name_spec(image@, id),
{
    let id = random_u64();
    container_name_for(image, id)
}

/// `docker run --name <name> -v <in>:<in> -v <out>:<out> <image> <args..>`:
/// the pipe ends are mounted at their host paths.
pub open spec fn run_args_spec(
    name: Seq<char>,
    c_in: Seq<char>,
    c_out: Seq<char>,
    image: Seq<char>,
    args: Seq<Seq<char>>,
) -> Seq<Seq<char>> {
    seq!["run"@, "--name"@, name, "-v"@, c_in + ":"@ + c_in, "-v"@, c_out + ":"@ + c_out, image] + args
}

pub fn run_args(name: &str, c_in: &str, c_out: &str, image: &str, image_args: &Vec<String>) -> (r: Vec<String>)
    ensures
        texts(r@) == run_args_spec(name@, c_in@, c_out@, image@, texts(image_args@)),
{
    let mut input_mount = text_of(c_in);
    input_mount.append(":");
    input_mount.append(c_in);
    let mut output_mount = text_of(c_out);
    output_mount.append(":");
    output_mount.append(c_out);
    let mut v: Vec<String> = Vec::new();
    v.push(text_of("run"));
    v.push(text_of("--name"));
    v.push(text_of(name));
    v.push(text_of("-v"));
    v.push(input_mount);
    v.push(text_of("-v"));
    v.push(output_mount);
    v.push(text_of(image));
    append_texts(&mut v, image_args);
    assert(texts(v@) =~= run_args_spec(name@, c_in@, c_out@, image@, texts(image_args@)));
    v
}

/// Appends copies of `more` to `v`.
pub fn append_texts(v: &mut Vec<String>, more: &Vec<String>)
    ensures
        texts(final(v)@) == texts(old(v)@) + texts(more@),
{
    let mut i: usize = 0;
    while i < more.len()
        invariant
            i <= more@.len(),
            texts(v@) == texts(old(v)@) + texts(more@.take(i as int)),
        decreases more@.len() - i,
    {
        let ghost before = v@;
        v.push(text_of(more[i].as_str()));
        assert(texts(v@) =~= texts(before) + seq![more@[i as int]@]);
        assert(texts(more@.take(i as int + 1)) =~= texts(more@.take(i as int)) + seq![more@[i as int]@]);
        assert(texts(v@) =~= texts(old(v)@) + texts(more@.take(i as int + 1)));
        i = i + 1;
    }
    assert(more@.take(i as int) =~= more@);
}

/// `docker exec <name> <command..>`.
pub fn exec_args(name: &str, command: &Vec<String>) -> (r: Vec<String>)
    ensures
        texts(r@) == seq!["exec"@, name@] + texts(command@),
{
    let mut v: Vec<String> = Vec::new();
    v.push(text_of("exec"));
    v.push(text_of(name));
    append_texts(&mut v, command);
    assert(texts(v@) =~= seq!["exec"@, name@] + texts(command@));
    v
}

/// `docker cp <source>/. <name>:<target>`: the trailing `/.` copies the
/// directory's contents rather than the directory.
pub fn copy_in_args(name: &str, source_dir: &str, target_dir: &str) -> (r: Vec<String>)
    ensures
        texts(r@) == seq!["cp"@, source_dir@ + "/."@, name@ + ":"@ + target_dir@],
{
    let mut source = text_of(source_dir);
    source.append("/.");
    let mut target = text_of(name);
    target.append(":");
    target.append(target_dir);
    let mut v: Vec<String> = Vec::new();
    v.push(text_of("cp"));
    v.push(source);
    v.push(target);
    assert(texts(v@) =~= seq!["cp"@, source_dir@ + "/."@, name@ + ":"@ + target_dir@]);
    v
}

/// `docker load -q -i <archive>`: loads an image archive, printing little.
pub fn load_args(archive_file: &str) -> (r: Vec<String>)
    ensures
        texts(r@) == seq!["load"@, "-q"@, "-i"@, archive_file@],
{
    let mut v: Vec<String> = Vec::new();
    v.push(text_of("load"));
    v.push(text_of("-q"));
    v.push(text_of("-i"));
    v.push(text_of(archive_file));
    assert(texts(v@) =~= seq!["load"@, "-q"@, "-i"@, archive_file@]);
    v
}

/// What the pattern `Loaded image( ID)?: (?P<tag>.*)\n` captures as `tag`
/// in the output of an image load, if it matches.
pub uninterp spec fn loaded_image_tag(stdout: Seq<char>) -> Option<Seq<char>>;

/// Relies on regex::Regex::new and Regex::captures: the group `tag` of the
/// first match of the load pattern in `stdout`.
#[verifier::external_body]
fn scrape_image_tag(stdout: &str) -> (r: Option<String>)
    ensures
        r matches Some(t) ==> loaded_image_tag(stdout@) == Some(t@),
        r is None ==> loaded_image_tag(stdout@) is None,
{
    let regex = regex::Regex::new("Loaded image( ID)?: (?P<tag>.*)\n").ok()?;
    regex.captures(stdout).and_then(|c| c.name("tag")).map(|m| m.as_str().to_string())
}

/// The image tag of a successful load, given what the load pattern captured:
/// without a capture the load is reported as a `ContainerCli` error.
pub fn tag_from_capture(out: CliOutput, captured: Option<String>) -> (r: Result<String, WorkerError>)
    ensures
        captured is Some <==> r is Ok,
        r matches Ok(t) ==> t@ == captured->Some_0@,
        r matches Err(e) ==> (e.kind matches WorkerErrorKind::ContainerCli(x, o, d) && x == out.exit && o@
            == out.stdout@ && d@ == out.stderr@),
{
    match captured {
        Some(t) => Ok(t),
        None => Err(WorkerError::new(WorkerErrorKind::ContainerCli(out.exit, out.stdout, out.stderr))),
    }
}

/// The tag of the image that a `docker load` run loaded.
pub fn load_docker_image(out: CliOutput) -> (r: Result<String, WorkerError>)
    ensures
        r is Ok <==> out.exit.spec_success() && loaded_image_tag(out.stdout@) is Some,
        r matches Ok(t) ==> Some(t@) == loaded_image_tag(out.stdout@),
        r matches Err(e) ==> (e.kind matches WorkerErrorKind::ContainerCli(x, o, d) && x == out.exit && o@
            == out.stdout@ && d@ == out.stderr@),
{
    let out = check_cli_output(out)?;
    let captured = scrape_image_tag(out.stdout.as_str());
    tag_from_capture(out, captured)
}

} // verus!
