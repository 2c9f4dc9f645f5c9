//! The per-component isolation state machine: a controller that knows how to
//! boot the component's backend, the running process (if booted) and the time
//! of last access. Booting and talking to the process are the caller's part;
//! the decisions are made here.
use vstd::prelude::*;
use vstd::string::StringExecFns;

use crate::docker::{load_docker_image, texts, CliOutput, CODE_FOLDER};
use crate::error::{WorkerError, WorkerErrorKind};
use crate::model::{ActivateRequest, ExecutionMethod};

verus! {

/// A booted component unused for longer than this is shut down: ten minutes.
pub const EXPIRY_DURATION_MS: u64 = 600000;

/// Runs a script with the host interpreter, without isolation.
#[derive(Debug)]
pub struct PythonUnsafeController {
    pub executable_file: String,
}

impl PythonUnsafeController {
    pub fn new(executable_file: String) -> (r: Result<Self, WorkerError>)
        ensures
            r matches Ok(c) && c.executable_file@ == executable_file@,
    {
        Ok(Self { executable_file })
    }
}

/// Runs a container image loaded from an archive.
#[derive(Debug)]
pub struct DockerArchiveController {
    pub docker_image_tag: String,
}

impl DockerArchiveController {
    /// A controller for the image that a finished `docker load` run loaded;
    /// refused off Linux.
    pub fn new(on_linux: bool, load: CliOutput) -> (r: Result<Self, WorkerError>)
        ensures
            !on_linux ==> (r matches Err(e) && e.kind is UnsupportedPlatform),
            on_linux ==> (r is Ok <==> load.exit.spec_success() && crate::docker::loaded_image_tag(load.stdout@) is Some),
            r matches Ok(c) ==> Some(c.docker_image_tag@) == crate::docker::loaded_image_tag(load.stdout@),
            on_linux && r is Err ==> (r matches Err(e) && e.kind is ContainerCli),
    {
        if !on_linux {
            return Err(WorkerError::new(WorkerErrorKind::UnsupportedPlatform(String::from_str("must be linux!"))));
        }
        let tag = load_docker_image(load)?;
        Ok(Self { docker_image_tag: tag })
    }
}

/// Copies a script folder into a pooled container and runs its entry point.
#[derive(Debug)]
pub struct ContainerizedScriptController {
    pub executable_file: String,
}

impl ContainerizedScriptController {
    /// A controller for the script folder `executable_file`; refused off Linux.
    pub fn new(executable_file: String, on_linux: bool) -> (r: Result<Self, WorkerError>)
        ensures
            on_linux <==> r is Ok,
            r matches Ok(c) ==> c.executable_file@ == executable_file@,
            r matches Err(e) ==> e.kind is UnsupportedPlatform,
    {
        if !on_linux {
            return Err(WorkerError::new(WorkerErrorKind::UnsupportedPlatform(String::from_str("must be linux!"))));
        }
        Ok(Self { executable_file })
    }
}

#[derive(Debug)]
pub enum IsolationController {
    PythonUnsafe(PythonUnsafeController),
    DockerArchive(DockerArchiveController),
    ContainerizedScript(ContainerizedScriptController),
}

/// How to make a controller for an activation request.
pub enum ControllerSetup {
    /// The controller is ready.
    Ready(IsolationController),
    /// Run the container CLI with these arguments (an image load), then hand
    /// its output to `DockerArchiveController::new`.
    LoadImage(Vec<String>),
}

/// Picks the controller for `req`'s execution method. Container backends are
/// refused off Linux.
pub fn controller_setup(req: &ActivateRequest, on_linux: bool) -> (r: Result<ControllerSetup, WorkerError>)
    ensures
        req.execution_method == ExecutionMethod::PythonUnsafe ==> (r matches Ok(
            ControllerSetup::Ready(IsolationController::PythonUnsafe(c)),
        ) && c.executable_file@ == req.executable_file@),
        req.execution_method != ExecutionMethod::PythonUnsafe && !on_linux ==> (r matches Err(e)
            && e.kind is UnsupportedPlatform),
        req.execution_method == ExecutionMethod::ContainerizedScript && on_linux ==> (r matches Ok(
            ControllerSetup::Ready(IsolationController::ContainerizedScript(c)),
        ) && c.executable_file@ == req.executable_file@),
        req.execution_method == ExecutionMethod::DockerArchive && on_linux ==> (r matches Ok(
            ControllerSetup::LoadImage(args),
        ) && texts(args@) == seq!["load"@, "-q"@, "-i"@, req.executable_file@]),
{
    match req.execution_method {
        ExecutionMethod::PythonUnsafe => {
            let c = PythonUnsafeController::new(req.executable_file.clone())?;
            Ok(ControllerSetup::Ready(IsolationController::PythonUnsafe(c)))
        },
        ExecutionMethod::ContainerizedScript => {
            let c = ContainerizedScriptController::new(req.executable_file.clone(), on_linux)?;
            Ok(ControllerSetup::Ready(IsolationController::ContainerizedScript(c)))
        },
        ExecutionMethod::DockerArchive => {
            if !on_linux {
                return Err(
                    WorkerError::new(WorkerErrorKind::UnsupportedPlatform(String::from_str("must be linux!"))),
                );
            }
            Ok(ControllerSetup::LoadImage(crate::docker::load_args(req.executable_file.as_str())))
        },
    }
}

/// What booting a component takes, once a fresh pipe exists at `c_in` / `c_out`.
pub enum BootPlan {
    /// Spawn this command line on the host.
    Spawn(Vec<String>),
    /// Start a container of `image`, with the pipe ends mounted, running `args`.
    RunImage { image: String, args: Vec<String> },
    /// Take a pooled container, copy `source_dir` into `target_dir` in it, and
    /// run `entry` there in the background.
    PooledScript { source_dir: String, target_dir: String, entry: Vec<String> },
}

fn text_of(s: &str) -> (r: String)
    ensures
        r@ == s@,
{
    String::from_str(s)
}

/// Whether `r` is the boot of controller `c` for a pipe at `c_in` / `c_out`.
pub open spec fn plan_for(c: IsolationController, c_in: Seq<char>, c_out: Seq<char>, r: BootPlan) -> bool {
    &&& c matches IsolationController::PythonUnsafe(ctl) ==> (r matches BootPlan::Spawn(argv) && texts(argv@)
        == seq!["python3"@, "-u"@, ctl.executable_file@, c_in, c_out])
    &&& c matches IsolationController::DockerArchive(ctl) ==> (r matches BootPlan::RunImage { image, args }
        && image@ == ctl.docker_image_tag@ && texts(args@) == seq![c_in, c_out])
    &&& c matches IsolationController::ContainerizedScript(ctl) ==> (r matches BootPlan::PooledScript {
        source_dir,
        target_dir,
        entry,
    } && source_dir@ == ctl.executable_file@ && target_dir@ == CODE_FOLDER@ && texts(entry@) == seq![
        "sh"@,
        CODE_FOLDER@ + "/start.sh"@,
        c_in,
        c_out,
    ])
}

impl IsolationController {
    /// The boot of this controller's backend for a pipe at `c_in` / `c_out`.
    pub fn boot_plan(&self, c_in: &str, c_out: &str) -> (r: BootPlan)
        ensures
            plan_for(*self, c_in@, c_out@, r),
    {
        match self {
            IsolationController::PythonUnsafe(c) => {
                let mut v: Vec<String> = Vec::new();
                v.push(text_of("python3"));
                v.push(text_of("-u"));
                v.push(text_of(c.executable_file.as_str()));
                v.push(text_of(c_in));
                v.push(text_of(c_out));
                assert(texts(v@) =~= seq!["python3"@, "-u"@, c.executable_file@, c_in@, c_out@]);
                BootPlan::Spawn(v)
            },
            IsolationController::DockerArchive(c) => {
                let mut v: Vec<String> = Vec::new();
                v.push(text_of(c_in));
                v.push(text_of(c_out));
                assert(texts(v@) =~= seq![c_in@, c_out@]);
                BootPlan::RunImage { image: text_of(c.docker_image_tag.as_str()), args: v }
            },
            IsolationController::ContainerizedScript(c) => {
                let mut script = text_of(CODE_FOLDER);
                script.append("/start.sh");
                let mut v: Vec<String> = Vec::new();
                v.push(text_of("sh"));
                v.push(script);
                v.push(text_of(c_in));
                v.push(text_of(c_out));
                assert(texts(v@) =~= seq!["sh"@, CODE_FOLDER@ + "/start.sh"@, c_in@, c_out@]);
                BootPlan::PooledScript {
                    source_dir: text_of(c.executable_file.as_str()),
                    target_dir: text_of(CODE_FOLDER),
                    entry: v,
                }
            },
        }
    }
}

/// A process that has already exited cannot be queried.
pub fn check_running(exit: Option<crate::error::ExitCode>) -> (r: Result<(), WorkerError>)
    ensures
        exit is None <==> r is Ok,
        r matches Err(e) ==> e.kind == WorkerErrorKind::SubprocessTerminated(exit->Some_0),
{
    match exit {
        None => Ok(()),
        Some(code) => Err(WorkerError::new(WorkerErrorKind::SubprocessTerminated(code))),
    }
}

/// Whether a component last used at `last` is idle for too long at `now`.
pub open spec fn expired(last: u64, now: u64) -> bool {
    now as int - last as int > EXPIRY_DURATION_MS as int
}

/// The state of a wrapper: its process, if booted, and when it was last used.
pub struct WrapperState<H> {
    pub process: Option<H>,
    pub last_accessed_ms: u64,
}

/// A query begins at `now`: the access time moves and the running process,
/// if any, is handed to the caller.
pub open spec fn begin_spec<H>(s: WrapperState<H>, now: u64) -> (WrapperState<H>, Option<H>) {
    (WrapperState { process: None, last_accessed_ms: now }, s.process)
}

/// A query ends: a process that answered is kept for the next query; one
/// that failed is dropped, so that the next query boots a fresh one.
pub open spec fn finish_spec<H>(s: WrapperState<H>, h: H, ok: bool) -> WrapperState<H> {
    WrapperState { process: if ok { Some(h) } else { None }, last_accessed_ms: s.last_accessed_ms }
}

/// A heartbeat at `now` drops a process idle for too long.
pub open spec fn heartbeat_spec<H>(s: WrapperState<H>, now: u64) -> WrapperState<H> {
    if s.process is Some && expired(s.last_accessed_ms, now) {
        WrapperState { process: None, last_accessed_ms: s.last_accessed_ms }
    } else {
        s
    }
}

/// The isolation wrapper of one component, over the type `H` of its running
/// process. Dropping an `H` must stop the process.
pub struct IsolatedProcessWrapper<H> {
    isolation_controller: IsolationController,
    process_handle: Option<H>,
    last_accessed_ms: u64,
}

impl<H> IsolatedProcessWrapper<H> {
    pub closed spec fn state(&self) -> WrapperState<H> {
        WrapperState { process: self.process_handle, last_accessed_ms: self.last_accessed_ms }
    }

    pub closed spec fn controller(&self) -> IsolationController {
        self.isolation_controller
    }

    /// A wrapper around `controller`, not booted, last used at `now_ms`.
    pub fn new(controller: IsolationController, now_ms: u64) -> (r: Self)
        ensures
            r.state() == (WrapperState::<H> { process: None, last_accessed_ms: now_ms }),
            r.controller() == controller,
    {
        Self { isolation_controller: controller, process_handle: None, last_accessed_ms: now_ms }
    }

    pub fn is_booted(&self) -> (r: bool)
        ensures
            r == self.state().process is Some,
    {
        self.process_handle.is_some()
    }

    /// Starts a query at `now_ms`. Returns the running process, to be queried
    /// and handed back to `finish_query`; `None` means that the caller boots a
    /// process by `boot_plan` first (a failed boot leaves the wrapper unbooted).
    pub fn begin_query(&mut self, now_ms: u64) -> (r: Option<H>)
        ensures
            (final(self).state(), r) == begin_spec(old(self).state(), now_ms),
            final(self).controller() == old(self).controller(),
    {
        self.last_accessed_ms = now_ms;
        let mut taken: Option<H> = None;
        std::mem::swap(&mut self.process_handle, &mut taken);
        taken
    }

    /// Whether a boot takes a pooled container, whose own pipe is then used.
    pub fn boots_in_pool(&self) -> (r: bool)
        ensures
            r == self.controller() is ContainerizedScript,
    {
        match &self.isolation_controller {
            IsolationController::ContainerizedScript(_) => true,
            _ => false,
        }
    }

    /// The boot of this wrapper's backend for a pipe at `c_in` / `c_out`.
    pub fn boot_plan(&self, c_in: &str, c_out: &str) -> (r: BootPlan)
        ensures
            plan_for(self.controller(), c_in@, c_out@, r),
    {
        self.isolation_controller.boot_plan(c_in, c_out)
    }

    /// Ends a query on process `h` with `outcome`, which is returned. On
    /// failure the process is dropped (and so stopped).
    pub fn finish_query(&mut self, h: H, outcome: Result<String, WorkerError>) -> (r: Result<String, WorkerError>)
        ensures
            final(self).state() == finish_spec(old(self).state(), h, outcome is Ok),
            final(self).controller() == old(self).controller(),
            r == outcome,
    {
        if outcome.is_ok() {
            self.process_handle = Some(h);
        } else {
            self.process_handle = None;
        }
        outcome
    }

    /// Called periodically: stops a process idle for longer than the expiry.
    pub fn heartbeat(&mut self, now_ms: u64)
        ensures
            final(self).state() == heartbeat_spec(old(self).state(), now_ms),
            final(self).controller() == old(self).controller(),
    {
        if self.process_handle.is_none() {
            return;
        }
        if now_ms > self.last_accessed_ms && now_ms - self.last_accessed_ms > EXPIRY_DURATION_MS {
            self.process_handle = None;
        }
    }
}

/// Warm reuse: a process that answered a query is handed out again by the
/// next query, so no new process is booted.
pub proof fn lemma_warm_reuse<H>(s: WrapperState<H>, h: H, t1: u64, t2: u64)
    ensures
        begin_spec(finish_spec(begin_spec(s, t1).0, h, true), t2).1 == Some(h),
{
}

/// Cold start: a fresh or evicted wrapper has no process, so the next query boots.
pub proof fn lemma_cold_start<H>(t0: u64, t1: u64)
    ensures
        begin_spec(WrapperState::<H> { process: None, last_accessed_ms: t0 }, t1).1 is None,
{
}

/// Crash recovery: a query that failed (for instance because the process had
/// exited) drops the process, so the following query boots a fresh one; once
/// that one answers, it is kept.
pub proof fn lemma_crash_recovery<H>(s: WrapperState<H>, h: H, fresh: H, t1: u64, t2: u64, t3: u64)
    ensures
        ({
            let after_failure = finish_spec(begin_spec(s, t1).0, h, false);
            let (during, handed) = begin_spec(after_failure, t2);
            &&& handed is None
            &&& finish_spec(during, fresh, true).process == Some(fresh)
            &&& begin_spec(finish_spec(during, fresh, true), t3).1 == Some(fresh)
        }),
{
}

/// Idle eviction: a heartbeat more than the expiry after the last access
/// leaves the wrapper unbooted, so the next query boots; a heartbeat within
/// the expiry keeps the process.
pub proof fn lemma_idle_eviction<H>(s: WrapperState<H>, now: u64, later: u64)
    ensures
        expired(s.last_accessed_ms, now) ==> heartbeat_spec(s, now).process is None && begin_spec(
            heartbeat_spec(s, now),
            later,
        ).1 is None,
        !expired(s.last_accessed_ms, now) ==> heartbeat_spec(s, now) == s,
{
}

} // verus!
