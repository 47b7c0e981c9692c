//! The one process slot: its running flag, the handle of the launched node,
//! and what each start and stop decides and writes to the log.
use vstd::prelude::*;
use vstd::string::*;

use crate::log_store::{logged_line, LogStore};
use crate::model::NodeConfig;
use crate::text::{concat_str, decimal, decimal_string, str_debug, str_debug_of};

verus! {

/// Why a start or a stop of the node failed.
#[derive(Debug, Clone, PartialEq, Eq)]
pub enum NodeError {
    ExecutableNotFound,
    AlreadyRunning,
    DbDirFailed(String),
    SpawnFailed(String),
    KillFailed(String),
    NoRunningProcess,
}

/// The text reported for each failure.
pub open spec fn node_error_text(e: NodeError) -> Seq<char> {
    match e {
        NodeError::ExecutableNotFound => "OpenHash executable not found. Please download it first."@,
        NodeError::AlreadyRunning => "Node is already running"@,
        NodeError::DbDirFailed(d) => "Failed to create default DB directory: "@ + d@,
        NodeError::SpawnFailed(d) => "Failed to start process: "@ + d@,
        NodeError::KillFailed(d) => "Failed to stop process: "@ + d@,
        NodeError::NoRunningProcess => "No running process found"@,
    }
}

impl NodeError {
    /// The failure as text.
    pub fn message(&self) -> (r: String)
        ensures
            r@ == node_error_text(*self),
    {
        match self {
            NodeError::ExecutableNotFound => String::from_str(
                "OpenHash executable not found. Please download it first.",
            ),
            NodeError::AlreadyRunning => String::from_str("Node is already running"),
            NodeError::DbDirFailed(d) => concat_str(
                "Failed to create default DB directory: ",
                d.as_str(),
            ),
            NodeError::SpawnFailed(d) => concat_str("Failed to start process: ", d.as_str()),
            NodeError::KillFailed(d) => concat_str("Failed to stop process: ", d.as_str()),
            NodeError::NoRunningProcess => String::from_str("No running process found"),
        }
    }
}

/// What a start decides before anything is launched: the executable must
/// exist, and the slot must be neither running nor already starting.
pub open spec fn start_check(running: bool, starting: bool, executable_exists: bool) -> Result<
    (),
    NodeError,
> {
    if !executable_exists {
        Err(NodeError::ExecutableNotFound)
    } else if running || starting {
        Err(NodeError::AlreadyRunning)
    } else {
        Ok(())
    }
}

/// The configuration as written to the log, in the shape of Rust's debug
/// rendering of the struct; `quoted_db_path` is the configured path quoted.
pub open spec fn config_text(c: NodeConfig, quoted_db_path: Seq<char>) -> Seq<char> {
    "NodeConfig { db_path: "@ + quoted_db_path + ", api_port: "@ + decimal(c.api_port as nat)
        + ", p2p_port: "@ + decimal(c.p2p_port as nat) + " }"@
}

/// The log line written when a launch begins, with the configuration and the
/// database directory actually used.
pub open spec fn starting_text(c: NodeConfig, quoted_db_path: Seq<char>, db_path: Seq<char>) -> Seq<
    char,
> {
    "Starting OpenHash node with config: "@ + config_text(c, quoted_db_path) + ", DB Path: "@
        + db_path
}

/// Builds the launch line from the configuration, its path already quoted,
/// and the database directory used.
pub fn starting_line(config: &NodeConfig, quoted_db_path: &str, db_path: &str) -> (r: String)
    ensures
        r@ == starting_text(*config, quoted_db_path@, db_path@),
{
    let mut line = String::from_str("Starting OpenHash node with config: NodeConfig { db_path: ");
    line.append(quoted_db_path);
    line.append(", api_port: ");
    line.append(decimal_string(config.api_port as u64).as_str());
    line.append(", p2p_port: ");
    line.append(decimal_string(config.p2p_port as u64).as_str());
    line.append(" }, DB Path: ");
    line.append(db_path);
    proof {
        reveal_strlit("Starting OpenHash node with config: NodeConfig { db_path: ");
        reveal_strlit("Starting OpenHash node with config: ");
        reveal_strlit("NodeConfig { db_path: ");
        reveal_strlit(" }, DB Path: ");
        reveal_strlit(" }");
        reveal_strlit(", DB Path: ");
        assert(line@ =~= starting_text(*config, quoted_db_path@, db_path@));
    }
    line
}

/// The command-line arguments of the daemon.
pub open spec fn daemon_args_of(c: NodeConfig, db_path: Seq<char>) -> Seq<Seq<char>> {
    seq![
        "daemon"@,
        "--api-port"@,
        decimal(c.api_port as nat),
        "--db"@,
        db_path,
        "--p2p-port"@,
        decimal(c.p2p_port as nat),
    ]
}

/// The arguments the daemon is launched with:
/// `daemon --api-port <port> --db <path> --p2p-port <port>`.
pub fn daemon_args(config: &NodeConfig, db_path: &str) -> (r: Vec<String>)
    ensures
        r@.map_values(|a: String| a@) == daemon_args_of(*config, db_path@),
{
    let mut r: Vec<String> = Vec::new();
    r.push(String::from_str("daemon"));
    r.push(String::from_str("--api-port"));
    r.push(decimal_string(config.api_port as u64));
    r.push(String::from_str("--db"));
    r.push(String::from_str(db_path));
    r.push(String::from_str("--p2p-port"));
    r.push(decimal_string(config.p2p_port as u64));
    assert(r@.map_values(|a: String| a@) =~= daemon_args_of(*config, db_path@));
    r
}

/// The database directory used for a launch: the configured one, or
/// `default_path` when none is configured.
pub fn effective_db_path(config: &NodeConfig, default_path: &str) -> (r: String)
    ensures
        r@ == (if config.db_path@.len() == 0 { default_path@ } else { config.db_path@ }),
{
    if config.db_path.as_str().is_empty() {
        String::from_str(default_path)
    } else {
        config.db_path.clone()
    }
}

/// Which output stream of the node a line came from.
#[derive(Debug, Clone, Copy, PartialEq, Eq)]
pub enum OutputStream {
    Stdout,
    Stderr,
}

/// The log line for one line of the node's output.
pub open spec fn output_text(stream: OutputStream, line: Seq<char>) -> Seq<char> {
    match stream {
        OutputStream::Stdout => "STDOUT: "@ + line,
        OutputStream::Stderr => "STDERR: "@ + line,
    }
}

/// The log line for one line of the node's output, marked with its stream.
pub fn output_line_message(stream: OutputStream, line: &str) -> (r: String)
    ensures
        r@ == output_text(stream, line@),
{
    match stream {
        OutputStream::Stdout => concat_str("STDOUT: ", line),
        OutputStream::Stderr => concat_str("STDERR: ", line),
    }
}

/// What one read of an output stream gave.
pub enum ReadOutcome {
    Line(String),
    Failed,
    Ended,
}

/// One step of an output reader: a line read is logged, marked with its
/// stream, and reading goes on (while the running flag stays set, which the
/// reader checks next); a failed read or the end of the stream ends the
/// reader, writing nothing.
pub fn reader_step(logs: &mut LogStore, stream: OutputStream, outcome: ReadOutcome) -> (r: bool)
    requires
        old(logs).wf(),
    ensures
        final(logs).wf(),
        match outcome {
            ReadOutcome::Line(l) => r && logged_line(old(logs)@, final(logs)@, output_text(stream, l@)),
            _ => !r && final(logs)@ == old(logs)@,
        },
{
    match outcome {
        ReadOutcome::Line(l) => {
            let text = output_line_message(stream, l.as_str());
            logs.add_log_entry(text.as_str());
            true
        },
        _ => false,
    }
}

/// The operations that change the slot, for stating what the running flag
/// is after any sequence of them.
pub enum SlotOp {
    /// `begin_start`.
    BeginStart,
    /// `abandon_start`.
    Abandon,
    /// `record_launch`, with whether the launch succeeded.
    Launch(bool),
    /// `take_for_stop`.
    Stop,
}

/// The running flag after one operation.
pub open spec fn running_after_op(running: bool, op: SlotOp) -> bool {
    match op {
        SlotOp::Stop => false,
        SlotOp::Launch(true) => true,
        _ => running,
    }
}

/// The running flag after each of `ops` in turn.
pub open spec fn running_after(running: bool, ops: Seq<SlotOp>) -> bool
    decreases ops.len(),
{
    if ops.len() == 0 {
        running
    } else {
        running_after_op(running_after(running, ops.drop_last()), ops.last())
    }
}

/// Once the node is running, the flag stays set through any operations that
/// hold no stop; after a stop that no successful launch follows, it is clear.
pub proof fn lemma_running_until_stop(running: bool, ops: Seq<SlotOp>)
    ensures
        running && (forall|i: int| 0 <= i < ops.len() ==> !(#[trigger] ops[i] is Stop))
            ==> running_after(running, ops),
        forall|k: int|
            0 <= k < ops.len() && ops[k] is Stop && (forall|i: int|
                k < i < ops.len() ==> !(#[trigger] ops[i] == SlotOp::Launch(true)))
                ==> !running_after(running, ops),
    decreases ops.len(),
{
    if ops.len() > 0 {
        let p = ops.drop_last();
        lemma_running_until_stop(running, p);
        assert forall|i: int| 0 <= i < p.len() implies p[i] == ops[i] by {}
        assert forall|k: int|
            0 <= k < ops.len() && ops[k] is Stop && (forall|i: int|
                k < i < ops.len() ==> !(#[trigger] ops[i] == SlotOp::Launch(true)))
                implies !running_after(running, ops) by {
            if k < ops.len() - 1 {
                assert(p[k] is Stop);
                assert(forall|i: int| k < i < p.len() ==> p[i] == ops[i]);
                assert(!(ops[ops.len() - 1] == SlotOp::Launch(true)));
            }
        }
        if running && (forall|i: int| 0 <= i < ops.len() ==> !(#[trigger] ops[i] is Stop)) {
            assert(!(ops[ops.len() - 1] is Stop));
        }
    }
}

/// The node's slot: at most one launched process, the running flag that
/// tells the output readers whether to go on, and whether a launch is under
/// way. The flag records what was asked of the slot, not whether the OS
/// process is alive: a node that exits by itself stays marked as running
/// until it is stopped.
pub struct Supervisor<P> {
    running: bool,
    starting: bool,
    process: Option<P>,
}

impl<P> Supervisor<P> {
    /// The running flag.
    pub closed spec fn running(&self) -> bool {
        self.running
    }

    /// Whether a launch was allowed and its outcome not yet recorded.
    pub closed spec fn starting(&self) -> bool {
        self.starting
    }

    /// The handle of the tracked process, if any.
    pub closed spec fn handle(&self) -> Option<P> {
        self.process
    }

    /// A tracked process is always marked as running, and none is tracked
    /// while a launch is under way.
    pub closed spec fn wf(&self) -> bool {
        &&& self.process is Some ==> self.running
        &&& self.starting ==> self.process is None
    }

    /// An idle slot.
    pub fn new() -> (r: Supervisor<P>)
        ensures
            r.wf(),
            !r.running(),
            !r.starting(),
            r.handle() is None,
    {
        Supervisor { running: false, starting: false, process: None }
    }

    /// The running flag, as last set by a start or a stop.
    pub fn is_running(&self) -> (r: bool)
        ensures
            r == self.running(),
    {
        self.running
    }

    /// Decides whether a launch may go ahead; if so the slot is marked as
    /// starting, so that no other start goes ahead until the outcome is
    /// recorded by `record_launch` or `abandon_start`.
    pub fn begin_start(&mut self, executable_exists: bool) -> (r: Result<(), NodeError>)
        requires
            old(self).wf(),
        ensures
            final(self).wf(),
            r == start_check(old(self).running(), old(self).starting(), executable_exists),
            final(self).running() == running_after_op(old(self).running(), SlotOp::BeginStart),
            final(self).handle() == old(self).handle(),
            final(self).starting() == (r is Ok || old(self).starting()),
    {
        if !executable_exists {
            Err(NodeError::ExecutableNotFound)
        } else if self.running || self.starting {
            Err(NodeError::AlreadyRunning)
        } else {
            self.starting = true;
            Ok(())
        }
    }

    /// Gives up a start that `begin_start` allowed, before anything was
    /// launched.
    pub fn abandon_start(&mut self)
        requires
            old(self).wf(),
        ensures
            final(self).wf(),
            !final(self).starting(),
            final(self).running() == running_after_op(old(self).running(), SlotOp::Abandon),
            final(self).handle() == old(self).handle(),
    {
        self.starting = false;
    }

    /// Takes the outcome of a launch that `begin_start` allowed. On success the
    /// process is tracked, the flag is set, and the log restarts with the
    /// launch's settings and a success line; on failure only the failure is
    /// logged. Either way the start is over.
    pub fn record_launch(
        &mut self,
        logs: &mut LogStore,
        config: &NodeConfig,
        db_path: &str,
        launched: Result<P, String>,
    ) -> (r: Result<bool, NodeError>)
        requires
            old(self).wf(),
            old(self).starting(),
            old(logs).wf(),
        ensures
            final(self).wf(),
            final(logs).wf(),
            !final(self).starting(),
            final(self).running() == running_after_op(old(self).running(), SlotOp::Launch(launched is Ok)),
            match launched {
                Ok(p) => {
                    &&& r == Ok::<bool, NodeError>(true)
                    &&& final(self).handle() == Some(p)
                    &&& exists|mid: Seq<Seq<char>>|
                        logged_line(Seq::<Seq<char>>::empty(), mid, starting_text(*config, str_debug_of(config.db_path@), db_path@))
                            && logged_line(mid, final(logs)@, "OpenHash node started successfully"@)
                },
                Err(e) => {
                    &&& r == Err::<bool, NodeError>(NodeError::SpawnFailed(e))
                    &&& final(self).handle() == old(self).handle()
                    &&& logged_line(old(logs)@, final(logs)@, node_error_text(NodeError::SpawnFailed(e)))
                },
            },
    {
        self.starting = false;
        match launched {
            Ok(p) => {
                self.running = true;
                self.process = Some(p);
                logs.clear();
                let quoted = str_debug(config.db_path.as_str());
                let line = starting_line(config, quoted.as_str(), db_path);
                logs.add_log_entry(line.as_str());
                let ghost mid = logs@;
                logs.add_log_entry("OpenHash node started successfully");
                assert(logged_line(Seq::<Seq<char>>::empty(), mid, starting_text(*config, str_debug_of(config.db_path@), db_path@)));
                Ok(true)
            },
            Err(e) => {
                let err = NodeError::SpawnFailed(e);
                let text = err.message();
                logs.add_log_entry(text.as_str());
                Err(err)
            },
        }
    }

    /// First half of a stop: clears the running flag, so that the output
    /// readers end, and hands over the tracked process, if any.
    pub fn take_for_stop(&mut self) -> (r: Option<P>)
        requires
            old(self).wf(),
        ensures
            final(self).wf(),
            final(self).running() == running_after_op(old(self).running(), SlotOp::Stop),
            final(self).starting() == old(self).starting(),
            final(self).handle() is None,
            r == old(self).handle(),
    {
        self.running = false;
        self.process.take()
    }
}

/// While a process is tracked or a launch is under way, no start goes ahead:
/// with the executable in place it is refused as already running.
pub proof fn lemma_busy_slot_blocks_start<P>(s: Supervisor<P>, executable_exists: bool)
    requires
        s.wf(),
        s.handle() is Some || s.starting(),
    ensures
        start_check(s.running(), s.starting(), executable_exists) is Err,
        executable_exists ==> start_check(s.running(), s.starting(), executable_exists) == Err::<
            (),
            NodeError,
        >(NodeError::AlreadyRunning),
{
}

/// Of two starts, whatever the slot's state, at most one goes ahead: once one
/// has, the slot is starting, and the other is refused as already running.
pub proof fn lemma_at_most_one_start_proceeds(running: bool, starting: bool, exists_now: bool, exists_later: bool)
    ensures
        start_check(running, starting, exists_now) is Ok ==> start_check(running, true, exists_later)
            is Err,
        start_check(running, starting, exists_now) is Ok && exists_later ==> start_check(
            running,
            true,
            exists_later,
        ) == Err::<(), NodeError>(NodeError::AlreadyRunning),
{
}

/// Of two starts on an idle slot, whichever comes first goes ahead and marks
/// the slot as starting; the other, coming while it starts or after it has
/// launched the node, is refused as already running.
pub proof fn lemma_second_start_refused<P>(idle: Supervisor<P>, after_first: Supervisor<P>)
    requires
        idle.wf(),
        !idle.running(),
        !idle.starting(),
        after_first.running() || after_first.starting(),
    ensures
        start_check(idle.running(), idle.starting(), true) is Ok,
        start_check(after_first.running(), after_first.starting(), true) == Err::<(), NodeError>(
            NodeError::AlreadyRunning,
        ),
{
}

/// What a stop reports, given what `kill` gave for the process that
/// `take_for_stop` handed over (`None` when there was none).
pub open spec fn stop_outcome(kill: Option<Result<(), String>>) -> Result<bool, NodeError> {
    match kill {
        None => Err(NodeError::NoRunningProcess),
        Some(Ok(())) => Ok(true),
        Some(Err(e)) => Err(NodeError::KillFailed(e)),
    }
}

/// The log line a stop writes.
pub open spec fn stop_text(kill: Option<Result<(), String>>) -> Seq<char> {
    match stop_outcome(kill) {
        Ok(_) => "OpenHash node stopped"@,
        Err(e) => node_error_text(e),
    }
}

/// Second half of a stop: reports and logs the outcome.
pub fn finish_stop(logs: &mut LogStore, kill: Option<Result<(), String>>) -> (r: Result<
    bool,
    NodeError,
>)
    requires
        old(logs).wf(),
    ensures
        final(logs).wf(),
        r == stop_outcome(kill),
        logged_line(old(logs)@, final(logs)@, stop_text(kill)),
{
    let ghost k = kill;
    match kill {
        None => {
            let err = NodeError::NoRunningProcess;
            let text = err.message();
            assert(text@ == stop_text(k));
            logs.add_log_entry(text.as_str());
            Err(err)
        },
        Some(Ok(())) => {
            assert("OpenHash node stopped"@ == stop_text(k));
            logs.add_log_entry("OpenHash node stopped");
            Ok(true)
        },
        Some(Err(e)) => {
            let err = NodeError::KillFailed(e);
            let text = err.message();
            assert(text@ == stop_text(k));
            logs.add_log_entry(text.as_str());
            Err(err)
        },
    }
}

} // verus!
