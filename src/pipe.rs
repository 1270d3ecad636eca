use vstd::prelude::*;

verus! {

/// Size of the diagnostics pipe's buffers in each direction.
pub const IPC_PIPE_BUFFER_SIZE: u32 = 1024;

/// The path of a named pipe: `\\.\pipe\` followed by its name.
pub open spec fn spec_pipe_path(name: Seq<char>) -> Seq<char> {
    seq!['\\', '\\', '.', '\\', 'p', 'i', 'p', 'e', '\\'] + name
}

/// The path of the named pipe `name`.
pub fn pipe_path(name: &str) -> (r: String)
    ensures
        r@ == spec_pipe_path(name@),
{
    proof {
        reveal_strlit("\\\\.\\pipe\\");
    }
    let mut r = String::from_str("\\\\.\\pipe\\");
    r.append(name);
    proof {
        assert(r@ =~= spec_pipe_path(name@));
    }
    r
}

/// Whether `b` is one complete message: text with no NUL, ended by a NUL.
pub open spec fn is_message(b: Seq<u8>) -> bool {
    &&& b.len() > 0
    &&& b.last() == 0
    &&& forall|i: int| 0 <= i < b.len() - 1 ==> b[i] != 0
}

/// The text of a message the hook wrote to the pipe: the bytes before its
/// terminating NUL; `None` when `b` is not one complete message.
pub fn message_body(b: &[u8]) -> (r: Option<Vec<u8>>)
    ensures
        match r {
            Some(body) => is_message(b@) && body@ == b@.drop_last(),
            None => !is_message(b@),
        },
{
    let n = b.len();
    if n == 0 || b[n - 1] != 0 {
        return None;
    }
    let mut body: Vec<u8> = Vec::new();
    let mut i: usize = 0;
    while i < n - 1
        invariant
            n == b@.len(),
            n > 0,
            i <= n - 1,
            body@ == b@.subrange(0, i as int),
            forall|j: int| 0 <= j < i ==> b@[j] != 0,
        decreases n - 1 - i,
    {
        if b[i] == 0 {
            return None;
        }
        body.push(b[i]);
        proof {
            assert(b@.subrange(0, i + 1) =~= b@.subrange(0, i as int).push(b@[i as int]));
        }
        i = i + 1;
    }
    proof {
        assert(b@.subrange(0, (n - 1) as int) =~= b@.drop_last());
    }
    Some(body)
}


/// Where the reader of the diagnostics pipe stands.
#[derive(Debug, Clone, Copy, PartialEq, Eq, Structural)]
pub enum PipeStage {
    Idle,
    Connecting,
    AwaitingClient,
    Reading,
    AwaitingData,
    Collecting,
    Logging,
    Stopped,
}

/// What the reader's environment reports.
#[derive(Debug)]
pub enum PipeEvent {
    /// The reader starts.
    Start,
    /// Whether connecting to a client succeeded or is pending.
    Connected(bool),
    /// Whether the wait on the pipe's event ended with the event signalled.
    Waited(bool),
    /// Whether the read succeeded or is pending.
    ReadIssued(bool),
    /// The bytes the read delivered; `None` if it failed.
    Collected(Option<Vec<u8>>),
    /// The message was logged.
    Logged,
}

/// The next step of the pipe reader.
#[derive(Debug)]
pub enum PipeAction {
    /// Start waiting for a client to connect.
    Connect,
    /// Wait for the pipe's event.
    Wait,
    /// Start reading a message.
    Read,
    /// Take the result of the read.
    Collect,
    /// Log a message: its text, or `None` if it was not one complete message.
    Log(Option<Vec<u8>>),
    /// Stop reading.
    Stop,
}

/// Whether the event answers the step the reader waits for.
pub open spec fn pipe_answers(stage: PipeStage, e: PipeEvent) -> bool {
    match e {
        PipeEvent::Start => stage is Idle,
        PipeEvent::Connected(_) => stage is Connecting,
        PipeEvent::Waited(_) => stage is AwaitingClient || stage is AwaitingData,
        PipeEvent::ReadIssued(_) => stage is Reading,
        PipeEvent::Collected(_) => stage is Collecting,
        PipeEvent::Logged => stage is Logging,
    }
}

/// Reading goes on while the reader is asked to run; else it stops.
pub open spec fn read_or_stop(running: bool, next: PipeStage, a: PipeAction) -> bool {
    if running {
        next is Reading && a is Read
    } else {
        next is Stopped && a is Stop
    }
}

/// One step of the pipe reader, from `stage` and event `e`, with `running`
/// the reader's flag, to stage `next` and action `a`. Any failure stops it.
pub open spec fn pipe_post(stage: PipeStage, e: PipeEvent, running: bool, next: PipeStage, a: PipeAction) -> bool {
    match e {
        PipeEvent::Start => next is Connecting && a is Connect,
        PipeEvent::Connected(ok) => if ok {
            next is AwaitingClient && a is Wait
        } else {
            next is Stopped && a is Stop
        },
        PipeEvent::Waited(ok) => if !ok {
            next is Stopped && a is Stop
        } else if stage is AwaitingClient {
            read_or_stop(running, next, a)
        } else {
            next is Collecting && a is Collect
        },
        PipeEvent::ReadIssued(ok) => if ok {
            next is AwaitingData && a is Wait
        } else {
            next is Stopped && a is Stop
        },
        PipeEvent::Collected(got) => match got {
            Some(b) => if b@.len() > 0 {
                &&& next is Logging
                &&& match a {
                    PipeAction::Log(Some(body)) => is_message(b@) && body@ == b@.drop_last(),
                    PipeAction::Log(None) => !is_message(b@),
                    _ => false,
                }
            } else {
                next is Stopped && a is Stop
            },
            None => next is Stopped && a is Stop,
        },
        PipeEvent::Logged => read_or_stop(running, next, a),
    }
}

/// The reader of the diagnostics pipe: it waits for the hook to connect,
/// then reads one message at a time and has it logged, until a step fails
/// or it is asked to stop.
pub struct PipeReader {
    pub stage: PipeStage,
}

impl PipeReader {
    pub fn new() -> (r: PipeReader)
        ensures
            r.stage is Idle,
    {
        PipeReader { stage: PipeStage::Idle }
    }

    /// Decides the reader's next step; `running` is its stop flag, read
    /// before each new read. It never reads once the flag is cleared.
    pub fn step(&mut self, event: PipeEvent, running: bool) -> (a: PipeAction)
        requires
            pipe_answers(old(self).stage, event),
        ensures
            pipe_post(old(self).stage, event, running, final(self).stage, a),
            a is Read ==> running,
    {
        match event {
            PipeEvent::Start => {
                self.stage = PipeStage::Connecting;
                PipeAction::Connect
            },
            PipeEvent::Connected(ok) => if ok {
                self.stage = PipeStage::AwaitingClient;
                PipeAction::Wait
            } else {
                self.stop()
            },
            PipeEvent::Waited(ok) => if !ok {
                self.stop()
            } else if let PipeStage::AwaitingClient = self.stage {
                self.read_or_stop(running)
            } else {
                self.stage = PipeStage::Collecting;
                PipeAction::Collect
            },
            PipeEvent::ReadIssued(ok) => if ok {
                self.stage = PipeStage::AwaitingData;
                PipeAction::Wait
            } else {
                self.stop()
            },
            PipeEvent::Collected(got) => match got {
                Some(b) => if b.len() > 0 {
                    self.stage = PipeStage::Logging;
                    PipeAction::Log(message_body(b.as_slice()))
                } else {
                    self.stop()
                },
                None => self.stop(),
            },
            PipeEvent::Logged => self.read_or_stop(running),
        }
    }

    fn stop(&mut self) -> (a: PipeAction)
        ensures
            final(self).stage is Stopped,
            a is Stop,
    {
        self.stage = PipeStage::Stopped;
        PipeAction::Stop
    }

    fn read_or_stop(&mut self, running: bool) -> (a: PipeAction)
        ensures
            read_or_stop(running, final(self).stage, a),
    {
        if running {
            self.stage = PipeStage::Reading;
            PipeAction::Read
        } else {
            self.stop()
        }
    }
}

} // verus!
