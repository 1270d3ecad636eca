use vstd::prelude::*;

verus! {

/// Event the hook signals when it (re)publishes its texture; also used to
/// ask an already-present hook to restart.
pub const EVENT_CAPTURE_RESTART: &'static str = "CaptureHook_Restart";

/// Event driven by the hook when the capture stops.
pub const EVENT_CAPTURE_STOP: &'static str = "CaptureHook_Stop";

/// Event the hook signals once its shared texture is ready.
pub const EVENT_HOOK_READY: &'static str = "CaptureHook_HookReady";

/// Event the hook signals when it exits.
pub const EVENT_HOOK_EXIT: &'static str = "CaptureHook_Exit";

/// Event the client signals to make the hook build its shared texture.
pub const EVENT_HOOK_INIT: &'static str = "CaptureHook_Initialize";

/// Mutex whose existence tells the hook that a client is attached.
pub const WINDOW_HOOK_KEEPALIVE: &'static str = "CaptureHook_KeepAlive";

/// Reserved for a multi-buffered texture swap.
pub const MUTEX_TEXTURE1: &'static str = "CaptureHook_TextureMutex1";

/// Reserved for a multi-buffered texture swap.
pub const MUTEX_TEXTURE2: &'static str = "CaptureHook_TextureMutex2";

/// File mapping that holds the shared control block.
pub const SHMEM_HOOK_INFO: &'static str = "CaptureHook_HookInfo";

/// File mapping that holds the shared texture handle.
pub const SHMEM_TEXTURE: &'static str = "CaptureHook_Texture";

/// Pipe on which the hook writes its diagnostics.
pub const PIPE_NAME: &'static str = "CaptureHook_Pipe";

/// The character of a decimal digit.
pub open spec fn digit_char(d: nat) -> char {
    if d == 0 {
        '0'
    } else if d == 1 {
        '1'
    } else if d == 2 {
        '2'
    } else if d == 3 {
        '3'
    } else if d == 4 {
        '4'
    } else if d == 5 {
        '5'
    } else if d == 6 {
        '6'
    } else if d == 7 {
        '7'
    } else if d == 8 {
        '8'
    } else {
        '9'
    }
}

/// The decimal text of a natural number: no sign, no leading zeros.
pub open spec fn decimal(n: nat) -> Seq<char>
    decreases n,
{
    if n < 10 {
        seq![digit_char(n)]
    } else {
        decimal(n / 10).push(digit_char(n % 10))
    }
}

/// The name of a per-process object: its prefix followed by the process id.
pub open spec fn per_process_name(prefix: Seq<char>, pid: u32) -> Seq<char> {
    prefix + decimal(pid as nat)
}

/// The name of the texture mapping the hook publishes for a window and map id.
pub open spec fn texture_name(window: u32, map_id: u32) -> Seq<char> {
    SHMEM_TEXTURE@ + seq!['_'] + decimal(window as nat) + seq!['_'] + decimal(map_id as nat)
}

fn digit_str(d: u32) -> (r: &'static str)
    requires
        d < 10,
    ensures
        r@ == seq![digit_char(d as nat)],
{
    if d == 0 {
        proof { reveal_strlit("0"); }
        "0"
    } else if d == 1 {
        proof { reveal_strlit("1"); }
        "1"
    } else if d == 2 {
        proof { reveal_strlit("2"); }
        "2"
    } else if d == 3 {
        proof { reveal_strlit("3"); }
        "3"
    } else if d == 4 {
        proof { reveal_strlit("4"); }
        "4"
    } else if d == 5 {
        proof { reveal_strlit("5"); }
        "5"
    } else if d == 6 {
        proof { reveal_strlit("6"); }
        "6"
    } else if d == 7 {
        proof { reveal_strlit("7"); }
        "7"
    } else if d == 8 {
        proof { reveal_strlit("8"); }
        "8"
    } else {
        proof { reveal_strlit("9"); }
        "9"
    }
}

/// Appends the decimal text of `n` to `s`.
pub fn push_decimal(s: &mut String, n: u32)
    ensures
        final(s)@ == old(s)@ + decimal(n as nat),
    decreases n,
{
    if n >= 10 {
        push_decimal(s, n / 10);
    }
    let d = digit_str(n % 10);
    s.append(d);
    proof {
        if n < 10 {
            assert(n % 10 == n);
        }
        assert(final(s)@ =~= old(s)@ + decimal(n as nat));
    }
}

/// The decimal text of `n`.
pub fn decimal_string(n: u32) -> (r: String)
    ensures
        r@ == decimal(n as nat),
{
    let mut s = String::new();
    push_decimal(&mut s, n);
    proof {
        assert(s@ =~= decimal(n as nat));
    }
    s
}

/// `prefix` followed by the decimal text of `pid`.
pub fn object_name(prefix: &str, pid: u32) -> (r: String)
    ensures
        r@ == per_process_name(prefix@, pid),
{
    let mut s = String::from_str(prefix);
    push_decimal(&mut s, pid);
    s
}

/// Name of the keep-alive mutex of a process.
pub fn keepalive_name(pid: u32) -> (r: String)
    ensures
        r@ == per_process_name("CaptureHook_KeepAlive"@, pid),
{
    proof { reveal_strlit("CaptureHook_KeepAlive"); }
    object_name(WINDOW_HOOK_KEEPALIVE, pid)
}

/// Name of the diagnostics pipe of a process.
pub fn pipe_name(pid: u32) -> (r: String)
    ensures
        r@ == per_process_name("CaptureHook_Pipe"@, pid),
{
    proof { reveal_strlit("CaptureHook_Pipe"); }
    object_name(PIPE_NAME, pid)
}

/// Name of the restart event of a process.
pub fn restart_event_name(pid: u32) -> (r: String)
    ensures
        r@ == per_process_name("CaptureHook_Restart"@, pid),
{
    proof { reveal_strlit("CaptureHook_Restart"); }
    object_name(EVENT_CAPTURE_RESTART, pid)
}

/// Name of the stop event of a process.
pub fn stop_event_name(pid: u32) -> (r: String)
    ensures
        r@ == per_process_name("CaptureHook_Stop"@, pid),
{
    proof { reveal_strlit("CaptureHook_Stop"); }
    object_name(EVENT_CAPTURE_STOP, pid)
}

/// Name of the initialize event of a process.
pub fn init_event_name(pid: u32) -> (r: String)
    ensures
        r@ == per_process_name("CaptureHook_Initialize"@, pid),
{
    proof { reveal_strlit("CaptureHook_Initialize"); }
    object_name(EVENT_HOOK_INIT, pid)
}

/// Name of the hook-ready event of a process.
pub fn ready_event_name(pid: u32) -> (r: String)
    ensures
        r@ == per_process_name("CaptureHook_HookReady"@, pid),
{
    proof { reveal_strlit("CaptureHook_HookReady"); }
    object_name(EVENT_HOOK_READY, pid)
}

/// Name of the exit event of a process.
pub fn exit_event_name(pid: u32) -> (r: String)
    ensures
        r@ == per_process_name("CaptureHook_Exit"@, pid),
{
    proof { reveal_strlit("CaptureHook_Exit"); }
    object_name(EVENT_HOOK_EXIT, pid)
}

/// Name of the control-block mapping of a process.
pub fn hook_info_name(pid: u32) -> (r: String)
    ensures
        r@ == per_process_name("CaptureHook_HookInfo"@, pid),
{
    proof { reveal_strlit("CaptureHook_HookInfo"); }
    object_name(SHMEM_HOOK_INFO, pid)
}

/// Name of the texture mapping the hook publishes for a window and map id.
pub fn texture_mapping_name(window: u32, map_id: u32) -> (r: String)
    ensures
        r@ == texture_name(window, map_id),
        r@ == "CaptureHook_Texture_"@ + decimal(window as nat) + "_"@ + decimal(map_id as nat),
{
    proof {
        reveal_strlit("CaptureHook_Texture");
        reveal_strlit("CaptureHook_Texture_");
        reveal_strlit("_");
    }
    let mut s = String::from_str(SHMEM_TEXTURE);
    s.append("_");
    push_decimal(&mut s, window);
    s.append("_");
    push_decimal(&mut s, map_id);
    proof {
        assert(s@ =~= texture_name(window, map_id));
        assert(s@ =~= "CaptureHook_Texture_"@ + decimal(window as nat) + "_"@ + decimal(map_id as nat));
    }
    s
}

/// A decimal text is never empty and holds digits only.
pub proof fn lemma_decimal_digits(n: nat)
    ensures
        decimal(n).len() >= 1,
        forall|i: int| 0 <= i < decimal(n).len() ==> '0' <= #[trigger] decimal(n)[i] <= '9',
    decreases n,
{
    if n >= 10 {
        lemma_decimal_digits(n / 10);
        assert forall|i: int| 0 <= i < decimal(n).len() implies '0' <= #[trigger] decimal(n)[i] <= '9' by {
            if i < decimal(n / 10).len() {
                assert(decimal(n)[i] == decimal(n / 10)[i]);
            }
        }
    }
}

/// Distinct numbers have distinct decimal texts.
pub proof fn lemma_decimal_injective(m: nat, n: nat)
    requires
        decimal(m) == decimal(n),
    ensures
        m == n,
    decreases m + n,
{
    lemma_decimal_digits(m);
    lemma_decimal_digits(n);
    let a = decimal(m);
    let b = decimal(n);
    if m < 10 {
        assert(m % 10 == m);
    }
    if n < 10 {
        assert(n % 10 == n);
    }
    assert(a.last() == digit_char(m % 10));
    assert(b.last() == digit_char(n % 10));
    assert(m % 10 == n % 10);
    if m >= 10 && n >= 10 {
        assert(decimal(m / 10) =~= a.drop_last());
        assert(decimal(n / 10) =~= b.drop_last());
        lemma_decimal_injective(m / 10, n / 10);
    } else if m >= 10 {
        lemma_decimal_digits(m / 10);
        assert(a.len() >= 2);
    } else if n >= 10 {
        lemma_decimal_digits(n / 10);
        assert(b.len() >= 2);
    }
}

/// Per-process names of one kind agree exactly when the process ids do, so
/// the client and the hook meet on the same objects for the same target and
/// never on those of another.
pub proof fn lemma_names_identify_process(prefix: Seq<char>, p: u32, q: u32)
    ensures
        (per_process_name(prefix, p) == per_process_name(prefix, q)) <==> (p == q),
{
    if per_process_name(prefix, p) == per_process_name(prefix, q) {
        let a = per_process_name(prefix, p);
        assert(decimal(p as nat) =~= a.subrange(prefix.len() as int, a.len() as int));
        assert(decimal(q as nat) =~= a.subrange(prefix.len() as int, a.len() as int));
        lemma_decimal_injective(p as nat, q as nat);
    }
}

} // verus!
