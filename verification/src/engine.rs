//! Supervision of the single engine subprocess.
//!
//! The supervisor owns the registered handle and decides, per `Start()` call,
//! whether to reuse it or to launch a new process. Launching itself (binding
//! a port, spawning, waiting for the port to accept connections) is outside
//! work: the application performs it and publishes the outcome back. The
//! application polls the registered child and reports whether it has exited.

use vstd::prelude::*;
use vstd::string::StringExecFns;
use crate::textutil::spec_dec;
use crate::textutil::u64_to_dec;

verus! {

/// The registered engine instance: the URL it listens on, the token it was
/// launched with, and the key under which the application tracks the spawned
/// child process (`None` for a handle registered without a process).
pub struct EngineHandle {
    pub url: String,
    pub token: String,
    pub proc: Option<u64>,
}

/// What a `Start()` call should do next.
pub enum StartDecision {
    /// A live instance is registered; return its URL and token unchanged.
    UseExisting { url: String, token: String },
    /// Nothing usable is registered; launch a new process.
    Launch,
}

/// The supervisor model after one `Start()` decision on state `h`, where
/// `child_exited` reports whether the registered child has exited.
pub open spec fn spec_start_state(h: Option<EngineHandle>, child_exited: bool) -> Option<
    EngineHandle,
> {
    match h {
        Option::None => Option::None,
        Option::Some(hh) => if hh.proc is Some && child_exited {
            Option::None
        } else {
            Option::Some(hh)
        },
    }
}

/// The URL and token a `Start()` decision hands back, or `None` when it
/// decides to launch.
pub open spec fn spec_start_decision(h: Option<EngineHandle>, child_exited: bool) -> Option<
    (String, String),
> {
    match h {
        Option::None => Option::None,
        Option::Some(hh) => if hh.proc is Some && child_exited {
            Option::None
        } else {
            Option::Some((hh.url, hh.token))
        },
    }
}

/// Owner of the one engine instance of this process.
pub struct EngineSupervisor {
    pub handle: Option<EngineHandle>,
}

impl EngineSupervisor {
    /// A supervisor with nothing registered.
    pub fn new() -> (s: Self)
        ensures
            s.handle is None,
    {
        EngineSupervisor { handle: None }
    }

    /// The decision step of `Start()`: reuse a registered live handle, or
    /// discard a stale one and ask the application to launch. `child_exited`
    /// is the application's poll of the registered child; it is ignored when
    /// no process is registered.
    pub fn start_probe(&mut self, child_exited: bool) -> (d: StartDecision)
        ensures
            final(self).handle == spec_start_state(old(self).handle, child_exited),
            (match spec_start_decision(old(self).handle, child_exited) {
                Option::None => d is Launch,
                Option::Some((u, t)) => (d matches StartDecision::UseExisting { url, token }
                    && url == u && token == t),
            }),
    {
        let discard = match &self.handle {
            Option::None => false,
            Option::Some(h) => h.proc.is_some() && child_exited,
        };
        if discard {
            self.handle = None;
            return StartDecision::Launch;
        }
        match &self.handle {
            Option::None => StartDecision::Launch,
            Option::Some(h) => StartDecision::UseExisting { url: h.url.clone(), token: h.token.clone() },
        }
    }

    /// Publish a finished launch: the new handle replaces whatever was
    /// registered.
    pub fn publish(&mut self, url: String, token: String, proc: u64)
        ensures
            final(self).handle == spec_published(url, token, proc),
            (final(self).handle matches Some(h) && h.url == url && h.token == token && h.proc == (
            Some(proc))),
    {
        self.handle = Some(EngineHandle { url, token, proc: Some(proc) });
    }

    /// `Kill()`: unregister the handle unconditionally and hand the
    /// application the process key to tear down, if one was registered.
    pub fn engine_kill(&mut self) -> (r: Option<u64>)
        ensures
            final(self).handle is None,
            (match old(self).handle {
                Option::None => r is None,
                Option::Some(h) => r == h.proc,
            }),
    {
        match self.handle.take() {
            Option::None => None,
            Option::Some(h) => h.proc,
        }
    }
}

/// The URL and token of each of `n` consecutive `Start()` decisions from
/// state `h`, all made while the registered process stays alive.
pub open spec fn spec_starts_while_alive(h: Option<EngineHandle>, n: nat) -> Seq<
    Option<(String, String)>,
>
    decreases n,
{
    if n == 0 {
        Seq::empty()
    } else {
        seq![spec_start_decision(h, false)] + spec_starts_while_alive(
            spec_start_state(h, false),
            (n - 1) as nat,
        )
    }
}

/// There is one decision per `Start()` call.
pub proof fn lemma_starts_len(h: Option<EngineHandle>, n: nat)
    ensures
        spec_starts_while_alive(h, n).len() == n,
    decreases n,
{
    if n > 0 {
        lemma_starts_len(spec_start_state(h, false), (n - 1) as nat);
    }
}

/// Law: while the registered process stays alive, any number of `Start()`
/// calls leaves the one registered handle unchanged and every call returns
/// the same URL and token.
pub proof fn lemma_start_idempotent(h: EngineHandle, n: nat)
    ensures
        forall|i: int|
            0 <= i < n ==> spec_starts_while_alive(Some(h), n)[i] == Some((h.url, h.token)),
    decreases n,
{
    if n > 0 {
        lemma_start_idempotent(h, (n - 1) as nat);
        assert(spec_start_state(Some(h), false) == Some(h));
        lemma_starts_len(Some(h), (n - 1) as nat);
        let head = seq![spec_start_decision(Some(h), false)];
        let rest = spec_starts_while_alive(Some(h), (n - 1) as nat);
        assert(spec_starts_while_alive(Some(h), n) == head + rest);
        assert forall|i: int| 0 <= i < n implies spec_starts_while_alive(Some(h), n)[i] == Some(
            (h.url, h.token),
        ) by {
            if i > 0 {
                assert((head + rest)[i] == rest[i - 1]);
            } else {
                assert((head + rest)[0] == spec_start_decision(Some(h), false));
            }
        }
    }
}

/// The handle `publish` registers for a finished launch.
pub open spec fn spec_published(url: String, token: String, proc: u64) -> Option<EngineHandle> {
    Some(EngineHandle { url, token, proc: Some(proc) })
}

/// Law: when the registered process has exited, the next `Start()` discards
/// the stale handle and decides to launch, and the handle published for the
/// new launch carries the new token — distinct from the prior one whenever
/// the freshly drawn token differs, which a 128-bit random token does.
pub proof fn lemma_restart_replaces_token(h: EngineHandle, url2: String, token2: String, p2: u64)
    requires
        h.proc is Some,
        token2 != h.token,
    ensures
        spec_start_state(Some(h), true) is None,
        spec_start_decision(Some(h), true) is None,
        (spec_published(url2, token2, p2) matches Some(g) && g.token == token2 && g.token
            != h.token && g.url == url2),
{
}

/// The local websocket URL for an engine listening on `port`.
pub fn engine_url(port: u16) -> (r: String)
    ensures
        r@ == "ws://127.0.0.1:"@ + spec_dec(port as nat),
{
    let mut s = String::new();
    s.append("ws://127.0.0.1:");
    let d = u64_to_dec(port as u64);
    s.append(d.as_str());
    s
}

/// How long a launch waits for the engine to accept connections, in seconds.
pub fn engine_start_timeout_secs() -> (r: u64)
    ensures
        r == 8,
{
    8
}

/// The argument list the engine is launched with:
/// `daemon --port <port> --token <token>`.
pub fn engine_daemon_args(port: u16, token: &str) -> (r: Vec<String>)
    ensures
        r@.len() == 5,
        r@[0]@ == "daemon"@,
        r@[1]@ == "--port"@,
        r@[2]@ == spec_dec(port as nat),
        r@[3]@ == "--token"@,
        r@[4]@ == token@,
{
    let mut v: Vec<String> = Vec::new();
    v.push(String::from_str("daemon"));
    v.push(String::from_str("--port"));
    v.push(u64_to_dec(port as u64));
    v.push(String::from_str("--token"));
    v.push(String::from_str(token));
    v
}

} // verus!
