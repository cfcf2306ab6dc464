//! Registry of agent-initiated terminals.
//!
//! Each terminal the handler spawns on the agent's behalf gets a
//! process-unique numeric identifier, drawn from a counter that starts at 1
//! and only grows.  An entry holds the terminal's output buffer, its
//! configured byte limit, and the cached exit status once the child is known
//! to have exited.  The child process handles themselves live with the
//! caller, keyed by the same identifier; killing and waiting happen there,
//! and their outcomes are recorded here.

use vstd::prelude::*;
use crate::buffer::{TerminalOutputState, TerminalOutputView, append_model};
use crate::rpc::{RpcError, RpcErrorKind, terminal_not_found};
use crate::text::decimal_rep;
use crate::text::decimal_string;

verus! {

/// Exit status of a terminal's child process: the exit code if there was
/// one and, on termination by a signal, the signal's name.
#[derive(Debug)]
pub struct TerminalExitStatus {
    pub exit_code: Option<u32>,
    pub signal: Option<String>,
}

/// Abstract value of an exit status.
pub struct ExitStatusView {
    pub exit_code: Option<u32>,
    pub signal: Option<Seq<char>>,
}

impl View for TerminalExitStatus {
    type V = ExitStatusView;

    open spec fn view(&self) -> ExitStatusView {
        ExitStatusView {
            exit_code: self.exit_code,
            signal: match self.signal {
                Some(s) => Some(s@),
                None => None,
            },
        }
    }
}

impl Clone for TerminalExitStatus {
    fn clone(&self) -> (r: Self)
        ensures
            r@ == self@,
    {
        TerminalExitStatus {
            exit_code: self.exit_code,
            signal: match &self.signal {
                Some(s) => Some(s.clone()),
                None => None,
            },
        }
    }
}

/// Abstract value of an optional exit status.
pub open spec fn opt_status_view(o: Option<TerminalExitStatus>) -> Option<ExitStatusView> {
    match o {
        Some(s) => Some(s@),
        None => None,
    }
}

/// One registered terminal.
pub struct TerminalEntry {
    output: TerminalOutputState,
    exit_status: Option<TerminalExitStatus>,
    output_limit: Option<u64>,
}

/// Abstract value of a terminal entry.
pub struct EntryView {
    pub output: TerminalOutputView,
    pub exit_status: Option<ExitStatusView>,
    pub output_limit: Option<u64>,
}

impl View for TerminalEntry {
    type V = EntryView;

    closed spec fn view(&self) -> EntryView {
        EntryView {
            output: self.output@,
            exit_status: opt_status_view(self.exit_status),
            output_limit: self.output_limit,
        }
    }
}

/// What a terminal-output request reports: a snapshot of the buffered
/// output, the truncated flag, and the exit status if one is known.
#[derive(Debug)]
pub struct TerminalSnapshot {
    pub output: String,
    pub truncated: bool,
    pub exit_status: Option<TerminalExitStatus>,
}

/// The set of live terminals of one session, keyed by numeric identifier.
pub struct TerminalRegistry {
    next_id: u64,
    entries: Vec<(u64, TerminalEntry)>,
}

impl TerminalRegistry {
    /// Identifiers are unique, all below the counter, and the counter is
    /// at least 1.
    pub closed spec fn wf(self) -> bool {
        &&& self.next_id >= 1
        &&& forall|k: int|
            0 <= k < self.entries@.len() ==> (#[trigger] self.entries@[k]).0 < self.next_id
        &&& forall|k1: int, k2: int|
            0 <= k1 < k2 < self.entries@.len() ==> (#[trigger] self.entries@[k1]).0 != (
            #[trigger] self.entries@[k2]).0
    }

    /// A terminal with this identifier is registered.
    pub closed spec fn has_id(self, id: u64) -> bool {
        exists|k: int| 0 <= k < self.entries@.len() && (#[trigger] self.entries@[k]).0 == id
    }

    /// The entry registered under `id` (meaningful only when `has_id`).
    pub closed spec fn entry(self, id: u64) -> EntryView {
        let k = choose|k: int|
            0 <= k < self.entries@.len() && (#[trigger] self.entries@[k]).0 == id;
        self.entries@[k].1@
    }

    /// The identifier the next created terminal will get.
    pub closed spec fn next_counter(self) -> u64 {
        self.next_id
    }

    /// How many terminals are registered.
    pub closed spec fn count(self) -> nat {
        self.entries@.len()
    }

    proof fn lemma_entry_at(self, k: int)
        requires
            self.wf(),
            0 <= k < self.entries@.len(),
        ensures
            self.has_id(self.entries@[k].0),
            self.entry(self.entries@[k].0) == self.entries@[k].1@,
    {
        let id = self.entries@[k].0;
        assert(self.has_id(id));
        let k2 = choose|k2: int|
            0 <= k2 < self.entries@.len() && (#[trigger] self.entries@[k2]).0 == id;
        if k2 != k {
            if k2 < k {
                assert(self.entries@[k2].0 != self.entries@[k].0);
            } else {
                assert(self.entries@[k].0 != self.entries@[k2].0);
            }
        }
    }

    /// An empty registry whose counter starts at 1.
    pub fn new() -> (r: Self)
        ensures
            r.wf(),
            r.count() == 0,
            forall|id: u64| !r.has_id(id),
            r.next_counter() == 1,
    {
        TerminalRegistry { next_id: 1, entries: Vec::new() }
    }

    fn find_index(&self, id: u64) -> (r: Option<usize>)
        requires
            self.wf(),
        ensures
            match r {
                Some(k) => k < self.entries@.len() && self.entries@[k as int].0 == id
                    && self.has_id(id) && self.entry(id) == self.entries@[k as int].1@,
                None => !self.has_id(id),
            },
    {
        let n = self.entries.len();
        let mut k: usize = 0;
        while k < n
            invariant
                k <= n,
                n == self.entries@.len(),
                self.wf(),
                forall|t: int| 0 <= t < k ==> (#[trigger] self.entries@[t]).0 != id,
            decreases n - k,
        {
            if self.entries[k].0 == id {
                proof {
                    self.lemma_entry_at(k as int);
                }
                return Some(k);
            }
            k += 1;
        }
        None
    }

    /// Registers a fresh terminal with the given output byte limit and
    /// returns its identifier; `None` only when the identifier space is
    /// exhausted.  The identifier is the counter's value, never seen
    /// before; every other entry is untouched.
    pub fn create(&mut self, output_limit: Option<u64>) -> (r: Option<u64>)
        requires
            old(self).wf(),
        ensures
            final(self).wf(),
            match r {
                Some(id) => {
                    &&& id == old(self).next_counter()
                    &&& !old(self).has_id(id)
                    &&& final(self).has_id(id)
                    &&& final(self).entry(id) == (EntryView {
                        output: TerminalOutputView {
                            output: Seq::<char>::empty(),
                            truncated: false,
                        },
                        exit_status: None,
                        output_limit,
                    })
                    &&& forall|x: u64| x != id ==> final(self).has_id(x) == old(self).has_id(x)
                    &&& forall|x: u64|
                        x != id && old(self).has_id(x) ==> final(self).entry(x) == old(
                            self,
                        ).entry(x)
                    &&& final(self).next_counter() == old(self).next_counter() + 1
                },
                None => {
                    &&& old(self).next_counter() == u64::MAX
                    &&& *final(self) == *old(self)
                },
            },
    {
        if self.next_id == u64::MAX {
            return None;
        }
        let id = self.next_id;
        let entry = TerminalEntry {
            output: TerminalOutputState::new(),
            exit_status: None,
            output_limit,
        };
        self.entries.push((id, entry));
        self.next_id = id + 1;
        proof {
            let pre = old(self);
            let n = pre.entries@.len();
            assert(self.entries@ =~= pre.entries@.push((id, entry)));
            assert forall|x: u64| x != id implies self.has_id(x) == pre.has_id(x) by {
                if pre.has_id(x) {
                    let k = choose|k: int|
                        0 <= k < pre.entries@.len() && (#[trigger] pre.entries@[k]).0 == x;
                    assert(self.entries@[k].0 == x);
                }
                if self.has_id(x) {
                    let k = choose|k: int|
                        0 <= k < self.entries@.len() && (#[trigger] self.entries@[k]).0 == x;
                    assert(k < n);
                    assert(pre.entries@[k].0 == x);
                }
            }
            assert forall|x: u64| x != id && pre.has_id(x) implies self.entry(x) == pre.entry(x)
                by {
                let k = choose|k: int|
                    0 <= k < pre.entries@.len() && (#[trigger] pre.entries@[k]).0 == x;
                pre.lemma_entry_at(k);
                assert(self.entries@[k].0 == x);
                self.lemma_entry_at(k);
            }
            assert(self.entries@[n as int].0 == id);
            self.lemma_entry_at(n as int);
        }
        Some(id)
    }

    /// Appends a decoded output chunk to the terminal's buffer, under the
    /// entry's own byte limit.  Reports whether the terminal exists; every
    /// other entry is untouched.
    pub fn append_output(&mut self, id: u64, chunk: &str) -> (r: bool)
        requires
            old(self).wf(),
        ensures
            final(self).wf(),
            r == old(self).has_id(id),
            final(self).next_counter() == old(self).next_counter(),
            forall|x: u64| final(self).has_id(x) == old(self).has_id(x),
            !r ==> *final(self) == *old(self),
            r ==> final(self).entry(id) == (EntryView {
                output: append_model(
                    old(self).entry(id).output,
                    chunk@,
                    old(self).entry(id).output_limit,
                ),
                ..old(self).entry(id)
            }),
            forall|x: u64|
                x != id && old(self).has_id(x) ==> final(self).entry(x) == old(self).entry(x),
    {
        let idx = self.find_index(id);
        match idx {
            None => false,
            Some(k) => {
                let mut pair = self.entries.remove(k);
                let limit = pair.1.output_limit;
                pair.1.output.append(chunk, limit);
                self.entries.insert(k, pair);
                proof {
                    self.lemma_update_preserves(*old(self), k as int, id);
                }
                true
            },
        }
    }

    /// After an entry at index `k` holding `id` was replaced by another
    /// pair with the same `id`, the registry is still well-formed and every
    /// other entry reads as before.
    proof fn lemma_update_preserves(self, pre: Self, k: int, id: u64)
        requires
            pre.wf(),
            0 <= k < pre.entries@.len(),
            pre.entries@[k].0 == id,
            self.next_id == pre.next_id,
            self.entries@.len() == pre.entries@.len(),
            self.entries@[k].0 == id,
            forall|t: int|
                0 <= t < pre.entries@.len() && t != k ==> self.entries@[t] == pre.entries@[t],
        ensures
            self.wf(),
            self.has_id(id),
            self.entry(id) == self.entries@[k].1@,
            pre.has_id(id),
            pre.entry(id) == pre.entries@[k].1@,
            forall|x: u64| self.has_id(x) == pre.has_id(x),
            forall|x: u64| x != id && pre.has_id(x) ==> self.entry(x) == pre.entry(x),
    {
        assert forall|t: int| 0 <= t < self.entries@.len() implies (#[trigger] self.entries@[t]).0
            == pre.entries@[t].0 by {}
        assert(self.wf());
        self.lemma_entry_at(k);
        pre.lemma_entry_at(k);
        assert forall|x: u64| self.has_id(x) == pre.has_id(x) by {
            if pre.has_id(x) {
                let t = choose|t: int|
                    0 <= t < pre.entries@.len() && (#[trigger] pre.entries@[t]).0 == x;
                assert(self.entries@[t].0 == x);
            }
            if self.has_id(x) {
                let t = choose|t: int|
                    0 <= t < self.entries@.len() && (#[trigger] self.entries@[t]).0 == x;
                assert(pre.entries@[t].0 == x);
            }
        }
        assert forall|x: u64| x != id && pre.has_id(x) implies self.entry(x) == pre.entry(x) by {
            let t = choose|t: int|
                0 <= t < pre.entries@.len() && (#[trigger] pre.entries@[t]).0 == x;
            pre.lemma_entry_at(t);
            assert(t != k);
            assert(self.entries@[t].0 == x);
            self.lemma_entry_at(t);
        }
    }

    /// Answers a terminal-output request: a snapshot of the buffer and the
    /// exit status.  When no status is cached yet, the caller's poll result
    /// is cached and reported; an unknown id is an invalid-parameter error
    /// and changes nothing.
    pub fn terminal_output(&mut self, id: u64, polled: Option<TerminalExitStatus>) -> (r: Result<
        TerminalSnapshot,
        RpcError,
    >)
        requires
            old(self).wf(),
        ensures
            final(self).wf(),
            final(self).next_counter() == old(self).next_counter(),
            forall|x: u64| final(self).has_id(x) == old(self).has_id(x),
            match r {
                Err(e) => {
                    &&& !old(self).has_id(id)
                    &&& e.kind == RpcErrorKind::InvalidParams
                    &&& e.data@ == "terminal not found"@
                    &&& *final(self) == *old(self)
                },
                Ok(snap) => {
                    &&& old(self).has_id(id)
                    &&& {
                        let e = old(self).entry(id);
                        let st = if e.exit_status is Some {
                            e.exit_status
                        } else {
                            opt_status_view(polled)
                        };
                        &&& snap.output@ == e.output.output
                        &&& snap.truncated == e.output.truncated
                        &&& opt_status_view(snap.exit_status) == st
                        &&& final(self).entry(id) == (EntryView { exit_status: st, ..e })
                        &&& forall|x: u64|
                            x != id && old(self).has_id(x) ==> final(self).entry(x) == old(
                                self,
                            ).entry(x)
                    }
                },
            },
    {
        let idx = self.find_index(id);
        match idx {
            None => Err(terminal_not_found()),
            Some(k) => {
                let mut pair = self.entries.remove(k);
                if pair.1.exit_status.is_none() {
                    pair.1.exit_status = polled;
                }
                let (output, truncated) = pair.1.output.snapshot();
                let exit_status = match &pair.1.exit_status {
                    Some(s) => Some(s.clone()),
                    None => None,
                };
                self.entries.insert(k, pair);
                proof {
                    self.lemma_update_preserves(*old(self), k as int, id);
                }
                Ok(TerminalSnapshot { output, truncated, exit_status })
            },
        }
    }

    /// The cached exit status of a terminal, if any; an unknown id is an
    /// invalid-parameter error.
    pub fn cached_exit(&self, id: u64) -> (r: Result<Option<TerminalExitStatus>, RpcError>)
        requires
            self.wf(),
        ensures
            match r {
                Err(e) => {
                    &&& !self.has_id(id)
                    &&& e.kind == RpcErrorKind::InvalidParams
                    &&& e.data@ == "terminal not found"@
                },
                Ok(o) => self.has_id(id) && opt_status_view(o) == self.entry(id).exit_status,
            },
    {
        let idx = self.find_index(id);
        match idx {
            None => Err(terminal_not_found()),
            Some(k) => {
                let status = match &self.entries[k].1.exit_status {
                    Some(s) => Some(s.clone()),
                    None => None,
                };
                Ok(status)
            },
        }
    }

    /// Caches the exit status the caller observed when waiting on the
    /// child; an unknown id is an invalid-parameter error and changes
    /// nothing.
    pub fn record_exit(&mut self, id: u64, status: TerminalExitStatus) -> (r: Result<
        (),
        RpcError,
    >)
        requires
            old(self).wf(),
        ensures
            final(self).wf(),
            final(self).next_counter() == old(self).next_counter(),
            forall|x: u64| final(self).has_id(x) == old(self).has_id(x),
            match r {
                Err(e) => {
                    &&& !old(self).has_id(id)
                    &&& e.kind == RpcErrorKind::InvalidParams
                    &&& e.data@ == "terminal not found"@
                    &&& *final(self) == *old(self)
                },
                Ok(u) => {
                    &&& old(self).has_id(id)
                    &&& final(self).entry(id) == (EntryView {
                        exit_status: Some(status@),
                        ..old(self).entry(id)
                    })
                    &&& forall|x: u64|
                        x != id && old(self).has_id(x) ==> final(self).entry(x) == old(
                            self,
                        ).entry(x)
                },
            },
    {
        let idx = self.find_index(id);
        match idx {
            None => Err(terminal_not_found()),
            Some(k) => {
                let mut pair = self.entries.remove(k);
                pair.1.exit_status = Some(status);
                self.entries.insert(k, pair);
                proof {
                    self.lemma_update_preserves(*old(self), k as int, id);
                }
                Ok(())
            },
        }
    }

    /// Whether a terminal with this identifier is registered; a kill
    /// request checks this before the caller signals the child.
    pub fn has_terminal(&self, id: u64) -> (r: bool)
        requires
            self.wf(),
        ensures
            r == self.has_id(id),
    {
        self.find_index(id).is_some()
    }

    /// Removes the terminal from the registry; the caller kills the child
    /// if it still runs.  An unknown id is an invalid-parameter error, as
    /// for every request naming a terminal that is not registered.
    /// Afterwards the id is unknown, so any further request naming it
    /// fails the same way.
    pub fn release(&mut self, id: u64) -> (r: Result<(), RpcError>)
        requires
            old(self).wf(),
        ensures
            final(self).wf(),
            !final(self).has_id(id),
            final(self).next_counter() == old(self).next_counter(),
            forall|x: u64| x != id ==> final(self).has_id(x) == old(self).has_id(x),
            forall|x: u64|
                x != id && old(self).has_id(x) ==> final(self).entry(x) == old(self).entry(x),
            match r {
                Ok(u) => old(self).has_id(id),
                Err(e) => {
                    &&& !old(self).has_id(id)
                    &&& e.kind == RpcErrorKind::InvalidParams
                    &&& e.data@ == "terminal not found"@
                    &&& *final(self) == *old(self)
                },
            },
    {
        let idx = self.find_index(id);
        match idx {
            None => Err(terminal_not_found()),
            Some(k) => {
                let _removed = self.entries.remove(k);
                proof {
                    let pre = old(self);
                    assert forall|x: u64| x != id implies self.has_id(x) == pre.has_id(x) by {
                        if pre.has_id(x) {
                            let t = choose|t: int|
                                0 <= t < pre.entries@.len() && (#[trigger] pre.entries@[t]).0
                                    == x;
                            if t < k {
                                assert(self.entries@[t].0 == x);
                            } else {
                                assert(t != k);
                                assert(self.entries@[t - 1].0 == x);
                            }
                        }
                        if self.has_id(x) {
                            let t = choose|t: int|
                                0 <= t < self.entries@.len() && (#[trigger] self.entries@[t]).0
                                    == x;
                            if t < k {
                                assert(pre.entries@[t].0 == x);
                            } else {
                                assert(pre.entries@[t + 1].0 == x);
                            }
                        }
                    }
                    assert(!self.has_id(id)) by {
                        if self.has_id(id) {
                            let t = choose|t: int|
                                0 <= t < self.entries@.len() && (#[trigger] self.entries@[t]).0
                                    == id;
                            if t < k {
                                assert(pre.entries@[t].0 == id);
                                assert(pre.entries@[k as int].0 == id);
                                assert(pre.entries@[t].0 != pre.entries@[k as int].0);
                            } else {
                                assert(pre.entries@[t + 1].0 == id);
                                assert(pre.entries@[k as int].0 == id);
                                assert(pre.entries@[k as int].0 != pre.entries@[t + 1].0);
                            }
                        }
                    }
                    assert forall|x: u64| x != id && pre.has_id(x) implies self.entry(x)
                        == pre.entry(x) by {
                        let t = choose|t: int|
                            0 <= t < pre.entries@.len() && (#[trigger] pre.entries@[t]).0 == x;
                        pre.lemma_entry_at(t);
                        if t < k {
                            assert(self.entries@[t].0 == x);
                            self.lemma_entry_at(t);
                        } else {
                            assert(t != k);
                            assert(self.entries@[t - 1].0 == x);
                            self.lemma_entry_at(t - 1);
                        }
                    }
                }
                Ok(())
            },
        }
    }
}

/// The protocol-visible name of terminal `n`: `term-` followed by `n` in
/// decimal.
pub open spec fn spec_terminal_name(n: nat) -> Seq<char> {
    "term-"@ + decimal_rep(n)
}

/// Renders the protocol-visible name of terminal `n`.
pub fn terminal_name(n: u64) -> (r: String)
    ensures
        r@ == spec_terminal_name(n as nat),
{
    let mut s = "term-".to_owned();
    let digits = decimal_string(n);
    s.append(digits.as_str());
    s
}

} // verus!
