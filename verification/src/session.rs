//! The session: the sole safe handle to the engine's process-wide state.
//!
//! The engine keeps a single mutable global per process and may be
//! initialized only once; it reports output and its own termination by
//! calling back into wrapper code while a command is running. The session
//! owns the user's callback implementation together with two flags:
//! `initiated` (this session performed the process's one-time
//! initialization) and `exited` (the engine has signalled its termination).
//!
//! The unverified boundary shell performs the actual C calls. It drives this
//! state machine: construction consumes the once-only guard's observation,
//! `command`/`circuit` produce the encoded request the engine receives,
//! `command_status`/`circuit_status` map the engine's status code to a
//! result, `on_output`/`on_exit` are the typed targets of the engine's
//! callback trampolines, and the query methods turn materialized engine
//! replies into owned values.

use crate::NgSpiceError;
use crate::extract::{decode_string_array, scan_len};
use crate::text::{decode_c_bytes, encode_c_string};
use vstd::prelude::*;
use vstd::utf8::{decode_utf8, encode_utf8, valid_utf8};

verus! {

/// Capability set a caller implements to receive engine callbacks. Both
/// capabilities default to doing nothing.
pub trait Callbacks {
    /// Invoked once per line of engine-produced textual output.
    fn send_char(&mut self, _s: &str) {
    }

    /// Invoked exactly once, when the engine decides to terminate itself:
    /// `status` is the engine's exit code, `unload` whether the engine asks
    /// to be unloaded from the process, `quit` whether the process itself
    /// should quit.
    fn controlled_exit(&mut self, _status: i32, _unload: bool, _quit: bool) {
    }
}

/// A snapshot of one named result vector at query time. The data is a copy
/// of the engine's buffer, taken before the query returns, so it cannot
/// dangle once the engine mutates or frees its own buffer.
///
/// Samples are carried as raw 64-bit patterns: the wrapper copies them
/// verbatim and never interprets them; the boundary shell converts them to
/// floating-point values. The sequence is empty when the underlying vector
/// is complex-valued: extracting complex samples is not supported.
#[derive(Debug)]
pub struct VectorInfo {
    pub name: String,
    pub data: Vec<u64>,
}

/// One engine-owned vector record as the boundary shell materializes it:
/// the raw name bytes, the engine-reported sample count, and — for a
/// real-valued vector — the samples themselves (64-bit patterns). `None`
/// stands for a complex-valued vector, whose real-sample buffer is null.
pub struct EngineVector {
    pub name: Vec<u8>,
    pub length: i32,
    pub real: Option<Vec<u64>>,
}

impl EngineVector {
    /// The engine's own convention: a real-valued vector carries exactly the
    /// reported number of samples.
    pub open spec fn wf(&self) -> bool {
        self.real is Some ==> self.real->Some_0@.len() == self.length
    }
}

/// The owning handle bundling the user's callbacks with the engine-facing
/// state. At most one session per process ever observes `initiated == true`,
/// and once `exited` is set by the engine's exit notification it never
/// clears again.
pub struct NgSpice<C> {
    pub callbacks: C,
    exited: bool,
    initiated: bool,
    outputs: Ghost<Seq<Seq<char>>>,
    exits: Ghost<Seq<(i32, bool, bool)>>,
}

/// A construction attempt creates a usable session exactly when the
/// once-only guard had not been claimed before it.
pub open spec fn construction_initiates(already_initiated: bool) -> bool {
    !already_initiated
}

impl<C> NgSpice<C> {
    /// The engine has signalled its termination to this session.
    pub closed spec fn has_exited(&self) -> bool {
        self.exited
    }

    /// This session performed the process's one-time engine initialization.
    pub closed spec fn did_initiate(&self) -> bool {
        self.initiated
    }

    /// Every output line forwarded to the callbacks so far, in order.
    pub closed spec fn output_log(&self) -> Seq<Seq<char>> {
        self.outputs@
    }

    /// Every exit notification forwarded to the callbacks so far — the
    /// engine's `(status, unload, quit)` arguments, unchanged and in order.
    pub closed spec fn exit_record(&self) -> Seq<(i32, bool, bool)> {
        self.exits@
    }

    /// The user's callback implementation, as this session owns it.
    pub closed spec fn spec_callbacks(&self) -> C {
        self.callbacks
    }

    /// Commands may be issued only while the engine has not exited.
    pub open spec fn command_permitted(&self) -> bool {
        !self.has_exited()
    }

    /// The engine has signalled exit.
    pub fn exited(&self) -> (r: bool)
        ensures
            r == self.has_exited(),
    {
        self.exited
    }

    /// This session won the process's one-time initialization.
    pub fn initiated(&self) -> (r: bool)
        ensures
            r == self.did_initiate(),
    {
        self.initiated
    }

    /// On teardown the boundary shell must still signal the engine to
    /// release its global resources exactly when this session initialized
    /// the engine and never received an exit notification.
    pub fn needs_shutdown(&self) -> (r: bool)
        ensures
            r == (self.did_initiate() && !self.has_exited()),
    {
        self.initiated && !self.exited
    }
}

impl<C: Callbacks> NgSpice<C> {
    /// Construct the session. `already_initiated` is the once-only guard's
    /// observation: `false` for the single attempt that wins the process's
    /// one-time initialization, `true` for every other attempt, which fails
    /// with `DoubleInitError` and must not touch the engine.
    pub fn new(callbacks: C, already_initiated: bool) -> (r: Result<NgSpice<C>, NgSpiceError>)
        ensures
            r is Ok <==> construction_initiates(already_initiated),
            r is Ok ==> r->Ok_0.did_initiate(),
            r is Ok ==> !r->Ok_0.has_exited(),
            r is Ok ==> r->Ok_0.output_log() == Seq::<Seq<char>>::empty(),
            r is Ok ==> r->Ok_0.exit_record() == Seq::<(i32, bool, bool)>::empty(),
            r is Ok ==> r->Ok_0.spec_callbacks() == callbacks,
            r is Err ==> r->Err_0 == NgSpiceError::DoubleInitError,
    {
        if already_initiated {
            Err(NgSpiceError::DoubleInitError)
        } else {
            Ok(
                NgSpice {
                    callbacks,
                    exited: false,
                    initiated: true,
                    outputs: Ghost(Seq::empty()),
                    exits: Ghost(Seq::empty()),
                },
            )
        }
    }

    /// Encode one command line for the engine. The engine must not be driven
    /// past its exit notification: calling this on an exited session is a
    /// programming error, ruled out by the precondition, and the boundary
    /// shell fails abruptly before ever reaching this point.
    pub fn command(&self, text: &str) -> (r: Result<Vec<u8>, NgSpiceError>)
        requires
            self.command_permitted(),
        ensures
            r is Ok <==> !encode_utf8(text@).contains(0u8),
            r is Ok ==> r->Ok_0@ == encode_utf8(text@).push(0u8),
            r is Err ==> r->Err_0 == NgSpiceError::EncodingError,
    {
        encode_c_string(text)
    }

    /// Map the engine's status code for a command: zero is success, anything
    /// else a command failure.
    pub fn command_status(&self, status: i32) -> (r: Result<(), NgSpiceError>)
        ensures
            r is Ok <==> status == 0,
            r is Err ==> r->Err_0 == NgSpiceError::CommandError,
    {
        if status == 0 {
            Ok(())
        } else {
            Err(NgSpiceError::CommandError)
        }
    }

    /// Encode a circuit description for the engine: every line encoded with
    /// its terminator, then one synthetic empty line, satisfying the
    /// engine's array-termination convention (the boundary shell adds the
    /// final null pointer). Fails with `EncodingError` exactly when some
    /// line's encoding contains an embedded zero byte. Like `command`, this
    /// must not run on an exited session.
    pub fn circuit(&self, lines: &Vec<String>) -> (r: Result<Vec<Vec<u8>>, NgSpiceError>)
        requires
            self.command_permitted(),
        ensures
            r is Ok <==> (forall|i: int|
                0 <= i < lines@.len() ==> !encode_utf8(lines@[i]@).contains(0u8)),
            r is Ok ==> r->Ok_0@.len() == lines@.len() + 1,
            r is Ok ==> forall|i: int|
                0 <= i < lines@.len() ==> r->Ok_0@[i]@ == encode_utf8(lines@[i]@).push(0u8),
            r is Ok ==> r->Ok_0@[lines@.len() as int]@ == seq![0u8],
            r is Err ==> r->Err_0 == NgSpiceError::EncodingError,
    {
        let mut bufs: Vec<Vec<u8>> = Vec::new();
        let mut i: usize = 0;
        while i < lines.len()
            invariant
                i <= lines@.len(),
                bufs@.len() == i,
                forall|k: int| 0 <= k < i ==> !encode_utf8(lines@[k]@).contains(0u8),
                forall|k: int| 0 <= k < i ==> bufs@[k]@ == encode_utf8(lines@[k]@).push(0u8),
            decreases lines@.len() - i,
        {
            match encode_c_string(lines[i].as_str()) {
                Ok(buf) => {
                    bufs.push(buf);
                },
                Err(e) => {
                    return Err(e);
                },
            }
            i = i + 1;
        }
        let mut terminator: Vec<u8> = Vec::new();
        terminator.push(0u8);
        assert(terminator@ =~= seq![0u8]);
        bufs.push(terminator);
        Ok(bufs)
    }

    /// Map the engine's status code for a circuit load: by the engine's
    /// convention, one reports failure.
    pub fn circuit_status(&self, status: i32) -> (r: Result<(), NgSpiceError>)
        ensures
            r is Ok <==> status != 1,
            r is Err ==> r->Err_0 == NgSpiceError::CommandError,
    {
        if status == 1 {
            Err(NgSpiceError::CommandError)
        } else {
            Ok(())
        }
    }

    /// Decode the engine's currently active result-set name, materialized by
    /// the boundary shell as raw bytes.
    pub fn current_plot(&self, raw: &Vec<u8>) -> (r: Result<String, NgSpiceError>)
        ensures
            r is Ok <==> valid_utf8(raw@),
            r is Ok ==> r->Ok_0@ == decode_utf8(raw@),
            r is Err ==> r->Err_0 == NgSpiceError::EncodingError,
    {
        decode_c_bytes(raw)
    }

    /// Decode the engine's pointer-terminated array of result-set names:
    /// exactly the entries before the first null, in engine order.
    pub fn all_plots(&self, entries: &Vec<Option<Vec<u8>>>) -> (r: Result<
        Vec<String>,
        NgSpiceError,
    >)
        ensures
            r is Ok <==> (forall|k: int|
                0 <= k < scan_len(entries@) ==> valid_utf8(entries@[k]->Some_0@)),
            r is Ok ==> r->Ok_0@.len() == scan_len(entries@),
            r is Ok ==> forall|k: int|
                0 <= k < scan_len(entries@) ==> r->Ok_0@[k]@ == decode_utf8(entries@[k]->Some_0@),
            r is Err ==> r->Err_0 == NgSpiceError::EncodingError,
    {
        decode_string_array(entries)
    }

    /// Encode the result-set name whose vectors are being queried; the
    /// boundary shell releases the buffer right after the call.
    pub fn all_vecs_request(&self, plot: &str) -> (r: Result<Vec<u8>, NgSpiceError>)
        ensures
            r is Ok <==> !encode_utf8(plot@).contains(0u8),
            r is Ok ==> r->Ok_0@ == encode_utf8(plot@).push(0u8),
            r is Err ==> r->Err_0 == NgSpiceError::EncodingError,
    {
        encode_c_string(plot)
    }

    /// Decode the engine's pointer-terminated array of vector names for one
    /// result set, under the same discipline as `all_plots`.
    pub fn all_vecs(&self, entries: &Vec<Option<Vec<u8>>>) -> (r: Result<Vec<String>, NgSpiceError>)
        ensures
            r is Ok <==> (forall|k: int|
                0 <= k < scan_len(entries@) ==> valid_utf8(entries@[k]->Some_0@)),
            r is Ok ==> r->Ok_0@.len() == scan_len(entries@),
            r is Ok ==> forall|k: int|
                0 <= k < scan_len(entries@) ==> r->Ok_0@[k]@ == decode_utf8(entries@[k]->Some_0@),
            r is Err ==> r->Err_0 == NgSpiceError::EncodingError,
    {
        decode_string_array(entries)
    }

    /// Encode a fully qualified vector name (`"<plot>.<vector>"`) for the
    /// engine's single-vector query.
    pub fn vector_info_request(&self, vec_name: &str) -> (r: Result<Vec<u8>, NgSpiceError>)
        ensures
            r is Ok <==> !encode_utf8(vec_name@).contains(0u8),
            r is Ok ==> r->Ok_0@ == encode_utf8(vec_name@).push(0u8),
            r is Err ==> r->Err_0 == NgSpiceError::EncodingError,
    {
        encode_c_string(vec_name)
    }

    /// Validate the engine-reported sample count against the host's
    /// addressing type; a count that cannot be represented is surfaced as a
    /// range error, never truncated.
    pub fn vector_length(&self, length: i32) -> (r: Result<usize, NgSpiceError>)
        ensures
            r is Ok <==> length >= 0,
            r is Ok ==> r->Ok_0 == length,
            r is Err ==> r->Err_0 == NgSpiceError::RangeError,
    {
        if length >= 0 {
            Ok(length as usize)
        } else {
            Err(NgSpiceError::RangeError)
        }
    }

    /// Assemble the owned snapshot of one engine vector record: decode the
    /// name, then copy the samples. A real-valued vector yields exactly the
    /// engine-reported number of samples, verbatim; a complex-valued vector
    /// yields an empty data sequence without error (complex extraction is
    /// not supported). An undecodable name fails with `EncodingError`; a
    /// negative reported length with `RangeError`.
    pub fn vector_info(&self, raw: &EngineVector) -> (r: Result<VectorInfo, NgSpiceError>)
        requires
            raw.wf(),
        ensures
            r is Ok <==> (valid_utf8(raw.name@) && raw.length >= 0),
            r is Ok ==> r->Ok_0.name@ == decode_utf8(raw.name@),
            r is Ok && raw.real is Some ==> r->Ok_0.data@ == raw.real->Some_0@
                && r->Ok_0.data@.len() == raw.length,
            r is Ok && raw.real is None ==> r->Ok_0.data@.len() == 0,
            !valid_utf8(raw.name@) ==> r is Err && r->Err_0 == NgSpiceError::EncodingError,
            valid_utf8(raw.name@) && raw.length < 0 ==> r is Err && r->Err_0
                == NgSpiceError::RangeError,
    {
        let name = match decode_c_bytes(&raw.name) {
            Ok(s) => s,
            Err(e) => {
                return Err(e);
            },
        };
        if raw.length < 0 {
            return Err(NgSpiceError::RangeError);
        }
        match &raw.real {
            Some(samples) => Ok(VectorInfo { name, data: clone_samples(samples) }),
            None => Ok(VectorInfo { name, data: Vec::new() }),
        }
    }

    /// Typed target of the engine's output trampoline: decode the engine's
    /// output buffer and forward the line to the callbacks. A line that does
    /// not decode is silently dropped — output is best-effort telemetry, and
    /// the engine has no channel to receive an error from inside a callback.
    /// The session's flags never change here.
    pub fn on_output(&mut self, bytes: &Vec<u8>)
        ensures
            final(self).has_exited() == old(self).has_exited(),
            final(self).did_initiate() == old(self).did_initiate(),
            final(self).exit_record() == old(self).exit_record(),
            valid_utf8(bytes@) ==> final(self).output_log() == old(self).output_log().push(
                decode_utf8(bytes@),
            ),
            !valid_utf8(bytes@) ==> final(self).output_log() == old(self).output_log(),
    {
        match decode_c_bytes(bytes) {
            Ok(s) => {
                self.outputs = Ghost(self.outputs@.push(s@));
                self.callbacks.send_char(s.as_str());
            },
            Err(_) => {},
        }
    }

    /// Typed target of the engine's exit trampoline: record the terminal
    /// state, then forward the notification — the engine's arguments,
    /// unchanged, as the exit record states. The flag is set before the
    /// user's handler runs, so any command attempt from inside the handler
    /// already observes the session as exited.
    pub fn on_exit(&mut self, status: i32, unload: bool, quit: bool)
        ensures
            final(self).has_exited(),
            final(self).did_initiate() == old(self).did_initiate(),
            final(self).output_log() == old(self).output_log(),
            final(self).exit_record() == old(self).exit_record().push((status, unload, quit)),
    {
        self.exited = true;
        self.exits = Ghost(self.exits@.push((status, unload, quit)));
        self.callbacks.controlled_exit(status, unload, quit);
    }
}

/// Copy a sample buffer verbatim.
fn clone_samples(samples: &Vec<u64>) -> (r: Vec<u64>)
    ensures
        r@ == samples@,
{
    let mut out: Vec<u64> = Vec::new();
    let mut i: usize = 0;
    while i < samples.len()
        invariant
            i <= samples@.len(),
            out@ == samples@.take(i as int),
        decreases samples@.len() - i,
    {
        out.push(samples[i]);
        assert(out@ =~= samples@.take(i + 1 as int));
        i = i + 1;
    }
    assert(out@ =~= samples@);
    out
}

/// The exited flag as it evolves over a run of engine callbacks: entry `k`
/// of `exit_events` is true exactly when callback `k` was the exit
/// notification (`on_exit`); every other callback (`on_output`) leaves the
/// flag unchanged, as the two methods' contracts state.
pub open spec fn exited_after(start: bool, exit_events: Seq<bool>) -> bool
    decreases exit_events.len(),
{
    if exit_events.len() == 0 {
        start
    } else {
        exited_after(start || exit_events[0], exit_events.skip(1))
    }
}

/// Law: exit is terminal. Once a session has observed the exit notification
/// — at the start or anywhere in a run of callbacks — it reports exited
/// after every subsequent callback, so no later `command` or `circuit` call
/// can satisfy `command_permitted` and no request ever reaches the engine
/// again.
pub proof fn lemma_exit_is_terminal(start: bool, exit_events: Seq<bool>)
    requires
        start || exit_events.contains(true),
    ensures
        exited_after(start, exit_events),
    decreases exit_events.len(),
{
    if exit_events.len() == 0 {
    } else if start || exit_events[0] {
        lemma_exited_stays_exited(exit_events.skip(1));
    } else {
        let i = choose|i: int| 0 <= i < exit_events.len() && exit_events[i];
        assert(exit_events.skip(1)[i - 1]);
        assert(exit_events.skip(1).contains(true));
        lemma_exit_is_terminal(false, exit_events.skip(1));
    }
}

/// A session that reports exited still reports exited after any further run
/// of callbacks.
pub proof fn lemma_exited_stays_exited(exit_events: Seq<bool>)
    ensures
        exited_after(true, exit_events),
    decreases exit_events.len(),
{
    if exit_events.len() > 0 {
        lemma_exited_stays_exited(exit_events.skip(1));
    }
}

/// Law: at most one session per process ever reports `initiated == true`.
/// `observations` are the once-only guard's answers to the process's
/// construction attempts, in order; a once-only guard answers `false` at
/// most once, so at most one attempt constructs a session — every other
/// attempt fails with `DoubleInitError` by `new`'s contract.
pub proof fn lemma_at_most_one_initiation(observations: Seq<bool>)
    requires
        forall|i: int, j: int|
            0 <= i < j < observations.len() ==> observations[i] || observations[j],
    ensures
        forall|i: int, j: int|
            0 <= i < j < observations.len() ==> !(construction_initiates(observations[i])
                && construction_initiates(observations[j])),
{
}

} // verus!
