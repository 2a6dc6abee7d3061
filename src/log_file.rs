//! The diagnostic sink's lifecycle: a destination name that may be set until
//! the stream is opened, an open on first write, and one line per write.
//! The stream itself lives with the caller, which performs what the sink decides.
use vstd::prelude::*;
use vstd::string::*;

use crate::error::AdapterError;

verus! {

/// Abstract state of the sink.
pub struct SinkState {
    /// Destination name; empty while none is set.
    pub name: Seq<char>,
    /// The stream has been opened, which fixes the name.
    pub opened: bool,
    /// Every line accepted so far, in order.
    pub lines: Seq<Seq<char>>,
}

/// The sink before any call: unnamed, unopened, empty.
pub open spec fn initial_sink() -> SinkState {
    SinkState { name: Seq::empty(), opened: false, lines: Seq::empty() }
}

/// Setting the destination name: allowed until the stream is opened.
pub open spec fn sink_rename(s: SinkState, name: Seq<char>) -> Result<SinkState, AdapterError> {
    if s.opened {
        Err(AdapterError::RenameAfterOpen)
    } else {
        Ok(SinkState { name, ..s })
    }
}

/// Reaching the stream: the next state, and the name to open now if it is not open yet.
pub open spec fn sink_open(s: SinkState) -> Result<(SinkState, Option<Seq<char>>), AdapterError> {
    if s.opened {
        Ok((s, None))
    } else if s.name.len() == 0 {
        Err(AdapterError::NoFileName)
    } else {
        Ok((SinkState { opened: true, ..s }, Some(s.name)))
    }
}

/// Writing one line: reach the stream, then append the line.
pub open spec fn sink_write(s: SinkState, text: Seq<char>) -> Result<SinkState, AdapterError> {
    match sink_open(s) {
        Ok((t, _)) => Ok(SinkState { lines: t.lines.push(text), ..t }),
        Err(e) => Err(e),
    }
}

/// The diagnostic sink's state; one per process, guarded by the caller's lock.
pub struct LogFile {
    file_name: String,
    opened: bool,
    lines: Ghost<Seq<Seq<char>>>,
}

impl View for LogFile {
    type V = SinkState;

    closed spec fn view(&self) -> SinkState {
        SinkState { name: self.file_name@, opened: self.opened, lines: self.lines@ }
    }
}

impl Default for LogFile {
    fn default() -> (r: LogFile)
        ensures
            r@ == initial_sink(),
    {
        LogFile::new()
    }
}

impl LogFile {
    /// A sink with no name, not opened, with no lines.
    pub fn new() -> (r: LogFile)
        ensures
            r@ == initial_sink(),
    {
        LogFile { file_name: String::new(), opened: false, lines: Ghost(Seq::empty()) }
    }

    /// Sets the destination name; refused once the stream is open.
    pub fn set_file_name(&mut self, name: String) -> (r: Result<(), AdapterError>)
        ensures
            match r {
                Ok(_) => sink_rename(old(self)@, name@) == Ok::<SinkState, AdapterError>(final(self)@),
                Err(e) => sink_rename(old(self)@, name@) == Err::<SinkState, AdapterError>(e)
                    && final(self)@ == old(self)@,
            },
    {
        if self.opened {
            Err(AdapterError::RenameAfterOpen)
        } else {
            self.file_name = name;
            Ok(())
        }
    }

    /// Reaches the stream: the name to open now (append mode, created if
    /// absent), or `None` when it is already open; refused while unnamed.
    pub fn handle(&mut self) -> (r: Result<Option<String>, AdapterError>)
        ensures
            match r {
                Ok(p) => sink_open(old(self)@) == Ok::<(SinkState, Option<Seq<char>>), AdapterError>(
                    (final(self)@, p.deep_view()),
                ),
                Err(e) => sink_open(old(self)@) == Err::<(SinkState, Option<Seq<char>>), AdapterError>(e)
                    && final(self)@ == old(self)@,
            },
    {
        if self.opened {
            Ok(None)
        } else if self.file_name.as_str().is_empty() {
            Err(AdapterError::NoFileName)
        } else {
            self.opened = true;
            Ok(Some(self.file_name.clone()))
        }
    }

    /// Accepts one line: reaches the stream as `handle` does and records the
    /// line after every earlier one.
    pub fn write_line(&mut self, text: &str) -> (r: Result<Option<String>, AdapterError>)
        ensures
            match r {
                Ok(p) => sink_write(old(self)@, text@) == Ok::<SinkState, AdapterError>(final(self)@)
                    && (sink_open(old(self)@) matches Ok((_, q)) && q == p.deep_view()),
                Err(e) => sink_write(old(self)@, text@) == Err::<SinkState, AdapterError>(e)
                    && final(self)@ == old(self)@,
            },
    {
        let r = self.handle();
        if r.is_ok() {
            self.lines = Ghost(self.lines@.push(text@));
        }
        r
    }
}

/// Once the name is set, successive writes are accepted in call order: the
/// first opens the named stream, the second finds it open, and the lines stand
/// after the earlier ones in the order written.
pub proof fn lemma_lines_kept_in_order(s0: SinkState, name: Seq<char>, x: Seq<char>, y: Seq<char>)
    requires
        !s0.opened,
        name.len() > 0,
    ensures
        sink_rename(s0, name) matches Ok(s1) && (sink_open(s1) matches Ok((_, first)) && first
            == Some(name)) && (sink_write(s1, x) matches Ok(s2) && (sink_open(s2) matches Ok(
            (_, second),
        ) && second is None) && (sink_write(s2, y) matches Ok(s3) && s3.lines == s0.lines.push(
            x,
        ).push(y) && s3.name == name && s3.opened)),
{
}

/// After a write has been accepted, the destination can no longer be renamed.
pub proof fn lemma_no_rename_after_write(s: SinkState, text: Seq<char>, name: Seq<char>)
    requires
        sink_write(s, text) is Ok,
    ensures
        sink_write(s, text) matches Ok(t) && sink_rename(t, name) == Err::<SinkState, AdapterError>(
            AdapterError::RenameAfterOpen,
        ),
{
}

/// Writing to a sink that was never named is refused and changes nothing.
pub proof fn lemma_write_needs_name(text: Seq<char>)
    ensures
        sink_write(initial_sink(), text) == Err::<SinkState, AdapterError>(AdapterError::NoFileName),
{
}

} // verus!
