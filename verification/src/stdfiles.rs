//! The two capturable streams and the switch that routes writes to them.
//!
//! A pair of streams is a value with one owner: each script host has its own,
//! and two hosts never share buffers or a switch. Nothing here is global and
//! nothing is locked; a host and its streams stay on the thread that made them.

use vstd::prelude::*;
use vstd::string::StringExecFns;
use vstd::string::StringSliceAdditionalSpecFns;
use vstd::utf8::encode_utf8;
use vstd::utf8::valid_utf8;

verus! {

/// The real streams of the process, supplied by whoever embeds the library.
///
/// Text handed to `out` and `err` is on its way to a terminal and is not
/// captured; `read_line` blocks on interactive input; `halt` ends the process.
pub trait Console {
    /// Writes `text` to the real standard output.
    fn out(&self, text: &str);

    /// Writes `text` to the real standard error.
    fn err(&self, text: &str);

    /// Reads one line from the real standard input.
    fn read_line(&self) -> String;

    /// Ends the process with `message`.
    fn halt(&self, message: &str);
}

/// One of the two logical streams.
#[derive(Clone, Copy, Debug, PartialEq, Eq, Structural)]
pub enum Stream {
    Stdout,
    Stderr,
}

/// What a pair of streams holds, as mathematics: the switch and both buffers.
pub struct Captured {
    pub enabled: bool,
    pub stdout: Seq<u8>,
    pub stderr: Seq<u8>,
}

impl Captured {
    /// The state every pair starts in: capture off, nothing buffered.
    pub open spec fn idle() -> Captured {
        Captured { enabled: false, stdout: Seq::empty(), stderr: Seq::empty() }
    }

    /// The state with capture switched on and the buffers as they are.
    pub open spec fn enable(self) -> Captured {
        Captured { enabled: true, ..self }
    }

    /// The state with capture switched off and the buffers as they are.
    pub open spec fn disable(self) -> Captured {
        Captured { enabled: false, ..self }
    }

    /// The bytes buffered for `stream`.
    pub open spec fn buffer(self, stream: Stream) -> Seq<u8> {
        match stream {
            Stream::Stdout => self.stdout,
            Stream::Stderr => self.stderr,
        }
    }

    /// The state with `bytes` appended to the buffer of `stream`.
    pub open spec fn append(self, stream: Stream, bytes: Seq<u8>) -> Captured {
        match stream {
            Stream::Stdout => Captured { stdout: self.stdout + bytes, ..self },
            Stream::Stderr => Captured { stderr: self.stderr + bytes, ..self },
        }
    }

    /// Whether a write made in this state goes on to the real stream.
    pub open spec fn passes(self) -> bool {
        !self.enabled
    }

    /// The state after `bytes` were written to `stream`: buffered while
    /// capture is on, untouched while it is off.
    pub open spec fn write(self, stream: Stream, bytes: Seq<u8>) -> Captured {
        if self.enabled {
            self.append(stream, bytes)
        } else {
            self
        }
    }

    /// The state after each element of `writes` was written to `stream`, first to last.
    pub open spec fn write_all(self, stream: Stream, writes: Seq<Seq<u8>>) -> Captured
        decreases writes.len(),
    {
        if writes.len() == 0 {
            self
        } else {
            self.write_all(stream, writes.drop_last()).write(stream, writes.last())
        }
    }

    /// Whether both buffers hold text: each is valid UTF-8.
    pub open spec fn textual(self) -> bool {
        valid_utf8(self.stdout) && valid_utf8(self.stderr)
    }

    /// The pair that is lent to a script's callbacks for one call: switched
    /// as this one is, with nothing buffered.
    pub open spec fn lent(self) -> Captured {
        Captured { enabled: self.enabled, stdout: Seq::empty(), stderr: Seq::empty() }
    }

    /// The state after what `used` has buffered was collected: appended,
    /// stream by stream, while capture is on, and left aside while it is off.
    pub open spec fn collect(self, used: Captured) -> Captured {
        if self.enabled {
            Captured {
                enabled: true,
                stdout: self.stdout + used.stdout,
                stderr: self.stderr + used.stderr,
            }
        } else {
            self
        }
    }

    /// Whether this state can come after `before` with nothing but writes of
    /// text in between: the switch is as it was, each buffer begins with what
    /// it held and goes on with valid UTF-8, and while capture is off nothing
    /// has changed at all.
    pub open spec fn follows(self, before: Captured) -> bool {
        &&& self.enabled == before.enabled
        &&& before.stdout.is_prefix_of(self.stdout)
        &&& before.stderr.is_prefix_of(self.stderr)
        &&& valid_utf8(self.stdout.skip(before.stdout.len() as int))
        &&& valid_utf8(self.stderr.skip(before.stderr.len() as int))
        &&& !before.enabled ==> self == before
    }

    /// The state after each write of `events` was made, first to last, each
    /// to the stream it names.
    pub open spec fn run(self, events: Seq<(Stream, Seq<u8>)>) -> Captured
        decreases events.len(),
    {
        if events.len() == 0 {
            self
        } else {
            self.run(events.drop_last()).write(events.last().0, events.last().1)
        }
    }

    /// The state after the buffer of `stream` was taken.
    pub open spec fn take(self, stream: Stream) -> Captured {
        match stream {
            Stream::Stdout => Captured { stdout: Seq::empty(), ..self },
            Stream::Stderr => Captured { stderr: Seq::empty(), ..self },
        }
    }
}

/// An append-only byte buffer standing in for one stream.
#[derive(Debug)]
pub struct StdFile {
    file: Vec<u8>,
}

impl View for StdFile {
    type V = Seq<u8>;

    closed spec fn view(&self) -> Seq<u8> {
        self.file@
    }
}

impl StdFile {
    /// An empty buffer.
    pub fn new() -> (file: Self)
        ensures
            file@ == Seq::<u8>::empty(),
    {
        StdFile { file: Vec::new() }
    }

    /// Lends the buffer itself; what the borrower leaves in it is the new content.
    pub fn borrow_mut(&mut self) -> (buffer: &mut Vec<u8>)
        ensures
            buffer@ == old(self)@,
            final(self)@ == final(buffer)@,
    {
        &mut self.file
    }

    /// Hands out everything buffered so far and leaves the buffer empty.
    pub fn take(&mut self) -> (bytes: Vec<u8>)
        ensures
            bytes@ == old(self)@,
            final(self)@ == Seq::<u8>::empty(),
    {
        let mut bytes: Vec<u8> = Vec::new();
        core::mem::swap(&mut self.file, &mut bytes);
        bytes
    }

    /// Appends `buf` to the buffer.
    pub fn write(&mut self, buf: &[u8])
        ensures
            final(self)@ == old(self)@ + buf@,
    {
        self.file.extend_from_slice(buf);
        assert(self.file@ =~= old(self).file@ + buf@);
    }
}

/// The two streams of one host together with the switch that decides where
/// writes go. It starts switched off, with both buffers empty.
#[derive(Debug)]
pub struct StdFiles {
    pub enabled: bool,
    pub stdout: StdFile,
    pub stderr: StdFile,
}

impl View for StdFiles {
    type V = Captured;

    open spec fn view(&self) -> Captured {
        Captured { enabled: self.enabled, stdout: self.stdout@, stderr: self.stderr@ }
    }
}

impl StdFiles {
    /// An idle pair: capture off, both buffers empty.
    pub fn new() -> (files: Self)
        ensures
            files@ == Captured::idle(),
    {
        StdFiles { enabled: false, stdout: StdFile::new(), stderr: StdFile::new() }
    }

    /// Routes `text` to `stream`: into the buffer while capture is on, and
    /// otherwise back to the caller, who is told to pass it on to the real stream.
    pub fn write(&mut self, stream: Stream, text: &str) -> (pass: bool)
        ensures
            final(self)@ == old(self)@.write(stream, text.spec_bytes()),
            pass == old(self)@.passes(),
    {
        if self.enabled {
            match stream {
                Stream::Stdout => self.stdout.write(text.as_bytes()),
                Stream::Stderr => self.stderr.write(text.as_bytes()),
            }
            false
        } else {
            true
        }
    }

    /// A pair to lend to a script's callbacks: switched as this one is, with
    /// nothing buffered.
    pub fn lend(&self) -> (lent: StdFiles)
        ensures
            lent@ == self@.lent(),
    {
        StdFiles { enabled: self.enabled, stdout: StdFile::new(), stderr: StdFile::new() }
    }

    /// Takes back a pair that was lent: while capture is on, what it has
    /// buffered is appended to this pair's buffers; while capture is off it
    /// is left aside.
    pub fn collect(&mut self, used: StdFiles)
        ensures
            final(self)@ == old(self)@.collect(used@),
    {
        if self.enabled {
            let mut used = used;
            let stdout = used.stdout.take();
            self.stdout.write(stdout.as_slice());
            let stderr = used.stderr.take();
            self.stderr.write(stderr.as_slice());
        }
    }

    /// Hands out what `stream` has buffered and leaves that buffer empty;
    /// the switch and the other buffer stay as they are.
    pub fn take(&mut self, stream: Stream) -> (bytes: Vec<u8>)
        ensures
            bytes@ == old(self)@.buffer(stream),
            final(self)@ == old(self)@.take(stream),
    {
        match stream {
            Stream::Stdout => self.stdout.take(),
            Stream::Stderr => self.stderr.take(),
        }
    }
}

/// Whether writes are being captured.
pub fn is_enabled(files: &StdFiles) -> (enabled: bool)
    ensures
        enabled == files@.enabled,
{
    files.enabled
}

/// Starts capturing. The buffers keep what they hold.
pub fn enable(files: &mut StdFiles)
    ensures
        final(files)@ == old(files)@.enable(),
{
    files.enabled = true;
}

/// Stops capturing. The buffers keep what they hold.
pub fn disable(files: &mut StdFiles)
    ensures
        final(files)@ == old(files)@.disable(),
{
    files.enabled = false;
}

/// `text` followed by a line feed.
pub open spec fn line(text: Seq<char>) -> Seq<char> {
    text.push('\n')
}

/// `text` with a line feed after it.
fn with_newline(text: &str) -> (s: String)
    ensures
        s@ == line(text@),
{
    let mut s = String::from_str(text);
    proof {
        reveal_strlit("\n");
    }
    s.append("\n");
    assert(s@ =~= line(text@));
    s
}

/// Writes `text` to standard output: into the buffer while capture is on,
/// to the console while it is off.
pub fn print<C: Console>(files: &mut StdFiles, console: &C, text: &str)
    ensures
        final(files)@ == old(files)@.write(Stream::Stdout, text.spec_bytes()),
{
    if files.write(Stream::Stdout, text) {
        console.out(text);
    }
}

/// Writes `text` and a line feed to standard output.
pub fn println<C: Console>(files: &mut StdFiles, console: &C, text: &str)
    ensures
        final(files)@ == old(files)@.write(Stream::Stdout, encode_utf8(line(text@))),
{
    let s = with_newline(text);
    print(files, console, s.as_str());
}

/// Writes `text` to standard error: into the buffer while capture is on,
/// to the console while it is off.
pub fn eprint<C: Console>(files: &mut StdFiles, console: &C, text: &str)
    ensures
        final(files)@ == old(files)@.write(Stream::Stderr, text.spec_bytes()),
{
    if files.write(Stream::Stderr, text) {
        console.err(text);
    }
}

/// Writes `text` and a line feed to standard error.
pub fn eprintln<C: Console>(files: &mut StdFiles, console: &C, text: &str)
    ensures
        final(files)@ == old(files)@.write(Stream::Stderr, encode_utf8(line(text@))),
{
    let s = with_newline(text);
    eprint(files, console, s.as_str());
}

/// While capture is on nothing is lost, doubled or reordered: after any run
/// of writes the buffer holds what it held before and then every write, first
/// to last; taking it hands all of that out and leaves nothing for a second
/// take. The switch and the other stream are not touched.
pub proof fn lemma_writes_are_taken_once(files: Captured, stream: Stream, writes: Seq<Seq<u8>>)
    requires
        files.enabled,
    ensures
        files.write_all(stream, writes) == files.append(stream, writes.flatten()),
        files.write_all(stream, writes).buffer(stream) == files.buffer(stream) + writes.flatten(),
        files.write_all(stream, writes).take(stream).buffer(stream) == Seq::<u8>::empty(),
    decreases writes.len(),
{
    if writes.len() == 0 {
        assert(files.buffer(stream) + writes.flatten() =~= files.buffer(stream));
        assert(files.append(stream, writes.flatten()) == files);
    } else {
        let front = writes.drop_last();
        lemma_writes_are_taken_once(files, stream, front);
        front.lemma_flatten_push(writes.last());
        assert(front.push(writes.last()) =~= writes);
        assert(files.buffer(stream) + front.flatten() + writes.last() =~= files.buffer(stream) + (
        front.flatten() + writes.last()));
    }
}

/// The bytes that the writes of `events` to `stream` hold, in the order of the writes.
pub open spec fn written(events: Seq<(Stream, Seq<u8>)>, stream: Stream) -> Seq<u8>
    decreases events.len(),
{
    if events.len() == 0 {
        Seq::empty()
    } else if events.last().0 == stream {
        written(events.drop_last(), stream) + events.last().1
    } else {
        written(events.drop_last(), stream)
    }
}

/// One capture, from idle to idle: however the writes to the two streams are
/// interleaved, each buffer ends up with exactly the writes to its stream in
/// the order they were made, and switching off and taking both buffers leaves
/// the pair as it was before capture began.
pub proof fn lemma_capture_window(events: Seq<(Stream, Seq<u8>)>)
    ensures
        Captured::idle().enable().run(events).enabled,
        Captured::idle().enable().run(events).stdout == written(events, Stream::Stdout),
        Captured::idle().enable().run(events).stderr == written(events, Stream::Stderr),
        Captured::idle().enable().run(events).disable().take(Stream::Stdout).take(Stream::Stderr)
            == Captured::idle(),
    decreases events.len(),
{
    if events.len() > 0 {
        lemma_capture_window(events.drop_last());
    }
}

/// Switching capture off brings back what was before it was switched on:
/// every write passes to the real stream and none reaches a buffer, so that a
/// later take finds what the buffer held when capture was switched off and
/// nothing else.
pub proof fn lemma_writes_pass_when_disabled(
    files: Captured,
    stream: Stream,
    writes: Seq<Seq<u8>>,
)
    ensures
        files.disable().passes(),
        files.disable().write_all(stream, writes) == files.disable(),
        files.enable().disable().write_all(stream, writes).buffer(stream) == files.buffer(stream),
    decreases writes.len(),
{
    if writes.len() > 0 {
        lemma_writes_pass_when_disabled(files, stream, writes.drop_last());
    }
    assert(files.enable().disable() == files.disable());
}

/// Text stays text: a pair whose buffers hold valid UTF-8 still does after
/// a text was written to either stream, whether capture is on or off.
pub proof fn lemma_text_stays_text(files: Captured, stream: Stream, text: Seq<char>)
    requires
        files.textual(),
    ensures
        files.write(stream, encode_utf8(text)).textual(),
{
    vstd::utf8::encode_utf8_valid_utf8(text);
    vstd::utf8::valid_utf8_concat(files.buffer(stream), encode_utf8(text));
}

/// Collecting what a lent pair has buffered is a step that `follows` allows,
/// as long as the lent pair holds text.
pub proof fn lemma_collect_follows(files: Captured, used: Captured)
    requires
        used.textual(),
    ensures
        files.collect(used).follows(files),
{
    let after = files.collect(used);
    if files.enabled {
        assert(after.stdout.skip(files.stdout.len() as int) =~= used.stdout);
        assert(after.stderr.skip(files.stderr.len() as int) =~= used.stderr);
    } else {
        assert(after.stdout.skip(files.stdout.len() as int) =~= Seq::<u8>::empty());
        assert(after.stderr.skip(files.stderr.len() as int) =~= Seq::<u8>::empty());
    }
}

} // verus!
