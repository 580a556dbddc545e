//! A compiled script, the engine that runs it, and the two ways of calling
//! one of its functions: straight through, or with everything it writes captured.

use crate::paint::paint_act;
use crate::paint::paint_dbg;
use crate::stdfiles::disable;
use crate::stdfiles::enable;
use crate::stdfiles::lemma_collect_follows;
use crate::stdfiles::lemma_text_stays_text;
use crate::stdfiles::line;
use crate::stdfiles::Captured;
use crate::stdfiles::Console;
use crate::stdfiles::StdFiles;
use crate::stdfiles::Stream;
use std::rc::Rc;
use vstd::cell::invcell::InvCell;
use vstd::predicate::Predicate;
use vstd::prelude::*;
use vstd::string::StringExecFns;
use vstd::utf8::decode_utf8;
use vstd::utf8::encode_utf8;
use vstd::utf8::valid_utf8;

verus! {

/// `rhai::Engine`, the interpreter. Opaque: it is built, configured and run through the wrappers below.
#[verifier::external_type_specification]
#[verifier::external_body]
pub struct ExEngine(rhai::Engine);

/// `rhai::Scope`, the variables of a script. Opaque.
#[verifier::external_type_specification]
#[verifier::external_body]
pub struct ExScope<'a>(rhai::Scope<'a>);

/// `rhai::AST`, a compiled script. Opaque.
#[verifier::external_type_specification]
#[verifier::external_body]
pub struct ExAst(rhai::AST);

/// `rhai::EvalAltResult`, a failure while a script ran. Opaque.
#[verifier::external_type_specification]
#[verifier::external_body]
pub struct ExEvalAltResult(rhai::EvalAltResult);

/// `rhai::ParseError`, a failure to compile. Opaque.
#[verifier::external_type_specification]
#[verifier::external_body]
pub struct ExParseError(rhai::ParseError);

/// `rhai::Dynamic`, a value of a script. Opaque.
#[verifier::external_type_specification]
#[verifier::external_body]
pub struct ExDynamic(rhai::Dynamic);

/// `std::io::Error`, a failure to read. Opaque.
#[verifier::external_type_specification]
#[verifier::external_body]
pub struct ExIoError(std::io::Error);

/// Why a script could not be loaded or one of its functions could not be run.
#[derive(Debug)]
pub enum Error {
    /// The script failed while it ran.
    Rhai(Box<rhai::EvalAltResult>),
    /// The script's source did not compile.
    Parse(rhai::ParseError),
    /// The script's source could not be read.
    Io(std::io::Error),
}

impl From<Box<rhai::EvalAltResult>> for Error {
    fn from(b: Box<rhai::EvalAltResult>) -> (e: Self) {
        Error::Rhai(b)
    }
}

impl vstd::std_specs::convert::FromSpecImpl<Box<rhai::EvalAltResult>> for Error {
    open spec fn obeys_from_spec() -> bool {
        true
    }

    open spec fn from_spec(b: Box<rhai::EvalAltResult>) -> Error {
        Error::Rhai(b)
    }
}

impl From<rhai::ParseError> for Error {
    fn from(e: rhai::ParseError) -> (error: Self) {
        Error::Parse(e)
    }
}

impl vstd::std_specs::convert::FromSpecImpl<rhai::ParseError> for Error {
    open spec fn obeys_from_spec() -> bool {
        true
    }

    open spec fn from_spec(e: rhai::ParseError) -> Error {
        Error::Parse(e)
    }
}

impl From<std::io::Error> for Error {
    fn from(e: std::io::Error) -> (error: Self) {
        Error::Io(e)
    }
}

impl vstd::std_specs::convert::FromSpecImpl<std::io::Error> for Error {
    open spec fn obeys_from_spec() -> bool {
        true
    }

    open spec fn from_spec(e: std::io::Error) -> Error {
        Error::Io(e)
    }
}

/// The decimal digit that stands for `d`, for `d` below ten.
pub open spec fn digit(d: nat) -> char {
    if d == 0 {
        '0'
    } else if d == 1 {
        '1'
    } else if d == 2 {
        '2'
    } else if d == 3 {
        '3'
    } else if d == 4 {
        '4'
    } else if d == 5 {
        '5'
    } else if d == 6 {
        '6'
    } else if d == 7 {
        '7'
    } else if d == 8 {
        '8'
    } else {
        '9'
    }
}

/// `n` written in decimal, without leading zeros.
pub open spec fn decimal(n: nat) -> Seq<char>
    decreases n,
{
    if n < 10 {
        seq![digit(n)]
    } else {
        decimal(n / 10).push(digit(n % 10))
    }
}

fn digit_text(d: usize) -> (s: &'static str)
    requires
        d < 10,
    ensures
        s@ == seq![digit(d as nat)],
{
    proof {
        reveal_strlit("0");
        reveal_strlit("1");
        reveal_strlit("2");
        reveal_strlit("3");
        reveal_strlit("4");
        reveal_strlit("5");
        reveal_strlit("6");
        reveal_strlit("7");
        reveal_strlit("8");
        reveal_strlit("9");
    }
    let s = if d == 0 {
        "0"
    } else if d == 1 {
        "1"
    } else if d == 2 {
        "2"
    } else if d == 3 {
        "3"
    } else if d == 4 {
        "4"
    } else if d == 5 {
        "5"
    } else if d == 6 {
        "6"
    } else if d == 7 {
        "7"
    } else if d == 8 {
        "8"
    } else {
        "9"
    };
    assert(s@ =~= seq![digit(d as nat)]);
    s
}

/// Writes `n` in decimal.
pub fn decimal_text(n: usize) -> (s: String)
    ensures
        s@ == decimal(n as nat),
    decreases n,
{
    if n < 10 {
        String::from_str(digit_text(n))
    } else {
        let mut s = decimal_text(n / 10);
        s.append(digit_text(n % 10));
        assert(s@ =~= decimal(n as nat));
        s
    }
}

/// A place in a script as it is shown: `none` where there is none, the line
/// alone at the start of a line, and otherwise line and column with a colon
/// between them. Lines and columns count from one.
pub open spec fn position(line: Option<usize>, column: Option<usize>) -> Seq<char> {
    match (line, column) {
        (None, _) => "none"@,
        (Some(l), None) => decimal(l as nat),
        (Some(l), Some(c)) => decimal(l as nat) + ":"@ + decimal(c as nat),
    }
}

/// Writes a place in a script as it is shown.
pub fn position_text(line: Option<usize>, column: Option<usize>) -> (s: String)
    ensures
        s@ == position(line, column),
{
    match line {
        None => String::from_str("none"),
        Some(l) => {
            let mut s = decimal_text(l);
            if let Some(c) = column {
                s.append(":");
                let digits = decimal_text(c);
                s.append(digits.as_str());
            }
            s
        },
    }
}

/// The name under which a debug statement's script is shown: its own, or
/// `unknown` where it has none.
pub open spec fn source_name(source: Option<&str>) -> Seq<char> {
    match source {
        Some(name) => name@,
        None => "unknown"@,
    }
}

/// The line that a debug statement puts out: where it stands, then what it says.
pub open spec fn debug_line(
    text: Seq<char>,
    source: Option<&str>,
    line: Option<usize>,
    column: Option<usize>,
) -> Seq<char> {
    source_name(source) + " @ "@ + position(line, column) + " > "@ + text
}

/// Renders a debug statement: `<source> @ <line>:<column> > <text>`.
pub fn debug_text(text: &str, source: Option<&str>, line: Option<usize>, column: Option<usize>) -> (s:
    String)
    ensures
        s@ == debug_line(text@, source, line, column),
{
    let mut s = match source {
        Some(name) => String::from_str(name),
        None => String::from_str("unknown"),
    };
    s.append(" @ ");
    let place = position_text(line, column);
    s.append(place.as_str());
    s.append(" > ");
    s.append(text);
    s
}

/// How a script's `print` shows a boolean.
pub fn print_bool(b: bool) -> (s: String)
    ensures
        s@ == (if b {
            "true"@
        } else {
            "false"@
        }),
{
    if b {
        String::from_str("true")
    } else {
        String::from_str("false")
    }
}

/// How one element of a list is shown: a text as it is, anything else as
/// `error: ` and the name of what it is instead.
pub open spec fn element(el: Result<String, String>) -> Seq<char> {
    match el {
        Ok(text) => text@,
        Err(kind) => "error: "@ + kind@,
    }
}

/// The elements of a list as they are shown, one per line, with no line feed
/// after the last.
pub open spec fn lines(arr: Seq<Result<String, String>>) -> Seq<char>
    decreases arr.len(),
{
    if arr.len() == 0 {
        Seq::empty()
    } else if arr.len() == 1 {
        element(arr[0])
    } else {
        lines(arr.drop_last()) + seq!['\n'] + element(arr.last())
    }
}

/// How a script's `print` shows a list. Each element is either the text it
/// holds or, where it holds none, the name of its type.
pub fn print_arr(arr: &Vec<Result<String, String>>) -> (s: String)
    ensures
        s@ == lines(arr@),
{
    let mut s = String::new();
    let mut i: usize = 0;
    while i < arr.len()
        invariant
            i <= arr.len(),
            s@ == lines(arr@.take(i as int)),
        decreases arr.len() - i,
    {
        if i != 0 {
            proof {
                reveal_strlit("\n");
            }
            s.append("\n");
        }
        match &arr[i] {
            Ok(text) => s.append(text.as_str()),
            Err(kind) => {
                s.append("error: ");
                s.append(kind.as_str());
            },
        }
        proof {
            let next = arr@.take(i + 1);
            assert(next.drop_last() =~= arr@.take(i as int));
            assert(next.last() == arr@[i as int]);
            if i == 0 {
                assert(s@ =~= element(arr@[0]));
            } else {
                assert(s@ =~= lines(arr@.take(i as int)) + seq!['\n'] + element(arr@[i as int]));
            }
        }
        i += 1;
    }
    assert(arr@.take(arr.len() as int) =~= arr@);
    s
}

/// Whether a character counts as white space when a text is trimmed:
/// whether Unicode classes it as White_Space, which is how `str::trim` takes
/// it. These are the controls from tab to carriage return and the next-line
/// control, and the spaces and line and paragraph separators.
pub open spec fn white_space(c: char) -> bool {
    let code = c as u32;
    ||| 0x09 <= code <= 0x0d
    ||| code == 0x20
    ||| code == 0x85
    ||| code == 0xa0
    ||| code == 0x1680
    ||| 0x2000 <= code <= 0x200a
    ||| code == 0x2028
    ||| code == 0x2029
    ||| code == 0x202f
    ||| code == 0x205f
    ||| code == 0x3000
}

/// A text without the white space at its start.
pub open spec fn trimmed_start(text: Seq<char>) -> Seq<char>
    decreases text.len(),
{
    if text.len() > 0 && white_space(text.first()) {
        trimmed_start(text.drop_first())
    } else {
        text
    }
}

/// A text without the white space at its end.
pub open spec fn trimmed_end(text: Seq<char>) -> Seq<char>
    decreases text.len(),
{
    if text.len() > 0 && white_space(text.last()) {
        trimmed_end(text.drop_last())
    } else {
        text
    }
}

/// A text without the white space at its two ends: what stands from its
/// first to its last character that is not white space.
pub open spec fn trimmed(text: Seq<char>) -> Seq<char> {
    trimmed_end(trimmed_start(text))
}

/// Calls `str::trim`. Trusted: what comes back is the text without the white
/// space at its start and at its end, where white space is what Unicode
/// calls White_Space.
#[verifier::external_body]
fn trim(text: &str) -> (rest: &str)
    ensures
        rest@ == trimmed(text@),
{
    text.trim()
}

/// Whether an answer, already trimmed, says yes: it is `y` or `Y` and nothing else.
pub open spec fn affirms(answer: Seq<char>) -> bool {
    answer =~= seq!['y'] || answer =~= seq!['Y']
}

/// Decides whether a trimmed answer says yes.
pub fn is_yes(answer: &str) -> (yes: bool)
    ensures
        yes == affirms(answer@),
{
    if answer.unicode_len() == 1 {
        let c = answer.get_char(0);
        assert(answer@ =~= seq![c]);
        c == 'y' || c == 'Y'
    } else {
        false
    }
}

/// Decides whether a line of input says yes, whatever white space surrounds it.
pub fn accepts(input: &str) -> (yes: bool)
    ensures
        yes == affirms(trimmed(input@)),
{
    is_yes(trim(input))
}

/// Asks a yes-or-no question. The question goes to standard error and the
/// hint `y/n` to standard output, both through `files`; the answer is one
/// line from the console, which is never captured.
pub fn prompt<C: Console>(files: &mut StdFiles, console: &C, message: &str) -> (yes: bool)
    ensures
        final(files)@ == old(files)@.write(Stream::Stderr, encode_utf8(line(message@))).write(
            Stream::Stdout,
            encode_utf8(line("y/n"@)),
        ),
{
    paint_act(files, console, message);
    crate::stdfiles::println(files, console, "y/n");
    let input = console.read_line();
    accepts(input.as_str())
}

/// Ends the process on a script's demand. No result stands for this: it is
/// the console that ends the process.
pub fn panic<C: Console>(console: &C, message: &str) {
    console.halt(message);
}

/// What a cell of streams may hold: pairs whose buffers hold text.
struct Textual;

impl Predicate<StdFiles> for Textual {
    closed spec fn predicate(&self, files: StdFiles) -> bool {
        files@.textual()
    }
}

/// Where a pair of streams rests while a script runs. The functions that a
/// script engine calls back can reach nothing but what they were given when
/// they were registered, and this cell is what they are given: whoever starts
/// the engine puts a pair in, each callback takes it out, writes, and puts it
/// back, and whoever started the engine collects it afterwards. Whatever is
/// put in holds text, and so does whatever comes out; no more is known of
/// what comes out, since any holder of the cell may have put it there.
struct FilesCell {
    cell: InvCell<StdFiles, Textual>,
}

impl FilesCell {
    /// A cell that holds an idle pair.
    fn new() -> (cell: Self) {
        FilesCell { cell: InvCell::new(StdFiles::new(), Ghost(Textual)) }
    }

    /// Puts `files` in and hands out what was there.
    fn replace(&self, files: StdFiles) -> (held: StdFiles)
        requires
            files@.textual(),
        ensures
            held@.textual(),
    {
        self.cell.replace(files)
    }
}

/// What the engine's print callback does with a text: a line on standard output.
fn print_hook<C: Console>(cell: &FilesCell, console: &C, text: &str) {
    let mut files = cell.replace(StdFiles::new());
    let ghost before = files@;
    crate::stdfiles::println(&mut files, console, text);
    proof {
        lemma_text_stays_text(before, Stream::Stdout, line(text@));
    }
    let _ = cell.replace(files);
}

/// Puts out a debug statement: one line on standard error that says where
/// the statement stands and what it says, dimmed if it reaches a terminal.
pub fn debug_event<C: Console>(
    files: &mut StdFiles,
    console: &C,
    text: &str,
    source: Option<&str>,
    line: Option<usize>,
    column: Option<usize>,
)
    ensures
        final(files)@ == old(files)@.write(
            Stream::Stderr,
            encode_utf8(crate::stdfiles::line(debug_line(text@, source, line, column))),
        ),
{
    let message = debug_text(text, source, line, column);
    paint_dbg(files, console, message.as_str());
}

/// What the engine's debug callback does with a debug statement: it puts the
/// statement out through the pair that rests in the cell.
fn debug_hook<C: Console>(
    cell: &FilesCell,
    console: &C,
    text: &str,
    source: Option<&str>,
    line: Option<usize>,
    column: Option<usize>,
) {
    let mut files = cell.replace(StdFiles::new());
    let ghost before = files@;
    debug_event(&mut files, console, text, source, line, column);
    proof {
        lemma_text_stays_text(
            before,
            Stream::Stderr,
            crate::stdfiles::line(debug_line(text@, source, line, column)),
        );
    }
    let _ = cell.replace(files);
}

/// What a script's `prompt` does: it asks through the pair that rests in the
/// cell, and answers as `prompt` does, by the line that the console returns.
fn prompt_hook<C: Console>(cell: &FilesCell, console: &C, message: &str) -> (yes: bool) {
    let mut files = cell.replace(StdFiles::new());
    let ghost before = files@;
    let yes = prompt(&mut files, console, message);
    proof {
        let asked = before.write(Stream::Stderr, encode_utf8(crate::stdfiles::line(message@)));
        lemma_text_stays_text(before, Stream::Stderr, crate::stdfiles::line(message@));
        lemma_text_stays_text(asked, Stream::Stdout, crate::stdfiles::line("y/n"@));
    }
    let _ = cell.replace(files);
    yes
}

/// Calls `rhai::Dynamic::into_immutable_string` on a copy of `el`. Nothing is
/// claimed of the outcome: it is the text that the value holds, or the name
/// of the value's type where it holds none.
#[verifier::external_body]
fn into_immutable_string(el: &rhai::Dynamic) -> (text: Result<String, String>) {
    match el.clone().into_immutable_string() {
        Ok(text) => Ok(text.into()),
        Err(kind) => Err(kind.into()),
    }
}

/// What a script's `print` does with a list of the engine's values.
fn print_array(arr: Vec<rhai::Dynamic>) -> (s: String)
    ensures
        exists|items: Seq<Result<String, String>>| items.len() == arr.len() && s@ == lines(items),
{
    let mut items: Vec<Result<String, String>> = Vec::new();
    let mut i: usize = 0;
    while i < arr.len()
        invariant
            i <= arr.len(),
            items.len() == i,
        decreases arr.len() - i,
    {
        items.push(into_immutable_string(&arr[i]));
        i += 1;
    }
    print_arr(&items)
}

/// Calls `Rc::clone`. Trusted: the new handle points to the same value.
#[verifier::external_body]
fn share<T>(rc: &Rc<T>) -> (other: Rc<T>)
    ensures
        other == *rc,
{
    Rc::clone(rc)
}

/// The functions that are registered on an engine itself: each as the name
/// that scripts call it by and the type of its one argument. A function
/// registered under the name and argument type of another takes its place.
/// Functions that a package brings are not among them.
pub uninterp spec fn hosted(engine: rhai::Engine) -> Set<(Seq<char>, Seq<char>)>;

/// The events of an engine for which a callback was set: `print` and `debug`.
pub uninterp spec fn hooked(engine: rhai::Engine) -> Set<Seq<char>>;

/// Calls `rhai::Engine::new_raw`. Trusted: the engine has no function
/// registered on it and no callback set.
#[verifier::external_body]
fn new_raw() -> (engine: rhai::Engine)
    ensures
        hosted(engine) == Set::<(Seq<char>, Seq<char>)>::empty(),
        hooked(engine) == Set::<Seq<char>>::empty(),
{
    rhai::Engine::new_raw()
}

/// Calls `rhai::Engine::register_global_module` with the shared module of a
/// new `rhai::packages::StandardPackage`. Trusted: the functions registered
/// on the engine itself and its callbacks stay as they are.
#[verifier::external_body]
fn register_standard_package(engine: &mut rhai::Engine)
    ensures
        hosted(*final(engine)) == hosted(*old(engine)),
        hooked(*final(engine)) == hooked(*old(engine)),
{
    let package = rhai::packages::StandardPackage::new();
    engine.register_global_module(rhai::packages::Package::as_shared_module(&package));
}

/// Calls `rhai::Engine::set_fail_on_invalid_map_property`. Trusted: the
/// functions registered on the engine and its callbacks stay as they are.
#[verifier::external_body]
fn set_fail_on_invalid_map_property(engine: &mut rhai::Engine, enable: bool)
    ensures
        hosted(*final(engine)) == hosted(*old(engine)),
        hooked(*final(engine)) == hooked(*old(engine)),
{
    engine.set_fail_on_invalid_map_property(enable);
}

/// Calls `rhai::Engine::on_debug` with a callback that hands the statement's
/// text, its source and the line and column of its position to `debug_hook`.
/// Trusted: the engine then has a callback for `debug`, and nothing else of
/// what is registered on it has changed.
#[verifier::external_body]
fn on_debug<C: Console + 'static>(engine: &mut rhai::Engine, cell: Rc<FilesCell>, console: Rc<C>)
    ensures
        hosted(*final(engine)) == hosted(*old(engine)),
        hooked(*final(engine)) == hooked(*old(engine)).insert("debug"@),
{
    engine.on_debug(
        move |text, source, pos| debug_hook(&cell, &*console, text, source, pos.line(), pos.position()),
    );
}

/// Calls `rhai::Engine::on_print` with a callback that hands the text to
/// `print_hook`. Trusted: the engine then has a callback for `print`, and
/// nothing else of what is registered on it has changed.
#[verifier::external_body]
fn on_print<C: Console + 'static>(engine: &mut rhai::Engine, cell: Rc<FilesCell>, console: Rc<C>)
    ensures
        hosted(*final(engine)) == hosted(*old(engine)),
        hooked(*final(engine)) == hooked(*old(engine)).insert("print"@),
{
    engine.on_print(move |text| print_hook(&cell, &*console, text));
}

/// Calls `rhai::Engine::register_fn` with `print_bool`. Trusted: a function
/// of a `bool` is then registered under `name`, beside those that were.
#[verifier::external_body]
fn register_print_bool(engine: &mut rhai::Engine, name: &str)
    ensures
        hosted(*final(engine)) == hosted(*old(engine)).insert((name@, "bool"@)),
        hooked(*final(engine)) == hooked(*old(engine)),
{
    engine.register_fn(name, print_bool);
}

/// Calls `rhai::Engine::register_fn` with `print_array`. Trusted: a function
/// of an `Array` is then registered under `name`, beside those that were.
#[verifier::external_body]
fn register_print_arr(engine: &mut rhai::Engine, name: &str)
    ensures
        hosted(*final(engine)) == hosted(*old(engine)).insert((name@, "Array"@)),
        hooked(*final(engine)) == hooked(*old(engine)),
{
    engine.register_fn(name, print_array);
}

/// Calls `rhai::Engine::register_fn` with a function that hands its argument
/// to `prompt_hook`. Trusted: a function of a `&str` is then registered under
/// `name`, beside those that were.
#[verifier::external_body]
fn register_prompt<C: Console + 'static>(
    engine: &mut rhai::Engine,
    name: &str,
    cell: Rc<FilesCell>,
    console: Rc<C>,
)
    ensures
        hosted(*final(engine)) == hosted(*old(engine)).insert((name@, "&str"@)),
        hooked(*final(engine)) == hooked(*old(engine)),
{
    engine.register_fn(name, move |message: &str| prompt_hook(&cell, &*console, message));
}

/// Calls `rhai::Engine::register_fn` with a function that hands its argument
/// to `panic`. Trusted: a function of a `&str` is then registered under
/// `name`, beside those that were.
#[verifier::external_body]
fn register_panic<C: Console + 'static>(engine: &mut rhai::Engine, name: &str, console: Rc<C>)
    ensures
        hosted(*final(engine)) == hosted(*old(engine)).insert((name@, "&str"@)),
        hooked(*final(engine)) == hooked(*old(engine)),
{
    engine.register_fn(name, move |message: &str| panic(&*console, message));
}

/// The host functions of every script: `print` of a boolean and of a list,
/// `prompt` and `panic`.
pub open spec fn host_functions() -> Set<(Seq<char>, Seq<char>)> {
    set![
        ("print"@, "bool"@),
        ("print"@, "Array"@),
        ("prompt"@, "&str"@),
        ("panic"@, "&str"@),
    ]
}

/// The events that every script's engine has a callback for.
pub open spec fn host_events() -> Set<Seq<char>> {
    set!["debug"@, "print"@]
}

/// The engine that every script runs on: the standard package, an error for
/// reading a map key that is not there, print and debug output routed through
/// `cell`, and the host functions `print`, `prompt` and `panic`.
fn new_engine<C: Console + 'static>(cell: &Rc<FilesCell>, console: C) -> (engine: rhai::Engine)
    ensures
        hosted(engine) == host_functions(),
        hooked(engine) == host_events(),
{
    let console = Rc::new(console);
    let mut engine = new_raw();

    register_standard_package(&mut engine);
    set_fail_on_invalid_map_property(&mut engine, true);

    on_debug(&mut engine, share(cell), share(&console));
    on_print(&mut engine, share(cell), share(&console));
    register_print_bool(&mut engine, "print");
    register_print_arr(&mut engine, "print");
    register_prompt(&mut engine, "prompt", share(cell), share(&console));
    register_panic(&mut engine, "panic", console);

    assert(hosted(engine) =~= host_functions());
    assert(hooked(engine) =~= host_events());
    engine
}

/// Calls `rhai::Scope::new`: a scope with no variables.
#[verifier::external_body]
fn new_scope() -> (scope: rhai::Scope<'static>) {
    rhai::Scope::new()
}

/// Why a source does not compile on an engine, against a scope with no
/// variables: the failure that `rhai::Engine::compile_with_scope` reports,
/// or none where the source compiles.
pub uninterp spec fn parse_failure(engine: rhai::Engine, source: Seq<char>) -> Option<
    rhai::ParseError,
>;

/// Calls `rhai::Engine::compile_with_scope` with a new scope, which has no
/// variables. Trusted: whether the source compiles, and the failure where it
/// does not, depend on the engine and the source alone.
#[verifier::external_body]
fn compile_with_scope(engine: &rhai::Engine, source: &str) -> (ast: Result<
    rhai::AST,
    rhai::ParseError,
>)
    ensures
        ast matches Err(e) ==> parse_failure(*engine, source@) == Some(e),
        ast is Ok ==> parse_failure(*engine, source@) is None,
{
    engine.compile_with_scope(&rhai::Scope::new(), source)
}

/// Calls `rhai::Engine::eval_ast_with_scope`. The value of the last statement
/// is asked for as a `rhai::Dynamic`, which every value is, and dropped: a
/// script does not fail for what its last statement yields.
#[verifier::external_body]
fn eval_ast_with_scope(
    engine: &rhai::Engine,
    scope: &mut rhai::Scope<'static>,
    ast: &rhai::AST,
) -> (done: Result<(), Box<rhai::EvalAltResult>>) {
    engine.eval_ast_with_scope::<rhai::Dynamic>(scope, ast).map(|_| ())
}

/// How a function of a script is called.
#[derive(Clone, Copy, Debug, PartialEq, Eq, Structural)]
pub struct CallOptions {
    /// Whether the top-level statements are run again before the call.
    pub eval_ast: bool,
    /// Whether what the function did to the scope is undone after the call.
    pub rewind_scope: bool,
}

/// How every function of a script is called: the top-level statements are
/// not run again, and what the function does to the scope stays, so that the
/// next call finds it.
pub fn call_options() -> (options: CallOptions)
    ensures
        options == (CallOptions { eval_ast: false, rewind_scope: false }),
{
    CallOptions { eval_ast: false, rewind_scope: false }
}

/// Calls `rhai::Engine::call_fn_with_options` with the two options set as
/// given and the others at their defaults. The function's value is asked for
/// as a `rhai::Dynamic`, which every value is, and dropped: a call does not
/// fail for what the function returns.
#[verifier::external_body]
fn call_fn_with_options(
    engine: &rhai::Engine,
    options: CallOptions,
    scope: &mut rhai::Scope<'static>,
    ast: &rhai::AST,
    name: &str,
    args: Vec<String>,
) -> (done: Result<(), Box<rhai::EvalAltResult>>) {
    let options =
        rhai::CallFnOptions::new().eval_ast(options.eval_ast).rewind_scope(options.rewind_scope);
    engine.call_fn_with_options::<rhai::Dynamic>(options, scope, ast, name, args).map(|_| ())
}

/// Compiles `source`. It fails exactly where the source does not compile on
/// the engine, and then with the failure of the compiler.
fn compile(engine: &rhai::Engine, source: &str) -> (ast: Result<rhai::AST, Error>)
    ensures
        ast is Ok ==> parse_failure(*engine, source@) is None,
        ast matches Err(e) ==> parse_failure(*engine, source@) matches Some(failure) && e
            == Error::Parse(failure),
{
    match compile_with_scope(engine, source) {
        Ok(ast) => Ok(ast),
        Err(e) => Err(Error::from(e)),
    }
}

/// Runs the top-level statements of `ast` on `scope`. The only failure is
/// that the script fails while it runs.
fn evaluate(engine: &rhai::Engine, scope: &mut rhai::Scope<'static>, ast: &rhai::AST) -> (done:
    Result<(), Error>)
    ensures
        done matches Err(e) ==> e is Rhai,
{
    match eval_ast_with_scope(engine, scope, ast) {
        Ok(_) => Ok(()),
        Err(e) => Err(Error::from(e)),
    }
}

/// What `String::from_utf8_lossy` makes of bytes that are not valid UTF-8.
pub uninterp spec fn utf8_lossy(bytes: Seq<u8>) -> Seq<char>;

/// Bytes read as text, leniently: valid UTF-8 as the text it encodes, and
/// anything else with its invalid parts replaced.
pub open spec fn lossy(bytes: Seq<u8>) -> Seq<char> {
    if valid_utf8(bytes) {
        decode_utf8(bytes)
    } else {
        utf8_lossy(bytes)
    }
}

/// The encoding of two texts, one after the other, is the encoding of the
/// first followed by the encoding of the second.
pub proof fn lemma_encode_concat(a: Seq<char>, b: Seq<char>)
    ensures
        encode_utf8(a + b) == encode_utf8(a) + encode_utf8(b),
    decreases a.len(),
{
    if a.len() == 0 {
        assert(a + b =~= b);
        assert(encode_utf8(a) + encode_utf8(b) =~= encode_utf8(b));
    } else {
        lemma_encode_concat(a.drop_first(), b);
        assert((a + b).drop_first() =~= a.drop_first() + b);
        assert(encode_utf8(a + b) =~= encode_utf8(a) + encode_utf8(b));
    }
}

/// The bytes that a run of texts leaves in a buffer.
pub open spec fn encoded(texts: Seq<Seq<char>>) -> Seq<Seq<u8>> {
    texts.map_values(|text: Seq<char>| encode_utf8(text))
}

/// Captured text comes back as it was written: the bytes that a run of texts
/// left in a buffer read as those texts, one after the other in the order
/// they were written.
pub proof fn lemma_captured_text_reads_back(texts: Seq<Seq<char>>)
    ensures
        encoded(texts).flatten() == encode_utf8(texts.flatten()),
        lossy(encoded(texts).flatten()) == texts.flatten(),
    decreases texts.len(),
{
    if texts.len() > 0 {
        lemma_captured_text_reads_back(texts.drop_first());
        assert(encoded(texts).drop_first() =~= encoded(texts.drop_first()));
        lemma_encode_concat(texts.first(), texts.drop_first().flatten());
    }
    vstd::utf8::encode_utf8_valid_utf8(texts.flatten());
    vstd::utf8::encode_utf8_decode_utf8(texts.flatten());
}

/// Calls `String::from_utf8_lossy`. Trusted: valid UTF-8 comes back as the
/// text it encodes; of other bytes only that the text depends on them alone.
#[verifier::external_body]
fn from_utf8_lossy(bytes: &[u8]) -> (text: String)
    ensures
        text@ == (if valid_utf8(bytes@) {
            decode_utf8(bytes@)
        } else {
            utf8_lossy(bytes@)
        }),
{
    String::from_utf8_lossy(bytes).into_owned()
}

/// What a captured call leaves behind.
#[derive(Debug)]
pub struct Output {
    /// Why the call failed, if it did.
    pub error: Option<Error>,
    /// Everything written to standard output during the call.
    pub stdout: String,
    /// Everything written to standard error during the call.
    pub stderr: String,
}

/// Ends a capture: switches `files` off, empties both buffers and hands out
/// what they held, as text, together with how the captured call ended.
pub fn capture(files: &mut StdFiles, result: Result<(), Error>) -> (output: Output)
    ensures
        final(files)@ == Captured::idle(),
        output.error == (match result {
            Ok(_) => None,
            Err(e) => Some(e),
        }),
        output.stdout@ == lossy(old(files)@.stdout),
        output.stderr@ == lossy(old(files)@.stderr),
{
    disable(files);
    let stdout = files.take(Stream::Stdout);
    let stderr = files.take(Stream::Stderr);
    Output {
        error: match result {
            Ok(_) => None,
            Err(e) => Some(e),
        },
        stdout: from_utf8_lossy(stdout.as_slice()),
        stderr: from_utf8_lossy(stderr.as_slice()),
    }
}

/// One compiled script and the state its functions share.
pub struct Script {
    engine: rhai::Engine,
    scope: rhai::Scope<'static>,
    ast: rhai::AST,
    cell: Rc<FilesCell>,
    files: StdFiles,
}

impl View for Script {
    type V = Captured;

    /// What the script's streams hold.
    closed spec fn view(&self) -> Captured {
        self.files@
    }
}

impl Script {
    /// The engine that runs the script, as it was configured when the script
    /// was loaded.
    pub closed spec fn engine(&self) -> rhai::Engine {
        self.engine
    }

    /// The compiled script.
    pub closed spec fn program(&self) -> rhai::AST {
        self.ast
    }

    /// The variables that the script's top-level statements and the calls
    /// made so far have left.
    pub closed spec fn scope(&self) -> rhai::Scope<'static> {
        self.scope
    }

    /// The streams that the script writes to.
    pub fn files(&mut self) -> (files: &mut StdFiles)
        ensures
            files@ == old(self)@,
            final(self)@ == final(files)@,
            final(self).engine() == old(self).engine(),
            final(self).program() == old(self).program(),
            final(self).scope() == old(self).scope(),
    {
        &mut self.files
    }

    /// Compiles `source` and runs its top-level statements, once. What they
    /// write goes to `console`, as does everything written later while
    /// capture is off. A source that does not compile on the engine of every
    /// script gives the compiler's failure, and nothing of it is run; a source
    /// that compiles gives a script, or the failure of its top-level
    /// statements.
    pub fn new<C: Console + 'static>(source: &str, console: C) -> (script: Result<Self, Error>)
        ensures
            script matches Ok(s) ==> {
                &&& s@ == Captured::idle()
                &&& hosted(s.engine()) == host_functions()
                &&& hooked(s.engine()) == host_events()
                &&& parse_failure(s.engine(), source@) is None
            },
            script matches Err(e) ==> exists|engine: rhai::Engine|
                {
                    &&& hosted(engine) == host_functions()
                    &&& hooked(engine) == host_events()
                    &&& match #[trigger] parse_failure(engine, source@) {
                        Some(failure) => e == Error::Parse(failure),
                        None => e is Rhai,
                    }
                },
    {
        let cell = Rc::new(FilesCell::new());
        let engine = new_engine(&cell, console);
        let ast = match compile(&engine, source) {
            Ok(ast) => ast,
            Err(e) => {
                return Err(e);
            },
        };
        let mut scope = new_scope();
        match evaluate(&engine, &mut scope, &ast) {
            Ok(_) => {},
            Err(e) => {
                assert(parse_failure(engine, source@) is None);
                return Err(e);
            },
        }
        Ok(Script { engine, scope, ast, cell, files: StdFiles::new() })
    }

    /// Calls the function `name` on the scope as the calls before it left it,
    /// without running the top-level statements again and without undoing
    /// what the function does to the scope. While the engine runs, its
    /// callbacks write to a pair of streams of their own, switched as the
    /// script's are; what they captured is collected into the script's
    /// streams when the engine is done. The engine decides how the call
    /// ends and what is written.
    fn call_fn(&mut self, name: &str, args: Vec<String>) -> (done: Result<(), Error>)
        ensures
            final(self)@.follows(old(self)@),
            final(self).engine() == old(self).engine(),
            final(self).program() == old(self).program(),
            done matches Err(e) ==> e is Rhai,
    {
        let idle = self.cell.replace(self.files.lend());
        let done = call_fn_with_options(
            &self.engine,
            call_options(),
            &mut self.scope,
            &self.ast,
            name,
            args,
        );
        let used = self.cell.replace(idle);
        proof {
            lemma_collect_follows(self.files@, used@);
        }
        self.files.collect(used);
        match done {
            Ok(_) => Ok(()),
            Err(e) => Err(Error::from(e)),
        }
    }

    /// Calls the function `cmd` with `args`. Its failure is handed on as it is.
    pub fn execute(&mut self, cmd: &str, args: Vec<String>) -> (done: Result<(), Error>)
        ensures
            final(self)@.follows(old(self)@),
            final(self).engine() == old(self).engine(),
            final(self).program() == old(self).program(),
            done matches Err(e) ==> e is Rhai,
    {
        self.call_fn(cmd, args)
    }

    /// Calls the function `cmd` with `args` and captures what it writes.
    /// A failure of the call is part of the output, beside what was written
    /// before it; the streams are idle again afterwards, whether the call
    /// failed or not. The output is what the buffers already held and, after
    /// it, the text that the call wrote.
    pub fn execute_capture(&mut self, cmd: &str, args: Vec<String>) -> (output: Output)
        ensures
            final(self)@ == Captured::idle(),
            final(self).engine() == old(self).engine(),
            final(self).program() == old(self).program(),
            output.error matches Some(e) ==> e is Rhai,
            exists|stdout: Seq<char>, stderr: Seq<char>|
                {
                    &&& output.stdout@ == lossy(old(self)@.stdout + encode_utf8(stdout))
                    &&& output.stderr@ == lossy(old(self)@.stderr + encode_utf8(stderr))
                },
    {
        enable(&mut self.files);
        let ghost before = self.files@;
        let r = self.call_fn(cmd, args);
        let ghost after = self.files@;
        let ghost stdout = decode_utf8(after.stdout.skip(before.stdout.len() as int));
        let ghost stderr = decode_utf8(after.stderr.skip(before.stderr.len() as int));
        let output = capture(&mut self.files, r);
        proof {
            vstd::utf8::decode_utf8_encode_utf8(after.stdout.skip(before.stdout.len() as int));
            vstd::utf8::decode_utf8_encode_utf8(after.stderr.skip(before.stderr.len() as int));
            assert(after.stdout =~= old(self)@.stdout + encode_utf8(stdout));
            assert(after.stderr =~= old(self)@.stderr + encode_utf8(stderr));
            assert(output.stdout@ == lossy(old(self)@.stdout + encode_utf8(stdout)));
            assert(output.stderr@ == lossy(old(self)@.stderr + encode_utf8(stderr)));
        }
        output
    }
}

} // verus!
