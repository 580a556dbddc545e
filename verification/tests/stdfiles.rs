use riji::stdfiles::disable;
use riji::stdfiles::enable;
use riji::stdfiles::eprint;
use riji::stdfiles::eprintln;
use riji::stdfiles::is_enabled;
use riji::stdfiles::print;
use riji::stdfiles::Console;
use riji::stdfiles::StdFile;
use riji::stdfiles::StdFiles;
use riji::stdfiles::Stream;
use std::cell::RefCell;

#[derive(Default)]
struct Recorder {
    out: RefCell<String>,
    err: RefCell<String>,
}

impl Console for Recorder {
    fn out(&self, text: &str) {
        self.out.borrow_mut().push_str(text);
    }

    fn err(&self, text: &str) {
        self.err.borrow_mut().push_str(text);
    }

    fn read_line(&self) -> String {
        String::new()
    }

    fn halt(&self, _message: &str) {}
}

#[test]
fn new_file_is_empty() {
    let mut file = StdFile::new();
    assert_eq!(file.take(), Vec::<u8>::new());
}

#[test]
fn file_appends_in_write_order() {
    let mut file = StdFile::new();
    file.write(b"ab");
    file.write(b"");
    file.write(b"c");
    assert_eq!(file.take(), b"abc".to_vec());
}

#[test]
fn second_take_is_empty() {
    let mut file = StdFile::new();
    file.write(b"once");
    assert_eq!(file.take(), b"once".to_vec());
    assert_eq!(file.take(), Vec::<u8>::new());
    file.write(b"again");
    assert_eq!(file.take(), b"again".to_vec());
}

#[test]
fn borrowed_buffer_is_the_file() {
    let mut file = StdFile::new();
    file.write(b"a");
    {
        let buffer = file.borrow_mut();
        assert_eq!(buffer.as_slice(), b"a");
        buffer.extend_from_slice(b"bc");
    }
    assert_eq!(file.take(), b"abc".to_vec());
}

#[test]
fn files_start_idle() {
    let mut files = StdFiles::new();
    assert!(!is_enabled(&files));
    assert!(files.take(Stream::Stdout).is_empty());
    assert!(files.take(Stream::Stderr).is_empty());
}

#[test]
fn enable_and_disable_are_idempotent() {
    let mut files = StdFiles::new();
    enable(&mut files);
    enable(&mut files);
    assert!(is_enabled(&files));
    disable(&mut files);
    disable(&mut files);
    assert!(!is_enabled(&files));
}

#[test]
fn write_is_buffered_while_enabled() {
    let mut files = StdFiles::new();
    enable(&mut files);
    assert!(!files.write(Stream::Stdout, "one "));
    assert!(!files.write(Stream::Stderr, "oops"));
    assert!(!files.write(Stream::Stdout, "two"));
    assert_eq!(files.take(Stream::Stdout), b"one two".to_vec());
    assert_eq!(files.take(Stream::Stderr), b"oops".to_vec());
    assert!(files.take(Stream::Stdout).is_empty());
    assert!(is_enabled(&files));
}

#[test]
fn write_passes_while_disabled() {
    let mut files = StdFiles::new();
    assert!(files.write(Stream::Stdout, "lost"));
    assert!(files.write(Stream::Stderr, "lost"));
    assert!(files.take(Stream::Stdout).is_empty());
    assert!(files.take(Stream::Stderr).is_empty());
}

#[test]
fn writes_after_disable_never_reach_a_take() {
    let mut files = StdFiles::new();
    enable(&mut files);
    files.write(Stream::Stdout, "kept");
    disable(&mut files);
    assert!(files.write(Stream::Stdout, "passed"));
    assert_eq!(files.take(Stream::Stdout), b"kept".to_vec());
    assert!(files.write(Stream::Stdout, "passed"));
    assert!(files.take(Stream::Stdout).is_empty());
}

#[test]
fn buffer_keeps_bytes_of_wide_characters() {
    let mut files = StdFiles::new();
    enable(&mut files);
    files.write(Stream::Stdout, "h\u{e9}\u{20ac}");
    assert_eq!(files.take(Stream::Stdout), vec![0x68, 0xc3, 0xa9, 0xe2, 0x82, 0xac]);
}

#[test]
fn print_family_is_captured_while_enabled() {
    let console = Recorder::default();
    let mut files = StdFiles::new();
    enable(&mut files);
    print(&mut files, &console, "a");
    riji::stdfiles::println(&mut files, &console, "b");
    eprint(&mut files, &console, "c");
    eprintln(&mut files, &console, "d");
    assert_eq!(files.take(Stream::Stdout), b"ab\n".to_vec());
    assert_eq!(files.take(Stream::Stderr), b"cd\n".to_vec());
    assert_eq!(console.out.borrow().as_str(), "");
    assert_eq!(console.err.borrow().as_str(), "");
}

#[test]
fn print_family_reaches_the_console_while_disabled() {
    let console = Recorder::default();
    let mut files = StdFiles::new();
    print(&mut files, &console, "a");
    riji::stdfiles::println(&mut files, &console, "b");
    eprint(&mut files, &console, "c");
    eprintln(&mut files, &console, "d");
    assert!(files.take(Stream::Stdout).is_empty());
    assert!(files.take(Stream::Stderr).is_empty());
    assert_eq!(console.out.borrow().as_str(), "ab\n");
    assert_eq!(console.err.borrow().as_str(), "cd\n");
}

#[test]
fn lent_pair_is_switched_alike_and_empty() {
    let mut files = StdFiles::new();
    enable(&mut files);
    files.write(Stream::Stdout, "kept");
    let mut lent = files.lend();
    assert!(is_enabled(&lent));
    assert!(lent.take(Stream::Stdout).is_empty());
    assert!(lent.take(Stream::Stderr).is_empty());
    assert_eq!(files.take(Stream::Stdout), b"kept".to_vec());
    disable(&mut files);
    assert!(!is_enabled(&files.lend()));
}

#[test]
fn collect_appends_while_enabled() {
    let mut files = StdFiles::new();
    enable(&mut files);
    files.write(Stream::Stdout, "a");
    files.write(Stream::Stderr, "x");
    let mut used = files.lend();
    used.write(Stream::Stdout, "b");
    used.write(Stream::Stderr, "y");
    used.write(Stream::Stdout, "c");
    files.collect(used);
    assert!(is_enabled(&files));
    assert_eq!(files.take(Stream::Stdout), b"abc".to_vec());
    assert_eq!(files.take(Stream::Stderr), b"xy".to_vec());
}

#[test]
fn collect_leaves_aside_while_disabled() {
    let mut files = StdFiles::new();
    enable(&mut files);
    files.write(Stream::Stdout, "a");
    disable(&mut files);
    let mut used = StdFiles::new();
    enable(&mut used);
    used.write(Stream::Stdout, "b");
    files.collect(used);
    assert!(!is_enabled(&files));
    assert_eq!(files.take(Stream::Stdout), b"a".to_vec());
    assert!(files.take(Stream::Stderr).is_empty());
}
