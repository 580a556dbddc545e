use riji::paint::epaint;
use riji::paint::epaintln;
use riji::paint::paint;
use riji::paint::paint_act;
use riji::paint::paint_dbg;
use riji::paint::paint_err;
use riji::paint::paint_ok;
use riji::paint::paint_text;
use riji::paint::paintln;
use riji::paint::Colour;
use riji::paint::Style;
use riji::stdfiles::enable;
use riji::stdfiles::Console;
use riji::stdfiles::StdFiles;
use riji::stdfiles::Stream;
use std::cell::RefCell;

#[derive(Default)]
struct Recorder {
    out: RefCell<String>,
    err: RefCell<String>,
}

impl Console for Recorder {
    fn out(&self, text: &str) {
        self.out.borrow_mut().push_str(text);
    }

    fn err(&self, text: &str) {
        self.err.borrow_mut().push_str(text);
    }

    fn read_line(&self) -> String {
        String::new()
    }

    fn halt(&self, _message: &str) {}
}

#[test]
fn styles_are_built_from_colours() {
    assert_eq!(Colour::Red.normal(), Style { foreground: Colour::Red, is_dimmed: false });
    assert_eq!(Colour::White.dimmed(), Style { foreground: Colour::White, is_dimmed: true });
}

#[test]
fn paint_text_is_identity_while_capturing() {
    let mut files = StdFiles::new();
    enable(&mut files);
    assert_eq!(paint_text(&files, Colour::Red.normal(), "plain"), "plain");
    assert_eq!(paint_text(&files, Colour::White.dimmed(), ""), "");
}

#[test]
fn paint_text_wraps_for_terminals() {
    let files = StdFiles::new();
    assert_eq!(paint_text(&files, Colour::Red.normal(), "hot"), "\x1b[31mhot\x1b[0m");
    assert_eq!(paint_text(&files, Colour::White.dimmed(), "dim"), "\x1b[2;37mdim\x1b[0m");
    assert_eq!(paint_text(&files, Colour::Blue.normal(), ""), "\x1b[34m\x1b[0m");
}

#[test]
fn every_colour_has_its_code() {
    let files = StdFiles::new();
    let colours = [
        (Colour::Black, "30"),
        (Colour::Red, "31"),
        (Colour::Green, "32"),
        (Colour::Yellow, "33"),
        (Colour::Blue, "34"),
        (Colour::Purple, "35"),
        (Colour::Cyan, "36"),
        (Colour::White, "37"),
    ];
    for (colour, code) in colours {
        assert_eq!(paint_text(&files, colour.normal(), "x"), format!("\x1b[{}mx\x1b[0m", code));
        assert_eq!(paint_text(&files, colour.dimmed(), "x"), format!("\x1b[2;{}mx\x1b[0m", code));
    }
}

#[test]
fn painted_output_is_bare_in_the_buffers() {
    let console = Recorder::default();
    let mut files = StdFiles::new();
    enable(&mut files);
    paint(&mut files, &console, Colour::Cyan.normal(), "a");
    paintln(&mut files, &console, Colour::Cyan.normal(), "b");
    epaint(&mut files, &console, Colour::Purple.normal(), "c");
    epaintln(&mut files, &console, Colour::Purple.normal(), "d");
    paint_err(&mut files, &console, "e");
    paint_ok(&mut files, &console, "f");
    paint_dbg(&mut files, &console, "g");
    paint_act(&mut files, &console, "h");
    assert_eq!(files.take(Stream::Stdout), b"ab\n".to_vec());
    assert_eq!(files.take(Stream::Stderr), b"cd\ne\nf\ng\nh\n".to_vec());
    assert_eq!(console.out.borrow().as_str(), "");
    assert_eq!(console.err.borrow().as_str(), "");
}

#[test]
fn painted_output_is_coloured_on_the_console() {
    let console = Recorder::default();
    let mut files = StdFiles::new();
    paint(&mut files, &console, Colour::Cyan.normal(), "a");
    paintln(&mut files, &console, Colour::Cyan.normal(), "b");
    epaint(&mut files, &console, Colour::Purple.normal(), "c");
    epaintln(&mut files, &console, Colour::Purple.normal(), "d");
    assert_eq!(console.out.borrow().as_str(), "\x1b[36ma\x1b[0m\x1b[36mb\x1b[0m\n");
    assert_eq!(console.err.borrow().as_str(), "\x1b[35mc\x1b[0m\x1b[35md\x1b[0m\n");
    assert!(files.take(Stream::Stdout).is_empty());
    assert!(files.take(Stream::Stderr).is_empty());
}

#[test]
fn the_four_channels_have_their_colours() {
    let console = Recorder::default();
    let mut files = StdFiles::new();
    paint_err(&mut files, &console, "e");
    paint_ok(&mut files, &console, "f");
    paint_dbg(&mut files, &console, "g");
    paint_act(&mut files, &console, "h");
    assert_eq!(
        console.err.borrow().as_str(),
        "\x1b[31me\x1b[0m\n\x1b[32mf\x1b[0m\n\x1b[2;37mg\x1b[0m\n\x1b[33mh\x1b[0m\n"
    );
    assert_eq!(console.out.borrow().as_str(), "");
}
