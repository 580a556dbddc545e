use riji::stdfiles::Console;
use riji::Script;

struct Silent;

impl Console for Silent {
    fn out(&self, _text: &str) {}

    fn err(&self, _text: &str) {}

    fn read_line(&self) -> String {
        String::new()
    }

    fn halt(&self, _message: &str) {}
}

const SOURCE: &str = "fn run_test() {\n\tprint(\"hello\");\n\tdebug(\"error\");\n}\n";

#[test]
fn test_capture() {
    let mut script = Script::new(SOURCE, Silent).unwrap();
    let output = script.execute_capture("run_test", vec![]);

    assert!(output.error.is_none());
    assert_eq!(output.stdout, "hello\n");
    assert_eq!(output.stderr, "unknown @ 3:2 > \"error\"\n");
}
