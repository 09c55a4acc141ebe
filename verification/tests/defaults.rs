use script_io::{Env, IoBackend, RuntimeError, RuntimeResult, FILE_IO_UNSUPPORTED, IMPORT_UNSUPPORTED};

/// A backend with the two operations that every backend has, and no other.
struct Bare {
    printed: String,
    draws: u64,
}

impl Bare {
    fn new() -> Bare {
        Bare { printed: String::new(), draws: 0 }
    }
}

impl IoBackend for Bare {
    type Value = i64;

    fn print_str(&mut self, s: &str) {
        self.printed.push_str(s);
    }

    fn rand(&mut self) -> u64 {
        self.draws += 1;
        0.25f64.to_bits()
    }
}

/// A backend that answers every operation itself.
struct Full {
    log: Vec<String>,
}

impl IoBackend for Full {
    type Value = i64;

    fn print_str(&mut self, s: &str) {
        self.log.push(format!("print {s}"));
    }

    fn rand(&mut self) -> u64 {
        self.log.push(format!("rand"));
        0.5f64.to_bits()
    }

    fn scan_line(&mut self) -> String {
        self.log.push(format!("scan"));
        format!("typed")
    }

    fn import(&mut self, name: &str, env: &Env) -> RuntimeResult<Vec<i64>> {
        self.log.push(format!("import {name}"));
        if name == "bad" {
            Err(env.error("no such module"))
        } else {
            Ok(vec![7, 8])
        }
    }

    fn var(&mut self, name: &str) -> Option<String> {
        self.log.push(format!("var {name}"));
        Some(format!("value of {name}"))
    }

    fn args(&mut self) -> Vec<String> {
        self.log.push(format!("args"));
        vec![format!("prog"), format!("-v")]
    }

    fn file_exists(&self, path: &str) -> bool {
        path == "here"
    }

    fn list_dir(&self, path: &str, _env: &Env) -> RuntimeResult<Vec<String>> {
        Ok(vec![format!("{path}/a"), format!("{path}/b")])
    }

    fn is_file(&self, path: &str, env: &Env) -> RuntimeResult<bool> {
        if path == "gone" {
            Err(env.error("not found"))
        } else {
            Ok(path == "here")
        }
    }

    fn read_file(&mut self, path: &str, _env: &Env) -> RuntimeResult<Vec<u8>> {
        self.log.push(format!("read {path}"));
        Ok(vec![1, 2, 3])
    }

    fn write_file(&mut self, path: &str, contents: Vec<u8>, _env: &Env) -> RuntimeResult<()> {
        self.log.push(format!("write {path} {}", contents.len()));
        Ok(())
    }
}

fn raised(message: &str, site: u64) -> RuntimeError {
    RuntimeError::Raised { message: format!("{message}"), site }
}

/// Calls every operation once, through whatever backend it is given.
fn exercise<B: IoBackend<Value = i64>>(mut io: B, env: &Env) -> Vec<String> {
    let mut seen = Vec::new();
    io.print_str("out");
    seen.push(format!("{:#x}", io.rand()));
    seen.push(io.scan_line());
    seen.push(format!("{:?}", io.import("m", env)));
    seen.push(format!("{:?}", io.import("bad", env)));
    seen.push(format!("{:?}", io.var("HOME")));
    seen.push(format!("{:?}", io.args()));
    seen.push(format!("{:?}", io.file_exists("here")));
    seen.push(format!("{:?}", io.list_dir("d", env)));
    seen.push(format!("{:?}", io.is_file("here", env)));
    seen.push(format!("{:?}", io.is_file("gone", env)));
    seen.push(format!("{:?}", io.read_file("f", env)));
    seen.push(format!("{:?}", io.write_file("f", vec![9, 9], env)));
    seen
}

#[test]
fn unsupported_messages_are_the_documented_texts() {
    assert_eq!(IMPORT_UNSUPPORTED, "Import not supported in this environment");
    assert_eq!(FILE_IO_UNSUPPORTED, "File IO not supported in this environment");
}

#[test]
fn default_scan_line_is_empty() {
    let mut io = Bare::new();
    assert_eq!(io.scan_line(), "");
    assert_eq!(io.scan_line(), "");
}

#[test]
fn default_var_is_absent() {
    let mut io = Bare::new();
    assert_eq!(io.var("X"), None);
}

#[test]
fn default_args_are_empty() {
    let mut io = Bare::new();
    assert_eq!(io.args(), Vec::<String>::new());
}

#[test]
fn default_file_exists_is_false() {
    let io = Bare::new();
    assert!(!io.file_exists("/nope"));
    assert!(!io.file_exists(""));
}

#[test]
fn default_import_is_unsupported() {
    let mut io = Bare::new();
    let env = Env::new(12);
    assert_eq!(io.import("a.lang", &env), Err(raised("Import not supported in this environment", 12)));
}

#[test]
fn default_list_dir_is_unsupported() {
    let io = Bare::new();
    let env = Env::new(3);
    assert_eq!(io.list_dir(".", &env), Err(raised("File IO not supported in this environment", 3)));
}

#[test]
fn default_is_file_is_unsupported() {
    let io = Bare::new();
    let env = Env::new(4);
    assert_eq!(io.is_file("x", &env), Err(raised("File IO not supported in this environment", 4)));
}

#[test]
fn default_read_file_is_unsupported() {
    let mut io = Bare::new();
    let env = Env::new(5);
    assert_eq!(io.read_file("x", &env), Err(raised("File IO not supported in this environment", 5)));
}

#[test]
fn default_write_file_is_unsupported() {
    let mut io = Bare::new();
    let env = Env::new(6);
    assert_eq!(io.write_file("x", vec![1, 2], &env), Err(raised("File IO not supported in this environment", 6)));
}

#[test]
fn defaults_leave_the_backend_as_it_was() {
    let mut io = Bare::new();
    let env = Env::new(0);
    io.print_str("kept");
    let _ = io.scan_line();
    let _ = io.import("m", &env);
    let _ = io.var("X");
    let _ = io.args();
    let _ = io.read_file("f", &env);
    let _ = io.write_file("f", vec![1], &env);
    assert_eq!(io.printed, "kept");
    assert_eq!(io.draws, 0);
}

#[test]
fn unsupported_error_carries_its_message() {
    let io = Bare::new();
    let env = Env::new(9);
    let error = io.list_dir("d", &env).unwrap_err();
    assert_eq!(error.message(), "File IO not supported in this environment");
}

#[test]
fn borrowed_backend_answers_as_the_backend_does() {
    let env = Env::new(21);
    let mut direct = Full { log: Vec::new() };
    let mut lent = Full { log: Vec::new() };
    let seen_lent = exercise(&mut lent, &env);
    let seen_direct = {
        let mut seen = Vec::new();
        direct.print_str("out");
        seen.push(format!("{:#x}", direct.rand()));
        seen.push(direct.scan_line());
        seen.push(format!("{:?}", direct.import("m", &env)));
        seen.push(format!("{:?}", direct.import("bad", &env)));
        seen.push(format!("{:?}", direct.var("HOME")));
        seen.push(format!("{:?}", direct.args()));
        seen.push(format!("{:?}", direct.file_exists("here")));
        seen.push(format!("{:?}", direct.list_dir("d", &env)));
        seen.push(format!("{:?}", direct.is_file("here", &env)));
        seen.push(format!("{:?}", direct.is_file("gone", &env)));
        seen.push(format!("{:?}", direct.read_file("f", &env)));
        seen.push(format!("{:?}", direct.write_file("f", vec![9, 9], &env)));
        seen
    };
    assert_eq!(seen_lent, seen_direct);
    assert_eq!(lent.log, direct.log);
    assert_eq!(
        lent.log,
        vec![
            format!("print out"),
            format!("rand"),
            format!("scan"),
            format!("import m"),
            format!("import bad"),
            format!("var HOME"),
            format!("args"),
            format!("read f"),
            format!("write f 2"),
        ]
    );
}

#[test]
fn borrowed_backend_forwards_each_answer() {
    let env = Env::new(2);
    let mut io = Full { log: Vec::new() };
    let seen = exercise(&mut io, &env);
    assert_eq!(seen[0], "0x3fe0000000000000");
    assert_eq!(seen[1], "typed");
    assert_eq!(seen[2], "Ok([7, 8])");
    assert_eq!(seen[3], format!("{:?}", Err::<Vec<i64>, RuntimeError>(raised("no such module", 2))));
    assert_eq!(seen[4], "Some(\"value of HOME\")");
    assert_eq!(seen[5], "[\"prog\", \"-v\"]");
    assert_eq!(seen[6], "true");
    assert_eq!(seen[7], "Ok([\"d/a\", \"d/b\"])");
    assert_eq!(seen[8], "Ok(true)");
    assert_eq!(seen[9], format!("{:?}", Err::<bool, RuntimeError>(raised("not found", 2))));
    assert_eq!(seen[10], "Ok([1, 2, 3])");
    assert_eq!(seen[11], "Ok(())");
}

#[test]
fn borrowed_backend_keeps_the_defaults() {
    let env = Env::new(30);
    let mut io = Bare::new();
    let seen = exercise(&mut io, &env);
    assert_eq!(io.printed, "out");
    assert_eq!(io.draws, 1);
    assert_eq!(seen[0], "0x3fd0000000000000");
    assert_eq!(seen[1], "");
    let unsupported_import = format!("{:?}", Err::<Vec<i64>, RuntimeError>(raised("Import not supported in this environment", 30)));
    assert_eq!(seen[2], unsupported_import);
    assert_eq!(seen[4], "None");
    assert_eq!(seen[5], "[]");
    assert_eq!(seen[6], "false");
    let unsupported_files = "Err(Raised { message: \"File IO not supported in this environment\", site: 30 })";
    assert_eq!(seen[7], unsupported_files);
    assert_eq!(seen[8], unsupported_files);
    assert_eq!(seen[10], unsupported_files);
    assert_eq!(seen[11], unsupported_files);
}

#[test]
fn borrow_of_a_borrow_is_a_backend() {
    let env = Env::new(1);
    let mut io = Bare::new();
    let mut once = &mut io;
    let twice = &mut once;
    let seen = exercise(twice, &env);
    assert_eq!(seen[1], "");
    assert_eq!(io.printed, "out");
}

#[test]
fn rand_of_a_backend_is_in_the_unit_interval() {
    let mut io = Bare::new();
    let drawn = f64::from_bits(io.rand());
    assert!(0.0 <= drawn && drawn < 1.0);
    assert_eq!(drawn, 0.25);
}

#[test]
fn backend_can_be_used_behind_a_trait_object() {
    let env = Env::new(17);
    let mut bare = Bare::new();
    let mut full = Full { log: Vec::new() };
    let mut backends: Vec<&mut dyn IoBackend<Value = i64>> = vec![&mut bare, &mut full];
    let mut lines = Vec::new();
    let mut found = Vec::new();
    for io in backends.iter_mut() {
        io.print_str("x");
        lines.push(io.scan_line());
        found.push(io.file_exists("here"));
    }
    assert_eq!(lines, vec![format!(""), format!("typed")]);
    assert_eq!(found, vec![false, true]);
    assert_eq!(backends[0].import("m", &env), Err(raised("Import not supported in this environment", 17)));
    assert_eq!(backends[1].import("m", &env), Ok(vec![7, 8]));
    assert_eq!(bare.printed, "x");
}
