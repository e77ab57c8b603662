use manage_api::check::{
    classify, cmd_output_same_as_file_content, code_out_check_mkn, code_out_check_smt2,
    code_out_task, mkn_cmd, out_path_of, visit, warn_if_not_tested, Entry, Task, Visit, Warning,
};
use manage_api::conf::Conf;
use manage_api::error::{Cmd, Error, Kind};

fn file(name: &str) -> Entry {
    Entry { name: name.to_string(), is_dir: false }
}

fn dir(name: &str) -> Entry {
    Entry { name: name.to_string(), is_dir: true }
}

#[test]
fn classify_smt2_and_mkn() {
    let entries = vec![file("a.smt2"), file("a.smt2.out"), file("c.mkn"), file("c.mkn.out")];
    let (snippet, kind) = classify("code", "a.smt2.out", &entries).unwrap();
    assert_eq!(snippet, "code/a.smt2");
    assert_eq!(kind, Kind::Smt2);
    let (snippet, kind) = classify("code", "c.mkn.out", &entries).unwrap();
    assert_eq!(snippet, "code/c.mkn");
    assert_eq!(kind, Kind::Mikino);
}

#[test]
fn classify_missing_snippet() {
    let entries = vec![file("b.smt2.out")];
    match classify("code", "b.smt2.out", &entries) {
        Err(Error::MissingSnippet { path }) => assert_eq!(path, "code/b.smt2"),
        other => panic!("unexpected {:?}", other),
    }
    // a directory of that name is no snippet
    let entries = vec![dir("b.smt2"), file("b.smt2.out")];
    assert!(matches!(
        classify("code", "b.smt2.out", &entries),
        Err(Error::MissingSnippet { .. })
    ));
}

#[test]
fn classify_unknown_kind() {
    let entries = vec![file("n.txt"), file("n.txt.out")];
    match classify("code", "n.txt.out", &entries) {
        Err(Error::UnknownSnippetKind { ext, snippet, out }) => {
            assert_eq!(ext, "txt");
            assert_eq!(snippet, "code/n.txt");
            assert_eq!(out, "code/n.txt.out");
        }
        other => panic!("unexpected {:?}", other),
    }
}

#[test]
fn classify_missing_extension() {
    let entries = vec![file("n"), file("n.out")];
    match classify("code", "n.out", &entries) {
        Err(Error::MissingExtension { path }) => assert_eq!(path, "code/n"),
        other => panic!("unexpected {:?}", other),
    }
}

#[test]
fn classify_no_stem() {
    let entries = vec![];
    match classify("code", "", &entries) {
        Err(Error::NoFileStem { path }) => assert_eq!(path, "code/"),
        other => panic!("unexpected {:?}", other),
    }
}

#[test]
fn tasks_of_code_dir_entries() {
    let entries = vec![dir("sub"), file("x.rs"), file("a.smt2"), file("a.smt2.out")];
    assert!(matches!(code_out_task("code", &entries[0], &entries), Ok(Task::Nothing)));
    match code_out_task("code", &entries[1], &entries) {
        Ok(Task::Audit { name, out }) => {
            assert_eq!(name, "x.rs");
            assert_eq!(out, "code/x.rs.out");
        }
        other => panic!("unexpected {:?}", other),
    }
    match code_out_task("code", &entries[3], &entries) {
        Ok(Task::Check { snippet, out, kind }) => {
            assert_eq!(snippet, "code/a.smt2");
            assert_eq!(out, "code/a.smt2.out");
            assert_eq!(kind, Kind::Smt2);
        }
        other => panic!("unexpected {:?}", other),
    }
}

#[test]
fn visit_entries() {
    assert!(matches!(visit("src", &file("a.md")), Visit::Ignore));
    match visit("src", &dir("code")) {
        Visit::CheckAndDescend { path } => assert_eq!(path, "src/code"),
        other => panic!("unexpected {:?}", other),
    }
    match visit("src", &dir("chapter")) {
        Visit::Descend { path } => assert_eq!(path, "src/chapter"),
        other => panic!("unexpected {:?}", other),
    }
}

#[test]
fn auditor_exempts_rust_files() {
    assert!(warn_if_not_tested("code", "doc.rs", false, false).is_none());
}

#[test]
fn auditor_warns_once_for_untested_file() {
    match warn_if_not_tested("code", "doc.txt", false, false) {
        Some(Warning::NoOutputFile { file }) => assert_eq!(file, "code/doc.txt"),
        other => panic!("unexpected {:?}", other),
    }
}

#[test]
fn auditor_directory_output() {
    match warn_if_not_tested("code", "doc.txt", true, true) {
        Some(Warning::OutputIsDirectory { file, out }) => {
            assert_eq!(file, "code/doc.txt");
            assert_eq!(out, "code/doc.txt.out");
        }
        other => panic!("unexpected {:?}", other),
    }
    assert!(warn_if_not_tested("code", "doc.txt", true, false).is_none());
}

#[test]
fn out_path_appends_suffix() {
    assert_eq!(out_path_of("a/code", "x.smt2"), "a/code/x.smt2.out");
}

#[test]
fn smt2_check_command() {
    let conf = Conf::new().set_smt2(true, "z3");
    let cmd = code_out_check_smt2(&conf, "code/a.smt2").unwrap().unwrap();
    assert_eq!(cmd.program, "z3");
    assert_eq!(cmd.args, vec!["code/a.smt2"]);
}

#[test]
fn smt2_check_disabled_is_skipped() {
    let conf = Conf::new().set_smt2(false, "z3");
    assert!(code_out_check_smt2(&conf, "code/a.smt2").unwrap().is_none());
}

#[test]
fn smt2_check_without_conf() {
    let conf = Conf::new();
    assert!(matches!(
        code_out_check_smt2(&conf, "code/a.smt2"),
        Err(Error::MissingConf { kind: Kind::Smt2 })
    ));
}

#[test]
fn mkn_tools() {
    let conf = Conf::new().set_mikino(true, "mk").set_smt2(false, "z");
    assert_eq!(code_out_check_mkn(&conf).unwrap(), Some(("mk", "z")));
    let conf = Conf::new().set_mikino(false, "mk");
    assert_eq!(code_out_check_mkn(&conf).unwrap(), None);
    let conf = Conf::new().set_mikino(true, "mk");
    assert!(matches!(
        code_out_check_mkn(&conf),
        Err(Error::MissingConf { kind: Kind::Smt2 })
    ));
    let conf = Conf::new();
    assert!(matches!(
        code_out_check_mkn(&conf),
        Err(Error::MissingConf { kind: Kind::Mikino })
    ));
}

#[test]
fn mkn_command_uses_line_comments() {
    let cmd = mkn_cmd("mikino", "z3", "code/c.mkn", Some("// CMD: mikino bmc <file>\n")).unwrap();
    assert_eq!(cmd.args, vec!["--z3_cmd", "z3", "bmc", "code/c.mkn"]);
}

fn z3_on(path: &str) -> Cmd {
    Cmd { program: "z3".to_string(), args: vec![path.to_string()] }
}

#[test]
fn runner_matches_twice() {
    let stdout = "sat\n(model)\n";
    for _ in 0..2 {
        assert!(cmd_output_same_as_file_content(z3_on("a.smt2"), stdout, stdout.to_string()).is_ok());
    }
}

#[test]
fn runner_mismatch_is_exact() {
    match cmd_output_same_as_file_content(z3_on("a.smt2"), "sat\n", "sat".to_string()) {
        Err(Error::OutputMismatch { command, expected }) => {
            assert_eq!(command.program, "z3");
            assert_eq!(command.args, vec!["a.smt2"]);
            assert_eq!(expected, "sat");
        }
        other => panic!("unexpected {:?}", other),
    }
}
