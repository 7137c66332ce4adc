use sup::config::{read_session_config, session_config_from_fields, Args, ConfigError};
use sup::engine::{plan_entry, plan_level, Action, DirEntry, TransferRequest};
use sup::filter::{classify, is_skipped, starts_with_dot, EntryKind, Filter};
use sup::outcome::{EntryOutcome, Summary};
use sup::path::{join, split};
use sup::path::{path_parts, same_path_exec};
use sup::remote_dirs::{EnsureStep, RemoteDirSet};

fn request(skip: &[&str], ignore_dotfiles: bool) -> TransferRequest {
    TransferRequest {
        local_root: String::from("root"),
        remote_root: String::from("remoteRoot"),
        skip: skip.iter().map(|s| s.to_string()).collect(),
        ignore_dotfiles,
    }
}

fn entry(name: &str, kind: EntryKind) -> DirEntry {
    DirEntry { name: name.to_string(), kind }
}

fn upload_pair(a: &Action) -> Option<(String, String)> {
    match a {
        Action::Upload { local, remote } => Some((local.clone(), remote.clone())),
        _ => None,
    }
}

fn descend_pair(a: &Action) -> Option<(String, String)> {
    match a {
        Action::Descend { local, remote } => Some((local.clone(), remote.clone())),
        _ => None,
    }
}

#[test]
fn join_adds_one_separator() {
    assert_eq!(join("root", "a.txt"), "root/a.txt");
    assert_eq!(join("root/", "a.txt"), "root/a.txt");
    assert_eq!(join("", "a.txt"), "a.txt");
    assert_eq!(join("/", "etc"), "/etc");
}

#[test]
fn split_keeps_empty_pieces() {
    assert_eq!(split("a,b/c", ','), vec!["a".to_string(), "b/c".to_string()]);
    assert_eq!(split("", ','), vec!["".to_string()]);
    assert_eq!(split("a,,b,", ','), vec!["a", "", "b", ""]);
    assert_eq!(split("no separator", ','), vec!["no separator"]);
}

#[test]
fn args_give_request() {
    let args = Args {
        directory: String::from("."),
        remote_dir: String::from("/srv/www"),
        skip: String::from("./target,./.git"),
        ignore: true,
    };
    let r = args.request();
    assert_eq!(r.local_root, ".");
    assert_eq!(r.remote_root, "/srv/www");
    assert_eq!(r.skip, vec!["./target".to_string(), "./.git".to_string()]);
    assert!(r.ignore_dotfiles);
}

#[test]
fn skip_match_by_components() {
    let skip = vec!["root/sub/".to_string(), "./a//b".to_string(), "/x/./y".to_string()];
    assert!(is_skipped(&"root/sub".to_string(), &skip));
    assert!(is_skipped(&"./a/b".to_string(), &skip));
    assert!(!is_skipped(&"a/b".to_string(), &skip));
    assert!(is_skipped(&"/x/y".to_string(), &skip));
    assert!(!is_skipped(&"x/y".to_string(), &skip));
    let req = request(&["root/sub/"], false);
    let plan = plan_level(&req, "root", "remoteRoot", &vec![entry("sub", EntryKind::Directory)]);
    assert!(matches!(&plan[0], Action::Skip { reason: Filter::SkipExplicit, .. }));
}

#[test]
fn path_components() {
    assert_eq!(path_parts("a//b/./c/"), vec!["a", "b", "c"]);
    assert_eq!(path_parts("./a"), vec!["a"]);
    assert!(path_parts("").is_empty());
    assert!(same_path_exec(".", "./"));
    assert!(!same_path_exec(".", ""));
    assert!(!same_path_exec("a/..", "a"));
    assert!(same_path_exec("a/../b", "a/../b/"));
}

#[test]
fn skip_match_is_exact() {
    let skip = vec!["root/sub".to_string()];
    assert!(is_skipped(&"root/sub".to_string(), &skip));
    assert!(!is_skipped(&"root/sub/b.txt".to_string(), &skip));
    assert!(!is_skipped(&"root/su".to_string(), &skip));
    assert!(!is_skipped(&"root/sub".to_string(), &vec![]));
}

#[test]
fn dot_names() {
    assert!(starts_with_dot(&".git".to_string()));
    assert!(!starts_with_dot(&"git".to_string()));
    assert!(!starts_with_dot(&"".to_string()));
}

#[test]
fn classify_each_decision() {
    let skip = vec!["root/x".to_string()];
    let p = |s: &str| s.to_string();
    assert_eq!(classify(&p("root/x"), &p("x"), EntryKind::File, &skip, false), Filter::SkipExplicit);
    assert_eq!(classify(&p("root/.d"), &p(".d"), EntryKind::Directory, &skip, true), Filter::SkipDotfile);
    assert_eq!(classify(&p("root/.d"), &p(".d"), EntryKind::Directory, &skip, false), Filter::Include);
    assert_eq!(classify(&p("root/.f"), &p(".f"), EntryKind::File, &skip, true), Filter::Include);
    assert_eq!(classify(&p("root/y"), &p("y"), EntryKind::Other, &skip, true), Filter::Include);
}

#[test]
fn skip_set_entries_get_no_upload_or_directory() {
    let req = request(&["root/a.txt", "root/sub"], false);
    let entries = vec![entry("a.txt", EntryKind::File), entry("sub", EntryKind::Directory), entry("c.txt", EntryKind::File)];
    let plan = plan_level(&req, "root", "remoteRoot", &entries);
    assert_eq!(plan.len(), 3);
    assert!(matches!(&plan[0], Action::Skip { path, reason: Filter::SkipExplicit } if path == "root/a.txt"));
    assert!(matches!(&plan[1], Action::Skip { path, reason: Filter::SkipExplicit } if path == "root/sub"));
    assert_eq!(upload_pair(&plan[2]), Some(("root/c.txt".to_string(), "remoteRoot/c.txt".to_string())));
}

#[test]
fn dot_directories_suppressed_dot_files_uploaded() {
    let req = request(&[], true);
    let entries = vec![entry(".git", EntryKind::Directory), entry(".env", EntryKind::File)];
    let plan = plan_level(&req, "root", "remoteRoot", &entries);
    assert!(matches!(&plan[0], Action::Skip { path, reason: Filter::SkipDotfile } if path == "root/.git"));
    assert_eq!(upload_pair(&plan[1]), Some(("root/.env".to_string(), "remoteRoot/.env".to_string())));
    let req = request(&[], false);
    let plan = plan_level(&req, "root", "remoteRoot", &entries);
    assert_eq!(descend_pair(&plan[0]), Some(("root/.git".to_string(), "remoteRoot/.git".to_string())));
}

#[test]
fn round_trip_tree_is_mirrored() {
    let req = request(&[], false);
    let top = plan_level(&req, "root", "remoteRoot", &vec![entry("a.txt", EntryKind::File), entry("sub", EntryKind::Directory)]);
    assert_eq!(upload_pair(&top[0]), Some(("root/a.txt".to_string(), "remoteRoot/a.txt".to_string())));
    let (local, remote) = descend_pair(&top[1]).unwrap();
    assert_eq!((local.as_str(), remote.as_str()), ("root/sub", "remoteRoot/sub"));
    let sub = plan_level(&req, &local, &remote, &vec![entry("b.txt", EntryKind::File)]);
    assert_eq!(upload_pair(&sub[0]), Some(("root/sub/b.txt".to_string(), "remoteRoot/sub/b.txt".to_string())));
}

#[test]
fn rerun_plans_the_same_uploads() {
    let req = request(&[], false);
    let e = entry("a.txt", EntryKind::File);
    let first = plan_entry(&req, "root", "remoteRoot", &e);
    let second = plan_entry(&req, "root", "remoteRoot", &e);
    assert_eq!(upload_pair(&first), upload_pair(&second));
    assert_eq!(upload_pair(&first), Some(("root/a.txt".to_string(), "remoteRoot/a.txt".to_string())));
}

#[test]
fn other_entries_are_ignored() {
    let req = request(&[], true);
    let plan = plan_entry(&req, "root", "remoteRoot", &entry("link", EntryKind::Other));
    assert!(matches!(&plan, Action::Ignore { path } if path == "root/link"));
}

#[test]
fn second_ensure_creates_nothing() {
    let mut dirs = RemoteDirSet::new();
    let p = "remoteRoot/sub".to_string();
    let mut creations = 0;
    for _ in 0..2 {
        let mut step = dirs.begin(&p);
        loop {
            step = match step {
                EnsureStep::Probe => dirs.after_probe(&p, false),
                EnsureStep::Create => {
                    creations += 1;
                    dirs.after_create(&p, true)
                }
                _ => break,
            };
        }
        assert_eq!(step, EnsureStep::Confirmed);
    }
    assert_eq!(creations, 1);
    assert!(dirs.contains(&p));
}

#[test]
fn already_exists_is_success() {
    let mut dirs = RemoteDirSet::new();
    let p = "r/d".to_string();
    assert_eq!(dirs.begin(&p), EnsureStep::Probe);
    assert_eq!(dirs.after_probe(&p, false), EnsureStep::Create);
    assert_eq!(dirs.after_create(&p, false), EnsureStep::Recheck);
    assert!(!dirs.contains(&p));
    assert_eq!(dirs.after_recheck(&p, true), EnsureStep::Confirmed);
    assert_eq!(dirs.begin(&p), EnsureStep::Confirmed);
}

#[test]
fn failed_creation_is_not_confirmed() {
    let mut dirs = RemoteDirSet::new();
    let p = "r/d".to_string();
    assert_eq!(dirs.after_create(&p, false), EnsureStep::Recheck);
    assert_eq!(dirs.after_recheck(&p, false), EnsureStep::Failed);
    assert!(!dirs.contains(&p));
    assert_eq!(dirs.begin(&p), EnsureStep::Probe);
    assert_eq!(dirs.after_probe(&p, true), EnsureStep::Confirmed);
    assert!(dirs.contains(&p));
    assert!(!dirs.contains(&"r".to_string()));
}

#[test]
fn one_failure_among_successes() {
    let mut s = Summary::new();
    let none = String::new();
    s.record(&"root/a.txt".to_string(), EntryOutcome::FileUploaded, &none);
    s.record(&"root/sub".to_string(), EntryOutcome::DirectoryUploaded, &none);
    s.record(&"root/bad.txt".to_string(), EntryOutcome::Failed, &"permission denied".to_string());
    s.record(&"root/c.txt".to_string(), EntryOutcome::FileUploaded, &none);
    s.record(&"root/.git".to_string(), EntryOutcome::Skipped, &none);
    assert_eq!(s.failed(), 1);
    assert_eq!(s.uploaded(), 3);
    assert_eq!(s.skipped(), 1);
    assert_eq!(s.errors(), &vec![("root/bad.txt".to_string(), "permission denied".to_string())]);
}

#[test]
fn empty_summary() {
    let s = Summary::new();
    assert_eq!((s.uploaded(), s.skipped(), s.failed()), (0, 0, 0));
    assert!(s.errors().is_empty());
}

#[test]
fn fields_make_config() {
    let c = session_config_from_fields(Some("root"), Some("/k.pub"), Some("ssh.example.com"), Some(22)).ok().unwrap();
    assert_eq!((c.username.as_str(), c.key_file.as_str(), c.server.as_str(), c.port), ("root", "/k.pub", "ssh.example.com", 22));
}

#[test]
fn missing_fields_in_order() {
    let e = |r: Result<sup::config::SessionConfig, ConfigError>| r.err().unwrap();
    assert_eq!(e(session_config_from_fields(None, None, None, None)), ConfigError::MissingUsername);
    assert_eq!(e(session_config_from_fields(Some("u"), None, Some("s"), Some(1))), ConfigError::MissingKeyFile);
    assert_eq!(e(session_config_from_fields(Some("u"), Some("k"), None, Some(1))), ConfigError::MissingServer);
    assert_eq!(e(session_config_from_fields(Some("u"), Some("k"), Some("s"), None)), ConfigError::MissingPort);
    assert_eq!(e(session_config_from_fields(Some("u"), Some("k"), Some("s"), Some(65536))), ConfigError::InvalidPort);
    assert_eq!(e(session_config_from_fields(Some("u"), Some("k"), Some("s"), Some(-1))), ConfigError::InvalidPort);
    assert_eq!(session_config_from_fields(Some("u"), Some("k"), Some("s"), Some(65535)).ok().unwrap().port, 65535);
}

#[test]
fn toml_text_read() {
    let text = "key_file = \"/home/user/.ssh/id_rsa.pub\"\nport = 2222\nserver = \"ssh.example.com\"\nusername = \"root\"\n";
    let c = read_session_config(text).ok().unwrap();
    assert_eq!(c.username, "root");
    assert_eq!(c.key_file, "/home/user/.ssh/id_rsa.pub");
    assert_eq!(c.server, "ssh.example.com");
    assert_eq!(c.port, 2222);
}

#[test]
fn toml_errors() {
    assert_eq!(read_session_config("port = ").err().unwrap(), ConfigError::Parse);
    assert_eq!(read_session_config("username = 5\n").err().unwrap(), ConfigError::MissingUsername);
    let text = "key_file = \"k\"\nport = \"22\"\nserver = \"s\"\nusername = \"u\"\n";
    assert_eq!(read_session_config(text).err().unwrap(), ConfigError::MissingPort);
}

#[test]
fn toml_text_unparsable_or_partial() {
    assert_eq!(read_session_config("[unclosed").err().unwrap(), ConfigError::Parse);
    assert_eq!(read_session_config("= 1").err().unwrap(), ConfigError::Parse);
    let text = "username = \"u\"\nkey_file = \"k\"\nport = 22\n";
    assert_eq!(read_session_config(text).err().unwrap(), ConfigError::MissingServer);
    let text = "username = \"u\"\nkey_file = \"k\"\nserver = \"s\"\nport = 70000\n";
    assert_eq!(read_session_config(text).err().unwrap(), ConfigError::InvalidPort);
    assert_eq!(read_session_config("").err().unwrap(), ConfigError::MissingUsername);
}

#[test]
fn error_messages() {
    assert_eq!(ConfigError::Parse.message(), "Configuration is not valid TOML");
    assert_eq!(ConfigError::MissingKeyFile.message(), "Missing key_file in config");
    assert_eq!(ConfigError::MissingPort.message(), "Missing server in config");
    assert_eq!(ConfigError::InvalidPort.message(), "Port in config is out of range");
    assert_eq!(ConfigError::MissingUsername.message(), "Missing username in config");
    assert_eq!(ConfigError::MissingServer.message(), "Missing server in config");
}
