use pit::doc::{Doc, Node};
use pit::store::{FsAction, FsEvent, GetResult, GetStep, Pit, StoreError, SwitchStep};

/// An in-memory filesystem: directories, files, and a count of the writes
/// performed, so that tests can see exactly what an operation touched.
struct SimFs {
    dirs: Vec<String>,
    files: Vec<(String, String)>,
    writes: usize,
    fail_writes: bool,
}

impl SimFs {
    fn new() -> SimFs {
        SimFs { dirs: Vec::new(), files: Vec::new(), writes: 0, fail_writes: false }
    }

    fn file(&self, path: &str) -> Option<&String> {
        self.files.iter().find(|e| e.0 == path).map(|e| &e.1)
    }

    fn put_file(&mut self, path: &str, content: &str) {
        match self.files.iter_mut().find(|e| e.0 == path) {
            Some(e) => e.1 = content.to_string(),
            None => self.files.push((path.to_string(), content.to_string())),
        }
    }

    fn apply(&mut self, a: &FsAction) -> FsEvent {
        match a {
            FsAction::ProbeDir(p) => FsEvent::Presence(self.dirs.iter().any(|d| d == p)),
            FsAction::ProbeFile(p) => FsEvent::Presence(self.file(p).is_some()),
            FsAction::CreatePrivateDir(p) => {
                if self.fail_writes {
                    return FsEvent::Outcome(false);
                }
                self.dirs.push(p.clone());
                self.writes += 1;
                FsEvent::Outcome(true)
            }
            FsAction::WritePrivateFile(p, c) => {
                if self.fail_writes {
                    return FsEvent::Outcome(false);
                }
                let path = p.clone();
                let content = c.clone();
                self.put_file(&path, &content);
                self.writes += 1;
                FsEvent::Outcome(true)
            }
            FsAction::ReadFile(p) => FsEvent::Content(self.file(p).cloned()),
        }
    }
}

fn run_get(fs: &mut SimFs, pit: Pit, service: &str) -> GetResult {
    let (mut flow, mut action) = pit.get(service.to_string());
    loop {
        let ev = fs.apply(&action);
        match flow.step(ev) {
            GetStep::Next(f, a) => {
                flow = f;
                action = a;
            }
            GetStep::Done(r) => return r,
        }
    }
}

fn run_switch(fs: &mut SimFs, pit: Pit, name: &str) -> (Pit, Result<String, StoreError>) {
    let (mut flow, mut action) = pit.switch(name.to_string());
    loop {
        let ev = fs.apply(&action);
        match flow.step(ev) {
            SwitchStep::Next(f, a) => {
                flow = f;
                action = a;
            }
            SwitchStep::Done(p, r) => return (p, r),
        }
    }
}

fn value_of(pairs: &[(String, String)], key: &str) -> Option<String> {
    pairs.iter().find(|p| p.0 == key).map(|p| p.1.clone())
}

fn ready_store(home: &str) -> (SimFs, Pit) {
    let mut fs = SimFs::new();
    let pit = Pit::from_home(home);
    fs.dirs.push(format!("{}/.pit", home));
    fs.put_file(&format!("{}/.pit/pit.yaml", home), "profile: default");
    fs.put_file(&format!("{}/.pit/default.yaml", home), "{}");
    (fs, pit)
}

#[test]
fn simple() {
    let (mut fs, p) = ready_store("/home/taro");
    fs.put_file(
        "/home/taro/.pit/pit-rs-test.yaml",
        "test_key:\n  username: taro\n",
    );
    let (p, _) = run_switch(&mut fs, p, "pit-rs-test");
    let config = run_get(&mut fs, p.clone(), "not exist key");
    assert_eq!(config, Ok(None));

    let config = run_get(&mut fs, p, "test_key");
    let pairs = config.unwrap();
    assert!(pairs.is_some());
    assert_eq!(value_of(&pairs.unwrap(), "username"), Some("taro".to_string()));
}

#[test]
fn not_exists_key() {
    let (mut fs, p) = ready_store("/home/taro");
    let (p, _) = run_switch(&mut fs, p, "default");
    let config = run_get(&mut fs, p, "not exist key");
    assert_eq!(config, Ok(None));
}

#[test]
fn first_use_creates_structure() {
    let mut fs = SimFs::new();
    let p = Pit::from_home("/home/u");
    let r = run_get(&mut fs, p, "twitter.com");
    assert_eq!(r, Ok(None));
    assert!(fs.dirs.iter().any(|d| d == "/home/u/.pit"));
    assert_eq!(fs.file("/home/u/.pit/pit.yaml").unwrap(), "profile: default");
    assert_eq!(fs.file("/home/u/.pit/default.yaml").unwrap(), "{}");
}

#[test]
fn bootstrap_twice_changes_nothing() {
    let mut fs = SimFs::new();
    let p = Pit::from_home("/home/u");
    let _ = run_get(&mut fs, p.clone(), "svc");
    let writes_after_first = fs.writes;
    let files_after_first = fs.files.clone();
    let _ = run_get(&mut fs, p, "svc");
    assert_eq!(fs.writes, writes_after_first);
    assert_eq!(fs.files, files_after_first);
}

#[test]
fn scenario_two_services() {
    let (mut fs, p) = ready_store("/home/u");
    fs.put_file(
        "/home/u/.pit/default.yaml",
        "twitter.com:\n  username: foo\n  password: bar",
    );
    let r = run_get(&mut fs, p.clone(), "twitter.com");
    let pairs = r.unwrap().unwrap();
    assert_eq!(
        pairs,
        vec![
            ("username".to_string(), "foo".to_string()),
            ("password".to_string(), "bar".to_string()),
        ]
    );
    let r = run_get(&mut fs, p, "facebook.com");
    assert_eq!(r, Ok(None));
}

#[test]
fn switch_returns_previous_and_repoints() {
    let (mut fs, p) = ready_store("/home/u");
    fs.put_file("/home/u/.pit/work.yaml", "svc:\n  username: w\n");
    let (p, r) = run_switch(&mut fs, p, "work");
    assert_eq!(r, Ok("default".to_string()));
    assert_eq!(fs.file("/home/u/.pit/pit.yaml").unwrap(), "profile: work");
    let got = run_get(&mut fs, p, "svc");
    let pairs = got.unwrap().unwrap();
    assert_eq!(value_of(&pairs, "username"), Some("w".to_string()));
}

#[test]
fn switch_to_missing_profile_leaves_pointer() {
    let (mut fs, p) = ready_store("/home/u");
    let files_before = fs.files.clone();
    let (_, r) = run_switch(&mut fs, p, "ghost");
    assert_eq!(r, Err(StoreError::ProfileNotFound));
    assert_eq!(fs.files, files_before);
    assert_eq!(fs.writes, 0);
}

#[test]
fn switch_without_pointer_fails() {
    let mut fs = SimFs::new();
    let p = Pit::from_home("/home/u");
    fs.put_file("/home/u/.pit/default.yaml", "{}");
    let (_, r) = run_switch(&mut fs, p, "default");
    assert_eq!(r, Err(StoreError::Config));
}

#[test]
fn malformed_pointer_is_config_error() {
    let (mut fs, p) = ready_store("/home/u");
    fs.put_file("/home/u/.pit/pit.yaml", "- just\n- a list\n");
    let r = run_get(&mut fs, p, "svc");
    assert_eq!(r, Err(StoreError::Config));
}

#[test]
fn non_string_credential_is_config_error() {
    let (mut fs, p) = ready_store("/home/u");
    fs.put_file("/home/u/.pit/default.yaml", "svc:\n  port: 8080\n");
    let r = run_get(&mut fs, p, "svc");
    assert_eq!(r, Err(StoreError::Config));
}

#[test]
fn non_mapping_service_is_not_found() {
    let (mut fs, p) = ready_store("/home/u");
    fs.put_file("/home/u/.pit/default.yaml", "svc: just a string\n");
    let r = run_get(&mut fs, p, "svc");
    assert_eq!(r, Ok(None));
}

#[test]
fn failed_creation_is_structure_error() {
    let mut fs = SimFs::new();
    fs.fail_writes = true;
    let p = Pit::from_home("/home/u");
    let r = run_get(&mut fs, p, "svc");
    assert_eq!(r, Err(StoreError::Structure));
}

#[test]
fn set_emits_updated_profile() {
    let p = Pit::from_home("/home/u");
    let doc = Doc::Table(vec![(
        Some("twitter.com".to_string()),
        Node::Table(vec![(
            Some("username".to_string()),
            Some("foo".to_string()),
        )]),
    )]);
    let (_, action) = p.set(&doc, "twitter.com", "password", "bar").unwrap();
    match action {
        FsAction::WritePrivateFile(path, text) => {
            assert_eq!(path, "/home/u/.pit/default.yaml");
            assert_eq!(text, "twitter.com:\n  username: foo\n  password: bar\n");
        }
        _ => panic!("set must end in a write of the profile file"),
    }
}

#[test]
fn set_round_trips_through_a_lookup() {
    let (mut fs, p) = ready_store("/home/u");
    let doc = Doc::Table(vec![]);
    let (_, action) = p.set(&doc, "svc", "username", "foo").unwrap();
    match &action {
        FsAction::WritePrivateFile(path, text) => {
            let path = path.clone();
            let text = text.clone();
            fs.put_file(&path, &text);
        }
        _ => panic!("set must end in a write of the profile file"),
    }
    let r = run_get(&mut fs, p, "svc");
    let pairs = r.unwrap().unwrap();
    assert_eq!(pairs, vec![("username".to_string(), "foo".to_string())]);
}

#[test]
fn set_refuses_non_mapping_service() {
    let p = Pit::from_home("/home/u");
    let doc = Doc::Table(vec![(Some("svc".to_string()), Node::Str("plain".to_string()))]);
    assert!(p.set(&doc, "svc", "k", "v").is_none());
}

#[test]
fn empty_profile_name_is_config_error() {
    let (mut fs, p) = ready_store("/home/u");
    fs.put_file("/home/u/.pit/pit.yaml", "profile: ''");
    let r = run_get(&mut fs, p, "svc");
    assert_eq!(r, Err(StoreError::Config));
}
