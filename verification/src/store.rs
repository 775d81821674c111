//! The store and its two operations, `get` and `switch`.
//!
//! Every operation is a short dialogue with the filesystem: the store
//! decides, step by step, which path to probe, create, read or write next,
//! and a thin driver performs each action and reports what it saw.  The
//! decisions — which file is authoritative, when a missing piece is
//! created, when an operation fails — all live here; the driver only moves
//! bytes.

use vstd::prelude::*;
use vstd::string::StringExecFns;
use crate::doc::{doc_of, parse_doc, Doc};
use crate::paths::{pointer_path, pointer_path_of, profile_file_path, profile_path_in, root_path, root_path_of};
use crate::resolve::{lookup_of, lookup_service, pairs_view, pointer_name_of, pointer_profile, Lookup, LookupV};

verus! {

/// The store's configuration: the root directory, the pointer file and the
/// currently selected profile file.
#[derive(Debug, Clone)]
pub struct Pit {
    pub directory: String,
    pub config_path: String,
    pub profile_path: String,
}

/// What can go wrong in a store operation.
#[derive(Debug, Clone, Copy, PartialEq, Eq, Structural)]
pub enum StoreError {
    /// A directory or file could not be created or written.
    Structure,
    /// The pointer or profile file is missing, unreadable, or lacks the
    /// required shape.
    Config,
    /// The profile file a switch was asked for does not exist.
    ProfileNotFound,
}

/// One filesystem action the driver is asked to perform.
#[derive(Debug)]
pub enum FsAction {
    /// Does this directory exist?  Answered by `Presence`.
    ProbeDir(String),
    /// Does this file exist?  Answered by `Presence`.
    ProbeFile(String),
    /// Create this directory with owner-only permissions.  Answered by
    /// `Outcome`.
    CreatePrivateDir(String),
    /// Write this content to this file with owner-only permissions.
    /// Answered by `Outcome`.
    WritePrivateFile(String, String),
    /// Read this file as text.  Answered by `Content`.
    ReadFile(String),
}

/// What the driver observed when it performed an action.
#[derive(Debug)]
pub enum FsEvent {
    /// Whether the probed path exists.
    Presence(bool),
    /// Whether the creation or write succeeded.
    Outcome(bool),
    /// The file's text, or `None` if it could not be read.
    Content(Option<String>),
}

/// Whether an action changes the filesystem.
pub open spec fn is_write(a: FsAction) -> bool {
    a is CreatePrivateDir || a is WritePrivateFile
}

pub open spec fn probes_dir(a: FsAction, p: Seq<char>) -> bool {
    a matches FsAction::ProbeDir(q) && q@ == p
}

pub open spec fn probes_file(a: FsAction, p: Seq<char>) -> bool {
    a matches FsAction::ProbeFile(q) && q@ == p
}

pub open spec fn reads_file(a: FsAction, p: Seq<char>) -> bool {
    a matches FsAction::ReadFile(q) && q@ == p
}

pub open spec fn makes_dir(a: FsAction, p: Seq<char>) -> bool {
    a matches FsAction::CreatePrivateDir(q) && q@ == p
}

pub open spec fn writes_file(a: FsAction, p: Seq<char>, c: Seq<char>) -> bool {
    a matches FsAction::WritePrivateFile(q, t) && q@ == p && t@ == c
}

/// The pointer file's content for a profile name.
pub open spec fn pointer_content_of(name: Seq<char>) -> Seq<char> {
    "profile: "@ + name
}

/// Builds the pointer file's content for a profile name.
pub fn pointer_content(name: &str) -> (r: String)
    ensures
        r@ == pointer_content_of(name@),
{
    let mut s = "profile: ".to_owned();
    s.append(name);
    s
}

/// The content a profile file is created with: an empty mapping.
pub open spec fn empty_profile_content() -> Seq<char> {
    "{}"@
}

/// Builds the content a profile file is created with.
pub fn empty_profile_text() -> (r: String)
    ensures
        r@ == empty_profile_content(),
{
    "{}".to_owned()
}

/// Whether a store was located from the given home directory with the given
/// profile selected.
pub open spec fn located(p: Pit, home: Seq<char>, name: Seq<char>) -> bool {
    &&& p.directory@ == root_path_of(home)
    &&& p.config_path@ == pointer_path_of(home)
    &&& p.profile_path@ == profile_path_in(root_path_of(home), name)
}

/// Whether a store's pointer and profile paths sit inside its root
/// directory, with the given profile selected.
pub open spec fn rooted(p: Pit, name: Seq<char>) -> bool {
    &&& p.config_path@ == p.directory@ + "/pit.yaml"@
    &&& p.profile_path@ == profile_path_in(p.directory@, name)
}

/// Relies on `dirs::home_dir`: the calling user's home directory, where the
/// platform reports one whose path is valid UTF-8.  The result depends on
/// the environment, so nothing further is assumed of it.
#[verifier::external_body]
fn home_dir_string() -> (r: Option<String>) {
    dirs::home_dir().and_then(|p| p.into_os_string().into_string().ok())
}

impl Pit {
    /// Locates the store for a given home directory, with the `default`
    /// profile selected.
    pub fn from_home(home: &str) -> (r: Pit)
        ensures
            located(r, home@, "default"@),
    {
        let directory = root_path(home);
        let config_path = pointer_path(home);
        let profile_path = profile_file_path(directory.as_str(), "default");
        Pit { directory, config_path, profile_path }
    }

    /// Locates the store under the calling user's home directory, or
    /// reports `None` where no home directory can be determined: a fatal
    /// configuration error for the caller to surface.
    pub fn new() -> (r: Option<Pit>)
        ensures
            r matches Some(p) ==> rooted(p, "default"@),
    {
        match home_dir_string() {
            Some(home) => Some(Self::from_home(home.as_str())),
            None => None,
        }
    }
}

/// What a lookup finally reports: the service's credential pairs, "not
/// found", or a store error.
pub type GetResult = Result<Option<Vec<(String, String)>>, StoreError>;

/// Where a running lookup stands: what its last action was about.
#[derive(Debug, Clone, Copy, PartialEq, Eq, Structural)]
pub enum GetPhase {
    /// The store root was probed.
    RootProbed,
    /// The store root was created.
    RootMade,
    /// The pointer file was probed.
    PointerProbed,
    /// The pointer file was written with its default content.
    PointerMade,
    /// The pointer file was read.
    PointerRead,
    /// The active profile's file was probed.
    ProfileProbed,
    /// The active profile's file was created empty.
    ProfileMade,
    /// The active profile's file was read.
    ProfileRead,
}

/// A lookup in progress.
#[derive(Debug)]
pub struct GetFlow {
    pub pit: Pit,
    pub service: String,
    pub phase: GetPhase,
}

/// What a lookup does after an event: asks for one more action, or ends.
#[derive(Debug)]
pub enum GetStep {
    Next(GetFlow, FsAction),
    Done(GetResult),
}

/// The kind of event each lookup phase waits for.
pub open spec fn get_expects(phase: GetPhase, ev: FsEvent) -> bool {
    match phase {
        GetPhase::RootProbed => ev is Presence,
        GetPhase::RootMade => ev is Outcome,
        GetPhase::PointerProbed => ev is Presence,
        GetPhase::PointerMade => ev is Outcome,
        GetPhase::PointerRead => ev is Content,
        GetPhase::ProfileProbed => ev is Presence,
        GetPhase::ProfileMade => ev is Outcome,
        GetPhase::ProfileRead => ev is Content,
    }
}

/// The flow `f` carries `pre`'s store and service on, in phase `ph`.
pub open spec fn keeps(pre: GetFlow, f: GetFlow, ph: GetPhase) -> bool {
    f.pit == pre.pit && f.service == pre.service && f.phase == ph
}

/// What a lookup step does with the text read from the pointer file:
/// resolve the profile name, select that profile's file and probe it, or
/// fail where the pointer document lacks the required shape or names an
/// empty profile.
pub open spec fn get_pointer_text_step(pre: GetFlow, text: Seq<char>, r: GetStep) -> bool {
    match pointer_name_of(doc_of(text)) {
        Some(nm) => if nm.len() == 0 {
            r matches GetStep::Done(Err(StoreError::Config))
        } else {
            r matches GetStep::Next(f, a) && f.pit.directory == pre.pit.directory
                && f.pit.config_path == pre.pit.config_path && f.pit.profile_path@
                == profile_path_in(pre.pit.directory@, nm) && f.service == pre.service && f.phase
                == GetPhase::ProfileProbed && probes_file(
                a,
                profile_path_in(pre.pit.directory@, nm),
            )
        },
        None => r matches GetStep::Done(Err(StoreError::Config)),
    }
}

/// What a lookup step does with the text read from the profile file:
/// fail where it is not well-formed YAML or holds no document, and
/// otherwise report the service lookup's outcome.
pub open spec fn get_profile_text_step(pre: GetFlow, text: Seq<char>, r: GetStep) -> bool {
    if doc_of(text) is Invalid || doc_of(text) is Empty {
        r matches GetStep::Done(Err(StoreError::Config))
    } else {
        match lookup_of(doc_of(text), pre.service@) {
            LookupV::Found(cs) => r matches GetStep::Done(Ok(Some(v))) && pairs_view(v) == cs,
            LookupV::NotFound => r matches GetStep::Done(Ok(None)),
            LookupV::BadData => r matches GetStep::Done(Err(StoreError::Config)),
        }
    }
}

/// The lookup's transition relation: one arm per phase and observation,
/// exactly as the control flow of a lookup runs.
pub open spec fn get_transition(pre: GetFlow, ev: FsEvent, r: GetStep) -> bool {
    match (pre.phase, ev) {
        (GetPhase::RootProbed, FsEvent::Presence(present)) => if present {
            r matches GetStep::Next(f, a) && keeps(pre, f, GetPhase::PointerProbed)
                && probes_file(a, pre.pit.config_path@)
        } else {
            r matches GetStep::Next(f, a) && keeps(pre, f, GetPhase::RootMade) && makes_dir(
                a,
                pre.pit.directory@,
            )
        },
        (GetPhase::RootMade, FsEvent::Outcome(ok)) => if ok {
            r matches GetStep::Next(f, a) && keeps(pre, f, GetPhase::PointerProbed)
                && probes_file(a, pre.pit.config_path@)
        } else {
            r matches GetStep::Done(Err(StoreError::Structure))
        },
        (GetPhase::PointerProbed, FsEvent::Presence(present)) => if present {
            r matches GetStep::Next(f, a) && keeps(pre, f, GetPhase::PointerRead) && reads_file(
                a,
                pre.pit.config_path@,
            )
        } else {
            r matches GetStep::Next(f, a) && keeps(pre, f, GetPhase::PointerMade) && writes_file(
                a,
                pre.pit.config_path@,
                pointer_content_of("default"@),
            )
        },
        (GetPhase::PointerMade, FsEvent::Outcome(ok)) => if ok {
            r matches GetStep::Next(f, a) && keeps(pre, f, GetPhase::PointerRead) && reads_file(
                a,
                pre.pit.config_path@,
            )
        } else {
            r matches GetStep::Done(Err(StoreError::Structure))
        },
        (GetPhase::PointerRead, FsEvent::Content(c)) => match c {
            Some(text) => get_pointer_text_step(pre, text@, r),
            None => r matches GetStep::Done(Err(StoreError::Config)),
        },
        (GetPhase::ProfileProbed, FsEvent::Presence(present)) => if present {
            r matches GetStep::Next(f, a) && keeps(pre, f, GetPhase::ProfileRead) && reads_file(
                a,
                pre.pit.profile_path@,
            )
        } else {
            r matches GetStep::Next(f, a) && keeps(pre, f, GetPhase::ProfileMade) && writes_file(
                a,
                pre.pit.profile_path@,
                empty_profile_content(),
            )
        },
        (GetPhase::ProfileMade, FsEvent::Outcome(ok)) => if ok {
            r matches GetStep::Next(f, a) && keeps(pre, f, GetPhase::ProfileRead) && reads_file(
                a,
                pre.pit.profile_path@,
            )
        } else {
            r matches GetStep::Done(Err(StoreError::Structure))
        },
        (GetPhase::ProfileRead, FsEvent::Content(c)) => match c {
            Some(text) => get_profile_text_step(pre, text@, r),
            None => r matches GetStep::Done(Err(StoreError::Config)),
        },
        _ => false,
    }
}

impl Pit {
    /// Begins a lookup of `service` under the active profile.  The lookup
    /// first makes sure the on-disk structure exists, then resolves the
    /// pointer and reads the active profile's document.
    pub fn get(self, service: String) -> (r: (GetFlow, FsAction))
        ensures
            r.0.pit == self,
            r.0.service == service,
            r.0.phase == GetPhase::RootProbed,
            probes_dir(r.1, self.directory@),
    {
        let dir = self.directory.clone();
        (GetFlow { pit: self, service, phase: GetPhase::RootProbed }, FsAction::ProbeDir(dir))
    }
}

impl GetFlow {
    /// Takes the driver's observation for the last action and decides the
    /// next action, or ends with the lookup's result.
    pub fn step(self, ev: FsEvent) -> (r: GetStep)
        requires
            get_expects(self.phase, ev),
        ensures
            get_transition(self, ev, r),
    {
        let GetFlow { pit, service, phase } = self;
        match (phase, ev) {
            (GetPhase::RootProbed, FsEvent::Presence(present)) => if present {
                let a = FsAction::ProbeFile(pit.config_path.clone());
                GetStep::Next(GetFlow { pit, service, phase: GetPhase::PointerProbed }, a)
            } else {
                let a = FsAction::CreatePrivateDir(pit.directory.clone());
                GetStep::Next(GetFlow { pit, service, phase: GetPhase::RootMade }, a)
            },
            (GetPhase::RootMade, FsEvent::Outcome(ok)) => if ok {
                let a = FsAction::ProbeFile(pit.config_path.clone());
                GetStep::Next(GetFlow { pit, service, phase: GetPhase::PointerProbed }, a)
            } else {
                GetStep::Done(Err(StoreError::Structure))
            },
            (GetPhase::PointerProbed, FsEvent::Presence(present)) => if present {
                let a = FsAction::ReadFile(pit.config_path.clone());
                GetStep::Next(GetFlow { pit, service, phase: GetPhase::PointerRead }, a)
            } else {
                let a = FsAction::WritePrivateFile(
                    pit.config_path.clone(),
                    pointer_content("default"),
                );
                GetStep::Next(GetFlow { pit, service, phase: GetPhase::PointerMade }, a)
            },
            (GetPhase::PointerMade, FsEvent::Outcome(ok)) => if ok {
                let a = FsAction::ReadFile(pit.config_path.clone());
                GetStep::Next(GetFlow { pit, service, phase: GetPhase::PointerRead }, a)
            } else {
                GetStep::Done(Err(StoreError::Structure))
            },
            (GetPhase::PointerRead, FsEvent::Content(c)) => match c {
                Some(text) => {
                    let d = parse_doc(text.as_str());
                    match pointer_profile(&d) {
                        Some(nm) => if nm.as_str().is_empty() {
                            GetStep::Done(Err(StoreError::Config))
                        } else {
                            let pp = profile_file_path(pit.directory.as_str(), nm.as_str());
                            let a = FsAction::ProbeFile(pp.clone());
                            let pit2 = Pit {
                                directory: pit.directory,
                                config_path: pit.config_path,
                                profile_path: pp,
                            };
                            GetStep::Next(
                                GetFlow { pit: pit2, service, phase: GetPhase::ProfileProbed },
                                a,
                            )
                        },
                        None => GetStep::Done(Err(StoreError::Config)),
                    }
                },
                None => GetStep::Done(Err(StoreError::Config)),
            },
            (GetPhase::ProfileProbed, FsEvent::Presence(present)) => if present {
                let a = FsAction::ReadFile(pit.profile_path.clone());
                GetStep::Next(GetFlow { pit, service, phase: GetPhase::ProfileRead }, a)
            } else {
                let a = FsAction::WritePrivateFile(
                    pit.profile_path.clone(),
                    empty_profile_text(),
                );
                GetStep::Next(GetFlow { pit, service, phase: GetPhase::ProfileMade }, a)
            },
            (GetPhase::ProfileMade, FsEvent::Outcome(ok)) => if ok {
                let a = FsAction::ReadFile(pit.profile_path.clone());
                GetStep::Next(GetFlow { pit, service, phase: GetPhase::ProfileRead }, a)
            } else {
                GetStep::Done(Err(StoreError::Structure))
            },
            (GetPhase::ProfileRead, FsEvent::Content(c)) => match c {
                Some(text) => {
                    let d = parse_doc(text.as_str());
                    match &d {
                        Doc::Invalid => GetStep::Done(Err(StoreError::Config)),
                        Doc::Empty => GetStep::Done(Err(StoreError::Config)),
                        _ => match lookup_service(&d, service.as_str()) {
                            Lookup::Found(v) => GetStep::Done(Ok(Some(v))),
                            Lookup::NotFound => GetStep::Done(Ok(None)),
                            Lookup::BadData => GetStep::Done(Err(StoreError::Config)),
                        },
                    }
                },
                None => GetStep::Done(Err(StoreError::Config)),
            },
            _ => GetStep::Done(Err(StoreError::Config)),
        }
    }
}

/// Where a running switch stands: what its last action was about.
#[derive(Debug)]
pub enum SwitchPhase {
    /// The target profile's file was probed.
    TargetProbed,
    /// The pointer file was read for the previous profile's name.
    PointerRead,
    /// The pointer file was overwritten; the previous name is kept to be
    /// returned.
    PointerWritten(String),
}

/// A switch in progress.
#[derive(Debug)]
pub struct SwitchFlow {
    pub pit: Pit,
    pub name: String,
    pub target: String,
    pub phase: SwitchPhase,
}

/// What a switch does after an event: asks for one more action, or ends,
/// handing the store back with, on success, the previous profile's name.
#[derive(Debug)]
pub enum SwitchStep {
    Next(SwitchFlow, FsAction),
    Done(Pit, Result<String, StoreError>),
}

/// The kind of event each switch phase waits for.
pub open spec fn switch_expects(phase: SwitchPhase, ev: FsEvent) -> bool {
    match phase {
        SwitchPhase::TargetProbed => ev is Presence,
        SwitchPhase::PointerRead => ev is Content,
        SwitchPhase::PointerWritten(_) => ev is Outcome,
    }
}

/// The switch's transition relation.  Selecting a profile whose file does
/// not exist fails without touching anything; otherwise the previous name
/// is read from the pointer file before the pointer is overwritten to name
/// the chosen profile.
pub open spec fn switch_transition(pre: SwitchFlow, ev: FsEvent, r: SwitchStep) -> bool {
    match (pre.phase, ev) {
        (SwitchPhase::TargetProbed, FsEvent::Presence(present)) => if present {
            r matches SwitchStep::Next(f, a) && f.pit == pre.pit && f.name == pre.name && f.target
                == pre.target && f.phase is PointerRead && reads_file(a, pre.pit.config_path@)
        } else {
            r matches SwitchStep::Done(p, Err(StoreError::ProfileNotFound)) && p == pre.pit
        },
        (SwitchPhase::PointerRead, FsEvent::Content(c)) => match c {
            Some(text) => match pointer_name_of(doc_of(text@)) {
                Some(prev) => r matches SwitchStep::Next(f, a) && f.pit == pre.pit && f.name
                    == pre.name && f.target == pre.target && (f.phase matches
                SwitchPhase::PointerWritten(pv) && pv@ == prev) && writes_file(
                    a,
                    pre.pit.config_path@,
                    pointer_content_of(pre.name@),
                ),
                None => r matches SwitchStep::Done(p, Err(StoreError::Config)) && p == pre.pit,
            },
            None => r matches SwitchStep::Done(p, Err(StoreError::Config)) && p == pre.pit,
        },
        (SwitchPhase::PointerWritten(pv), FsEvent::Outcome(ok)) => if ok {
            r matches SwitchStep::Done(p, Ok(prev)) && prev == pv && p.directory
                == pre.pit.directory && p.config_path == pre.pit.config_path && p.profile_path
                == pre.target
        } else {
            r matches SwitchStep::Done(p, Err(StoreError::Structure)) && p == pre.pit
        },
        _ => false,
    }
}

impl Pit {
    /// Begins a switch of the active profile to `name`.  The switch only
    /// selects: it fails where `<name>.yaml` does not already exist, and
    /// creates nothing.
    pub fn switch(self, name: String) -> (r: (SwitchFlow, FsAction))
        ensures
            r.0.pit == self,
            r.0.name == name,
            r.0.target@ == profile_path_in(self.directory@, name@),
            r.0.phase is TargetProbed,
            probes_file(r.1, profile_path_in(self.directory@, name@)),
    {
        let target = profile_file_path(self.directory.as_str(), name.as_str());
        let a = FsAction::ProbeFile(target.clone());
        (SwitchFlow { pit: self, name, target, phase: SwitchPhase::TargetProbed }, a)
    }
}

impl SwitchFlow {
    /// Takes the driver's observation for the last action and decides the
    /// next action, or ends with the switch's result.
    pub fn step(self, ev: FsEvent) -> (r: SwitchStep)
        requires
            switch_expects(self.phase, ev),
        ensures
            switch_transition(self, ev, r),
    {
        let SwitchFlow { pit, name, target, phase } = self;
        match (phase, ev) {
            (SwitchPhase::TargetProbed, FsEvent::Presence(present)) => if present {
                let a = FsAction::ReadFile(pit.config_path.clone());
                SwitchStep::Next(
                    SwitchFlow { pit, name, target, phase: SwitchPhase::PointerRead },
                    a,
                )
            } else {
                SwitchStep::Done(pit, Err(StoreError::ProfileNotFound))
            },
            (SwitchPhase::PointerRead, FsEvent::Content(c)) => match c {
                Some(text) => {
                    let d = parse_doc(text.as_str());
                    match pointer_profile(&d) {
                        Some(prev) => {
                            let a = FsAction::WritePrivateFile(
                                pit.config_path.clone(),
                                pointer_content(name.as_str()),
                            );
                            SwitchStep::Next(
                                SwitchFlow {
                                    pit,
                                    name,
                                    target,
                                    phase: SwitchPhase::PointerWritten(prev),
                                },
                                a,
                            )
                        },
                        None => SwitchStep::Done(pit, Err(StoreError::Config)),
                    }
                },
                None => SwitchStep::Done(pit, Err(StoreError::Config)),
            },
            (SwitchPhase::PointerWritten(prev), FsEvent::Outcome(ok)) => if ok {
                SwitchStep::Done(
                    Pit {
                        directory: pit.directory,
                        config_path: pit.config_path,
                        profile_path: target,
                    },
                    Ok(prev),
                )
            } else {
                SwitchStep::Done(pit, Err(StoreError::Structure))
            },
            _ => SwitchStep::Done(pit, Err(StoreError::Config)),
        }
    }
}

} // verus!
