//! What holds of the store as a whole, stated once and proved.

use vstd::prelude::*;
use crate::doc::{doc_of, DocV, NodeV};
use crate::paths::profile_path_in;
use crate::resolve::{doc_has_service, lemma_absent_service_not_found, pointer_name_of};
use crate::store::{
    get_transition, is_write, makes_dir, pointer_content_of, probes_file, switch_transition,
    writes_file, FsAction, FsEvent, GetFlow, GetStep, StoreError, SwitchFlow,
    SwitchStep, empty_profile_content,
};

verus! {

/// Law: a lookup resolves against the file named by the pointer document
/// it has just read — the profile file it goes on to probe, and the one it
/// selects, is `<name>.yaml` for the name the pointer gives, never the
/// file selected before.
pub proof fn lemma_get_follows_pointer(pre: GetFlow, text: String, r: GetStep, nm: Seq<char>)
    requires
        pre.phase is PointerRead,
        get_transition(pre, FsEvent::Content(Some(text)), r),
        pointer_name_of(doc_of(text@)) == Some(nm),
        nm.len() > 0,
    ensures
        r matches GetStep::Next(f, a) && f.pit.profile_path@ == profile_path_in(
            pre.pit.directory@,
            nm,
        ) && probes_file(a, profile_path_in(pre.pit.directory@, nm)),
{
}

/// Law: the only file a switch ever writes is the pointer file, and what
/// it writes is the document naming the chosen profile.
pub proof fn lemma_switch_writes_only_pointer(
    pre: SwitchFlow,
    ev: FsEvent,
    f: SwitchFlow,
    a: FsAction,
)
    requires
        switch_transition(pre, ev, SwitchStep::Next(f, a)),
        is_write(a),
    ensures
        writes_file(a, pre.pit.config_path@, pointer_content_of(pre.name@)),
{
}

/// Law: a one-entry document `profile: <name>` resolves to `<name>`; with
/// the previous two laws, a lookup that follows a successful switch reads
/// `<name>.yaml`.
pub proof fn lemma_pointer_doc_names(nm: Seq<char>)
    ensures
        pointer_name_of(DocV::Table(seq![(Some("profile"@), NodeV::Str(nm))])) == Some(nm),
{
}

/// Law: switching to a profile whose file does not exist fails with
/// `ProfileNotFound`, hands the store back unchanged, and issues no write:
/// the pointer file is left exactly as it was.
pub proof fn lemma_switch_missing_target_untouched(pre: SwitchFlow, r: SwitchStep)
    requires
        pre.phase is TargetProbed,
        switch_transition(pre, FsEvent::Presence(false), r),
    ensures
        r matches SwitchStep::Done(p, Err(StoreError::ProfileNotFound)) && p == pre.pit,
{
}

/// Law: bootstrapping is idempotent — where a probe finds the store root,
/// the pointer file or the profile file already present, the step that
/// follows only reads; nothing existing is created again or overwritten.
pub proof fn lemma_existing_structure_not_rewritten(pre: GetFlow, r: GetStep)
    requires
        pre.phase is RootProbed || pre.phase is PointerProbed || pre.phase is ProfileProbed,
        get_transition(pre, FsEvent::Presence(true), r),
    ensures
        r matches GetStep::Next(f, a) && !is_write(a),
{
}

/// Law: everything a lookup ever creates is a missing piece of the
/// default structure — the store root, the pointer file with its default
/// content, or the active profile's file created empty — and only after a
/// probe reported it absent.
pub proof fn lemma_get_creates_only_defaults(pre: GetFlow, ev: FsEvent, f: GetFlow, a: FsAction)
    requires
        get_transition(pre, ev, GetStep::Next(f, a)),
        is_write(a),
    ensures
        ev == FsEvent::Presence(false),
        makes_dir(a, pre.pit.directory@) || writes_file(
            a,
            pre.pit.config_path@,
            pointer_content_of("default"@),
        ) || writes_file(a, pre.pit.profile_path@, empty_profile_content()),
{
}

/// Law: a lookup whose profile document does not list the requested
/// service ends in "not found", never in an error or a creation.
pub proof fn lemma_get_absent_service_not_found(pre: GetFlow, text: String, r: GetStep)
    requires
        pre.phase is ProfileRead,
        get_transition(pre, FsEvent::Content(Some(text)), r),
        !(doc_of(text@) is Invalid || doc_of(text@) is Empty),
        !doc_has_service(doc_of(text@), pre.service@),
    ensures
        r matches GetStep::Done(Ok(None)),
{
    lemma_absent_service_not_found(doc_of(text@), pre.service@);
}

/// Law: a lookup that follows a successful switch resolves against the
/// chosen profile's file.  The switch leaves the pointer file holding
/// exactly `profile: <name>`; where the parse reads that one-entry
/// document back as written, the lookup probes and selects `<name>.yaml`.
pub proof fn lemma_switch_then_get_uses_new_profile(
    pre: GetFlow,
    text: String,
    name: Seq<char>,
    r: GetStep,
)
    requires
        pre.phase is PointerRead,
        text@ == pointer_content_of(name),
        doc_of(text@) == DocV::Table(seq![(Some("profile"@), NodeV::Str(name))]),
        name.len() > 0,
        get_transition(pre, FsEvent::Content(Some(text)), r),
    ensures
        r matches GetStep::Next(f, a) && f.pit.profile_path@ == profile_path_in(
            pre.pit.directory@,
            name,
        ) && probes_file(a, profile_path_in(pre.pit.directory@, name)),
{
    lemma_pointer_doc_names(name);
    lemma_get_follows_pointer(pre, text, r, name);
}

} // verus!
