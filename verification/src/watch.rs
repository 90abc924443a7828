//! The change notifier's rule: which events of the file watcher ask the user
//! interface to reload.

use vstd::prelude::*;

verus! {

/// What happened to the watched files.
#[derive(Debug, Clone, Copy, PartialEq, Eq)]
pub enum ChangeKind {
    Any,
    Access,
    Create,
    Modify,
    Remove,
    Other,
}

/// Whether a change of this kind can alter what the user interface shows.
pub open spec fn alters_content(kind: ChangeKind) -> bool {
    kind is Create || kind is Modify || kind is Remove
}

/// Whether files with this extension are part of the user interface:
/// scripts, stylesheets and markup.
pub open spec fn watched_extension(extension: Seq<char>) -> bool {
    extension == "js"@ || extension == "css"@ || extension == "html"@
}

/// The extensions of the changed paths as texts; a path without an extension
/// has none.
pub open spec fn extension_texts(extensions: Seq<Option<String>>) -> Seq<Option<Seq<char>>> {
    extensions.map_values(
        |e: Option<String>|
            match e {
                Some(extension) => Some(extension@),
                None => None,
            },
    )
}

/// Whether one of the changed paths has a watched extension. A path without
/// an extension counts for nothing.
pub open spec fn touches_watched(extensions: Seq<Option<Seq<char>>>) -> bool {
    exists|i: int|
        0 <= i < extensions.len() && (#[trigger] extensions[i]) is Some && watched_extension(
            extensions[i]->Some_0,
        )
}

/// Whether an event asks for a reload: it creates, modifies or removes, and
/// one of its paths has a watched extension.
pub open spec fn asks_reload(kind: ChangeKind, extensions: Seq<Option<Seq<char>>>) -> bool {
    alters_content(kind) && touches_watched(extensions)
}

/// Tests whether files with this extension are part of the user interface.
pub fn is_watched_extension(extension: &str) -> (watched: bool)
    ensures
        watched == watched_extension(extension@),
{
    let e = String::from_str(extension);
    e == String::from_str("js") || e == String::from_str("css") || e == String::from_str("html")
}

/// Decides whether an event of the file watcher asks for a reload, from its
/// kind and the extension of each of its paths.
pub fn should_reload(kind: ChangeKind, extensions: &[Option<String>]) -> (reload: bool)
    ensures
        reload == asks_reload(kind, extension_texts(extensions@)),
{
    match kind {
        ChangeKind::Create | ChangeKind::Modify | ChangeKind::Remove => {},
        _ => {
            return false;
        },
    }
    let ghost seen = extension_texts(extensions@);
    let mut i: usize = 0;
    while i < extensions.len()
        invariant
            i <= extensions.len(),
            alters_content(kind),
            seen == extension_texts(extensions@),
            forall|k: int|
                0 <= k < i ==> !((#[trigger] seen[k]) is Some && watched_extension(
                    seen[k]->Some_0,
                )),
        decreases extensions.len() - i,
    {
        match &extensions[i] {
            Some(extension) => {
                if is_watched_extension(extension.as_str()) {
                    assert(seen[i as int] is Some && watched_extension(seen[i as int]->Some_0));
                    return true;
                }
            },
            None => {},
        }
        i = i + 1;
    }
    false
}

} // verus!
