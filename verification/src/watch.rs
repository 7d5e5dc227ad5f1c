//! The decision rule of the model watcher: which file events trigger a
//! re-evaluation of the model.
//!
//! The watcher itself — the file-system notification loop — lives outside
//! this library; it hands the event kind and the watched file's extension
//! (as bytes) to [`should_trigger_evaluation`] and acts on the answer.

use vstd::prelude::*;

verus! {

/// The kind of a file-system event, as far as the decision rule cares.
#[derive(Clone, Copy, Debug, PartialEq, Eq, Structural)]
pub enum WatchEventKind {
    /// A modification of unspecified nature.
    ModifyAny,
    /// A data modification of unspecified nature.
    ModifyDataAny,
    /// A modification of the file's content.
    ModifyDataContent,
    /// Anything else: creation, removal, renames, metadata.
    Other,
}

/// Whether the event kind counts as a modification of the model source.
pub open spec fn spec_is_modification(kind: WatchEventKind) -> bool {
    kind is ModifyAny || kind is ModifyDataAny || kind is ModifyDataContent
}

/// Whether the extension belongs to an editor temp file that must not
/// trigger a re-evaluation: `swp`, `tmp` or `swx`.
pub open spec fn spec_blacklisted(ext: Seq<u8>) -> bool {
    ||| ext == seq![115u8, 119u8, 112u8]
    ||| ext == seq![116u8, 109u8, 112u8]
    ||| ext == seq![115u8, 119u8, 120u8]
}

/// Whether the byte vector holds exactly the three given bytes.
fn is_bytes3(v: &Vec<u8>, a: u8, b: u8, c: u8) -> (r: bool)
    ensures
        r == (v@ == seq![a, b, c]),
{
    if v.len() == 3 && v[0] == a && v[1] == b && v[2] == c {
        proof {
            assert(v@ =~= seq![a, b, c]);
        }
        true
    } else {
        proof {
            if v@ == seq![a, b, c] {
                assert(v@.len() == 3);
                assert(v@[0] == a && v@[1] == b && v@[2] == c);
            }
        }
        false
    }
}

/// Decide whether a file event triggers a re-evaluation of the model: the
/// event must be a modification, and the file's extension, if it has one,
/// must not belong to an editor temp file.
pub fn should_trigger_evaluation(kind: &WatchEventKind, extension: Option<&Vec<u8>>) -> (r:
    bool)
    ensures
        r == (spec_is_modification(*kind) && (extension matches Some(e) ==> !spec_blacklisted(
            e@,
        ))),
{
    let modification = match kind {
        WatchEventKind::ModifyAny => true,
        WatchEventKind::ModifyDataAny => true,
        WatchEventKind::ModifyDataContent => true,
        WatchEventKind::Other => false,
    };
    if !modification {
        return false;
    }
    match extension {
        None => true,
        Some(ext) => {
            let banned = is_bytes3(ext, 115, 119, 112) || is_bytes3(ext, 116, 109, 112)
                || is_bytes3(ext, 115, 119, 120);
            !banned
        },
    }
}

} // verus!
