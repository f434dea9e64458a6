//! Clips that a script declares: which kind of clip a declaration makes.

use vstd::prelude::*;
use vstd::string::*;

use crate::text::same_text;

verus! {

/// The kinds of clip a script can declare.
#[derive(Clone, Copy, Debug, PartialEq, Eq)]
pub enum ScriptClip {
    /// A text title, on the title layer above the base layer.
    Title,
    /// An SMPTE test pattern, on the base layer.
    Test,
}

/// The kind of clip a declaration makes: `"title"` makes a title; any
/// other kind, or none, makes a test pattern.
pub open spec fn clip_kind_of(kind: Option<Seq<char>>) -> ScriptClip {
    match kind {
        Some(k) => if k == "title"@ {
            ScriptClip::Title
        } else {
            ScriptClip::Test
        },
        None => ScriptClip::Test,
    }
}

/// The kind of clip a declaration with this `kind` field makes.
pub fn clip_kind(kind: Option<&str>) -> (clip: ScriptClip)
    ensures
        clip == clip_kind_of(
            match kind {
                Some(k) => Some(k@),
                None => None,
            },
        ),
{
    match kind {
        Some(k) => if same_text(k, "title") {
            ScriptClip::Title
        } else {
            ScriptClip::Test
        },
        None => ScriptClip::Test,
    }
}

} // verus!
