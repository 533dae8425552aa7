use vstd::prelude::*;
use vstd::string::{StrSliceExecFns, StringSliceAdditionalSpecFns};

verus! {

pub open spec fn starts_with(s: Seq<u8>, prefix: Seq<u8>) -> bool {
    s.len() >= prefix.len() && s.subrange(0, prefix.len() as int) == prefix
}

pub fn has_prefix(s: &[u8], prefix: &[u8]) -> (r: bool)
    ensures
        r == starts_with(s@, prefix@),
{
    if s.len() < prefix.len() {
        return false;
    }
    let mut i: usize = 0;
    while i < prefix.len()
        invariant
            0 <= i <= prefix@.len() <= s@.len(),
            forall|j: int| 0 <= j < i ==> s@[j] == prefix@[j],
        decreases prefix.len() - i,
    {
        if s[i] != prefix[i] {
            assert(s@.subrange(0, prefix@.len() as int)[i as int] != prefix@[i as int]);
            return false;
        }
        i = i + 1;
    }
    assert(s@.subrange(0, prefix@.len() as int) =~= prefix@);
    true
}

/// Whether the host is switching from the menus into shared content: the
/// scene names that it passes, in its order, begin with
/// `OnlineShareSequenceScene` and `MenuSequenceScene`.
pub open spec fn is_shared_content_entry(scene: Seq<u8>, other_scene: Seq<u8>) -> bool {
    starts_with(scene, "OnlineShareSequenceScene".spec_bytes())
        && starts_with(other_scene, "MenuSequenceScene".spec_bytes())
}

/// Whether a scene change enters shared content; the names are the bytes of
/// the host's fixed-size scene name buffers.
pub fn enters_shared_content(scene: &[u8], other_scene: &[u8]) -> (r: bool)
    ensures
        r == is_shared_content_entry(scene@, other_scene@),
{
    let a = "OnlineShareSequenceScene".as_bytes_vec();
    let b = "MenuSequenceScene".as_bytes_vec();
    has_prefix(scene, a.as_slice()) && has_prefix(other_scene, b.as_slice())
}

} // verus!
