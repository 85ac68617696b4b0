//! The virtual-endpoint resource model: a pseudo-terminal pair published to
//! clients through a symbolic link at a stable path.
//!
//! The OS-side work — allocating the pair, creating and removing the link,
//! keeping the subordinate handle open — belongs to the caller that owns
//! the devices.  This model pins down the lifecycle decisions: which
//! identifier the link carries, and that teardown removes the link exactly
//! once, however often release runs.

use vstd::prelude::*;

use crate::config::{file_name_of, path_file_name};
use crate::error::Error;

verus! {

/// The published link of one virtual endpoint.
///
/// `released` records whether teardown has already claimed the link; the
/// owner of the OS resources asks [`PtyLink::release`] before removing the
/// filesystem link, and removal failure is only reported, never escalated.
pub struct PtyLink {
    id: String,
    link: String,
    released: bool,
}

/// Spec-level release: the released flag after a release, paired with
/// whether that release is the one that must remove the link.
pub open spec fn spec_release(released: bool) -> (bool, bool) {
    (true, !released)
}

/// Teardown idempotence: whatever state a link starts in, releasing it and
/// then releasing it again asks for removal at most once — the second
/// release never does.
pub proof fn lemma_release_idempotent(released: bool)
    ensures
        !spec_release(spec_release(released).0).1,
{
}

impl PtyLink {
    /// The identifier of the endpoint this link publishes.
    pub closed spec fn spec_id(&self) -> Seq<char> {
        self.id@
    }

    /// The path of the published symbolic link.
    pub closed spec fn spec_link(&self) -> Seq<char> {
        self.link@
    }

    /// True once teardown has claimed the link.
    pub closed spec fn spec_released(&self) -> bool {
        self.released
    }

    /// Records a link published at `link`.  The identifier is `explicit_id`
    /// when one is given, else it is derived from the final component of
    /// the link path; a path with no final component is rejected.
    pub fn new(link: String, explicit_id: Option<String>) -> (r: Result<PtyLink, Error>)
        ensures
            match r {
                Ok(p) => {
                    &&& p.spec_link() == link@
                    &&& !p.spec_released()
                    &&& match explicit_id {
                        Some(id) => p.spec_id() == id@,
                        None => Some(p.spec_id()) == file_name_of(link@),
                    }
                },
                Err(e) => {
                    &&& explicit_id is None
                    &&& file_name_of(link@) is None
                    &&& e matches Error::InvalidPath { input } && input@ == link@
                },
            },
    {
        match explicit_id {
            Some(id) => Ok(PtyLink { id, link, released: false }),
            None => match path_file_name(link.as_str()) {
                Some(name) => Ok(PtyLink { id: name, link, released: false }),
                None => Err(Error::InvalidPath { input: link }),
            },
        }
    }

    /// The path of the published symbolic link.
    pub fn link(&self) -> (r: &str)
        ensures
            r@ == self.spec_link(),
    {
        self.link.as_str()
    }

    /// The identifier of the endpoint this link publishes.
    pub fn id(&self) -> (r: &str)
        ensures
            r@ == self.spec_id(),
    {
        self.id.as_str()
    }

    /// True once teardown has claimed the link.
    pub fn is_released(&self) -> (r: bool)
        ensures
            r == self.spec_released(),
    {
        self.released
    }

    /// Claims the link for teardown and tells the caller whether the
    /// filesystem link still has to be removed: true on the first call,
    /// false on every later one, so removal happens exactly once however
    /// often teardown runs.
    pub fn release(&mut self) -> (r: bool)
        ensures
            final(self).spec_id() == old(self).spec_id(),
            final(self).spec_link() == old(self).spec_link(),
            (final(self).spec_released(), r) == spec_release(old(self).spec_released()),
            r == !old(self).spec_released(),
    {
        let was_released = self.released;
        self.released = true;
        !was_released
    }
}

} // verus!
