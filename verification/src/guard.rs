//! Scoped ownership of native drawing handles.
//!
//! A [`Guard`] stands for one handle that has been acquired and not yet given
//! back, together with the way in which it must be given back. It cannot be
//! copied, and giving it back consumes it. What comes out is a [`Release`]:
//! the one call that the platform layer has to make for that handle.
//! Handles that depend on each other are given back in the reverse of the
//! order in which they were acquired.

use vstd::prelude::*;

verus! {

/// The way in which a handle is given back. A drawing object and a context
/// that was created are deleted; a context that was borrowed from a window or
/// the screen is released to where it came from. The three are different
/// platform calls and are never exchanged for one another.
#[derive(Clone, Copy, Debug, PartialEq, Eq)]
pub enum Disposal {
    /// Delete a drawing object such as a bitmap.
    DeleteObject,
    /// Delete a context that was created.
    DeleteContext,
    /// Release a context that was borrowed.
    ReleaseContext,
}

/// The giving back of one handle.
#[derive(Clone, Copy, Debug, PartialEq, Eq)]
pub struct Release {
    pub handle: usize,
    pub disposal: Disposal,
}

/// Ownership of one handle that is not null.
#[derive(Debug)]
pub struct Guard {
    handle: usize,
    disposal: Disposal,
}

impl View for Guard {
    type V = Release;

    /// The release that the guard owes.
    closed spec fn view(&self) -> Release {
        Release { handle: self.handle, disposal: self.disposal }
    }
}

impl Guard {
    #[verifier::type_invariant]
    spec fn holds_a_handle(self) -> bool {
        self.handle != 0
    }

    /// Takes ownership of a handle. A null handle is what the platform
    /// returns when it could not provide the resource: there is nothing to
    /// own then.
    pub fn acquire(handle: usize, disposal: Disposal) -> (guard: Option<Guard>)
        ensures
            guard is Some <==> handle != 0,
            guard matches Some(g) ==> g@ == (Release { handle, disposal }),
    {
        if handle == 0 {
            None
        } else {
            Some(Guard { handle, disposal })
        }
    }

    /// The handle, for use while the guard lives. Ownership stays with the
    /// guard.
    pub fn get(&self) -> (handle: usize)
        ensures
            handle == self@.handle,
            handle != 0,
    {
        proof {
            use_type_invariant(self);
        }
        self.handle
    }

    /// Ends the ownership and hands out the release that is now due.
    pub fn release(self) -> (release: Release)
        ensures
            release == self@,
            release.handle != 0,
    {
        proof {
            use_type_invariant(&self);
        }
        Release { handle: self.handle, disposal: self.disposal }
    }
}

/// The releases that a run of guards owes, in the order of the guards.
pub open spec fn owed(guards: Seq<Guard>) -> Seq<Release> {
    guards.map_values(|g: Guard| g@)
}

/// Ends the ownership of all the guards, which are given in the order of
/// their acquisition. The releases come out in the reverse order: the handle
/// that was acquired last is given back first.
pub fn release_all(guards: Vec<Guard>) -> (releases: Vec<Release>)
    ensures
        releases@ == owed(guards@).reverse(),
{
    let mut guards = guards;
    let ghost all = owed(guards@);
    let mut releases: Vec<Release> = Vec::new();
    while guards.len() > 0
        invariant
            owed(guards@) == all.take(guards.len() as int),
            guards.len() <= all.len(),
            releases.len() == all.len() - guards.len(),
            forall|i: int| 0 <= i < releases.len() ==> releases@[i] == all[all.len() - 1 - i],
        decreases guards.len(),
    {
        let ghost before = guards@;
        let guard = guards.pop().unwrap();
        assert(owed(before)[before.len() - 1] == guard@);
        assert(owed(guards@) =~= all.take(guards.len() as int));
        releases.push(guard.release());
    }
    assert(releases@ =~= all.reverse());
    releases
}

/// Giving handles back in reverse order gives each of them back exactly
/// once: every release occurs among the releases made as often as it occurs
/// among the acquisitions, and the release at position `i` is that of the
/// acquisition at position `i` counted from the end.
pub proof fn lemma_reverse_releases_each_once(acquired: Seq<Release>)
    ensures
        acquired.reverse().len() == acquired.len(),
        acquired.reverse().to_multiset() == acquired.to_multiset(),
        forall|r: Release| acquired.reverse().to_multiset().count(r) == acquired.to_multiset().count(r),
        forall|i: int|
            0 <= i < acquired.len() ==> #[trigger] acquired.reverse()[i] == acquired[acquired.len()
                - 1 - i],
{
    acquired.lemma_reverse_to_multiset();
}

} // verus!
