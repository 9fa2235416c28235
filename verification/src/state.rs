//! The session-owned resource table.
//!
//! One `AppState` exists per execution session.  It owns every kernel
//! resource created on the guest's behalf: loaded kernel objects keyed by
//! opaque handle, live attachment links, and file descriptors opened for
//! attachments.  Handles are allocated monotonically starting at 1 and are
//! never reused, even after the object behind one is closed, so a stale
//! handle can never alias a newer object.  The value 0 is never a handle;
//! callers use it as a sentinel.
//!
//! The table is generic over the concrete object, link and file types the
//! embedding supplies, so the lifecycle logic is verified once for all of
//! them.

use vstd::prelude::*;

verus! {

/// Session state: loaded objects by handle, plus the session-owned lists of
/// attachment links and opened files.
///
/// A handle `h` is live exactly when `1 <= h <= objects.len()` and the slot
/// `h - 1` is still occupied; closing an object empties its slot without
/// renumbering any other handle.
pub struct AppState<T, L, F> {
    objects: Vec<Option<T>>,
    opened_links: Vec<L>,
    opened_files: Vec<F>,
}

impl<T, L, F> AppState<T, L, F> {
    /// One slot per handle ever issued; slot `h - 1` belongs to handle `h`.
    pub closed spec fn objects_seq(self) -> Seq<Option<T>> {
        self.objects@
    }

    /// All attachment links recorded during the session, in creation order.
    pub closed spec fn links_seq(self) -> Seq<L> {
        self.opened_links@
    }

    /// All files opened for attachments during the session, in creation
    /// order.
    pub closed spec fn files_seq(self) -> Seq<F> {
        self.opened_files@
    }

    /// The handle the next successful load will receive.
    pub open spec fn next_object_id(self) -> int {
        self.objects_seq().len() as int + 1
    }

    /// Handle `h` refers to a loaded, not yet closed object.
    pub open spec fn object_live(self, h: u64) -> bool {
        1 <= h <= self.objects_seq().len() && self.objects_seq()[h - 1] is Some
    }

    /// The object behind live handle `h`.
    pub open spec fn object_at(self, h: u64) -> T
        recommends
            self.object_live(h),
    {
        self.objects_seq()[h - 1].unwrap()
    }

    /// Law: a live handle was issued by this session — it is at least 1,
    /// so 0 is never a valid handle, and it lies strictly below the running
    /// counter, so a forged or not-yet-issued handle can never name an
    /// object.
    pub proof fn lemma_live_handle_was_issued(self, h: u64)
        requires
            self.object_live(h),
        ensures
            1 <= h,
            (h as int) < self.next_object_id(),
    {
    }

    /// A fresh session: no objects, no links, no files; the first handle to
    /// be issued is 1.
    pub fn new() -> (s: Self)
        ensures
            s.objects_seq() == Seq::<Option<T>>::empty(),
            s.links_seq() == Seq::<L>::empty(),
            s.files_seq() == Seq::<F>::empty(),
            s.next_object_id() == 1,
    {
        AppState { objects: Vec::new(), opened_links: Vec::new(), opened_files: Vec::new() }
    }

    /// Stores a loaded object and returns its freshly allocated handle.
    ///
    /// The handle equals the session's running counter, so handles are
    /// strictly increasing in order of issuance and are never reused,
    /// however many objects were closed in between.
    pub fn insert_object(&mut self, obj: T) -> (h: u64)
        requires
            old(self).objects_seq().len() < u64::MAX,
        ensures
            h as int == old(self).next_object_id(),
            h >= 1,
            final(self).objects_seq() == old(self).objects_seq().push(Some(obj)),
            final(self).next_object_id() == old(self).next_object_id() + 1,
            final(self).object_live(h),
            final(self).object_at(h) == obj,
            forall|h2: u64|
                h2 != h ==> final(self).object_live(h2) == old(self).object_live(h2),
            final(self).links_seq() == old(self).links_seq(),
            final(self).files_seq() == old(self).files_seq(),
    {
        let h = (self.objects.len() as u64) + 1;
        self.objects.push(Some(obj));
        h
    }

    /// Removes and returns the object behind `h`, freeing its slot.
    ///
    /// On an unknown or already-closed handle the table is left entirely
    /// unchanged.  No other handle's mapping is ever affected, and the
    /// handle counter does not move, so a later load still gets a fresh
    /// handle.
    pub fn remove_object(&mut self, h: u64) -> (r: Option<T>)
        ensures
            r is Some <==> old(self).object_live(h),
            !old(self).object_live(h) ==> *final(self) == *old(self),
            old(self).object_live(h) ==> r == Some(old(self).object_at(h)),
            old(self).object_live(h) ==> final(self).objects_seq() == old(
                self,
            ).objects_seq().update(h - 1, None::<T>),
            final(self).next_object_id() == old(self).next_object_id(),
            !final(self).object_live(h),
            forall|h2: u64|
                h2 != h ==> final(self).object_live(h2) == old(self).object_live(h2),
            forall|h2: u64|
                h2 != h && final(self).object_live(h2) ==> final(self).object_at(h2) == old(
                    self,
                ).object_at(h2),
            final(self).links_seq() == old(self).links_seq(),
            final(self).files_seq() == old(self).files_seq(),
    {
        if !self.contains_object(h) {
            return None;
        }
        let i = (h - 1) as usize;
        let cur = self.objects.remove(i);
        self.objects.insert(i, None);
        proof {
            assert(self.objects_seq() =~= old(self).objects_seq().update(h - 1, None::<T>));
        }
        match cur {
            Some(obj) => Some(obj),
            None => {
                proof {
                    assert(false);
                }
                None
            },
        }
    }

    /// Borrows the object behind `h`, if it is live.
    pub fn get_object(&self, h: u64) -> (r: Option<&T>)
        ensures
            r is Some <==> self.object_live(h),
            r matches Some(o) ==> *o == self.object_at(h),
    {
        if h >= 1 && h <= self.objects.len() as u64 {
            let i = (h - 1) as usize;
            match &self.objects[i] {
                Some(o) => Some(o),
                None => None,
            }
        } else {
            None
        }
    }

    /// Handle `h` currently refers to a live object.
    pub fn contains_object(&self, h: u64) -> (b: bool)
        ensures
            b == self.object_live(h),
    {
        match self.get_object(h) {
            Some(_) => true,
            None => false,
        }
    }

    /// Records an attachment link; the session keeps it alive until
    /// teardown.
    pub fn push_link(&mut self, link: L)
        ensures
            final(self).links_seq() == old(self).links_seq().push(link),
            final(self).objects_seq() == old(self).objects_seq(),
            final(self).files_seq() == old(self).files_seq(),
    {
        self.opened_links.push(link);
    }

    /// Records a file opened on the guest's behalf; the session keeps it
    /// open until teardown.
    pub fn push_opened_file(&mut self, file: F)
        ensures
            final(self).files_seq() == old(self).files_seq().push(file),
            final(self).objects_seq() == old(self).objects_seq(),
            final(self).links_seq() == old(self).links_seq(),
    {
        self.opened_files.push(file);
    }

    /// The number of links recorded so far.
    pub fn link_count(&self) -> (n: usize)
        ensures
            n == self.links_seq().len(),
    {
        self.opened_links.len()
    }

    /// The number of files opened so far.
    pub fn file_count(&self) -> (n: usize)
        ensures
            n == self.files_seq().len(),
    {
        self.opened_files.len()
    }

    /// The number of handles ever issued (live or closed); also the number
    /// of object slots.
    pub fn object_slot_count(&self) -> (n: usize)
        ensures
            n == self.objects_seq().len(),
    {
        self.objects.len()
    }

    /// The handle the next successful load will receive.
    pub fn next_handle(&self) -> (h: u64)
        requires
            self.objects_seq().len() < u64::MAX,
        ensures
            h as int == self.next_object_id(),
    {
        (self.objects.len() as u64) + 1
    }
}

} // verus!
