//! The borrow state of a host object that the runtime owns.
//!
//! While a method runs on a host object it holds a borrow of it: any number
//! of shared borrows, or one exclusive borrow. A borrow that cannot be had
//! is refused, never waited for, so a method that calls back into the
//! runtime cannot lock itself out.

use vstd::prelude::*;

verus! {

/// How a host object is borrowed at the moment.
pub enum Borrow {
    /// Not at all.
    Unused,
    /// By this many readers, at least one.
    Shared(nat),
    /// By one writer.
    Exclusive,
}

impl Borrow {
    /// Whether one more reader can be admitted.
    pub open spec fn admits_shared(self) -> bool {
        match self {
            Borrow::Unused => true,
            Borrow::Shared(readers) => readers < isize::MAX,
            Borrow::Exclusive => false,
        }
    }

    /// The state with one more reader.
    pub open spec fn lock_shared(self) -> Borrow {
        match self {
            Borrow::Shared(readers) => Borrow::Shared(readers + 1),
            _ => Borrow::Shared(1),
        }
    }

    /// The state with one reader less.
    pub open spec fn unlock_shared(self) -> Borrow {
        match self {
            Borrow::Shared(readers) if readers > 1 => Borrow::Shared((readers - 1) as nat),
            _ => Borrow::Unused,
        }
    }
}

/// A shared borrow that is taken and given back leaves the borrow state as
/// it was, whatever it was, as long as it could be taken.
pub proof fn lemma_shared_borrow_round_trip(lock: Borrow)
    requires
        lock.admits_shared(),
        lock matches Borrow::Shared(readers) ==> readers >= 1,
    ensures
        lock.lock_shared() is Shared,
        lock.lock_shared().unlock_shared() == lock,
{
}

/// Borrow flag of one host object.
#[derive(Debug, Clone, Copy, PartialEq, Eq)]
pub struct UserDataLock {
    flag: isize,
}

impl View for UserDataLock {
    type V = Borrow;

    closed spec fn view(&self) -> Borrow {
        if self.flag == 0 {
            Borrow::Unused
        } else if self.flag > 0 {
            Borrow::Shared(self.flag as nat)
        } else {
            Borrow::Exclusive
        }
    }
}

impl UserDataLock {
    /// The flag of an object that nothing borrows.
    pub fn new() -> (lock: UserDataLock)
        ensures
            lock@ == Borrow::Unused,
    {
        UserDataLock { flag: 0 }
    }

    /// A flag never counts readers without there being one: its shared
    /// state has at least one reader.
    pub proof fn lemma_shared_has_reader(&self)
        ensures
            self@ matches Borrow::Shared(readers) ==> readers >= 1,
    {
    }

    /// Whether the object is borrowed.
    pub fn is_locked(&self) -> (locked: bool)
        ensures
            locked == !(self@ is Unused),
    {
        self.flag != 0
    }

    /// Whether readers hold the object.
    pub fn is_shared(&self) -> (shared: bool)
        ensures
            shared == (self@ is Shared),
    {
        self.flag > 0
    }

    /// Whether a writer holds the object.
    pub fn is_exclusive(&self) -> (exclusive: bool)
        ensures
            exclusive == (self@ is Exclusive),
    {
        self.flag < 0
    }

    /// Tries to add a reader. It is refused while a writer holds the object,
    /// and when the readers can no longer be counted.
    pub fn try_lock_shared(&mut self) -> (locked: bool)
        ensures
            locked == old(self)@.admits_shared(),
            final(self)@ == if locked {
                old(self)@.lock_shared()
            } else {
                old(self)@
            },
    {
        if self.flag < 0 || self.flag == isize::MAX {
            return false;
        }
        self.flag += 1;
        true
    }

    /// Tries to make the caller the writer. It is refused while anything
    /// borrows the object.
    pub fn try_lock_exclusive(&mut self) -> (locked: bool)
        ensures
            locked == (old(self)@ is Unused),
            final(self)@ == if locked {
                Borrow::Exclusive
            } else {
                old(self)@
            },
    {
        if self.flag != 0 {
            return false;
        }
        self.flag = -1;
        true
    }

    /// Removes a reader.
    pub fn unlock_shared(&mut self)
        requires
            old(self)@ is Shared,
        ensures
            final(self)@ == old(self)@.unlock_shared(),
    {
        self.flag -= 1;
    }

    /// Removes the writer.
    pub fn unlock_exclusive(&mut self)
        requires
            old(self)@ is Exclusive,
        ensures
            final(self)@ == Borrow::Unused,
    {
        self.flag = 0;
    }
}

} // verus!
