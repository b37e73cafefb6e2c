//! A cell that holds the latest value and tells its observers that it
//! changed. It keeps no history: an observer that looks late sees the last
//! value only.

use vstd::prelude::*;

verus! {

/// The sending side: the value and the number of the send that put it
/// there, counted modulo two to the sixty-fourth.
pub struct Watch<T> {
    value: T,
    version: u64,
}

/// An observer: the number of the send that it has seen last.
#[derive(Clone, Copy, Debug, PartialEq, Eq, Structural)]
pub struct Receiver {
    seen: u64,
}

/// The number that follows `version`.
pub open spec fn next_version(version: u64) -> u64 {
    if version == u64::MAX {
        0
    } else {
        (version + 1) as u64
    }
}

/// The number that lies `sends` after `version`.
pub open spec fn version_after(version: u64, sends: nat) -> u64
    decreases sends,
{
    if sends == 0 {
        version
    } else {
        next_version(version_after(version, (sends - 1) as nat))
    }
}

impl Receiver {
    /// The number of the send that the observer has seen last.
    pub closed spec fn seen(self) -> u64 {
        self.seen
    }
}

impl<T> Watch<T> {
    /// The value that the cell holds.
    pub closed spec fn value(self) -> T {
        self.value
    }

    /// The number of the last send.
    pub closed spec fn version(self) -> u64 {
        self.version
    }

    /// The observer has not seen the value that the cell holds.
    pub open spec fn spec_has_changed(self, receiver: Receiver) -> bool {
        receiver.seen() != self.version()
    }

    /// A cell that holds `value`.
    pub fn new(value: T) -> (cell: Self)
        ensures
            cell.value() == value,
            cell.version() == 0,
    {
        Watch { value, version: 0 }
    }

    /// An observer that has seen the value the cell holds now.
    pub fn subscribe(&self) -> (receiver: Receiver)
        ensures
            receiver.seen() == self.version(),
            !self.spec_has_changed(receiver),
    {
        Receiver { seen: self.version }
    }

    /// The value that the cell holds.
    pub fn borrow(&self) -> (value: &T)
        ensures
            *value == self.value(),
    {
        &self.value
    }

    /// Puts `value` into the cell and gives back the value that was there.
    /// What was there is gone for every observer that has not looked yet.
    pub fn send_replace(&mut self, value: T) -> (previous: T)
        ensures
            previous == old(self).value(),
            final(self).value() == value,
            final(self).version() == next_version(old(self).version()),
    {
        let mut previous = value;
        core::mem::swap(&mut self.value, &mut previous);
        self.version = self.version.wrapping_add(1);
        previous
    }

    /// Whether the observer has not seen the value that the cell holds.
    pub fn has_changed(&self, receiver: &Receiver) -> (changed: bool)
        ensures
            changed == self.spec_has_changed(*receiver),
    {
        receiver.seen != self.version
    }

    /// The value that the cell holds; the observer has seen it from now on.
    pub fn borrow_and_update(&self, receiver: &mut Receiver) -> (value: &T)
        ensures
            *value == self.value(),
            final(receiver).seen() == self.version(),
            !self.spec_has_changed(*final(receiver)),
    {
        receiver.seen = self.version;
        &self.value
    }
}

/// After a send every observer that had seen the value before has a change
/// to see.
pub proof fn lemma_send_is_seen<T>(before: Watch<T>, after: Watch<T>, receiver: Receiver)
    requires
        after.version() == next_version(before.version()),
        !before.spec_has_changed(receiver),
    ensures
        after.spec_has_changed(receiver),
{
}

/// Sends coalesce: after any number of sends, short of two to the
/// sixty-fourth, an observer finds one change, and the value it then reads
/// is the last one sent.
pub proof fn lemma_sends_coalesce(version: u64, sends: nat)
    requires
        0 < sends <= u64::MAX,
    ensures
        version_after(version, sends) != version,
        version_after(version, sends) == (version + sends) % 0x1_0000_0000_0000_0000,
{
    lemma_version_after(version, sends);
}

proof fn lemma_version_after(version: u64, sends: nat)
    ensures
        version_after(version, sends) == (version + sends) % 0x1_0000_0000_0000_0000,
    decreases sends,
{
    if sends > 0 {
        lemma_version_after(version, (sends - 1) as nat);
        let prev = version_after(version, (sends - 1) as nat);
        assert(prev == (version + sends - 1) % 0x1_0000_0000_0000_0000);
        assert(next_version(prev) == (version + sends) % 0x1_0000_0000_0000_0000) by {
            let total: int = version + sends - 1;
            let m: int = 0x1_0000_0000_0000_0000;
            assert(total % m == prev);
            if prev == u64::MAX {
                assert((total + 1) % m == 0) by (nonlinear_arith)
                    requires
                        total % m == m - 1,
                        m > 0,
                        total >= 0,
                ;
            } else {
                assert((total + 1) % m == prev + 1) by (nonlinear_arith)
                    requires
                        total % m == prev,
                        prev + 1 < m,
                        m > 0,
                        total >= 0,
                        prev >= 0,
                ;
            }
        }
    } else {
        assert(version as int % 0x1_0000_0000_0000_0000 == version);
    }
}

} // verus!
