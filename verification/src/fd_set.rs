//! Sets of file descriptors in the form `select` takes them.
//!
//! A set is a vector of bits, one for each descriptor, as on every Unix. Windows and
//! WASI, where nothing here calls `select`, know a set as an array of descriptors
//! instead: what the contracts of the rustix calls below say of a set's size, of the
//! descriptors it has room for and of their order does not hold there.

use rustix::event::FdSetElement;
use vstd::prelude::*;

verus! {

/// The largest `FD_SETSIZE` of any platform.
pub const LARGEST_FD_SETSIZE: i32 = 65536;

/// The element of a descriptor set, `rustix::event::FdSetElement`: a machine
/// word of which each bit stands for one descriptor.
#[verifier::external_type_specification]
#[verifier::external_body]
pub struct ExFdSetElement(rustix::event::FdSetElement);

/// The descriptors whose bits are set in a sequence of elements.
pub uninterp spec fn fd_set_members(elements: Seq<FdSetElement>) -> Set<int>;

/// How many descriptors one element has room for: one for each of its bits.
pub open spec fn element_bits() -> nat {
    vstd::layout::size_of::<FdSetElement>() * 8
}

/// `rustix::event::fd_set_num_elements`: where a set is a vector of bits, the least number of elements whose bits
/// cover the descriptors below `nfds`, however many of them (`set_count`) the set
/// is to hold. An element never has more than 64 bits.
#[verifier::external_body]
fn fd_set_num_elements(set_count: usize, nfds: i32) -> (count: usize)
    requires
        0 <= nfds,
    ensures
        nfds <= count * element_bits() < nfds + element_bits(),
        count * element_bits() < nfds + 64,
{
    rustix::event::fd_set_num_elements(set_count, nfds as rustix::fd::RawFd)
}

/// `FdSetElement::default`, as often as asked for: elements without any bit set,
/// so the set is empty.
#[verifier::external_body]
fn empty_elements(count: usize) -> (elements: Vec<FdSetElement>)
    ensures
        elements@.len() == count,
        fd_set_members(elements@) == Set::<int>::empty(),
{
    vec![FdSetElement::default(); count]
}

/// `rustix::event::fd_set_insert`: where a set is a vector of bits, sets the bit of `fd` and leaves the others. It
/// panics where no element holds that bit.
#[verifier::external_body]
fn fd_set_insert(elements: &mut Vec<FdSetElement>, fd: i32)
    requires
        0 <= fd < old(elements)@.len() * element_bits(),
    ensures
        final(elements)@.len() == old(elements)@.len(),
        fd_set_members(final(elements)@) == fd_set_members(old(elements)@).insert(fd as int),
{
    rustix::event::fd_set_insert(elements, fd as rustix::fd::RawFd)
}

/// `rustix::event::FdSetIter`: where a set is a vector of bits, the descriptors whose bits are set, in ascending
/// order and each once. The iterator counts in `i32`, so every bit must have an
/// `i32` below `i32::MAX` for its number.
#[verifier::external_body]
fn fd_set_iter(elements: &Vec<FdSetElement>) -> (fds: Vec<i32>)
    requires
        elements@.len() * element_bits() <= i32::MAX,
    ensures
        forall|fd: i32| fds@.contains(fd) <==> fd_set_members(elements@).contains(fd as int),
        forall|i: int, j: int| 0 <= i < j < fds@.len() ==> fds@[i] < fds@[j],
{
    rustix::event::FdSetIter::new(elements).map(|fd| fd as i32).collect()
}

/// A set of file descriptors.
///
/// It is made for `select`, which clears from it the descriptors that are not
/// ready.
pub struct FdSet {
    elements: Vec<FdSetElement>,
}

impl View for FdSet {
    type V = Set<int>;

    /// The descriptors in the set.
    closed spec fn view(&self) -> Set<int> {
        fd_set_members(self.elements@)
    }
}

impl FdSet {
    /// Every descriptor that the set has room for is an `i32`.
    pub closed spec fn wf(self) -> bool {
        self.elements@.len() * element_bits() <= i32::MAX
    }

    /// How many descriptors the set has room for: those below this number.
    pub closed spec fn room(self) -> nat {
        self.elements@.len() * element_bits()
    }

    /// An empty set with room for `set_count` descriptors below `nfds`, of no more elements
    /// than that takes.
    pub fn with_room(set_count: usize, nfds: i32) -> (set: FdSet)
        requires
            0 <= nfds <= LARGEST_FD_SETSIZE,
        ensures
            set.wf(),
            set@ == Set::<int>::empty(),
            nfds <= set.room() < nfds + element_bits(),
    {
        FdSet { elements: empty_elements(fd_set_num_elements(set_count, nfds)) }
    }

    /// Put a descriptor into the set.
    pub fn insert(&mut self, fd: i32)
        requires
            old(self).wf(),
            0 <= fd < old(self).room(),
        ensures
            final(self).wf(),
            final(self)@ == old(self)@.insert(fd as int),
            final(self).room() == old(self).room(),
    {
        fd_set_insert(&mut self.elements, fd);
    }

    /// The descriptors in the set, in ascending order.
    pub fn members(&self) -> (fds: Vec<i32>)
        requires
            self.wf(),
        ensures
            forall|fd: i32| fds@.contains(fd) <==> self@.contains(fd as int),
            forall|i: int, j: int| 0 <= i < j < fds@.len() ==> fds@[i] < fds@[j],
    {
        fd_set_iter(&self.elements)
    }

    /// The elements, for `select` to read and to write: as many as have room for the
    /// descriptors that the set has room for.
    pub fn elements_mut(&mut self) -> (elements: &mut [FdSetElement])
        requires
            old(self).wf(),
        ensures
            elements@.len() * element_bits() == old(self).room(),
            fd_set_members(elements@) == old(self)@,
            final(elements)@.len() == elements@.len() ==> final(self).wf() && final(self).room()
                == old(self).room(),
            final(self)@ == fd_set_members(final(elements)@),
    {
        self.elements.as_mut_slice()
    }
}

} // verus!
