//! Configuration slots.
//!
//! nginx keeps the configurations of its modules in arrays of pointers. Such an
//! array is known here by the address of its first slot, a module by its two
//! indexes, and looking a configuration up is address arithmetic over these.
use core::marker::PhantomData;
use vstd::prelude::*;

verus! {

broadcast use vstd::layout::layout_of_primitives;

/// The indexes that nginx gives a module: `index` among all modules, `ctx_index`
/// among the modules of its own kind.
#[derive(Clone, Copy, Debug)]
pub struct Module {
    pub ctx_index: usize,
    pub index: usize,
}

/// An array of configuration slots, each as wide as a pointer.
#[derive(Clone, Copy, Debug)]
pub struct ConfTable {
    /// The address of the first slot.
    pub base: usize,
}

/// The address of a configuration, with the type that is expected there.
pub struct ConfPtr<T> {
    addr: usize,
    target: PhantomData<T>,
}

/// The width of a slot in bytes: that of a pointer.
pub open spec fn slot_width() -> nat {
    vstd::layout::size_of::<usize>()
}

impl ConfTable {
    /// The address of slot `index`.
    pub open spec fn slot_addr(self, index: int) -> int {
        self.base + index * slot_width()
    }

    /// Slot `index` can be reached by pointer arithmetic from the first one: the
    /// distance is at most `isize::MAX` bytes and the address does not wrap. How many
    /// slots there are is for the owner of the table to know.
    pub open spec fn reaches(self, index: int) -> bool {
        &&& index * slot_width() <= isize::MAX
        &&& self.slot_addr(index) <= usize::MAX
    }

    /// Whether slot `index` can be reached by pointer arithmetic.
    pub fn can_reach(&self, index: usize) -> (res: bool)
        ensures
            res == self.reaches(index as int),
            res <==> index * (usize::BITS / 8) <= isize::MAX && self.base + index * (usize::BITS
                / 8) <= usize::MAX,
    {
        let width: usize = core::mem::size_of::<usize>();
        match index.checked_mul(width) {
            Some(distance) => distance <= isize::MAX as usize && distance <= usize::MAX - self.base,
            None => false,
        }
    }

    /// The address of slot `index`.
    pub fn slot(&self, index: usize) -> (addr: usize)
        requires
            self.reaches(index as int),
        ensures
            addr == self.slot_addr(index as int),
            addr == self.base + index * (usize::BITS / 8),
    {
        self.base + index * core::mem::size_of::<usize>()
    }
}

impl<T> ConfPtr<T> {
    /// The address pointed to.
    pub closed spec fn spec_addr(self) -> int {
        self.addr as int
    }

    /// The address pointed to.
    pub fn addr(&self) -> (addr: usize)
        ensures
            addr == self.spec_addr(),
    {
        self.addr
    }
}

/// Where the configuration of `module` lies: at slot `module.index` of the first
/// table of `conf_ctx`, whatever the type expected there. The slot is not read.
pub fn ngx_get_conf<T>(conf_ctx: &[ConfTable], module: &Module) -> (conf: ConfPtr<T>)
    requires
        conf_ctx@.len() > 0,
        conf_ctx@[0].reaches(module.index as int),
    ensures
        conf.spec_addr() == conf_ctx@[0].slot_addr(module.index as int),
        conf.spec_addr() == conf_ctx@[0].base + module.index * (usize::BITS / 8),
{
    ConfPtr { addr: conf_ctx[0].slot(module.index), target: PhantomData }
}

/// A pointer is `usize::BITS` bits wide, and so is a slot.
pub proof fn slots_are_as_wide_as_pointers()
    ensures
        8 * slot_width() == usize::BITS,
        slot_width() == usize::BITS / 8,
{
}

/// The slots lie side by side from the base on: the first one at the base, each next
/// one a pointer's width further, so that slot `a + b` lies as far from slot `a` as
/// slot `b` does from the base.
pub proof fn slots_lie_side_by_side(table: ConfTable, a: int, b: int)
    ensures
        table.slot_addr(0) == table.base,
        table.slot_addr(a + 1) == table.slot_addr(a) + usize::BITS / 8,
        table.slot_addr(a + b) - table.slot_addr(a) == table.slot_addr(b) - table.base,
        table.slot_addr(a) - table.base == a * (usize::BITS / 8),
{
    slots_are_as_wide_as_pointers();
    assert((a + 1) * slot_width() == a * slot_width() + slot_width()) by (nonlinear_arith);
    assert((a + b) * slot_width() == a * slot_width() + b * slot_width()) by (nonlinear_arith);
}

/// A slot is within reach exactly if its distance from the base is at most
/// `isize::MAX` bytes and its address fits into a `usize`.
pub proof fn reach_is_bounded_by_distance_and_address(table: ConfTable, index: int)
    ensures
        table.reaches(index) <==> index * (usize::BITS / 8) <= isize::MAX && table.base + index * (
        usize::BITS / 8) <= usize::MAX,
{
    slots_are_as_wide_as_pointers();
}

/// Two slots of one table are as many pointers apart as their indexes differ.
pub proof fn slots_of_two_calls(table: &ConfTable, i: usize, j: usize, at_i: usize, at_j: usize)
    requires
        call_ensures(ConfTable::slot, (table, i), at_i),
        call_ensures(ConfTable::slot, (table, j), at_j),
    ensures
        at_j - at_i == (j - i) * (usize::BITS / 8),
        i == 0 ==> at_i == table.base,
{
    assert((j - i) * (usize::BITS / 8) == j * (usize::BITS / 8) - i * (usize::BITS / 8))
        by (nonlinear_arith);
}

/// The configurations of two modules, looked up in one context, are as many pointers
/// apart as the modules' indexes differ, whatever types are expected there and whatever
/// the modules' other indexes are; that of the module with index 0 lies at the base of
/// the first table.
pub proof fn configurations_of_two_modules<T, U>(
    conf_ctx: &[ConfTable],
    first: &Module,
    second: &Module,
    at_first: ConfPtr<T>,
    at_second: ConfPtr<U>,
)
    requires
        call_ensures(ngx_get_conf::<T>, (conf_ctx, first), at_first),
        call_ensures(ngx_get_conf::<U>, (conf_ctx, second), at_second),
    ensures
        at_second.spec_addr() - at_first.spec_addr() == (second.index - first.index) * (usize::BITS
            / 8),
        first.index == 0 ==> at_first.spec_addr() == conf_ctx@[0].base,
{
    let (i, j) = (first.index as int, second.index as int);
    assert((j - i) * (usize::BITS / 8) == j * (usize::BITS / 8) - i * (usize::BITS / 8))
        by (nonlinear_arith);
}

/// The slots of different indexes do not overlap, and lie in the order of the indexes.
pub proof fn slots_are_disjoint(table: ConfTable, first: int, second: int)
    requires
        first < second,
    ensures
        table.slot_addr(first) + slot_width() <= table.slot_addr(second),
        table.slot_addr(first) != table.slot_addr(second),
{
    assert((first + 1) * slot_width() <= second * slot_width()) by (nonlinear_arith)
        requires
            first + 1 <= second,
    ;
    assert((first + 1) * slot_width() == first * slot_width() + slot_width())
        by (nonlinear_arith);
}

/// Each slot of a table of `len` slots can be reached, and lies between the ends of
/// the table.
pub proof fn slots_lie_in_table(table: ConfTable, len: int, index: int)
    requires
        table.reaches(len),
        0 <= index < len,
    ensures
        table.reaches(index),
        table.base <= table.slot_addr(index),
        table.slot_addr(index) + slot_width() <= table.slot_addr(len),
{
    slots_are_disjoint(table, index, len);
    assert(0 <= index * slot_width()) by (nonlinear_arith)
        requires
            0 <= index,
    ;
}

/// The slots of a table that is aligned to the width of a pointer are aligned to it.
pub proof fn slots_are_aligned(table: ConfTable, index: int)
    requires
        table.base as int % slot_width() as int == 0,
    ensures
        table.slot_addr(index) % slot_width() as int == 0,
{
    vstd::arithmetic::div_mod::lemma_mod_multiples_vanish(
        index,
        table.base as int,
        slot_width() as int,
    );
    assert(slot_width() * index == index * slot_width()) by (nonlinear_arith);
}

/// A module that has not been given an index yet holds `usize::MAX` there, and no
/// table reaches a slot of that index.
pub proof fn unset_index_has_no_slot(table: ConfTable)
    ensures
        !table.reaches(usize::MAX as int),
{
    assert(usize::MAX * slot_width() >= usize::MAX) by (nonlinear_arith)
        requires
            slot_width() >= 1,
    ;
}

} // verus!
