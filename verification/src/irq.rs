//! The interrupt router and the interrupt-masking critical section.
//!
//! The interrupt controller exposes an 8-bit "basic" (core-private) pending
//! bank and two 32-bit peripheral pending banks. [`IrqManager`] owns one
//! handler table per domain, decodes pending bitmasks into ascending source
//! order, and dispatches each pending source to its registered handler. A
//! pending source without a handler, or a handler reporting failure, is a
//! typed fatal error: the caller halts rather than silently dropping the
//! interrupt.
//!
//! On a single active core, mutual exclusion between foreground code and
//! handlers is interrupt masking, not a lock: [`exec_with_irq_masked`] runs
//! a computation with interrupt delivery masked and restores the prior mask
//! state on exit, so nesting is preserved.

use vstd::prelude::*;

use aarch64_cpu::registers::DAIF;
use tock_registers::interfaces::ReadWriteable;
use tock_registers::interfaces::Readable;
use tock_registers::interfaces::Writeable;

use crate::errors::Errcode;

verus! {

/// Relies on `aarch64_cpu::registers::DAIF.get`: reads the processor's
/// exception mask bits. The value is machine state; nothing is assumed of
/// it.
#[verifier::external_body]
fn daif_read() -> u64 {
    DAIF.get()
}

/// Relies on `aarch64_cpu::registers::DAIF.set`: writes the processor's
/// exception mask bits.
#[verifier::external_body]
fn daif_write(flags: u64) {
    DAIF.set(flags);
}

/// Relies on `aarch64_cpu::registers::DAIF.modify`: sets the IRQ mask bit,
/// so interrupt delivery stops until it is cleared.
#[verifier::external_body]
fn daif_set_irq_mask() {
    DAIF.modify(DAIF::I::Masked);
}

/// Relies on `aarch64_cpu::registers::DAIF.modify`: clears the IRQ mask
/// bit, so pending interrupts can be delivered again.
#[verifier::external_body]
fn daif_clear_irq_mask() {
    DAIF.modify(DAIF::I::Unmasked);
}

/// Unmasks interrupt delivery on the local core.
pub fn local_irq_unmask() {
    daif_clear_irq_mask();
}

/// Masks interrupt delivery on the local core.
pub fn local_irq_mask() {
    daif_set_irq_mask();
}

/// Masks interrupt delivery and returns the prior mask state, to be handed
/// to [`local_irq_restore`].
pub fn local_irq_mask_save() -> u64 {
    let saved: u64 = daif_read();
    daif_set_irq_mask();
    saved
}

/// Restores a mask state saved by [`local_irq_mask_save`]. Restoring (not
/// unconditionally re-enabling) keeps nested critical sections correct.
pub fn local_irq_restore(saved: u64) {
    daif_write(saved);
}

/// Runs `f` with interrupt delivery masked, restoring the prior mask state
/// afterwards. On a single active core this is the critical-section
/// primitive: no handler can observe the shared state half-written while
/// `f` runs.
pub fn exec_with_irq_masked<T, F: FnOnce() -> T>(f: F) -> (r: T)
    requires
        f.requires(()),
    ensures
        f.ensures((), r),
{
    let saved: u64 = local_irq_mask_save();
    let ret: T = f();
    local_irq_restore(saved);
    ret
}

/// The capability every registered interrupt handler implements: service
/// the current pending condition and report success or a descriptive
/// failure.
pub trait IrqHandler {
    /// The handler's own well-formedness, established at registration and
    /// preserved across servicing.
    spec fn inv(&self) -> bool;

    /// Services the handler's pending condition.
    fn handle(&mut self) -> (r: Result<(), &'static str>)
        requires
            old(self).inv(),
        ensures
            final(self).inv(),
    ;
}

/// An interrupt source: a small integer in one of the controller's two
/// domains — core-private ("basic") or shared peripheral.
#[derive(Clone, Copy, Debug, PartialEq, Eq, Structural)]
pub enum IrqNumber {
    Basic(usize),
    Peripheral(usize),
}

/// A registered (source, handler) association.
pub struct IrqHandlerDescriptor<H> {
    pub handler: H,
}

/// Bit `i` of `mask` is set.
pub open spec fn bit_set(mask: u64, i: u64) -> bool {
    i < 64 && (mask >> i) & 1u64 == 1u64
}

/// An iterator-like decoder over a pending-interrupt bitmask: each step
/// yields the lowest set bit as the next pending source id and clears it,
/// so sources come out in ascending numeric order.
pub struct PendingIRQs {
    pub bitmask: u64,
}

impl PendingIRQs {
    /// Wraps a pending bitmask.
    pub fn new(bitmask: u64) -> (s: Self)
        ensures
            s.bitmask == bitmask,
    {
        Self { bitmask }
    }

    /// The next pending source id: the lowest set bit, which is cleared.
    /// `None` once no bit remains.
    pub fn next(&mut self) -> (r: Option<usize>)
        ensures
            old(self).bitmask == 0 ==> r is None && final(self).bitmask == 0,
            old(self).bitmask != 0 ==> (r matches Some(i) && i < 64 && bit_set(
                old(self).bitmask,
                i as u64,
            ) && (forall|j: u64| j < i ==> !bit_set(old(self).bitmask, j)) && (forall|j: u64|
                #![auto]
                bit_set(final(self).bitmask, j) <==> (bit_set(old(self).bitmask, j) && j != i)) && (
            final(self).bitmask < old(self).bitmask)),
    {
        if self.bitmask == 0 {
            return None;
        }
        let ghost m: u64 = self.bitmask;
        let mut i: u64 = 0;
        proof {
            assert(m >> 0u64 == m) by (bit_vector);
        }
        while (self.bitmask >> i) & 1 == 0
            invariant
                i < 64,
                self.bitmask == m,
                m != 0,
                m >> i != 0,
                forall|j: u64| j < i ==> !bit_set(m, j),
            decreases 64 - i,
        {
            proof {
                let ii = i;
                assert((m >> ii) != 0 && (m >> ii) & 1 == 0 && ii < 64 ==> ii < 63) by (bit_vector);
                assert(ii < 63 && (m >> ii) != 0 && (m >> ii) & 1 == 0 ==> (m >> (ii + 1)) != 0)
                    by (bit_vector);
                assert forall|j: u64| j < i + 1 implies !bit_set(m, j) by {
                    if j < i {
                    } else {
                        assert(j == i);
                    }
                }
            }
            i = i + 1;
        }
        let ghost iv: u64 = i;
        proof {
            assert((m >> iv) & 1 != 0 ==> (m >> iv) & 1 == 1) by (bit_vector);
            assert(bit_set(m, iv));
        }
        self.bitmask = self.bitmask & !(1u64 << i);
        proof {
            let m2 = self.bitmask;
            assert forall|j: u64| #![auto]
                bit_set(m2, j) <==> (bit_set(m, j) && j != iv) by {
                if j < 64 {
                    assert(iv < 64 && j < 64 && m2 == m & !(1u64 << iv) ==> ((m2 >> j) & 1u64) == (
                    if j == iv {
                        0u64
                    } else {
                        (m >> j) & 1u64
                    })) by (bit_vector);
                }
            }
            assert(iv < 64 && (m >> iv) & 1 == 1 ==> (m & !(1u64 << iv)) < m) by (bit_vector);
        }
        Some(i as usize)
    }
}

/// Decodes a pending bitmask into the ascending list of set bit indexes:
/// the order in which pending sources are dispatched. Every set bit appears
/// exactly once.
pub fn pending_ids(mask: u64) -> (ids: Vec<usize>)
    ensures
        forall|k: int| 0 <= k < ids@.len() ==> #[trigger] ids@[k] < 64 && bit_set(
            mask,
            ids@[k] as u64,
        ),
        forall|k1: int, k2: int| 0 <= k1 < k2 < ids@.len() ==> ids@[k1] < ids@[k2],
        forall|j: u64| bit_set(mask, j) ==> ids@.contains(j as usize),
{
    let mut pending = PendingIRQs::new(mask);
    let mut ids: Vec<usize> = Vec::new();
    loop
        invariant
            forall|j: u64| #![auto]
                bit_set(pending.bitmask, j) <==> (bit_set(mask, j) && !ids@.contains(j as usize)),
            forall|k: int| 0 <= k < ids@.len() ==> #[trigger] ids@[k] < 64 && bit_set(
                mask,
                ids@[k] as u64,
            ),
            forall|k1: int, k2: int| 0 <= k1 < k2 < ids@.len() ==> ids@[k1] < ids@[k2],
            forall|j: u64, k: int|
                #[trigger] bit_set(pending.bitmask, j) && 0 <= k < ids@.len() ==> #[trigger] ids@[k]
                    < j,
        ensures
            pending.bitmask == 0,
            forall|j: u64| #![auto] bit_set(mask, j) ==> ids@.contains(j as usize),
            forall|k: int| 0 <= k < ids@.len() ==> #[trigger] ids@[k] < 64 && bit_set(
                mask,
                ids@[k] as u64,
            ),
            forall|k1: int, k2: int| 0 <= k1 < k2 < ids@.len() ==> ids@[k1] < ids@[k2],
        decreases pending.bitmask,
    {
        let ghost prev = ids@;
        match pending.next() {
            None => {
                proof {
                    assert forall|j: u64| !bit_set(pending.bitmask, j) by {
                        assert((0u64 >> j) & 1u64 == 0u64) by (bit_vector);
                    }
                }
                break ;
            },
            Some(i) => {
                ids.push(i);
                proof {
                    assert(forall|x: usize|
                        ids@.contains(x) <==> (prev.contains(x) || x == i)) by {
                        assert(forall|k: int|
                            0 <= k < prev.len() ==> ids@[k] == #[trigger] prev[k]);
                        assert(ids@[prev.len() as int] == i);
                        assert forall|x: usize| #![auto] ids@.contains(x) implies (prev.contains(x)
                            || x == i) by {
                            let k = choose|k: int| 0 <= k < ids@.len() && ids@[k] == x;
                            if k < prev.len() {
                                assert(prev[k] == x);
                            }
                        }
                    }
                }
            },
        }
    }
    ids
}

/// In `t`, some entry's source id equals `id`.
pub open spec fn has_handler<H>(t: Seq<(usize, H)>, id: usize) -> bool {
    exists|j: int| 0 <= j < t.len() && (#[trigger] t[j]).0 == id
}

/// Every source pending in `mask` has a handler in `t`.
pub open spec fn all_handled<H>(t: Seq<(usize, H)>, mask: u64) -> bool {
    forall|j: u64| bit_set(mask, j) ==> has_handler(t, j as usize)
}

/// No two entries of a handler table share a source id.
pub open spec fn table_keys_unique<H>(t: Seq<(usize, H)>) -> bool {
    forall|a: int, b: int| 0 <= a < b < t.len() ==> (#[trigger] t[a]).0 != (#[trigger] t[b]).0
}

/// Every handler in the table satisfies its own invariant.
pub open spec fn table_handlers_inv<H: IrqHandler>(t: Seq<(usize, H)>) -> bool {
    forall|a: int| 0 <= a < t.len() ==> (#[trigger] t[a]).1.inv()
}

/// `new_t` is `old_t` with the handler for `id` set to `h`: the new
/// association is present, and every association for another id is kept
/// exactly — replace semantics on re-registration.
pub open spec fn table_replaced<H>(
    old_t: Seq<(usize, H)>,
    new_t: Seq<(usize, H)>,
    id: usize,
    h: H,
) -> bool {
    &&& exists|j: int| 0 <= j < new_t.len() && #[trigger] new_t[j] == (id, h)
    &&& forall|j: int|
        0 <= j < new_t.len() && (#[trigger] new_t[j]).0 != id ==> old_t.contains(new_t[j])
    &&& forall|j: int|
        0 <= j < old_t.len() && (#[trigger] old_t[j]).0 != id ==> new_t.contains(old_t[j])
}

/// Positionally equal source ids: servicing replaces handler values only,
/// never the set of registrations.
pub open spec fn same_keys<H>(a: Seq<(usize, H)>, b: Seq<(usize, H)>) -> bool {
    a.len() == b.len() && forall|j: int|
        0 <= j < a.len() ==> (#[trigger] a[j]).0 == (#[trigger] b[j]).0
}

/// The basic pending bank with the peripheral-indicator bit (bit 8)
/// cleared: that bit only mirrors the peripheral banks.
pub open spec fn spec_basic_mask(basic_pending: u32) -> u64 {
    (basic_pending & !(1u32 << 8)) as u64
}

/// The two 32-bit peripheral pending banks joined into one 64-bit mask:
/// sources 0–31 in the low word, 32–63 in the high word.
pub open spec fn spec_periph_mask(pending_1: u32, pending_2: u32) -> u64 {
    ((pending_2 as u64) << 32u64) | (pending_1 as u64)
}

/// One write to an interrupt-controller enable register: which bank, and
/// the bit-exact value to store.
#[derive(Clone, Copy, Debug, PartialEq, Eq, Structural)]
pub enum EnableWrite {
    /// The 8-bit basic (core-private) enable bank.
    Basic(u32),
    /// The peripheral enable bank for sources 0–31.
    Periph1(u32),
    /// The peripheral enable bank for sources 32–63.
    Periph2(u32),
}

/// Sets the handler for `id` in an association table, replacing a prior
/// registration for the same id and keeping every other association.
fn table_insert<H: IrqHandler>(table: &mut Vec<(usize, H)>, id: usize, handler: H)
    requires
        table_keys_unique(old(table)@),
        table_handlers_inv(old(table)@),
        handler.inv(),
    ensures
        table_keys_unique(final(table)@),
        table_handlers_inv(final(table)@),
        table_replaced(old(table)@, final(table)@, id, handler),
{
    let ghost t0 = table@;
    let mut j: usize = 0;
    while j < table.len()
        invariant
            table@ == t0,
            j <= t0.len(),
            forall|a: int| 0 <= a < j ==> (#[trigger] t0[a]).0 != id,
        ensures
            table@ == t0,
            j <= t0.len(),
            forall|a: int| 0 <= a < j ==> (#[trigger] t0[a]).0 != id,
            j < t0.len() ==> t0[j as int].0 == id,
        decreases t0.len() - j,
    {
        if table[j].0 == id {
            break ;
        }
        j = j + 1;
    }
    if j < table.len() {
        let _ = table.remove(j);
        table.insert(j, (id, handler));
        let ghost t1 = table@;
        proof {
            assert(t1 =~= t0.update(j as int, (id, handler)));
            assert(t1[j as int] == (id, handler));
            assert forall|k: int|
                0 <= k < t1.len() && (#[trigger] t1[k]).0 != id implies t0.contains(t1[k]) by {
                assert(t1[k] == t0[k]);
            }
            assert forall|k: int|
                0 <= k < t0.len() && (#[trigger] t0[k]).0 != id implies t1.contains(t0[k]) by {
                assert(t1[k] == t0[k]);
            }
        }
    } else {
        table.push((id, handler));
        let ghost t1 = table@;
        proof {
            assert(t1[t0.len() as int] == (id, handler));
            assert(forall|a: int| 0 <= a < t0.len() ==> t1[a] == #[trigger] t0[a]);
            assert forall|k: int|
                0 <= k < t1.len() && (#[trigger] t1[k]).0 != id implies t0.contains(t1[k]) by {
                assert(k < t0.len());
                assert(t1[k] == t0[k]);
            }
            assert forall|k: int|
                0 <= k < t0.len() && (#[trigger] t0[k]).0 != id implies t1.contains(t0[k]) by {
                assert(t1[k] == t0[k]);
            }
        }
    }
}

/// Dispatches every source pending in `mask` to its handler, lowest id
/// first. A pending source with no handler is fatal: servicing stops with
/// the typed error naming it, as is a handler reporting failure.
fn dispatch_pending<H: IrqHandler>(table: &mut Vec<(usize, H)>, mask: u64, basic_domain: bool) -> (r:
    Result<(), Errcode>)
    requires
        table_keys_unique(old(table)@),
        table_handlers_inv(old(table)@),
    ensures
        same_keys(old(table)@, final(table)@),
        table_keys_unique(final(table)@),
        table_handlers_inv(final(table)@),
        mask == 0 ==> r is Ok && final(table)@ == old(table)@,
        r is Ok ==> all_handled(old(table)@, mask),
        r matches Err(e) ==> match e {
            Errcode::NoBasicHandler(n) => basic_domain && n < 64 && bit_set(mask, n as u64)
                && !has_handler(old(table)@, n),
            Errcode::NoPeriphHandler(n) => !basic_domain && n < 64 && bit_set(mask, n as u64)
                && !has_handler(old(table)@, n),
            Errcode::HandlerFailure(_) => exists|j: u64|
                #[trigger] bit_set(mask, j) && has_handler(old(table)@, j as usize),
            _ => false,
        },
{
    let ghost t0 = table@;
    let ids = pending_ids(mask);
    proof {
        if mask == 0 {
            assert forall|j: u64| !bit_set(mask, j) by {
                assert(mask == 0 ==> (mask >> j) & 1u64 == 0u64) by (bit_vector);
            }
            if ids@.len() > 0 {
                assert(bit_set(mask, ids@[0] as u64));
            }
        }
    }
    let mut idx: usize = 0;
    while idx < ids.len()
        invariant
            t0 == old(table)@,
            idx <= ids@.len(),
            ids@.len() == 0 ==> table@ == t0,
            mask == 0 ==> ids@.len() == 0,
            same_keys(t0, table@),
            table_keys_unique(table@),
            table_handlers_inv(table@),
            forall|k: int| 0 <= k < idx ==> has_handler(t0, #[trigger] ids@[k]),
            forall|k: int| 0 <= k < ids@.len() ==> #[trigger] ids@[k] < 64 && bit_set(
                mask,
                ids@[k] as u64,
            ),
            forall|j: u64| bit_set(mask, j) ==> ids@.contains(j as usize),
        decreases ids@.len() - idx,
    {
        let id: usize = ids[idx];
        let ghost tcur = table@;
        let mut j: usize = 0;
        while j < table.len()
            invariant
                table@ == tcur,
                j <= tcur.len(),
                forall|a: int| 0 <= a < j ==> (#[trigger] tcur[a]).0 != id,
            ensures
                table@ == tcur,
                j <= tcur.len(),
                forall|a: int| 0 <= a < j ==> (#[trigger] tcur[a]).0 != id,
                j < tcur.len() ==> tcur[j as int].0 == id,
            decreases tcur.len() - j,
        {
            if table[j].0 == id {
                break ;
            }
            j = j + 1;
        }
        if j == table.len() {
            proof {
                assert(!has_handler(tcur, id));
                assert forall|jj: int|
                    0 <= jj < t0.len() implies (#[trigger] t0[jj]).0 != id by {
                    assert(tcur[jj].0 == t0[jj].0);
                }
                assert(!has_handler(t0, id));
            }
            if basic_domain {
                return Err(Errcode::NoBasicHandler(id));
            } else {
                return Err(Errcode::NoPeriphHandler(id));
            }
        }
        let entry = table.remove(j);
        let key: usize = entry.0;
        let mut h: H = entry.1;
        let res = h.handle();
        table.insert(j, (key, h));
        proof {
            assert(table@ =~= tcur.update(j as int, (key, h)));
            assert(has_handler(tcur, id));
            assert forall|jj: int|
                0 <= jj < t0.len() implies (#[trigger] t0[jj]).0 == table@[jj].0 by {
                assert(tcur[jj].0 == t0[jj].0);
            }
            assert(has_handler(t0, id)) by {
                assert(tcur[j as int].0 == id);
                assert(t0[j as int].0 == id);
            }
        }
        match res {
            Ok(_) => {},
            Err(msg) => {
                proof {
                    assert(bit_set(mask, id as u64) && has_handler(t0, id));
                }
                return Err(Errcode::HandlerFailure(msg));
            },
        }
        idx = idx + 1;
    }
    proof {
        assert forall|b: u64| bit_set(mask, b) implies has_handler(t0, b as usize) by {
            assert(ids@.contains(b as usize));
            let k = choose|k: int| 0 <= k < ids@.len() && ids@[k] == b as usize;
            assert(has_handler(t0, ids@[k]));
        }
    }
    Ok(())
}

/// The interrupt router: one handler table per domain and a live model of
/// the controller's enable banks. It owns the registrations; every table
/// access from foreground code or handler context goes through the
/// interrupt-masking critical section of this module.
pub struct IrqManager<H> {
    pub basic_table: Vec<(usize, H)>,
    pub periph_table: Vec<(usize, H)>,
    pub basic_enabled: u8,
    pub periph_enabled: u64,
}

impl<H: IrqHandler> IrqManager<H> {
    /// Both tables have unique ids and well-formed handlers.
    pub open spec fn wf(&self) -> bool {
        &&& table_keys_unique(self.basic_table@)
        &&& table_handlers_inv(self.basic_table@)
        &&& table_keys_unique(self.periph_table@)
        &&& table_handlers_inv(self.periph_table@)
    }

    /// An empty router: no registrations, every source disabled.
    pub fn init() -> (m: IrqManager<H>)
        ensures
            m.wf(),
            m.basic_table@.len() == 0,
            m.periph_table@.len() == 0,
            m.basic_enabled == 0,
            m.periph_enabled == 0,
    {
        IrqManager {
            basic_table: Vec::new(),
            periph_table: Vec::new(),
            basic_enabled: 0,
            periph_enabled: 0,
        }
    }

    /// Registers `handler` for `irq_number` in the table of its domain;
    /// re-registering a source replaces the prior handler.
    pub fn register(&mut self, irq_number: IrqNumber, handler: H)
        requires
            old(self).wf(),
            handler.inv(),
        ensures
            final(self).wf(),
            final(self).basic_enabled == old(self).basic_enabled,
            final(self).periph_enabled == old(self).periph_enabled,
            match irq_number {
                IrqNumber::Basic(n) => table_replaced(
                    old(self).basic_table@,
                    final(self).basic_table@,
                    n,
                    handler,
                ) && final(self).periph_table@ == old(self).periph_table@,
                IrqNumber::Peripheral(n) => table_replaced(
                    old(self).periph_table@,
                    final(self).periph_table@,
                    n,
                    handler,
                ) && final(self).basic_table@ == old(self).basic_table@,
            },
    {
        match irq_number {
            IrqNumber::Basic(n) => table_insert(&mut self.basic_table, n, handler),
            IrqNumber::Peripheral(n) => table_insert(&mut self.periph_table, n, handler),
        }
    }

    /// Marks a source enabled in the model of the controller's enable
    /// banks and returns the bit-exact register write the caller must
    /// perform on the controller: a one-bit value into the bank of the
    /// source's domain.
    pub fn enable(&mut self, irq_number: IrqNumber) -> (w: EnableWrite)
        requires
            old(self).wf(),
            match irq_number {
                IrqNumber::Basic(n) => n < 8,
                IrqNumber::Peripheral(n) => n < 64,
            },
        ensures
            final(self).wf(),
            final(self).basic_table@ == old(self).basic_table@,
            final(self).periph_table@ == old(self).periph_table@,
            match irq_number {
                IrqNumber::Basic(n) => final(self).basic_enabled == (old(self).basic_enabled | (
                1u8 << n)) && final(self).periph_enabled == old(self).periph_enabled && w
                    == EnableWrite::Basic(1u32 << n),
                IrqNumber::Peripheral(n) => final(self).periph_enabled == (old(self).periph_enabled
                    | (1u64 << n)) && final(self).basic_enabled == old(self).basic_enabled && (n
                    < 32 ==> w == EnableWrite::Periph1(1u32 << n)) && (32 <= n ==> w
                    == EnableWrite::Periph2(1u32 << ((n - 32) as u32))),
            },
    {
        match irq_number {
            IrqNumber::Basic(n) => {
                self.basic_enabled = self.basic_enabled | (1u8 << n);
                EnableWrite::Basic(1u32 << n)
            },
            IrqNumber::Peripheral(n) => {
                self.periph_enabled = self.periph_enabled | (1u64 << (n as u64));
                if n < 32 {
                    EnableWrite::Periph1(1u32 << (n as u32))
                } else {
                    EnableWrite::Periph2(1u32 << ((n - 32) as u32))
                }
            },
        }
    }

    /// Services every pending source: all basic (core-private) sources
    /// first, then all peripheral sources, each domain in ascending id
    /// order. A pending source with no registered handler, or a handler
    /// reporting failure, stops servicing with the typed fatal error.
    pub fn handle_pending_irqs(&mut self, basic_pending: u32, pending_1: u32, pending_2: u32) -> (r:
        Result<(), Errcode>)
        requires
            old(self).wf(),
        ensures
            final(self).wf(),
            same_keys(old(self).basic_table@, final(self).basic_table@),
            same_keys(old(self).periph_table@, final(self).periph_table@),
            final(self).basic_enabled == old(self).basic_enabled,
            final(self).periph_enabled == old(self).periph_enabled,
            r is Ok ==> all_handled(old(self).basic_table@, spec_basic_mask(basic_pending))
                && all_handled(old(self).periph_table@, spec_periph_mask(pending_1, pending_2)),
            !all_handled(old(self).basic_table@, spec_basic_mask(basic_pending)) ==> r is Err,
            !all_handled(old(self).periph_table@, spec_periph_mask(pending_1, pending_2)) ==> r
                is Err,
            spec_basic_mask(basic_pending) == 0 && spec_periph_mask(pending_1, pending_2) == 0
                ==> r is Ok && final(self).basic_table@ == old(self).basic_table@
                && final(self).periph_table@ == old(self).periph_table@,
            r matches Err(e) ==> match e {
                Errcode::NoBasicHandler(n) => bit_set(spec_basic_mask(basic_pending), n as u64)
                    && !has_handler(old(self).basic_table@, n),
                Errcode::NoPeriphHandler(n) => bit_set(
                    spec_periph_mask(pending_1, pending_2),
                    n as u64,
                ) && !has_handler(old(self).periph_table@, n),
                Errcode::HandlerFailure(_) => (exists|j: u64|
                    #[trigger] bit_set(spec_basic_mask(basic_pending), j) && has_handler(
                        old(self).basic_table@,
                        j as usize,
                    )) || (exists|j: u64|
                    #[trigger] bit_set(spec_periph_mask(pending_1, pending_2), j) && has_handler(
                        old(self).periph_table@,
                        j as usize,
                    )),
                _ => false,
            },
    {
        let bmask: u64 = (basic_pending & !(1u32 << 8u32)) as u64;
        match dispatch_pending(&mut self.basic_table, bmask, true) {
            Err(e) => {
                return Err(e);
            },
            Ok(_) => {},
        }
        let pmask: u64 = ((pending_2 as u64) << 32u64) | (pending_1 as u64);
        match dispatch_pending(&mut self.periph_table, pmask, false) {
            Err(e) => {
                return Err(e);
            },
            Ok(_) => {},
        }
        Ok(())
    }
}

} // verus!
