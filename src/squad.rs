//! Military squads: name, members and the orders they follow.

use vstd::prelude::*;
use crate::layout::{MemoryOffsets, OffsetSection};
use crate::memory::{ProcessMemory, POINTER_SIZE};
use crate::text::{read_string, string_at};

verus! {

/// The kind of a squad order, classified from the order object's tag.
#[derive(PartialEq, Eq, Structural, Clone, Copy, Debug)]
pub enum SquadOrderType {
    NoOrder,
    Move,
    Kill,
    Defend,
    Patrol,
    Train,
}

pub open spec fn order_of(v: int) -> SquadOrderType {
    if v == 0 {
        SquadOrderType::Move
    } else if v == 1 {
        SquadOrderType::Kill
    } else if v == 2 {
        SquadOrderType::Defend
    } else if v == 3 {
        SquadOrderType::Patrol
    } else if v == 4 {
        SquadOrderType::Train
    } else {
        SquadOrderType::NoOrder
    }
}

impl SquadOrderType {
    pub fn from_i32(value: i32) -> (r: SquadOrderType)
        ensures
            r == order_of(value as int),
    {
        match value {
            0 => SquadOrderType::Move,
            1 => SquadOrderType::Kill,
            2 => SquadOrderType::Defend,
            3 => SquadOrderType::Patrol,
            4 => SquadOrderType::Train,
            _ => SquadOrderType::NoOrder,
        }
    }
}

/// The value paired with the first occurrence of `k` among `pairs[i..]`.
pub open spec fn assoc_from<V>(pairs: Seq<(i32, V)>, i: int, k: i32) -> Option<V>
    decreases pairs.len() - i,
{
    if i < 0 || i >= pairs.len() {
        None
    } else if pairs[i].0 == k {
        Some(pairs[i].1)
    } else {
        assoc_from(pairs, i + 1, k)
    }
}

pub open spec fn assoc<V>(pairs: Seq<(i32, V)>, k: i32) -> Option<V> {
    assoc_from(pairs, 0, k)
}

proof fn lemma_assoc_update<V>(pairs: Seq<(i32, V)>, i: int, j: int, k: i32, v: V, q: i32)
    requires
        0 <= j < pairs.len(),
        0 <= i <= j,
        pairs[j].0 == k,
        forall|m: int| i <= m < j ==> pairs[m].0 != k,
    ensures
        assoc_from(pairs.update(j, (k, v)), i, q) == if q == k {
            Some(v)
        } else {
            assoc_from(pairs, i, q)
        },
    decreases j - i,
{
    let u = pairs.update(j, (k, v));
    if i < j {
        lemma_assoc_update(pairs, i + 1, j, k, v, q);
        assert(u[i] == pairs[i]);
    } else {
        lemma_assoc_same(u, pairs, j + 1, q);
    }
}

proof fn lemma_assoc_same<V>(a: Seq<(i32, V)>, b: Seq<(i32, V)>, i: int, q: i32)
    requires
        a.len() == b.len(),
        0 <= i,
        forall|m: int| i <= m < a.len() ==> a[m] == b[m],
    ensures
        assoc_from(a, i, q) == assoc_from(b, i, q),
    decreases a.len() - i,
{
    if i < a.len() {
        lemma_assoc_same(a, b, i + 1, q);
    }
}

proof fn lemma_assoc_push<V>(pairs: Seq<(i32, V)>, i: int, k: i32, v: V, q: i32)
    requires
        0 <= i <= pairs.len(),
        forall|m: int| i <= m < pairs.len() ==> pairs[m].0 != k,
    ensures
        assoc_from(pairs.push((k, v)), i, q) == if q == k && assoc_from(pairs, i, q) is None {
            Some(v)
        } else {
            assoc_from(pairs, i, q)
        },
    decreases pairs.len() - i,
{
    let p = pairs.push((k, v));
    if i < pairs.len() {
        lemma_assoc_push(pairs, i + 1, k, v, q);
        assert(p[i] == pairs[i]);
    } else {
        assert(p[i] == (k, v));
        assert(assoc_from(p, i + 1, q) is None);
        assert(assoc_from(pairs, i, q) is None);
    }
}

/// Makes `v` the value of `k`, keeping every other key's value.
pub fn put_order(pairs: &mut Vec<(i32, SquadOrderType)>, k: i32, v: SquadOrderType)
    ensures
        forall|q: i32| assoc(final(pairs)@, q) == if q == k { Some(v) } else { assoc(old(pairs)@, q) },
{
    let mut i: usize = 0;
    while i < pairs.len()
        invariant
            i <= pairs@.len(),
            pairs@ == old(pairs)@,
            forall|m: int| 0 <= m < i ==> (#[trigger] pairs@[m]).0 != k,
        decreases pairs@.len() - i,
    {
        if pairs[i].0 == k {
            let ghost before = pairs@;
            pairs.set(i, (k, v));
            proof {
                assert forall|q: i32| assoc(pairs@, q) == if q == k { Some(v) } else { assoc(before, q) } by {
                    lemma_assoc_update(before, 0, i as int, k, v, q);
                    assert(before.update(i as int, (k, v)) == pairs@);
                }
            }
            return;
        }
        i = i + 1;
    }
    let ghost before = pairs@;
    pairs.push((k, v));
    proof {
        assert forall|q: i32| assoc(pairs@, q) == if q == k { Some(v) } else { assoc(before, q) } by {
            lemma_assoc_push(before, 0, k, v, q);
            if q == k {
                lemma_assoc_absent(before, 0, k);
            }
        }
    }
}

proof fn lemma_assoc_absent<V>(pairs: Seq<(i32, V)>, i: int, k: i32)
    requires
        0 <= i <= pairs.len(),
        forall|m: int| i <= m < pairs.len() ==> (#[trigger] pairs[m]).0 != k,
    ensures
        assoc_from(pairs, i, k) is None,
    decreases pairs.len() - i,
{
    if i < pairs.len() {
        lemma_assoc_absent(pairs, i + 1, k);
    }
}

/// The display name of a squad: its alias when it has one.
pub open spec fn squad_name(name: Seq<char>, alias: Seq<char>) -> Seq<char> {
    if alias.len() == 0 { name } else { alias }
}

/// The historical figure in a member slot, at the start of the slot's record.
pub open spec fn member_id(mem: &ProcessMemory, slot: int) -> int {
    mem.i32_at(slot)
}

/// Address of the word that holds the kind of the order object at `o`,
/// reached through the object's vtable.
pub open spec fn order_tag_addr(mem: &ProcessMemory, o: int) -> int {
    mem.u64_at(mem.u64_at(o) * 3 + POINTER_SIZE + 1)
}

/// The kind of the order object at `o`; a negative tag, or a tag address
/// out of range, is no order.
pub open spec fn order_kind(mem: &ProcessMemory, o: int) -> SquadOrderType {
    let vt = mem.u64_at(o);
    if vt * 3 + POINTER_SIZE + 1 > u64::MAX {
        SquadOrderType::NoOrder
    } else {
        let tag = mem.i32_at(order_tag_addr(mem, o));
        if tag >= 0 { order_of(tag) } else { SquadOrderType::NoOrder }
    }
}

/// The squad-wide order after applying, in turn, the order objects `objs`,
/// each addressed to the figure whose id is `hf_off` bytes into it.
pub open spec fn wide_after(mem: &ProcessMemory, objs: Seq<u64>, hf_off: int, start: SquadOrderType) -> SquadOrderType
    decreases objs.len(),
{
    if objs.len() == 0 {
        start
    } else {
        let prev = wide_after(mem, objs.drop_last(), hf_off, start);
        let o = objs.last() as int;
        let k = order_kind(mem, o);
        if k != SquadOrderType::Train && mem.i32_at(o + hf_off) < 0 { k } else { prev }
    }
}

/// The order of figure `q` after applying, in turn, the order objects `objs`.
pub open spec fn figure_after(mem: &ProcessMemory, objs: Seq<u64>, hf_off: int, q: i32, start: Option<SquadOrderType>) -> Option<SquadOrderType>
    decreases objs.len(),
{
    if objs.len() == 0 {
        start
    } else {
        let prev = figure_after(mem, objs.drop_last(), hf_off, q, start);
        let o = objs.last() as int;
        let k = order_kind(mem, o);
        if k != SquadOrderType::Train && q >= 0 && mem.i32_at(o + hf_off) == q { Some(k) } else { prev }
    }
}

/// The figure in member slot `pos`, or -1 for an empty slot.
pub open spec fn member_of(members: Seq<(i32, i32)>, pos: int) -> i32 {
    match assoc(members, pos as i32) {
        Some(h) => h,
        None => -1i32,
    }
}

/// The order object that the assignment in slot `pos` selects, where its
/// order id is within the routine's orders.
pub open spec fn slot_order(mem: &ProcessMemory, orders_hdr: int, assigned_hdr: int, pos: int) -> Option<int> {
    let oid = mem.i32_at(mem.vec_ptr(assigned_hdr, pos));
    if 0 <= oid < mem.vec_len(orders_hdr, POINTER_SIZE as int) {
        Some(mem.u64_at(mem.vec_ptr(orders_hdr, oid)))
    } else {
        None
    }
}

/// The squad-wide order after the first `n` slots of a routine.
pub open spec fn sched_wide(mem: &ProcessMemory, oh: int, ah: int, members: Seq<(i32, i32)>, n: int, w0: SquadOrderType) -> SquadOrderType
    decreases n,
{
    if n <= 0 {
        w0
    } else {
        let w = sched_wide(mem, oh, ah, members, n - 1, w0);
        if w != SquadOrderType::NoOrder {
            w
        } else {
            match slot_order(mem, oh, ah, n - 1) {
                Some(o) => {
                    let k = order_kind(mem, o);
                    if k != SquadOrderType::Train && member_of(members, n - 1) < 0 { k } else { w }
                },
                None => w,
            }
        }
    }
}

/// The order of figure `q` after the first `n` slots of a routine: while no
/// squad-wide order stands, each slot's member takes the kind of its
/// assigned order object; once one stands, each slot's member takes it.
pub open spec fn sched_figure(
    mem: &ProcessMemory,
    oh: int,
    ah: int,
    members: Seq<(i32, i32)>,
    n: int,
    q: i32,
    w0: SquadOrderType,
    f0: Option<SquadOrderType>,
) -> Option<SquadOrderType>
    decreases n,
{
    if n <= 0 {
        f0
    } else {
        let prev = sched_figure(mem, oh, ah, members, n - 1, q, w0, f0);
        let w = sched_wide(mem, oh, ah, members, n - 1, w0);
        let hf = member_of(members, n - 1);
        if w != SquadOrderType::NoOrder {
            if hf == q { Some(w) } else { prev }
        } else {
            match slot_order(mem, oh, ah, n - 1) {
                Some(o) => {
                    let k = order_kind(mem, o);
                    if k != SquadOrderType::Train && hf >= 0 && hf == q { Some(k) } else { prev }
                },
                None => prev,
            }
        }
    }
}

/// Address of the month's block of the routine that the alert selects.
pub open spec fn sched_block(mem: &ProcessMemory, layout: &MemoryOffsets, addr: int, month: int) -> int {
    let idx = mem.i32_at(addr + layout.off(OffsetSection::Squad, "alert"@));
    mem.vec_ptr(addr + layout.off(OffsetSection::Squad, "schedule"@), idx) + layout.off(OffsetSection::Squad, "sched_size"@) * month
}

pub struct Squad {
    pub id: i32,
    pub addr: u64,
    pub name: String,
    /// Member slot, and the historical figure that holds it.
    pub members: Vec<(i32, i32)>,
    /// Historical figure, and the order that figure follows.
    pub orders: Vec<(i32, SquadOrderType)>,
    pub squad_order: SquadOrderType,
}

impl Squad {
    pub open spec fn off(layout: &MemoryOffsets, f: Seq<char>) -> int {
        layout.off(OffsetSection::Squad, f) as int
    }

    /// The kind of the order object at `addr`.
    pub fn order_type(mem: &ProcessMemory, addr: u64) -> (r: SquadOrderType)
        ensures
            r == order_kind(mem, addr as int),
    {
        let vtable = mem.read_u64(addr, 0);
        let tag_ptr = match vtable.checked_mul(3) {
            Some(v) => v.checked_add(POINTER_SIZE + 1),
            None => None,
        };
        match tag_ptr {
            Some(p) => {
                let raw_type_addr = mem.read_u64(p, 0);
                let raw_type = mem.read_i32(raw_type_addr, 0);
                if raw_type >= 0 {
                    SquadOrderType::from_i32(raw_type)
                } else {
                    SquadOrderType::NoOrder
                }
            },
            None => SquadOrderType::NoOrder,
        }
    }

    /// Applies the order object at `addr`: training is ignored, an order for
    /// a figure is recorded for that figure, any other is squad-wide.
    pub fn read_order(&mut self, mem: &ProcessMemory, addr: u64, histfig_id: i32)
        ensures
            final(self).id == old(self).id,
            final(self).addr == old(self).addr,
            final(self).name == old(self).name,
            final(self).members == old(self).members,
            order_kind(mem, addr as int) == SquadOrderType::Train ==> final(self).orders == old(self).orders
                && final(self).squad_order == old(self).squad_order,
            order_kind(mem, addr as int) != SquadOrderType::Train && histfig_id >= 0 ==> final(self).squad_order == old(self).squad_order
                && forall|q: i32| assoc(final(self).orders@, q) == if q == histfig_id { Some(order_kind(mem, addr as int)) } else { assoc(old(self).orders@, q) },
            order_kind(mem, addr as int) != SquadOrderType::Train && histfig_id < 0 ==> final(self).orders == old(self).orders
                && final(self).squad_order == order_kind(mem, addr as int),
    {
        let t = Self::order_type(mem, addr);
        if t == SquadOrderType::Train {
            return;
        }
        if histfig_id >= 0 {
            put_order(&mut self.orders, histfig_id, t);
        } else {
            self.squad_order = t;
        }
    }

    /// The display name: the alias when it is set, else the name.
    pub fn read_name(&mut self, mem: &ProcessMemory, layout: &MemoryOffsets)
        ensures
            final(self).id == old(self).id,
            final(self).addr == old(self).addr,
            final(self).members == old(self).members,
            final(self).orders == old(self).orders,
            final(self).squad_order == old(self).squad_order,
            final(self).name@ == squad_name(
                string_at(mem, old(self).addr + Self::off(layout, "name"@)),
                string_at(mem, old(self).addr + Self::off(layout, "alias"@)),
            ),
    {
        let name = read_string(mem, self.addr, layout.field_offset(OffsetSection::Squad, "name"));
        let alias = read_string(mem, self.addr, layout.field_offset(OffsetSection::Squad, "alias"));
        if alias.as_str().unicode_len() == 0 {
            self.name = name;
        } else {
            self.name = alias;
        }
    }

    /// Fills the member slots: slot `i` is held by the figure whose id
    /// begins the slot's record, and a slot with a negative id is empty.
    pub fn read_members(&mut self, mem: &ProcessMemory, layout: &MemoryOffsets)
        ensures
            final(self).id == old(self).id,
            final(self).addr == old(self).addr,
            final(self).name == old(self).name,
            final(self).orders == old(self).orders,
            final(self).squad_order == old(self).squad_order,
            forall|k: int| 0 <= k < final(self).members@.len() ==> {
                let (slot, hf) = #[trigger] final(self).members@[k];
                &&& 0 <= slot < mem.vec_len(old(self).addr + Self::off(layout, "members"@), POINTER_SIZE as int)
                &&& hf as int == member_id(mem, mem.vec_ptr(old(self).addr + Self::off(layout, "members"@), slot as int))
                &&& hf >= 0
            },
            forall|k: int, m: int| 0 <= k < m < final(self).members@.len() ==> (#[trigger] final(self).members@[k]).0 < (#[trigger] final(self).members@[m]).0,
            forall|s: i32| 0 <= s < mem.vec_len(old(self).addr + Self::off(layout, "members"@), POINTER_SIZE as int) && s < 0x7fff_ffff
                && member_id(mem, mem.vec_ptr(old(self).addr + Self::off(layout, "members"@), s as int)) >= 0
                ==> #[trigger] assoc(final(self).members@, s) == Some(member_id(mem, mem.vec_ptr(old(self).addr + Self::off(layout, "members"@), s as int)) as i32),
    {
        let off = layout.field_offset(OffsetSection::Squad, "members");
        let slots = mem.read_pointer_vector(self.addr, off);
        let mut members: Vec<(i32, i32)> = Vec::new();
        let mut i: usize = 0;
        while i < slots.len() && i < 0x7fff_ffff
            invariant
                i <= slots@.len(),
                slots@.len() == mem.vec_len(self.addr + off, POINTER_SIZE as int),
                forall|k: int| 0 <= k < slots@.len() ==> (#[trigger] slots@[k]) as int == mem.vec_ptr(self.addr + off, k),
                forall|k: int| 0 <= k < members@.len() ==> {
                    let (slot, hf) = #[trigger] members@[k];
                    &&& 0 <= slot < i
                    &&& hf as int == member_id(mem, mem.vec_ptr(self.addr + off, slot as int))
                    &&& hf >= 0
                },
                forall|k: int, m: int| 0 <= k < m < members@.len() ==> (#[trigger] members@[k]).0 < (#[trigger] members@[m]).0,
                forall|s: i32| 0 <= s < i && member_id(mem, mem.vec_ptr(self.addr + off, s as int)) >= 0
                    ==> #[trigger] assoc(members@, s) == Some(member_id(mem, mem.vec_ptr(self.addr + off, s as int)) as i32),
            decreases slots@.len() - i,
        {
            let hf = mem.read_i32(slots[i], 0);
            if hf >= 0 {
                let ghost before = members@;
                members.push((i as i32, hf));
                proof {
                    assert forall|m: int| 0 <= m < before.len() implies (#[trigger] before[m]).0 != i as i32 by {}
                    assert forall|q: i32| #[trigger] assoc(members@, q) == if q == i as i32 && assoc(before, q) is None { Some(hf) } else { assoc(before, q) } by {
                        lemma_assoc_push(before, 0, i as i32, hf, q);
                    }
                    lemma_assoc_absent(before, 0, i as i32);
                }
            }
            i = i + 1;
        }
        self.members = members;
    }

    /// The figure in member slot `slot`, or -1 for an empty slot.
    pub fn member_in_slot(&self, slot: i32) -> (r: i32)
        ensures
            assoc(self.members@, slot) matches Some(h) ==> r == h,
            assoc(self.members@, slot) is None ==> r == -1,
    {
        let mut i: usize = 0;
        while i < self.members.len()
            invariant
                i <= self.members@.len(),
                assoc(self.members@, slot) == assoc_from(self.members@, i as int, slot),
            decreases self.members@.len() - i,
        {
            if self.members[i].0 == slot {
                return self.members[i].1;
            }
            i = i + 1;
        }
        -1
    }

    /// Applies each current order, in turn: one addressed to a figure is
    /// that figure's, any other is squad-wide; training is ignored.
    pub fn read_current_orders(&mut self, mem: &ProcessMemory, layout: &MemoryOffsets)
        ensures
            final(self).id == old(self).id,
            final(self).addr == old(self).addr,
            final(self).name == old(self).name,
            final(self).members == old(self).members,
            ({
                let a = old(self).addr + Self::off(layout, "orders"@);
                let objs = Seq::new(mem.vec_len(a, POINTER_SIZE as int) as nat, |k: int| mem.vec_ptr(a, k) as u64);
                let hf_off = Self::off(layout, "histfig_id"@);
                &&& final(self).squad_order == wide_after(mem, objs, hf_off, old(self).squad_order)
                &&& forall|q: i32| #[trigger] assoc(final(self).orders@, q) == figure_after(mem, objs, hf_off, q, assoc(old(self).orders@, q))
            }),
    {
        let off = layout.field_offset(OffsetSection::Squad, "orders");
        let orders = mem.read_pointer_vector(self.addr, off);
        let hf_off = layout.field_offset(OffsetSection::Squad, "histfig_id");
        let ghost objs = Seq::new(mem.vec_len(self.addr + off, POINTER_SIZE as int) as nat, |k: int| mem.vec_ptr(self.addr + off, k) as u64);
        assert(orders@ =~= objs);
        let mut i: usize = 0;
        while i < orders.len()
            invariant
                i <= orders@.len(),
                orders@ == objs,
                hf_off == layout.off(OffsetSection::Squad, "histfig_id"@),
                self.id == old(self).id,
                self.addr == old(self).addr,
                self.name == old(self).name,
                self.members == old(self).members,
                self.squad_order == wide_after(mem, objs.subrange(0, i as int), hf_off as int, old(self).squad_order),
                forall|q: i32| #[trigger] assoc(self.orders@, q) == figure_after(mem, objs.subrange(0, i as int), hf_off as int, q, assoc(old(self).orders@, q)),
            decreases orders@.len() - i,
        {
            proof {
                let p = objs.subrange(0, i as int + 1);
                assert(p.drop_last() =~= objs.subrange(0, i as int));
                assert(p.last() == orders@[i as int]);
            }
            let hf = mem.read_i32(orders[i], hf_off);
            self.read_order(mem, orders[i], hf);
            i = i + 1;
        }
        assert(objs.subrange(0, i as int) =~= objs);
    }

    /// Applies the scheduled orders of the current month of the routine
    /// that the squad's alert selects. Without a squad-wide order each
    /// member follows the order assigned to its slot; with one, each member
    /// follows the squad-wide order.
    pub fn read_scheduled_orders(&mut self, mem: &ProcessMemory, layout: &MemoryOffsets, month: u64)
        ensures
            final(self).id == old(self).id,
            final(self).addr == old(self).addr,
            final(self).name == old(self).name,
            final(self).members == old(self).members,
            ({
                let idx = mem.i32_at(old(self).addr + Self::off(layout, "alert"@));
                let routines = mem.vec_len(old(self).addr + Self::off(layout, "schedule"@), POINTER_SIZE as int);
                let block = sched_block(mem, layout, old(self).addr as int, month as int);
                let oh = block + Self::off(layout, "sched_orders"@);
                let ah = block + Self::off(layout, "sched_assigned"@);
                let la = mem.vec_len(ah, POINTER_SIZE as int);
                let n = if la < 0x7fff_ffff { la } else { 0x7fff_ffff };
                if 0 <= idx < routines && layout.off(OffsetSection::Squad, "sched_size"@) * month <= u64::MAX && block <= u64::MAX {
                    &&& final(self).squad_order == sched_wide(mem, oh, ah, old(self).members@, n, old(self).squad_order)
                    &&& forall|q: i32| #[trigger] assoc(final(self).orders@, q) == sched_figure(
                        mem, oh, ah, old(self).members@, n, q, old(self).squad_order, assoc(old(self).orders@, q),
                    )
                } else {
                    final(self).orders == old(self).orders && final(self).squad_order == old(self).squad_order
                }
            }),
    {
        let sched_off = layout.field_offset(OffsetSection::Squad, "schedule");
        let schedules = mem.read_pointer_vector(self.addr, sched_off);
        let idx = mem.read_i32(self.addr, layout.field_offset(OffsetSection::Squad, "alert"));
        if idx < 0 || idx as usize >= schedules.len() {
            return;
        }
        let sched_size = layout.field_offset(OffsetSection::Squad, "sched_size");
        let block = match sched_size.checked_mul(month) {
            Some(o) => schedules[idx as usize].checked_add(o),
            None => None,
        };
        let block = match block {
            Some(b) => b,
            None => return,
        };
        let oh_off = layout.field_offset(OffsetSection::Squad, "sched_orders");
        let ah_off = layout.field_offset(OffsetSection::Squad, "sched_assigned");
        let orders = mem.read_pointer_vector(block, oh_off);
        let assigned = mem.read_pointer_vector(block, ah_off);
        let ghost oh = block + oh_off;
        let ghost ah = block + ah_off;
        let ghost members = self.members@;
        let ghost w0 = self.squad_order;
        let ghost o0 = self.orders@;
        let mut pos: usize = 0;
        while pos < assigned.len() && pos < 0x7fff_ffff
            invariant
                pos <= assigned@.len(),
                pos <= 0x7fff_ffff,
                assigned@.len() == mem.vec_len(ah, POINTER_SIZE as int),
                forall|k: int| 0 <= k < assigned@.len() ==> (#[trigger] assigned@[k]) as int == mem.vec_ptr(ah, k),
                orders@.len() == mem.vec_len(oh, POINTER_SIZE as int),
                forall|k: int| 0 <= k < orders@.len() ==> (#[trigger] orders@[k]) as int == mem.vec_ptr(oh, k),
                self.id == old(self).id,
                self.addr == old(self).addr,
                self.name == old(self).name,
                self.members == old(self).members,
                self.members@ == members,
                self.squad_order == sched_wide(mem, oh, ah, members, pos as int, w0),
                forall|q: i32| #[trigger] assoc(self.orders@, q) == sched_figure(mem, oh, ah, members, pos as int, q, w0, assoc(o0, q)),
            decreases assigned@.len() - pos,
        {
            let order_id = mem.read_i32(assigned[pos], 0);
            let hf = self.member_in_slot(pos as i32);
            assert(hf == member_of(members, pos as int));
            if self.squad_order == SquadOrderType::NoOrder {
                if order_id >= 0 && (order_id as usize) < orders.len() {
                    let order_obj = mem.read_u64(orders[order_id as usize], 0);
                    assert(slot_order(mem, oh, ah, pos as int) == Some(order_obj as int));
                    self.read_order(mem, order_obj, hf);
                } else {
                    assert(slot_order(mem, oh, ah, pos as int) is None);
                }
            } else {
                let wide = self.squad_order;
                put_order(&mut self.orders, hf, wide);
            }
            pos = pos + 1;
        }
    }

    /// Decodes the squad at `addr`; `month` is the current month of the year.
    pub fn new(mem: &ProcessMemory, layout: &MemoryOffsets, addr: u64, month: u64) -> (r: Squad)
        ensures
            r.addr == addr,
            r.id as int == mem.i32_at(addr + Self::off(layout, "id"@)),
            r.name@ == squad_name(
                string_at(mem, addr + Self::off(layout, "name"@)),
                string_at(mem, addr + Self::off(layout, "alias"@)),
            ),
            forall|k: int| 0 <= k < r.members@.len() ==> {
                let (slot, hf) = #[trigger] r.members@[k];
                &&& 0 <= slot < mem.vec_len(addr + Self::off(layout, "members"@), POINTER_SIZE as int)
                &&& hf as int == member_id(mem, mem.vec_ptr(addr + Self::off(layout, "members"@), slot as int))
                &&& hf >= 0
            },
            forall|s: i32| 0 <= s < mem.vec_len(addr + Self::off(layout, "members"@), POINTER_SIZE as int) && s < 0x7fff_ffff
                && member_id(mem, mem.vec_ptr(addr + Self::off(layout, "members"@), s as int)) >= 0
                ==> #[trigger] assoc(r.members@, s) == Some(member_id(mem, mem.vec_ptr(addr + Self::off(layout, "members"@), s as int)) as i32),
            ({
                let a = addr + Self::off(layout, "orders"@);
                let objs = Seq::new(mem.vec_len(a, POINTER_SIZE as int) as nat, |k: int| mem.vec_ptr(a, k) as u64);
                let hf_off = Self::off(layout, "histfig_id"@);
                let w1 = wide_after(mem, objs, hf_off, SquadOrderType::NoOrder);
                let idx = mem.i32_at(addr + Self::off(layout, "alert"@));
                let routines = mem.vec_len(addr + Self::off(layout, "schedule"@), POINTER_SIZE as int);
                let block = sched_block(mem, layout, addr as int, month as int);
                let oh = block + Self::off(layout, "sched_orders"@);
                let ah = block + Self::off(layout, "sched_assigned"@);
                let la = mem.vec_len(ah, POINTER_SIZE as int);
                let n = if la < 0x7fff_ffff { la } else { 0x7fff_ffff };
                if 0 <= idx < routines && layout.off(OffsetSection::Squad, "sched_size"@) * month <= u64::MAX && block <= u64::MAX {
                    &&& r.squad_order == sched_wide(mem, oh, ah, r.members@, n, w1)
                    &&& forall|q: i32| #[trigger] assoc(r.orders@, q) == sched_figure(
                        mem, oh, ah, r.members@, n, q, w1, figure_after(mem, objs, hf_off, q, None),
                    )
                } else {
                    &&& r.squad_order == w1
                    &&& forall|q: i32| #[trigger] assoc(r.orders@, q) == figure_after(mem, objs, hf_off, q, None)
                }
            }),
    {
        let id = mem.read_i32(addr, layout.field_offset(OffsetSection::Squad, "id"));
        let mut s = Squad {
            id,
            addr,
            name: String::new(),
            members: Vec::new(),
            orders: Vec::new(),
            squad_order: SquadOrderType::NoOrder,
        };
        s.read_name(mem, layout);
        s.read_members(mem, layout);
        s.read_current_orders(mem, layout);
        s.read_scheduled_orders(mem, layout, month);
        s
    }

    /// The order that figure `histfig_id` follows: its own, else the
    /// squad-wide one.
    pub fn order_for(&self, histfig_id: i32) -> (r: SquadOrderType)
        ensures
            assoc(self.orders@, histfig_id) matches Some(o) ==> r == o,
            assoc(self.orders@, histfig_id) is None ==> r == self.squad_order,
    {
        let mut i: usize = 0;
        while i < self.orders.len()
            invariant
                i <= self.orders@.len(),
                assoc(self.orders@, histfig_id) == assoc_from(self.orders@, i as int, histfig_id),
            decreases self.orders@.len() - i,
        {
            if self.orders[i].0 == histfig_id {
                return self.orders[i].1;
            }
            i = i + 1;
        }
        self.squad_order
    }
}

} // verus!
