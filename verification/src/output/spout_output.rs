//! Spout sender registration.
//!
//! A sender announces itself by writing its name into the shared
//! `SpoutSenderNames` table (64 slots of 256 bytes, see
//! [`crate::input::spout_input`]) and removes itself on shutdown, moving the
//! later entries down one slot so that the list stays contiguous.
use vstd::prelude::*;
use crate::input::spout_input::{
    first_nul, lemma_live_slots, lemma_live_slots_bounds, listed_names, live_slots, slot_bytes,
    slot_name, slot_name_equals, SPOUT_MAX_NAME_LEN, SPOUT_MAX_SENDERS,
};

verus! {

/// Index of the first entry of `names` at or after `from` equal to `name`,
/// or `names.len()` when there is none.
pub open spec fn first_listed_index(names: Seq<Seq<u8>>, name: Seq<u8>, from: int) -> int
    decreases names.len() - from,
{
    if from >= names.len() {
        names.len() as int
    } else if names[from] == name {
        from
    } else {
        first_listed_index(names, name, from + 1)
    }
}

/// Number of name bytes a slot can hold (one byte is kept for the NUL).
pub open spec fn stored_name_len(name: Seq<u8>) -> int {
    if name.len() < 255 {
        name.len() as int
    } else {
        255
    }
}

/// The table after registering `name`: unchanged when the name is already
/// listed or all 64 slots are taken; otherwise the name (cut to 255 bytes)
/// and a NUL are written into the first free slot, and the slot after it,
/// when there is one, is marked as the end of the list.
pub open spec fn registered_table(table: Seq<u8>, name: Seq<u8>) -> Seq<u8> {
    let live = live_slots(table, 64, 0);
    if listed_names(table, 64).contains(name) || live >= 64 {
        table
    } else {
        let n = stored_name_len(name);
        let start = live * 256;
        Seq::new(
            table.len(),
            |p: int|
                if start <= p < start + n {
                    name[p - start]
                } else if p == start + n {
                    0u8
                } else if live + 1 < 64 && p == start + 256 {
                    0u8
                } else {
                    table[p]
                },
        )
    }
}

/// The table after removing `name`: unchanged when the name is not listed;
/// otherwise the slots after its first occurrence move down by one and the
/// last occupied slot is zeroed.
pub open spec fn unregistered_table(table: Seq<u8>, name: Seq<u8>) -> Seq<u8> {
    let names = listed_names(table, 64);
    let total = names.len() as int;
    let idx = first_listed_index(names, name, 0);
    if idx >= total {
        table
    } else {
        Seq::new(
            table.len(),
            |p: int|
                if idx * 256 <= p < (total - 1) * 256 {
                    table[p + 256]
                } else if (total - 1) * 256 <= p < total * 256 {
                    0u8
                } else {
                    table[p]
                },
        )
    }
}

proof fn lemma_first_listed_index(names: Seq<Seq<u8>>, name: Seq<u8>, from: int)
    requires
        0 <= from <= names.len(),
    ensures
        from <= first_listed_index(names, name, from) <= names.len(),
        forall|j: int|
            from <= j < first_listed_index(names, name, from) ==> names[j] != name,
        first_listed_index(names, name, from) < names.len() ==> names[first_listed_index(
            names,
            name,
            from,
        )] == name,
    decreases names.len() - from,
{
    if from < names.len() && names[from] != name {
        lemma_first_listed_index(names, name, from + 1);
    }
}

/// Write `name` into the `SpoutSenderNames` table unless it is already
/// listed; see [`registered_table`].
pub fn register_sender_name(table: &mut Vec<u8>, name: &[u8])
    requires
        old(table)@.len() >= 64 * 256,
    ensures
        final(table)@ == registered_table(old(table)@, name@),
{
    let ghost t0 = table@;
    let mut i: usize = 0;
    let mut present = false;
    while i < SPOUT_MAX_SENDERS && !present && table[i * SPOUT_MAX_NAME_LEN] != 0
        invariant
            table@ == t0,
            t0.len() >= 64 * 256,
            i <= 64,
            forall|j: int| 0 <= j < i ==> #[trigger] t0[j * 256] != 0,
            forall|j: int| 0 <= j < i ==> #[trigger] slot_name(t0, j) != name@,
            present ==> i < 64 && t0[i * 256] != 0 && slot_name(t0, i as int) == name@,
        decreases 64 - i, if present { 0int } else { 1int },
    {
        let base: usize = i * SPOUT_MAX_NAME_LEN;
        if slot_name_equals(table.as_slice(), base, name) {
            present = true;
        } else {
            i = i + 1;
        }
    }
    proof {
        lemma_live_slots_bounds(t0, 64, 0);
    }
    if present {
        proof {
            if live_slots(t0, 64, 0) <= i {
                let l = live_slots(t0, 64, 0);
                if l < i {
                    assert(t0[l * 256] != 0);
                }
                assert(t0[l * 256] == 0);
            }
            assert(listed_names(t0, 64)[i as int] == name@);
        }
        return;
    }
    proof {
        if i < 64 {
            lemma_live_slots(t0, 64, 0, i as int);
        } else {
            lemma_live_slots(t0, 64, 0, 64);
        }
        assert(!listed_names(t0, 64).contains(name@));
    }
    if i >= SPOUT_MAX_SENDERS {
        return;
    }
    let start: usize = i * SPOUT_MAX_NAME_LEN;
    let n: usize = if name.len() < 255 { name.len() } else { 255 };
    let mut k: usize = 0;
    while k < n
        invariant
            k <= n,
            n == stored_name_len(name@),
            start == i * 256,
            i < 64,
            table@.len() == t0.len(),
            t0.len() >= 64 * 256,
            forall|p: int|
                0 <= p < t0.len() ==> #[trigger] table@[p] == (if start <= p < start + k {
                    name@[p - start]
                } else {
                    t0[p]
                }),
        decreases n - k,
    {
        table.set(start + k, name[k]);
        k = k + 1;
    }
    table.set(start + n, 0);
    if i + 1 < SPOUT_MAX_SENDERS {
        table.set(start + SPOUT_MAX_NAME_LEN, 0);
    }
    proof {
        assert(table@ =~= registered_table(t0, name@));
    }
}

/// Remove `name` from the `SpoutSenderNames` table, keeping the list
/// contiguous; see [`unregistered_table`].
pub fn unregister_sender_name(table: &mut Vec<u8>, name: &[u8])
    requires
        old(table)@.len() >= 64 * 256,
    ensures
        final(table)@ == unregistered_table(old(table)@, name@),
{
    let ghost t0 = table@;
    let ghost names = listed_names(t0, 64);
    let mut found: Option<usize> = None;
    let mut i: usize = 0;
    while i < SPOUT_MAX_SENDERS && table[i * SPOUT_MAX_NAME_LEN] != 0
        invariant
            table@ == t0,
            names == listed_names(t0, 64),
            t0.len() >= 64 * 256,
            i <= 64,
            forall|j: int| 0 <= j < i ==> #[trigger] t0[j * 256] != 0,
            match found {
                Some(f) => f < i && slot_name(t0, f as int) == name@ && forall|j: int|
                    0 <= j < f ==> #[trigger] slot_name(t0, j) != name@,
                None => forall|j: int| 0 <= j < i ==> #[trigger] slot_name(t0, j) != name@,
            },
        decreases 64 - i,
    {
        let base: usize = i * SPOUT_MAX_NAME_LEN;
        if found.is_none() && slot_name_equals(table.as_slice(), base, name) {
            found = Some(i);
        }
        i = i + 1;
    }
    let total: usize = i;
    proof {
        lemma_live_slots_bounds(t0, 64, 0);
        if i < 64 {
            lemma_live_slots(t0, 64, 0, i as int);
        } else {
            lemma_live_slots(t0, 64, 0, 64);
        }
        assert(names.len() == total);
        lemma_first_listed_index(names, name@, 0);
        match found {
            Some(f) => {
                assert(names[f as int] == name@);
                assert(first_listed_index(names, name@, 0) == f);
            },
            None => {
                assert(first_listed_index(names, name@, 0) == total);
            },
        }
    }
    match found {
        None => {},
        Some(idx) => {
            let lo: usize = idx * SPOUT_MAX_NAME_LEN;
            let hi: usize = (total - 1) * SPOUT_MAX_NAME_LEN;
            let mut p: usize = lo;
            while p < hi
                invariant
                    lo <= p <= hi,
                    lo == idx * 256,
                    hi == (total - 1) * 256,
                    idx < total <= 64,
                    table@.len() == t0.len(),
                    t0.len() >= 64 * 256,
                    forall|q: int|
                        0 <= q < t0.len() ==> #[trigger] table@[q] == (if lo <= q < p {
                            t0[q + 256]
                        } else {
                            t0[q]
                        }),
                decreases hi - p,
            {
                let b = table[p + SPOUT_MAX_NAME_LEN];
                table.set(p, b);
                p = p + 1;
            }
            let end: usize = total * SPOUT_MAX_NAME_LEN;
            let mut q: usize = hi;
            while q < end
                invariant
                    hi <= q <= end,
                    lo == idx * 256,
                    hi == (total - 1) * 256,
                    end == total * 256,
                    idx < total <= 64,
                    table@.len() == t0.len(),
                    t0.len() >= 64 * 256,
                    forall|r: int|
                        0 <= r < t0.len() ==> #[trigger] table@[r] == (if lo <= r < hi {
                            t0[r + 256]
                        } else if hi <= r < q {
                            0u8
                        } else {
                            t0[r]
                        }),
                decreases end - q,
            {
                table.set(q, 0);
                q = q + 1;
            }
            proof {
                assert(table@ =~= unregistered_table(t0, name@));
            }
        },
    }
}

proof fn lemma_first_nul_at(s: Seq<u8>, from: int, n: int)
    requires
        0 <= from <= n < s.len(),
        forall|q: int| from <= q < n ==> s[q] != 0,
        s[n] == 0,
    ensures
        first_nul(s, from) == n,
    decreases n - from,
{
    if from < n {
        lemma_first_nul_at(s, from + 1, n);
    }
}

/// Registering a name that is not yet listed, when a slot is free, appends
/// it to the listed senders: a name of 1 to 255 bytes with no NUL byte in
/// it is then read back exactly, after the names listed before.
pub proof fn lemma_register_appends(table: Seq<u8>, name: Seq<u8>)
    requires
        table.len() >= 64 * 256,
        1 <= name.len() <= 255,
        forall|k: int| 0 <= k < name.len() ==> name[k] != 0,
        !listed_names(table, 64).contains(name),
        live_slots(table, 64, 0) < 64,
    ensures
        listed_names(registered_table(table, name), 64) == listed_names(table, 64).push(name),
{
    let t1 = registered_table(table, name);
    let live = live_slots(table, 64, 0);
    let n = name.len() as int;
    lemma_live_slots_bounds(table, 64, 0);
    assert forall|j: int| 0 <= j < live implies #[trigger] slot_bytes(t1, j) == slot_bytes(
        table,
        j,
    ) by {
        assert(slot_bytes(t1, j) =~= slot_bytes(table, j));
    }
    assert forall|j: int| 0 <= j < live + 1 implies #[trigger] t1[j * 256] != 0 by {
        if j < live {
            assert(slot_bytes(t1, j)[0] == slot_bytes(table, j)[0]);
        }
    }
    let sl = slot_bytes(t1, live);
    assert forall|q: int| 0 <= q < n implies sl[q] != 0 by {
        assert(sl[q] == name[q]);
    }
    assert(sl[n] == 0);
    lemma_first_nul_at(sl, 0, n);
    assert(slot_name(t1, live) =~= name);
    if live + 1 < 64 {
        assert(t1[(live + 1) * 256] == 0);
    }
    lemma_live_slots(t1, 64, 0, live + 1);
    assert(listed_names(t1, 64) =~= listed_names(table, 64).push(name));
}

/// Registering a name that is already listed leaves the table unchanged.
pub proof fn lemma_register_listed_is_noop(table: Seq<u8>, name: Seq<u8>)
    requires
        listed_names(table, 64).contains(name),
    ensures
        registered_table(table, name) == table,
{
}

/// Unregistering a name that is not listed leaves the table unchanged.
pub proof fn lemma_unregister_unlisted_is_noop(table: Seq<u8>, name: Seq<u8>)
    requires
        !listed_names(table, 64).contains(name),
    ensures
        unregistered_table(table, name) == table,
{
    let names = listed_names(table, 64);
    lemma_live_slots_bounds(table, 64, 0);
    lemma_first_listed_index(names, name, 0);
    if first_listed_index(names, name, 0) < names.len() {
        assert(names.contains(name));
    }
}

/// Unregistering a listed name removes its first occurrence from the
/// listed senders and keeps the order of the others.
pub proof fn lemma_unregister_removes(table: Seq<u8>, name: Seq<u8>)
    requires
        table.len() >= 64 * 256,
        listed_names(table, 64).contains(name),
    ensures
        listed_names(unregistered_table(table, name), 64) == listed_names(table, 64).remove(
            first_listed_index(listed_names(table, 64), name, 0),
        ),
{
    let names = listed_names(table, 64);
    let total = names.len() as int;
    lemma_live_slots_bounds(table, 64, 0);
    lemma_first_listed_index(names, name, 0);
    let idx = first_listed_index(names, name, 0);
    if idx >= total {
        let w = choose|w: int| 0 <= w < names.len() && names[w] == name;
        assert(names[w] != name);
    }
    let t1 = unregistered_table(table, name);
    assert forall|j: int| 0 <= j < idx implies #[trigger] slot_bytes(t1, j) == slot_bytes(
        table,
        j,
    ) by {
        assert(slot_bytes(t1, j) =~= slot_bytes(table, j));
    }
    assert forall|j: int| idx <= j < total - 1 implies #[trigger] slot_bytes(t1, j)
        == slot_bytes(table, j + 1) by {
        assert(slot_bytes(t1, j) =~= slot_bytes(table, j + 1));
    }
    assert forall|j: int| 0 <= j < total - 1 implies #[trigger] t1[j * 256] != 0 by {
        if j < idx {
            assert(slot_bytes(t1, j)[0] == slot_bytes(table, j)[0]);
        } else {
            assert(slot_bytes(t1, j)[0] == slot_bytes(table, j + 1)[0]);
            assert(table[(j + 1) * 256] != 0);
        }
    }
    assert(t1[(total - 1) * 256] == 0);
    lemma_live_slots(t1, 64, 0, total - 1);
    let after = listed_names(t1, 64);
    let expect = names.remove(idx);
    assert forall|j: int| 0 <= j < after.len() implies after[j] == expect[j] by {
        if j < idx {
            assert(slot_name(t1, j) == slot_name(table, j));
        } else {
            assert(slot_name(t1, j) == slot_name(table, j + 1));
        }
    }
    assert(after =~= expect);
}

/// Registering a new name and then unregistering it lists the same senders
/// as before.
pub proof fn lemma_register_then_unregister(table: Seq<u8>, name: Seq<u8>)
    requires
        table.len() >= 64 * 256,
        1 <= name.len() <= 255,
        forall|k: int| 0 <= k < name.len() ==> name[k] != 0,
        !listed_names(table, 64).contains(name),
        live_slots(table, 64, 0) < 64,
    ensures
        listed_names(unregistered_table(registered_table(table, name), name), 64)
            == listed_names(table, 64),
{
    let t1 = registered_table(table, name);
    let before = listed_names(table, 64);
    lemma_register_appends(table, name);
    let with = before.push(name);
    assert(with[before.len() as int] == name);
    assert(with.contains(name));
    assert(t1.len() == table.len());
    lemma_unregister_removes(t1, name);
    lemma_first_listed_index(with, name, 0);
    let idx = first_listed_index(with, name, 0);
    if idx < before.len() {
        assert(before[idx] == name);
        assert(before.contains(name));
    }
    assert(idx == before.len());
    assert(with.remove(idx) =~= before);
}

} // verus!
