//! Parameter snapshots (presets) with eight quick-access slots.
//!
//! Presets are kept sorted by name; each is stored in a file named after a
//! filename-safe form of its name. Quick slots (1 to 8) hold indices into
//! the preset list. A preset carries its parameter values as a payload
//! `V`.
use vstd::prelude::*;
use crate::text::{push_char, trim_end_char, trim_start_char};

verus! {

/// Commands for preset management.
#[derive(Debug, Clone, PartialEq)]
pub enum PresetCommand {
    Idle,
    Save { name: String },
    Load(usize),
    Delete(usize),
    ApplySlot(usize),
    Refresh,
}

/// The Unicode lowercase form of a string, as `str::to_lowercase`
/// computes it.
pub uninterp spec fn spec_to_lowercase(s: Seq<char>) -> Seq<char>;

/// Whether a character is alphabetic or numeric, as
/// `char::is_alphanumeric` decides it.
pub uninterp spec fn spec_is_alphanumeric(c: char) -> bool;

/// `str::to_lowercase`: the Unicode lowercase form of `s`. Its result is
/// named, not described: it depends on `s` alone.
#[verifier::external_body]
pub(crate) fn to_lowercase(s: &str) -> (r: String)
    ensures
        r@ == spec_to_lowercase(s@),
{
    s.to_lowercase()
}

/// `char::is_alphanumeric`: whether `c` is alphabetic or numeric in
/// Unicode. Its result is named, not described: it depends on `c` alone.
#[verifier::external_body]
fn is_alphanumeric(c: char) -> (r: bool)
    ensures
        r == spec_is_alphanumeric(c),
{
    c.is_alphanumeric()
}

/// Whether `c` may stay in a file name: alphanumeric, `-` or `_`.
pub open spec fn filename_char_kept(c: char) -> bool {
    spec_is_alphanumeric(c) || c == '-' || c == '_'
}

/// Every character that may not stay in a file name replaced by `_`.
pub open spec fn replace_unsafe(s: Seq<char>) -> Seq<char> {
    Seq::new(s.len(), |i: int| if filename_char_kept(s[i]) { s[i] } else { '_' })
}

/// One left-to-right pass replacing each non-overlapping `__` by `_`.
pub open spec fn collapse_double_underscores(s: Seq<char>) -> Seq<char>
    decreases s.len(),
{
    if s.len() >= 2 && s[0] == '_' && s[1] == '_' {
        seq!['_'] + collapse_double_underscores(s.subrange(2, s.len() as int))
    } else if s.len() == 0 {
        s
    } else {
        seq![s[0]] + collapse_double_underscores(s.subrange(1, s.len() as int))
    }
}

/// The filename-safe form of a preset name: lowercased, every character
/// other than alphanumerics, `-` and `_` replaced by `_`, each `__` (one
/// pass, left to right) collapsed to `_`, and `_` trimmed from both ends.
pub open spec fn spec_safe_filename(name: Seq<char>) -> Seq<char> {
    trim_end_char(
        trim_start_char(collapse_double_underscores(replace_unsafe(spec_to_lowercase(name))), '_'),
        '_',
    )
}

/// The filename-safe form of a name; see [`spec_safe_filename`].
pub fn safe_filename_of(name: &str) -> (r: String)
    ensures
        r@ == spec_safe_filename(name@),
{
    let lower = to_lowercase(name);
    let ghost l = lower@;
    let n = lower.as_str().unicode_len();
    let mut mapped: Vec<char> = Vec::new();
    let mut i: usize = 0;
    while i < n
        invariant
            i <= n,
            n == l.len(),
            l == lower@,
            mapped@ == replace_unsafe(l).subrange(0, i as int),
        decreases n - i,
    {
        let c = lower.as_str().get_char(i);
        let kept = is_alphanumeric(c) || c == '-' || c == '_';
        if kept {
            mapped.push(c);
        } else {
            mapped.push('_');
        }
        proof {
            assert(mapped@ =~= replace_unsafe(l).subrange(0, i + 1));
        }
        i = i + 1;
    }
    let ghost m = replace_unsafe(l);
    proof {
        assert(mapped@ =~= m);
    }
    let mut collapsed: Vec<char> = Vec::new();
    let mut j: usize = 0;
    proof {
        assert(m.subrange(0, n as int) =~= m);
    }
    while j < n
        invariant
            j <= n,
            n == m.len(),
            mapped@ == m,
            collapsed@ + collapse_double_underscores(m.subrange(j as int, n as int))
                == collapse_double_underscores(m),
        decreases n - j,
    {
        let ghost rest = m.subrange(j as int, n as int);
        if j + 1 < n && mapped[j] == '_' && mapped[j + 1] == '_' {
            proof {
                assert(rest.subrange(2, rest.len() as int) =~= m.subrange(j + 2, n as int));
                assert(collapse_double_underscores(rest) == seq!['_']
                    + collapse_double_underscores(m.subrange(j + 2, n as int)));
            }
            collapsed.push('_');
            proof {
                assert(collapsed@ + collapse_double_underscores(m.subrange(j + 2, n as int))
                    =~= collapse_double_underscores(m));
            }
            j = j + 2;
        } else {
            let c = mapped[j];
            proof {
                assert(rest.subrange(1, rest.len() as int) =~= m.subrange(j + 1, n as int));
                assert(collapse_double_underscores(rest) == seq![c] + collapse_double_underscores(
                    m.subrange(j + 1, n as int),
                ));
            }
            collapsed.push(c);
            proof {
                assert(collapsed@ + collapse_double_underscores(m.subrange(j + 1, n as int))
                    =~= collapse_double_underscores(m));
            }
            j = j + 1;
        }
    }
    proof {
        assert(m.subrange(n as int, n as int) =~= Seq::<char>::empty());
        assert(collapsed@ =~= collapse_double_underscores(m));
    }
    let ghost cs = collapsed@;
    let len = collapsed.len();
    let mut start: usize = 0;
    proof {
        assert(cs.subrange(0, len as int) =~= cs);
    }
    while start < len && collapsed[start] == '_'
        invariant
            start <= len,
            len == cs.len(),
            collapsed@ == cs,
            trim_start_char(cs, '_') == trim_start_char(cs.subrange(start as int, len as int), '_'),
        decreases len - start,
    {
        proof {
            assert(cs.subrange(start as int, len as int).drop_first() =~= cs.subrange(
                start + 1,
                len as int,
            ));
        }
        start = start + 1;
    }
    let ghost ts = cs.subrange(start as int, len as int);
    proof {
        if start < len {
            assert(ts[0] != '_');
        }
        assert(trim_start_char(ts, '_') == ts);
    }
    let mut end: usize = len;
    proof {
        assert(cs.subrange(start as int, end as int) =~= ts);
    }
    while end > start && collapsed[end - 1] == '_'
        invariant
            start <= end <= len,
            len == cs.len(),
            collapsed@ == cs,
            ts == cs.subrange(start as int, len as int),
            trim_end_char(ts, '_') == trim_end_char(cs.subrange(start as int, end as int), '_'),
        decreases end,
    {
        proof {
            assert(cs.subrange(start as int, end as int).drop_last() =~= cs.subrange(
                start as int,
                end - 1,
            ));
        }
        end = end - 1;
    }
    let ghost fin = cs.subrange(start as int, end as int);
    proof {
        if end > start {
            assert(fin.last() != '_');
        }
        assert(trim_end_char(fin, '_') == fin);
    }
    let mut r = String::new();
    let mut k: usize = start;
    while k < end
        invariant
            start <= k <= end <= len,
            len == cs.len(),
            collapsed@ == cs,
            r@ == cs.subrange(start as int, k as int),
        decreases end - k,
    {
        push_char(&mut r, collapsed[k]);
        proof {
            assert(cs.subrange(start as int, k + 1) =~= cs.subrange(start as int, k as int).push(
                cs[k as int],
            ));
        }
        k = k + 1;
    }
    r
}

/// A preset: a named snapshot of parameter values.
pub struct Preset<V> {
    /// Preset name.
    pub name: String,
    /// Creation or modification time (seconds since the Unix epoch).
    pub timestamp: u64,
    /// Description or notes.
    pub description: String,
    /// The parameter values.
    pub values: V,
}

impl<V> Preset<V> {
    /// The filename-safe form of this preset's name.
    pub fn safe_filename(&self) -> (r: String)
        ensures
            r@ == spec_safe_filename(self.name@),
    {
        safe_filename_of(self.name.as_str())
    }
}

/// Lexicographic order of names, character by character (the order of
/// their UTF-8 bytes).
pub open spec fn name_le(a: Seq<char>, b: Seq<char>) -> bool
    decreases a.len(),
{
    if a.len() == 0 {
        true
    } else if b.len() == 0 {
        false
    } else if (a[0] as u32) < (b[0] as u32) {
        true
    } else if (a[0] as u32) > (b[0] as u32) {
        false
    } else {
        name_le(a.drop_first(), b.drop_first())
    }
}

/// Whether `a` sorts before or equal to `b` by name.
pub fn name_le_exec(a: &str, b: &str) -> (r: bool)
    ensures
        r == name_le(a@, b@),
{
    let n = a.unicode_len();
    let m = b.unicode_len();
    let mut i: usize = 0;
    proof {
        assert(a@.subrange(0, n as int) =~= a@);
        assert(b@.subrange(0, m as int) =~= b@);
    }
    while i < n && i < m && a.get_char(i) == b.get_char(i)
        invariant
            i <= n,
            i <= m,
            n == a@.len(),
            m == b@.len(),
            name_le(a@, b@) == name_le(a@.subrange(i as int, n as int), b@.subrange(i as int, m as int)),
        decreases n - i,
    {
        proof {
            assert(a@.subrange(i as int, n as int).drop_first() =~= a@.subrange(i + 1, n as int));
            assert(b@.subrange(i as int, m as int).drop_first() =~= b@.subrange(i + 1, m as int));
        }
        i = i + 1;
    }
    if i == n {
        true
    } else if i == m {
        false
    } else {
        (a.get_char(i) as u32) < (b.get_char(i) as u32)
    }
}

/// `name_le` is total.
pub proof fn lemma_name_le_total(a: Seq<char>, b: Seq<char>)
    ensures
        name_le(a, b) || name_le(b, a),
    decreases a.len(),
{
    if a.len() > 0 && b.len() > 0 && (a[0] as u32) == (b[0] as u32) {
        lemma_name_le_total(a.drop_first(), b.drop_first());
    }
}

/// `name_le` is transitive.
pub proof fn lemma_name_le_transitive(a: Seq<char>, b: Seq<char>, c: Seq<char>)
    requires
        name_le(a, b),
        name_le(b, c),
    ensures
        name_le(a, c),
    decreases a.len(),
{
    if a.len() > 0 && b.len() > 0 && c.len() > 0 && (a[0] as u32) == (b[0] as u32) && (b[0] as u32)
        == (c[0] as u32) {
        lemma_name_le_transitive(a.drop_first(), b.drop_first(), c.drop_first());
    }
}

/// Where a preset named `key` is inserted into `s`: after every leading
/// entry whose name sorts before or equal to `key` (so that equal names
/// keep their order).
pub open spec fn insert_position<V>(s: Seq<Preset<V>>, key: Seq<char>, j: int) -> int
    decreases s.len() - j,
{
    if j >= s.len() {
        s.len() as int
    } else if name_le(s[j].name@, key) {
        insert_position(s, key, j + 1)
    } else {
        j
    }
}

/// `s` with `x` inserted at its name position.
pub open spec fn sorted_insert<V>(s: Seq<Preset<V>>, x: Preset<V>) -> Seq<Preset<V>> {
    s.insert(insert_position(s, x.name@, 0), x)
}

/// The presets of `s` in name order; presets with equal names keep their
/// relative order (a stable sort).
pub open spec fn sort_by_name<V>(s: Seq<Preset<V>>) -> Seq<Preset<V>>
    decreases s.len(),
{
    if s.len() == 0 {
        s
    } else {
        sorted_insert(sort_by_name(s.drop_last()), s.last())
    }
}

/// Whether the presets of `s` are in name order.
pub open spec fn names_sorted<V>(s: Seq<Preset<V>>) -> bool {
    forall|i: int, j: int| 0 <= i < j < s.len() ==> name_le(#[trigger] s[i].name@, #[trigger] s[j].name@)
}

proof fn lemma_insert_position<V>(s: Seq<Preset<V>>, key: Seq<char>, from: int)
    requires
        0 <= from <= s.len(),
    ensures
        from <= insert_position(s, key, from) <= s.len(),
        forall|j: int| from <= j < insert_position(s, key, from) ==> name_le(#[trigger] s[j].name@, key),
        insert_position(s, key, from) < s.len() ==> !name_le(
            s[insert_position(s, key, from)].name@,
            key,
        ),
    decreases s.len() - from,
{
    if from < s.len() && name_le(s[from].name@, key) {
        lemma_insert_position(s, key, from + 1);
    }
}

proof fn lemma_sorted_insert_sorted<V>(s: Seq<Preset<V>>, x: Preset<V>)
    requires
        names_sorted(s),
    ensures
        names_sorted(sorted_insert(s, x)),
        sorted_insert(s, x).len() == s.len() + 1,
{
    let key = x.name@;
    let p = insert_position(s, key, 0);
    lemma_insert_position(s, key, 0);
    let r = s.insert(p, x);
    assert forall|i: int, j: int| 0 <= i < j < r.len() implies name_le(
        #[trigger] r[i].name@,
        #[trigger] r[j].name@,
    ) by {
        if i < p && j < p {
            assert(r[i] == s[i] && r[j] == s[j]);
        } else if i < p && j == p {
            assert(r[i] == s[i] && r[j] == x);
        } else if i < p && j > p {
            assert(r[i] == s[i] && r[j] == s[j - 1]);
            if i < j - 1 {
                assert(name_le(s[i].name@, s[j - 1].name@));
            }
        } else if i == p {
            assert(r[i] == x && r[j] == s[j - 1]);
            lemma_name_le_total(s[p].name@, key);
            if j - 1 > p {
                assert(name_le(s[p].name@, s[j - 1].name@));
                lemma_name_le_transitive(key, s[p].name@, s[j - 1].name@);
            }
        } else {
            assert(r[i] == s[i - 1] && r[j] == s[j - 1]);
        }
    }
}

/// Sorting by name yields presets in name order, one for each input.
pub proof fn lemma_sort_by_name_sorted<V>(s: Seq<Preset<V>>)
    ensures
        names_sorted(sort_by_name(s)),
        sort_by_name(s).len() == s.len(),
    decreases s.len(),
{
    if s.len() > 0 {
        lemma_sort_by_name_sorted(s.drop_last());
        lemma_sorted_insert_sorted(sort_by_name(s.drop_last()), s.last());
    }
}

/// Sort presets by name (stable); see [`sort_by_name`].
pub fn sort_presets_by_name<V>(presets: Vec<Preset<V>>) -> (r: Vec<Preset<V>>)
    ensures
        r@ == sort_by_name(presets@),
{
    let ghost orig = presets@;
    let mut rest = presets;
    let mut out: Vec<Preset<V>> = Vec::new();
    let ghost mut k: int = 0;
    proof {
        assert(orig.subrange(0, 0) =~= Seq::<Preset<V>>::empty());
        assert(orig.subrange(0, orig.len() as int) =~= orig);
    }
    while rest.len() > 0
        invariant
            0 <= k <= orig.len(),
            rest@ == orig.subrange(k, orig.len() as int),
            out@ == sort_by_name(orig.subrange(0, k)),
        decreases rest@.len(),
    {
        let x = rest.remove(0);
        let mut pos: usize = 0;
        proof {
            lemma_insert_position(out@, x.name@, 0);
        }
        while pos < out.len() && name_le_exec(out[pos].name.as_str(), x.name.as_str())
            invariant
                pos <= out@.len(),
                insert_position(out@, x.name@, 0) == insert_position(out@, x.name@, pos as int),
            decreases out@.len() - pos,
        {
            pos = pos + 1;
        }
        proof {
            assert(orig.subrange(0, k + 1).drop_last() =~= orig.subrange(0, k));
            assert(orig.subrange(0, k + 1).last() == x);
            assert(rest@ =~= orig.subrange(k + 1, orig.len() as int));
        }
        out.insert(pos, x);
        proof {
            k = k + 1;
        }
    }
    proof {
        assert(orig.subrange(0, k) =~= orig);
    }
    out
}

/// Errors of preset-bank operations.
#[derive(Debug, Clone, Copy, PartialEq, Eq)]
pub enum PresetError {
    /// No preset has this index.
    InvalidIndex(usize),
    /// Quick slots are numbered 1 to 8.
    SlotOutOfRange(usize),
    /// The quick slot holds no preset.
    EmptySlot(usize),
}

/// A quick-slot entry after the preset at `removed` is deleted: cleared
/// when it pointed at that preset, moved down when it pointed past it.
pub open spec fn slot_after_delete(slot: Option<usize>, removed: usize) -> Option<usize> {
    match slot {
        Some(i) => if i == removed {
            None
        } else if i > removed {
            Some((i - 1) as usize)
        } else {
            Some(i)
        },
        None => None,
    }
}

/// Presets with eight quick-access slots and the currently selected preset.
pub struct PresetBank<V> {
    /// All presets, in name order.
    pub presets: Vec<Preset<V>>,
    /// Quick slots 1 to 8 (indices into `presets`).
    pub quick_slots: [Option<usize>; 8],
    /// The preset applied last.
    pub current_index: Option<usize>,
}

impl<V> PresetBank<V> {
    /// No presets, empty slots, nothing selected.
    pub fn new() -> (r: Self)
        ensures
            r.presets@.len() == 0,
            forall|s: int| 0 <= s < 8 ==> r.quick_slots@[s] is None,
            r.current_index is None,
    {
        PresetBank {
            presets: Vec::new(),
            quick_slots: [None, None, None, None, None, None, None, None],
            current_index: None,
        }
    }

    /// Replace the presets with those loaded from disk, in name order.
    /// Slots and the selection are left as they are.
    pub fn set_loaded(&mut self, loaded: Vec<Preset<V>>)
        ensures
            final(self).presets@ == sort_by_name(loaded@),
            final(self).quick_slots == old(self).quick_slots,
            final(self).current_index == old(self).current_index,
    {
        self.presets = sort_presets_by_name(loaded);
    }

    /// Add a preset (once it has been saved to its file) and return its
    /// index in name order: the first preset with the same safe file name.
    /// Slots and the selection are left as they are.
    pub fn add_preset(&mut self, preset: Preset<V>) -> (index: usize)
        ensures
            final(self).presets@ == sort_by_name(old(self).presets@.push(preset)),
            index < final(self).presets@.len(),
            spec_safe_filename(final(self).presets@[index as int].name@) == spec_safe_filename(
                preset.name@,
            ),
            forall|j: int|
                0 <= j < index ==> spec_safe_filename((#[trigger] final(self).presets@[j]).name@)
                    != spec_safe_filename(preset.name@),
            final(self).quick_slots == old(self).quick_slots,
            final(self).current_index == old(self).current_index,
    {
        let target = preset.safe_filename();
        let ghost all = old(self).presets@.push(preset);
        let mut presets: Vec<Preset<V>> = Vec::new();
        std::mem::swap(&mut presets, &mut self.presets);
        presets.push(preset);
        self.presets = sort_presets_by_name(presets);
        proof {
            lemma_sort_keeps(all);
            assert(all[all.len() - 1] == preset);
            assert(all.contains(preset));
        }
        let mut i: usize = 0;
        while i < self.presets.len()
            invariant
                i <= self.presets@.len(),
                all == old(self).presets@.push(preset),
                self.quick_slots == old(self).quick_slots,
                self.current_index == old(self).current_index,
                self.presets@ == sort_by_name(all),
                all.last() == preset,
                all.len() >= 1,
                target@ == spec_safe_filename(preset.name@),
                exists|j: int| 0 <= j < self.presets@.len() && self.presets@[j] == preset,
                forall|j: int|
                    0 <= j < i ==> spec_safe_filename((#[trigger] self.presets@[j]).name@)
                        != spec_safe_filename(preset.name@),
            decreases self.presets@.len() - i,
        {
            let f = self.presets[i].safe_filename();
            if crate::text::str_eq(f.as_str(), target.as_str()) {
                return i;
            }
            i = i + 1;
        }
        proof {
            let j = choose|j: int| 0 <= j < self.presets@.len() && self.presets@[j] == preset;
            assert(spec_safe_filename(self.presets@[j].name@) == spec_safe_filename(preset.name@));
        }
        0
    }

    /// Remove the preset at `index` (once its file is deleted). Quick slots
    /// and the selection follow the presets they pointed at; those that
    /// pointed at the removed preset are cleared.
    pub fn delete_preset(&mut self, index: usize) -> (r: Result<Preset<V>, PresetError>)
        ensures
            index >= old(self).presets@.len() ==> r == Err::<Preset<V>, PresetError>(
                PresetError::InvalidIndex(index),
            ) && final(self).presets@ == old(self).presets@ && final(self).quick_slots
                == old(self).quick_slots && final(self).current_index == old(self).current_index,
            index < old(self).presets@.len() ==> {
                &&& r matches Ok(p) && p == old(self).presets@[index as int]
                &&& final(self).presets@ == old(self).presets@.remove(index as int)
                &&& forall|s: int|
                    0 <= s < 8 ==> #[trigger] final(self).quick_slots@[s] == slot_after_delete(
                        old(self).quick_slots@[s],
                        index,
                    )
                &&& final(self).current_index == slot_after_delete(old(self).current_index, index)
            },
    {
        if index >= self.presets.len() {
            return Err(PresetError::InvalidIndex(index));
        }
        let mut s: usize = 0;
        while s < 8
            invariant
                s <= 8,
                forall|t: int|
                    0 <= t < s ==> #[trigger] self.quick_slots@[t] == slot_after_delete(
                        old(self).quick_slots@[t],
                        index,
                    ),
                forall|t: int| s <= t < 8 ==> #[trigger] self.quick_slots@[t] == old(self).quick_slots@[t],
                self.presets@ == old(self).presets@,
                self.current_index == old(self).current_index,
            decreases 8 - s,
        {
            let updated = match self.quick_slots[s] {
                Some(i) => if i == index {
                    None
                } else if i > index {
                    Some(i - 1)
                } else {
                    Some(i)
                },
                None => None,
            };
            self.quick_slots.set(s, updated);
            s = s + 1;
        }
        self.current_index = match self.current_index {
            Some(c) => if c == index {
                None
            } else if c > index {
                Some(c - 1)
            } else {
                Some(c)
            },
            None => None,
        };
        let removed = self.presets.remove(index);
        Ok(removed)
    }

    /// The preset at `index`, if any.
    pub fn get(&self, index: usize) -> (r: Option<&Preset<V>>)
        ensures
            index < self.presets@.len() ==> r == Some(&self.presets@[index as int]),
            index >= self.presets@.len() ==> r is None,
    {
        if index < self.presets.len() {
            Some(&self.presets[index])
        } else {
            None
        }
    }

    /// Put the preset at `preset_index` into quick slot `slot` (1 to 8).
    pub fn assign_to_slot(&mut self, preset_index: usize, slot: usize) -> (r: Result<(), PresetError>)
        ensures
            (slot < 1 || slot > 8) ==> r == Err::<(), PresetError>(PresetError::SlotOutOfRange(slot))
                && final(self).quick_slots == old(self).quick_slots,
            (1 <= slot <= 8 && preset_index >= old(self).presets@.len()) ==> r == Err::<
                (),
                PresetError,
            >(PresetError::InvalidIndex(preset_index)) && final(self).quick_slots == old(
                self,
            ).quick_slots,
            (1 <= slot <= 8 && preset_index < old(self).presets@.len()) ==> r is Ok
                && final(self).quick_slots@ == old(self).quick_slots@.update(
                slot - 1,
                Some(preset_index),
            ),
            final(self).presets == old(self).presets,
            final(self).current_index == old(self).current_index,
    {
        if slot < 1 || slot > 8 {
            return Err(PresetError::SlotOutOfRange(slot));
        }
        if preset_index >= self.presets.len() {
            return Err(PresetError::InvalidIndex(preset_index));
        }
        self.quick_slots.set(slot - 1, Some(preset_index));
        proof {
            assert(self.quick_slots@ =~= old(self).quick_slots@.update(slot - 1, Some(preset_index)));
        }
        Ok(())
    }

    /// Empty quick slot `slot` (nothing happens outside 1 to 8).
    pub fn clear_slot(&mut self, slot: usize)
        ensures
            1 <= slot <= 8 ==> final(self).quick_slots@ == old(self).quick_slots@.update(slot - 1, None),
            (slot < 1 || slot > 8) ==> final(self).quick_slots == old(self).quick_slots,
            final(self).presets == old(self).presets,
            final(self).current_index == old(self).current_index,
    {
        if slot >= 1 && slot <= 8 {
            self.quick_slots.set(slot - 1, None);
            proof {
                assert(self.quick_slots@ =~= old(self).quick_slots@.update(slot - 1, None));
            }
        }
    }

    /// The preset index in quick slot `slot` (none outside 1 to 8).
    pub fn get_slot(&self, slot: usize) -> (r: Option<usize>)
        ensures
            1 <= slot <= 8 ==> r == self.quick_slots@[slot - 1],
            (slot < 1 || slot > 8) ==> r is None,
    {
        if slot >= 1 && slot <= 8 {
            self.quick_slots[slot - 1]
        } else {
            None
        }
    }

    /// The name of the preset in quick slot `slot`, if the slot points at
    /// an existing preset.
    pub fn get_slot_name(&self, slot: usize) -> (r: Option<&str>)
        ensures
            match r {
                Some(n) => 1 <= slot <= 8 && (self.quick_slots@[slot - 1] matches Some(i) && i
                    < self.presets@.len() && n@ == self.presets@[i as int].name@),
                None => !(1 <= slot <= 8 && (self.quick_slots@[slot - 1] matches Some(i) && i
                    < self.presets@.len())),
            },
    {
        match self.get_slot(slot) {
            Some(i) => if i < self.presets.len() {
                Some(self.presets[i].name.as_str())
            } else {
                None
            },
            None => None,
        }
    }

    /// Select the preset at `index` for applying: it becomes current.
    pub fn apply_preset(&mut self, index: usize) -> (r: Result<&Preset<V>, PresetError>)
        ensures
            index < old(self).presets@.len() ==> final(self).current_index == Some(index) && (r
                matches Ok(p) && *p == old(self).presets@[index as int]),
            index >= old(self).presets@.len() ==> final(self).current_index == old(
                self,
            ).current_index && r == Err::<&Preset<V>, PresetError>(
                PresetError::InvalidIndex(index),
            ),
            final(self).presets == old(self).presets,
            final(self).quick_slots == old(self).quick_slots,
    {
        if index < self.presets.len() {
            self.current_index = Some(index);
            Ok(&self.presets[index])
        } else {
            Err(PresetError::InvalidIndex(index))
        }
    }

    /// Select the preset in quick slot `slot` for applying.
    pub fn apply_slot(&mut self, slot: usize) -> (r: Result<&Preset<V>, PresetError>)
        ensures
            match (if 1 <= slot <= 8 {
                old(self).quick_slots@[slot - 1]
            } else {
                None
            }) {
                None => r == Err::<&Preset<V>, PresetError>(PresetError::EmptySlot(slot))
                    && final(self).current_index == old(self).current_index,
                Some(index) => (index < old(self).presets@.len() ==> final(self).current_index
                    == Some(index) && (r matches Ok(p) && *p == old(self).presets@[index as int]))
                    && (index >= old(self).presets@.len() ==> final(self).current_index == old(
                    self,
                ).current_index && r == Err::<&Preset<V>, PresetError>(
                    PresetError::InvalidIndex(index),
                )),
            },
            final(self).presets == old(self).presets,
            final(self).quick_slots == old(self).quick_slots,
    {
        match self.get_slot(slot) {
            Some(index) => self.apply_preset(index),
            None => Err(PresetError::EmptySlot(slot)),
        }
    }

    /// The name of the current preset, if it exists.
    pub fn current_name(&self) -> (r: Option<&str>)
        ensures
            match r {
                Some(n) => self.current_index matches Some(i) && i < self.presets@.len() && n@
                    == self.presets@[i as int].name@,
                None => !(self.current_index matches Some(i) && i < self.presets@.len()),
            },
    {
        match self.current_index {
            Some(i) => if i < self.presets.len() {
                Some(self.presets[i].name.as_str())
            } else {
                None
            },
            None => None,
        }
    }

    /// Store new values (and time) in the preset at `index`, keeping its
    /// name and description.
    pub fn update_preset(&mut self, index: usize, timestamp: u64, values: V) -> (r: Result<
        (),
        PresetError,
    >)
        ensures
            index >= old(self).presets@.len() ==> r == Err::<(), PresetError>(
                PresetError::InvalidIndex(index),
            ) && final(self).presets@ == old(self).presets@,
            index < old(self).presets@.len() ==> r is Ok && final(self).presets@ == old(
                self,
            ).presets@.update(
                index as int,
                Preset { timestamp, values, ..old(self).presets@[index as int] },
            ),
            final(self).quick_slots == old(self).quick_slots,
            final(self).current_index == old(self).current_index,
    {
        if index >= self.presets.len() {
            return Err(PresetError::InvalidIndex(index));
        }
        self.presets[index].timestamp = timestamp;
        self.presets[index].values = values;
        Ok(())
    }

    /// Rename the preset at `index` and restore name order. Slots and the
    /// selection are left as they are.
    pub fn rename_preset(&mut self, index: usize, new_name: &str) -> (r: Result<(), PresetError>)
        ensures
            index >= old(self).presets@.len() ==> r == Err::<(), PresetError>(
                PresetError::InvalidIndex(index),
            ) && final(self).presets@ == old(self).presets@,
            index < old(self).presets@.len() ==> r is Ok && exists|renamed: Preset<V>|
                renamed.name@ == new_name@ && renamed.timestamp == old(self).presets@[index as int].timestamp
                    && renamed.description == old(self).presets@[index as int].description
                    && renamed.values == old(self).presets@[index as int].values
                    && final(self).presets@ == sort_by_name(
                    old(self).presets@.update(index as int, renamed),
                ),
            final(self).quick_slots == old(self).quick_slots,
            final(self).current_index == old(self).current_index,
    {
        if index >= self.presets.len() {
            return Err(PresetError::InvalidIndex(index));
        }
        self.presets[index].name = crate::text::string_of(new_name);
        let ghost renamed = self.presets@[index as int];
        let mut presets: Vec<Preset<V>> = Vec::new();
        std::mem::swap(&mut presets, &mut self.presets);
        self.presets = sort_presets_by_name(presets);
        proof {
            assert(old(self).presets@.update(index as int, renamed) =~= presets@);
            assert(renamed.name@ == new_name@ && renamed.timestamp == old(self).presets@[index as int].timestamp
                && renamed.description == old(self).presets@[index as int].description
                && renamed.values == old(self).presets@[index as int].values
                && self.presets@ == sort_by_name(old(self).presets@.update(index as int, renamed)));
        }
        Ok(())
    }
}

impl<V: Clone> PresetBank<V> {
    /// Add a copy of the preset at `index` under `new_name`, stamped with
    /// `timestamp` (once saved to its file), as [`Self::add_preset`] does.
    pub fn duplicate_preset(&mut self, index: usize, new_name: &str, timestamp: u64) -> (r: Result<
        usize,
        PresetError,
    >)
        ensures
            index >= old(self).presets@.len() ==> r == Err::<usize, PresetError>(
                PresetError::InvalidIndex(index),
            ) && final(self).presets@ == old(self).presets@,
            index < old(self).presets@.len() ==> (r matches Ok(i) && exists|copy: Preset<V>|
                {
                    &&& copy.name@ == new_name@
                    &&& copy.timestamp == timestamp
                    &&& copy.description@ == old(self).presets@[index as int].description@
                    &&& cloned::<V>(old(self).presets@[index as int].values, copy.values)
                    &&& final(self).presets@ == sort_by_name(old(self).presets@.push(copy))
                    &&& i < final(self).presets@.len()
                    &&& spec_safe_filename(final(self).presets@[i as int].name@)
                        == spec_safe_filename(new_name@)
                }),
            final(self).quick_slots == old(self).quick_slots,
            final(self).current_index == old(self).current_index,
    {
        if index >= self.presets.len() {
            return Err(PresetError::InvalidIndex(index));
        }
        let source = &self.presets[index];
        let copy = Preset {
            name: crate::text::string_of(new_name),
            timestamp,
            description: crate::text::string_of(source.description.as_str()),
            values: source.values.clone(),
        };
        let i = self.add_preset(copy);
        Ok(i)
    }
}

proof fn lemma_sort_keeps<V>(s: Seq<Preset<V>>)
    ensures
        forall|x: Preset<V>| s.contains(x) ==> sort_by_name(s).contains(x),
    decreases s.len(),
{
    if s.len() > 0 {
        lemma_sort_keeps(s.drop_last());
        let t = sort_by_name(s.drop_last());
        let p = insert_position(t, s.last().name@, 0);
        lemma_insert_position(t, s.last().name@, 0);
        let r = t.insert(p, s.last());
        assert forall|x: Preset<V>| s.contains(x) implies r.contains(x) by {
            let w = choose|w: int| 0 <= w < s.len() && s[w] == x;
            if w == s.len() - 1 {
                assert(r[p] == x);
            } else {
                assert(s.drop_last()[w] == x);
                assert(s.drop_last().contains(x));
                let v = choose|v: int| 0 <= v < t.len() && t[v] == x;
                if v < p {
                    assert(r[v] == x);
                } else {
                    assert(r[v + 1] == x);
                }
            }
        }
    }
}

/// Deleting a preset keeps every quick slot and the selection on the
/// preset it pointed at, unless it pointed at the deleted one.
pub proof fn lemma_delete_keeps_slot_targets<V>(
    presets: Seq<Preset<V>>,
    removed: usize,
    slot: Option<usize>,
)
    requires
        removed < presets.len(),
        slot matches Some(i) && i < presets.len() && i != removed,
    ensures
        slot_after_delete(slot, removed) matches Some(j) && j < presets.remove(
            removed as int,
        ).len() && presets.remove(removed as int)[j as int] == presets[slot->0 as int],
{
}

/// A slot that pointed at the deleted preset is emptied.
pub proof fn lemma_delete_clears_slot_of_removed(removed: usize)
    ensures
        slot_after_delete(Some(removed), removed) is None,
{
}

} // verus!
