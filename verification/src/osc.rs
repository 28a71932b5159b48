//! OSC addresses, the registry of parameters an OSC server answers to,
//! and the log of recent messages.
//!
//! Addresses have the form `/[base]/[tab]/[parameter]`; a parameter may be
//! addressed by its full address or by the part after the base. Parameter
//! values live in the registry's payloads.
use vstd::prelude::*;

pub mod packet;
use crate::text::{
    has_prefix, push_char, push_str, replace_char, starts_with, string_of, trim_end_char,
    trim_start_char, trimmed_end_len, trimmed_start_count,
};

verus! {

/// The separator shown between address components for display.
pub open spec fn display_separator() -> Seq<char> {
    seq![' ', '\u{2192}', ' ']
}

/// `base` without trailing slashes, then `/tab/param`.
pub open spec fn spec_make_address(base: Seq<char>, tab: Seq<char>, param: Seq<char>) -> Seq<
    char,
> {
    trim_end_char(base, '/') + seq!['/'] + tab + seq!['/'] + param
}

/// Build an OSC address from its components: `base` (trailing slashes
/// dropped), `/`, `tab`, `/`, `param`.
pub fn make_address(base: &str, tab: &str, param: &str) -> (r: String)
    ensures
        r@ == spec_make_address(base@, tab@, param@),
{
    let n = trimmed_end_len(base, '/');
    let mut r = String::new();
    let mut i: usize = 0;
    while i < n
        invariant
            i <= n,
            n <= base@.len(),
            r@ == base@.subrange(0, i as int),
        decreases n - i,
    {
        let c = base.get_char(i);
        push_char(&mut r, c);
        proof {
            assert(base@.subrange(0, i + 1) =~= base@.subrange(0, i as int).push(c));
        }
        i = i + 1;
    }
    push_char(&mut r, '/');
    push_str(&mut r, tab);
    push_char(&mut r, '/');
    push_str(&mut r, param);
    proof {
        assert(r@ =~= spec_make_address(base@, tab@, param@));
    }
    r
}

/// An address for display: leading slashes dropped and every remaining `/`
/// shown as ` → `.
pub fn format_address_for_display(address: &str) -> (r: String)
    ensures
        r@ == replace_char(trim_start_char(address@, '/'), '/', display_separator()),
{
    let k = trimmed_start_count(address, '/');
    let len = address.unicode_len();
    let mut r = String::new();
    let mut i: usize = k;
    proof {
        assert(address@.subrange(k as int, k as int) =~= Seq::<char>::empty());
    }
    while i < len
        invariant
            k <= i <= len,
            len == address@.len(),
            r@ == replace_char(address@.subrange(k as int, i as int), '/', display_separator()),
        decreases len - i,
    {
        let c = address.get_char(i);
        let ghost prev = address@.subrange(k as int, i as int);
        proof {
            let next = address@.subrange(k as int, i + 1);
            assert(next.drop_last() =~= prev);
            assert(next.last() == c);
        }
        if c == '/' {
            push_char(&mut r, ' ');
            push_char(&mut r, '\u{2192}');
            push_char(&mut r, ' ');
            proof {
                assert(r@ =~= replace_char(prev, '/', display_separator()) + display_separator());
            }
        } else {
            push_char(&mut r, c);
            proof {
                assert(r@ =~= replace_char(prev, '/', display_separator()) + seq![c]);
            }
        }
        i = i + 1;
    }
    proof {
        assert(address@.subrange(k as int, len as int) == trim_start_char(address@, '/'));
    }
    r
}

/// The base prefix as stored: `base` itself when it starts with `/`,
/// otherwise `/` followed by `base`.
pub open spec fn spec_normalize_base(base: Seq<char>) -> Seq<char> {
    if base.len() > 0 && base[0] == '/' {
        base
    } else {
        seq!['/'] + base
    }
}

/// Normalise a base address so that it starts with `/`.
pub fn normalize_base_address(base: &str) -> (r: String)
    ensures
        r@ == spec_normalize_base(base@),
{
    let slash = "/";
    proof {
        reveal_strlit("/");
        assert(slash@ =~= seq!['/']);
        if base@.len() > 0 {
            if base@[0] == '/' {
                assert(base@.subrange(0, 1) =~= seq!['/']);
            } else {
                assert(base@.subrange(0, 1)[0] != seq!['/'][0]);
            }
        }
    }
    if starts_with(base, slash) {
        string_of(base)
    } else {
        let mut r = String::new();
        push_char(&mut r, '/');
        push_str(&mut r, base);
        r
    }
}

/// The full form of `address` under `base`: the address itself when it
/// already starts with the base, otherwise the base followed by it.
pub open spec fn spec_full_address(base: Seq<char>, address: Seq<char>) -> Seq<char> {
    if has_prefix(address, base) {
        address
    } else {
        base + address
    }
}

/// Resolve a parameter address against the base prefix.
pub fn full_address(base: &str, address: &str) -> (r: String)
    ensures
        r@ == spec_full_address(base@, address@),
{
    if starts_with(address, base) {
        string_of(address)
    } else {
        let mut r = string_of(base);
        push_str(&mut r, address);
        r
    }
}

/// Resolving a full address is idempotent: an address resolved under a
/// base resolves to itself.
pub proof fn lemma_full_address_idempotent(base: Seq<char>, address: Seq<char>)
    ensures
        spec_full_address(base, spec_full_address(base, address)) == spec_full_address(
            base,
            address,
        ),
{
    let r = spec_full_address(base, address);
    if !has_prefix(address, base) {
        assert((base + address).subrange(0, base.len() as int) =~= base);
    }
}

/// The address of a parameter built by [`make_address`] from a base that
/// does not end with `/` starts with that base.
pub proof fn lemma_made_address_under_base(base: Seq<char>, tab: Seq<char>, param: Seq<char>)
    requires
        base.len() == 0 || base.last() != '/',
    ensures
        has_prefix(spec_make_address(base, tab, param), base),
{
    assert(trim_end_char(base, '/') == base);
    let a = spec_make_address(base, tab, param);
    assert(a.subrange(0, base.len() as int) =~= base);
}

/// A registered parameter: its full address and what is kept for it.
pub struct OscEntry<P> {
    pub address: String,
    pub param: P,
}

/// Index of the entry registered under `address`, or `entries.len()`.
pub open spec fn entry_index<P>(entries: Seq<OscEntry<P>>, address: Seq<char>) -> int
    decreases entries.len(),
{
    if entries.len() == 0 {
        0
    } else if entry_index(entries.drop_last(), address) < entries.len() - 1 {
        entry_index(entries.drop_last(), address)
    } else if entries.last().address@ == address {
        entries.len() - 1
    } else {
        entries.len() as int
    }
}

/// No address is registered twice.
pub open spec fn addresses_unique<P>(entries: Seq<OscEntry<P>>) -> bool {
    forall|i: int, j: int|
        0 <= i < j < entries.len() ==> (#[trigger] entries[i]).address@ != (
        #[trigger] entries[j]).address@
}

/// `entry_index` finds the first entry with the address, or none.
pub proof fn lemma_entry_index<P>(entries: Seq<OscEntry<P>>, address: Seq<char>)
    ensures
        0 <= entry_index(entries, address) <= entries.len(),
        entry_index(entries, address) < entries.len() ==> entries[entry_index(
            entries,
            address,
        )].address@ == address,
        forall|j: int|
            0 <= j < entry_index(entries, address) ==> (#[trigger] entries[j]).address@
                != address,
    decreases entries.len(),
{
    if entries.len() > 0 {
        lemma_entry_index(entries.drop_last(), address);
        assert forall|j: int| 0 <= j < entries.len() - 1 implies entries.drop_last()[j]
            == #[trigger] entries[j] by {}
    }
}

/// The parameters an OSC server answers to, by full address
/// (`base` + relative address), each with its payload `P`.
pub struct OscRegistry<P> {
    base_address: String,
    entries: Vec<OscEntry<P>>,
}

impl<P> OscRegistry<P> {
    pub closed spec fn spec_base(&self) -> Seq<char> {
        self.base_address@
    }

    pub closed spec fn spec_entries(&self) -> Seq<OscEntry<P>> {
        self.entries@
    }

    /// Well-formed: no address twice.
    pub closed spec fn wf(&self) -> bool {
        addresses_unique(self.entries@)
    }

    /// No parameter yet, under the base address normalised to start with
    /// `/`.
    pub fn new(base_address: &str) -> (r: Self)
        ensures
            r.wf(),
            r.spec_base() == spec_normalize_base(base_address@),
            r.spec_entries().len() == 0,
    {
        OscRegistry { base_address: normalize_base_address(base_address), entries: Vec::new() }
    }

    /// The base address.
    pub fn base_address(&self) -> (r: &str)
        ensures
            r@ == self.spec_base(),
    {
        self.base_address.as_str()
    }

    /// Number of registered parameters.
    pub fn len(&self) -> (r: usize)
        ensures
            r == self.spec_entries().len(),
    {
        self.entries.len()
    }

    fn index_of(&self, full: &str) -> (r: usize)
        ensures
            r == entry_index(self.entries@, full@),
    {
        proof {
            lemma_entry_index(self.entries@, full@);
        }
        let mut i: usize = 0;
        while i < self.entries.len()
            invariant
                i <= self.entries@.len(),
                forall|j: int| 0 <= j < i ==> (#[trigger] self.entries@[j]).address@ != full@,
                0 <= entry_index(self.entries@, full@) <= self.entries@.len(),
                entry_index(self.entries@, full@) < self.entries@.len() ==> self.entries@[entry_index(
                    self.entries@,
                    full@,
                )].address@ == full@,
                forall|j: int|
                    0 <= j < entry_index(self.entries@, full@) ==> (
                    #[trigger] self.entries@[j]).address@ != full@,
            decreases self.entries@.len() - i,
        {
            if crate::text::str_eq(self.entries[i].address.as_str(), full) {
                return i;
            }
            i = i + 1;
        }
        i
    }

    /// Register `param` under the base followed by `address`, replacing
    /// a parameter registered there before.
    pub fn register(&mut self, address: &str, param: P)
        requires
            old(self).wf(),
        ensures
            final(self).wf(),
            final(self).spec_base() == old(self).spec_base(),
            ({
                let full = old(self).spec_base() + address@;
                let idx = entry_index(old(self).spec_entries(), full);
                let entry = OscEntry { address: final(self).spec_entries()[idx].address, param };
                &&& final(self).spec_entries()[idx].address@ == full
                &&& if idx < old(self).spec_entries().len() {
                    final(self).spec_entries() == old(self).spec_entries().update(idx, entry)
                } else {
                    final(self).spec_entries() == old(self).spec_entries().push(entry)
                }
            }),
    {
        let mut full = string_of(self.base_address.as_str());
        push_str(&mut full, address);
        let idx = self.index_of(full.as_str());
        proof {
            lemma_entry_index(self.entries@, full@);
        }
        if idx < self.entries.len() {
            self.entries[idx].param = param;
        } else {
            self.entries.push(OscEntry { address: full, param });
        }
    }

    /// The full address `address` stands for under the base.
    pub fn resolve(&self, address: &str) -> (r: String)
        ensures
            r@ == spec_full_address(self.spec_base(), address@),
    {
        full_address(self.base_address.as_str(), address)
    }

    /// Whether a parameter answers to `address` (full, or relative to the
    /// base).
    pub fn has_parameter(&self, address: &str) -> (r: bool)
        ensures
            r == (entry_index(self.spec_entries(), spec_full_address(self.spec_base(), address@))
                < self.spec_entries().len()),
    {
        let full = self.resolve(address);
        self.index_of(full.as_str()) < self.entries.len()
    }

    /// The parameter answering to `address`, if any.
    pub fn get(&self, address: &str) -> (r: Option<&P>)
        ensures
            ({
                let idx = entry_index(
                    self.spec_entries(),
                    spec_full_address(self.spec_base(), address@),
                );
                if idx < self.spec_entries().len() {
                    r == Some(&self.spec_entries()[idx].param)
                } else {
                    r is None
                }
            }),
    {
        let full = self.resolve(address);
        let idx = self.index_of(full.as_str());
        if idx < self.entries.len() {
            Some(&self.entries[idx].param)
        } else {
            None
        }
    }

    /// Replace the payload of the parameter answering to `address`.
    /// Returns whether there was one.
    pub fn set(&mut self, address: &str, param: P) -> (found: bool)
        requires
            old(self).wf(),
        ensures
            final(self).wf(),
            final(self).spec_base() == old(self).spec_base(),
            ({
                let idx = entry_index(
                    old(self).spec_entries(),
                    spec_full_address(old(self).spec_base(), address@),
                );
                &&& found == (idx < old(self).spec_entries().len())
                &&& if found {
                    final(self).spec_entries() == old(self).spec_entries().update(
                        idx,
                        OscEntry { address: old(self).spec_entries()[idx].address, param },
                    )
                } else {
                    final(self).spec_entries() == old(self).spec_entries()
                }
            }),
    {
        let full = self.resolve(address);
        let idx = self.index_of(full.as_str());
        if idx < self.entries.len() {
            self.entries[idx].param = param;
            true
        } else {
            false
        }
    }
}

/// A parameter registered under `address` is found by its full address
/// (the base followed by `address`), and holds what was registered.
pub proof fn lemma_registered_is_found<P>(
    before: Seq<OscEntry<P>>,
    after: Seq<OscEntry<P>>,
    base: Seq<char>,
    address: Seq<char>,
    param: P,
)
    requires
        addresses_unique(before),
        addresses_unique(after),
        ({
            let full = base + address;
            let idx = entry_index(before, full);
            let entry = OscEntry { address: after[idx].address, param };
            &&& after[idx].address@ == full
            &&& if idx < before.len() {
                after == before.update(idx, entry)
            } else {
                after == before.push(entry)
            }
        }),
    ensures
        ({
            let found = entry_index(after, spec_full_address(base, base + address));
            &&& found < after.len()
            &&& after[found].param == param
        }),
{
    let full = base + address;
    assert(full.subrange(0, base.len() as int) =~= base);
    assert(spec_full_address(base, full) == full);
    let idx = entry_index(before, full);
    lemma_entry_index(before, full);
    lemma_entry_index(after, full);
    let found = entry_index(after, full);
    assert(idx < after.len());
    assert(after[idx].address@ == full);
    if found < idx {
        assert(after[found].address@ == full);
    }
    if found != idx {
        assert(found < after.len());
        assert(after[found].address@ == full);
        assert(false);
    }
}

/// Replacing the payload at an address keeps every address, so the same
/// address then finds the new payload.
pub proof fn lemma_set_then_get<P>(before: Seq<OscEntry<P>>, full: Seq<char>, param: P)
    requires
        entry_index(before, full) < before.len(),
    ensures
        ({
            let idx = entry_index(before, full);
            let after = before.update(idx, OscEntry { address: before[idx].address, param });
            &&& entry_index(after, full) == idx
            &&& after[idx].param == param
        }),
{
    let idx = entry_index(before, full);
    let after = before.update(idx, OscEntry { address: before[idx].address, param });
    lemma_entry_index(before, full);
    lemma_entry_index(after, full);
    let found = entry_index(after, full);
    if found < idx {
        assert(after[found] == before[found]);
    }
    if found > idx {
        assert(after[idx].address@ == full);
    }
}

/// Messages kept in the log of recent OSC messages.
pub const MESSAGE_LOG_CAPACITY: usize = 100;

/// The log after `entry` is recorded: appended, and the oldest dropped
/// once more than the capacity are held.
pub open spec fn log_after<E>(log: Seq<E>, entry: E) -> Seq<E> {
    if log.len() + 1 > MESSAGE_LOG_CAPACITY {
        log.push(entry).drop_first()
    } else {
        log.push(entry)
    }
}

/// The most recent OSC messages, oldest first, at most
/// [`MESSAGE_LOG_CAPACITY`] of them.
pub struct MessageLog<E> {
    entries: Vec<E>,
}

impl<E> MessageLog<E> {
    pub closed spec fn spec_entries(&self) -> Seq<E> {
        self.entries@
    }

    /// An empty log.
    pub fn new() -> (r: Self)
        ensures
            r.spec_entries().len() == 0,
    {
        MessageLog { entries: Vec::new() }
    }

    /// Record a message; the oldest goes once the log is over capacity.
    pub fn record(&mut self, entry: E)
        ensures
            final(self).spec_entries() == log_after(old(self).spec_entries(), entry),
    {
        self.entries.push(entry);
        if self.entries.len() > MESSAGE_LOG_CAPACITY {
            let _oldest = self.entries.remove(0);
        }
    }

    /// Forget every message.
    pub fn clear(&mut self)
        ensures
            final(self).spec_entries().len() == 0,
    {
        self.entries.clear();
    }

    /// The messages, oldest first.
    pub fn entries(&self) -> (r: &[E])
        ensures
            r@ == self.spec_entries(),
    {
        self.entries.as_slice()
    }
}

/// A log that starts within capacity stays within it.
pub proof fn lemma_log_bounded<E>(log: Seq<E>, entry: E)
    requires
        log.len() <= MESSAGE_LOG_CAPACITY,
    ensures
        log_after(log, entry).len() <= MESSAGE_LOG_CAPACITY,
        log_after(log, entry).last() == entry,
{
}

} // verus!
