//! Spout sender discovery.
//!
//! Spout senders register in a shared-memory table named
//! `SpoutSenderNames`: a flat array of 256-byte slots, each holding a
//! NUL-terminated sender name, with no count header. The first slot whose
//! first byte is zero ends the list. Readers look at no more than 64 slots.
//! Each sender also publishes a 280-byte `SharedTextureInfo` block.
use vstd::prelude::*;

verus! {

/// Bytes per name slot, NUL terminator included.
pub const SPOUT_MAX_NAME_LEN: usize = 256;

/// Number of slots in the sender-name table.
pub const SPOUT_MAX_SENDERS: usize = 64;

/// Index of the first zero byte of `s` at or after `from`, or `s.len()`.
pub open spec fn first_nul(s: Seq<u8>, from: int) -> int
    decreases s.len() - from,
{
    if from >= s.len() {
        s.len() as int
    } else if s[from] == 0 {
        from
    } else {
        first_nul(s, from + 1)
    }
}

/// The 256 bytes of slot `i` of a sender-name table.
pub open spec fn slot_bytes(table: Seq<u8>, i: int) -> Seq<u8> {
    table.subrange(i * 256, i * 256 + 256)
}

/// The name held in slot `i`: its bytes up to the first NUL (all 256 bytes
/// when there is none).
pub open spec fn slot_name(table: Seq<u8>, i: int) -> Seq<u8> {
    slot_bytes(table, i).subrange(0, first_nul(slot_bytes(table, i), 0))
}

/// The number of occupied slots from slot `i` on, among the first `max`:
/// the index of the first slot with a zero first byte, or `max`.
pub open spec fn live_slots(table: Seq<u8>, max: int, i: int) -> int
    decreases max - i,
{
    if i >= max {
        max
    } else if table[i * 256] == 0 {
        i
    } else {
        live_slots(table, max, i + 1)
    }
}

/// How many slots a reader examines in a mapped table of `len` bytes.
pub open spec fn readable_slots(len: int) -> int {
    if len / 256 < 64 {
        len / 256
    } else {
        64
    }
}

/// The sender names listed in a table whose first `max` slots are read.
pub open spec fn listed_names(table: Seq<u8>, max: int) -> Seq<Seq<u8>> {
    Seq::new(live_slots(table, max, 0) as nat, |j: int| slot_name(table, j))
}

/// `live_slots` is the first slot at or after `i` that starts with a zero
/// byte (or `max`).
pub proof fn lemma_live_slots(table: Seq<u8>, max: int, i: int, k: int)
    requires
        0 <= i <= k <= max,
        forall|j: int| i <= j < k ==> #[trigger] table[j * 256] != 0,
        k == max || table[k * 256] == 0,
    ensures
        live_slots(table, max, i) == k,
    decreases k - i,
{
    if i < k {
        lemma_live_slots(table, max, i + 1, k);
    }
}

/// `live_slots` counts from `i` up to at most `max`, and every slot it
/// passes starts with a non-zero byte.
pub proof fn lemma_live_slots_bounds(table: Seq<u8>, max: int, i: int)
    requires
        0 <= i <= max,
    ensures
        i <= live_slots(table, max, i) <= max,
        forall|j: int| i <= j < live_slots(table, max, i) ==> #[trigger] table[j * 256] != 0,
        live_slots(table, max, i) < max ==> table[live_slots(table, max, i) * 256] == 0,
    decreases max - i,
{
    if i < max && table[i * 256] != 0 {
        lemma_live_slots_bounds(table, max, i + 1);
    }
}

/// Length of the NUL-terminated name in the 256-byte slot starting at
/// `base`.
pub fn slot_name_len(table: &[u8], base: usize) -> (n: usize)
    requires
        base + 256 <= table@.len(),
    ensures
        n == first_nul(table@.subrange(base as int, base + 256), 0),
        n <= 256,
{
    let ghost s = table@.subrange(base as int, base + 256);
    let tl: usize = table.len();
    let mut n: usize = 0;
    while n < 256 && table[base + n] != 0
        invariant
            tl == table@.len(),
            n <= 256,
            base + 256 <= table@.len(),
            s == table@.subrange(base as int, base + 256),
            first_nul(s, 0) == first_nul(s, n as int),
        decreases 256 - n,
    {
        assert(s[n as int] == table@[base + n]);
        n = n + 1;
    }
    proof {
        if n < 256 {
            assert(s[n as int] == table@[base + n]);
        }
    }
    n
}

/// Whether the name in the slot starting at `base` is exactly `name`.
pub fn slot_name_equals(table: &[u8], base: usize, name: &[u8]) -> (eq: bool)
    requires
        base + 256 <= table@.len(),
    ensures
        eq == (table@.subrange(base as int, base + 256).subrange(
            0,
            first_nul(table@.subrange(base as int, base + 256), 0),
        ) == name@),
{
    let ghost s = table@.subrange(base as int, base + 256);
    let n = slot_name_len(table, base);
    let ghost sn = s.subrange(0, n as int);
    if n != name.len() {
        assert(sn.len() != name@.len());
        return false;
    }
    let tl: usize = table.len();
    let mut k: usize = 0;
    while k < n
        invariant
            tl == table@.len(),
            k <= n,
            n <= 256,
            n == name@.len(),
            base + 256 <= table@.len(),
            s == table@.subrange(base as int, base + 256),
            sn == s.subrange(0, n as int),
            n == first_nul(s, 0),
            forall|j: int| 0 <= j < k ==> sn[j] == name@[j],
        decreases n - k,
    {
        if table[base + k] != name[k] {
            assert(sn[k as int] == table@[base + k]);
            assert(sn[k as int] != name@[k as int]);
            assert(sn != name@);
            return false;
        }
        assert(sn[k as int] == table@[base + k]);
        k = k + 1;
    }
    assert(sn =~= name@);
    true
}

/// The names of the senders listed in a mapped `SpoutSenderNames` table,
/// as raw bytes, in slot order.
///
/// At most `min(table.len() / 256, 64)` slots are read; the list ends at
/// the first slot whose first byte is zero.
pub fn sender_names(table: &[u8]) -> (names: Vec<Vec<u8>>)
    ensures
        names@.len() == listed_names(table@, readable_slots(table@.len() as int)).len(),
        forall|j: int|
            0 <= j < names@.len() ==> #[trigger] names@[j]@ == listed_names(
                table@,
                readable_slots(table@.len() as int),
            )[j],
{
    let len: usize = table.len();
    let max_slots: usize = if len / SPOUT_MAX_NAME_LEN < SPOUT_MAX_SENDERS {
        len / SPOUT_MAX_NAME_LEN
    } else {
        SPOUT_MAX_SENDERS
    };
    let ghost max = max_slots as int;
    let mut names: Vec<Vec<u8>> = Vec::new();
    let mut i: usize = 0;
    while i < max_slots
        invariant
            len == table@.len(),
            max == readable_slots(len as int),
            max_slots == max,
            max * 256 <= len,
            i <= max_slots,
            forall|j: int| 0 <= j < i ==> #[trigger] table@[j * 256] != 0,
            names@.len() == i,
            forall|j: int| 0 <= j < i ==> #[trigger] names@[j]@ == slot_name(table@, j),
        decreases max_slots - i,
    {
        let base: usize = i * SPOUT_MAX_NAME_LEN;
        if table[base] == 0 {
            proof {
                lemma_live_slots(table@, max, 0, i as int);
            }
            return names;
        }
        let n = slot_name_len(table, base);
        let mut name: Vec<u8> = Vec::new();
        let mut k: usize = 0;
        while k < n
            invariant
                k <= n,
                n <= 256,
                base == i * 256,
                base + 256 <= len,
                len == table@.len(),
                name@.len() == k,
                forall|t: int| 0 <= t < k ==> name@[t] == table@[base + t],
            decreases n - k,
        {
            name.push(table[base + k]);
            k = k + 1;
        }
        proof {
            assert(name@ =~= slot_name(table@, i as int));
        }
        names.push(name);
        i = i + 1;
    }
    proof {
        lemma_live_slots(table@, max, 0, max);
    }
    names
}

/// Size in bytes of a `SharedTextureInfo` block.
pub const SHARED_TEXTURE_INFO_LEN: usize = 280;

/// The little-endian `u32` stored at byte `off` of `s`.
pub open spec fn le_u32(s: Seq<u8>, off: int) -> u32 {
    (s[off] as u32) | ((s[off + 1] as u32) << 8u32) | ((s[off + 2] as u32) << 16u32) | ((s[off
        + 3] as u32) << 24u32)
}

/// The four little-endian bytes of `v`.
pub open spec fn le_bytes(v: u32) -> Seq<u8> {
    seq![
        (v & 0xffu32) as u8,
        ((v >> 8u32) & 0xffu32) as u8,
        ((v >> 16u32) & 0xffu32) as u8,
        ((v >> 24u32) & 0xffu32) as u8,
    ]
}

/// Reading back the little-endian bytes of a `u32` gives the `u32`.
pub proof fn lemma_le_roundtrip(v: u32)
    ensures
        le_u32(le_bytes(v), 0) == v,
{
    let b = le_bytes(v);
    let b0 = (v & 0xffu32) as u8;
    let b1 = ((v >> 8u32) & 0xffu32) as u8;
    let b2 = ((v >> 16u32) & 0xffu32) as u8;
    let b3 = ((v >> 24u32) & 0xffu32) as u8;
    assert(b[0] == b0 && b[1] == b1 && b[2] == b2 && b[3] == b3);
    assert((b0 as u32) | ((b1 as u32) << 8u32) | ((b2 as u32) << 16u32) | ((b3 as u32) << 24u32)
        == v) by (bit_vector)
        requires
            b0 == (v & 0xffu32) as u8,
            b1 == ((v >> 8u32) & 0xffu32) as u8,
            b2 == ((v >> 16u32) & 0xffu32) as u8,
            b3 == ((v >> 24u32) & 0xffu32) as u8,
    ;
}

fn read_le_u32(bytes: &[u8], off: usize) -> (v: u32)
    requires
        off + 4 <= bytes@.len(),
    ensures
        v == le_u32(bytes@, off as int),
{
    (bytes[off] as u32) | ((bytes[off + 1] as u32) << 8u32) | ((bytes[off + 2] as u32) << 16u32)
        | ((bytes[off + 3] as u32) << 24u32)
}

/// The per-sender information block that Spout publishes under the
/// sender's name (280 bytes, little-endian):
/// share handle, width, height, DXGI format, usage (4 bytes each), a
/// 256-byte description, and a partner id.
pub struct SharedTextureInfo {
    /// The DXGI shared handle, truncated to 32 bits.
    pub share_handle: u32,
    pub width: u32,
    pub height: u32,
    /// DXGI format number.
    pub format: u32,
    /// Adapter index / usage.
    pub usage: u32,
    /// Sender description (the sender's executable path), 256 bytes.
    pub description: Vec<u8>,
    pub partner_id: u32,
}

impl SharedTextureInfo {
    /// The decoded information block at the start of `bytes`.
    pub open spec fn spec_decode(bytes: Seq<u8>) -> (u32, u32, u32, u32, u32, Seq<u8>, u32) {
        (
            le_u32(bytes, 0),
            le_u32(bytes, 4),
            le_u32(bytes, 8),
            le_u32(bytes, 12),
            le_u32(bytes, 16),
            bytes.subrange(20, 276),
            le_u32(bytes, 276),
        )
    }

    /// The fields of this block as a tuple, description by its bytes.
    pub open spec fn fields(&self) -> (u32, u32, u32, u32, u32, Seq<u8>, u32) {
        (
            self.share_handle,
            self.width,
            self.height,
            self.format,
            self.usage,
            self.description@,
            self.partner_id,
        )
    }

    /// Decode a block from a mapped region; `None` when the region is
    /// shorter than 280 bytes.
    pub fn from_bytes(bytes: &[u8]) -> (r: Option<SharedTextureInfo>)
        ensures
            bytes@.len() < 280 ==> r is None,
            bytes@.len() >= 280 ==> r is Some && r->0.fields() == Self::spec_decode(bytes@),
    {
        if bytes.len() < SHARED_TEXTURE_INFO_LEN {
            return None;
        }
        let mut description: Vec<u8> = Vec::new();
        let mut k: usize = 20;
        while k < 276
            invariant
                20 <= k <= 276,
                bytes@.len() >= 280,
                description@ == bytes@.subrange(20, k as int),
            decreases 276 - k,
        {
            description.push(bytes[k]);
            proof {
                assert(bytes@.subrange(20, k + 1) =~= bytes@.subrange(20, k as int).push(bytes@[k as int]));
            }
            k = k + 1;
        }
        Some(
            SharedTextureInfo {
                share_handle: read_le_u32(bytes, 0),
                width: read_le_u32(bytes, 4),
                height: read_le_u32(bytes, 8),
                format: read_le_u32(bytes, 12),
                usage: read_le_u32(bytes, 16),
                description,
                partner_id: read_le_u32(bytes, 276),
            },
        )
    }

    /// The 280-byte encoding of this block (the description must be 256
    /// bytes).
    pub fn to_bytes(&self) -> (bytes: Vec<u8>)
        requires
            self.description@.len() == 256,
        ensures
            bytes@.len() == 280,
            bytes@ == le_bytes(self.share_handle) + le_bytes(self.width) + le_bytes(self.height)
                + le_bytes(self.format) + le_bytes(self.usage) + self.description@ + le_bytes(
                self.partner_id,
            ),
    {
        let mut bytes: Vec<u8> = Vec::new();
        push_le_u32(&mut bytes, self.share_handle);
        push_le_u32(&mut bytes, self.width);
        push_le_u32(&mut bytes, self.height);
        push_le_u32(&mut bytes, self.format);
        push_le_u32(&mut bytes, self.usage);
        let ghost before = bytes@;
        let mut k: usize = 0;
        while k < 256
            invariant
                k <= 256,
                self.description@.len() == 256,
                bytes@ == before + self.description@.subrange(0, k as int),
            decreases 256 - k,
        {
            bytes.push(self.description[k]);
            proof {
                assert(self.description@.subrange(0, k + 1) =~= self.description@.subrange(
                    0,
                    k as int,
                ).push(self.description@[k as int]));
            }
            k = k + 1;
        }
        proof {
            assert(self.description@.subrange(0, 256) =~= self.description@);
        }
        push_le_u32(&mut bytes, self.partner_id);
        bytes
    }
}

fn push_le_u32(bytes: &mut Vec<u8>, v: u32)
    ensures
        final(bytes)@ == old(bytes)@ + le_bytes(v),
{
    bytes.push((v & 0xff) as u8);
    bytes.push(((v >> 8) & 0xff) as u8);
    bytes.push(((v >> 16) & 0xff) as u8);
    bytes.push(((v >> 24) & 0xff) as u8);
    proof {
        assert(final(bytes)@ =~= old(bytes)@ + le_bytes(v));
    }
}

/// Decoding the encoding of a block gives the block back.
pub proof fn lemma_shared_texture_info_roundtrip(info: SharedTextureInfo, bytes: Seq<u8>)
    requires
        info.description@.len() == 256,
        bytes == le_bytes(info.share_handle) + le_bytes(info.width) + le_bytes(info.height)
            + le_bytes(info.format) + le_bytes(info.usage) + info.description@ + le_bytes(
            info.partner_id,
        ),
    ensures
        SharedTextureInfo::spec_decode(bytes) == info.fields(),
{
    lemma_le_roundtrip(info.share_handle);
    lemma_le_roundtrip(info.width);
    lemma_le_roundtrip(info.height);
    lemma_le_roundtrip(info.format);
    lemma_le_roundtrip(info.usage);
    lemma_le_roundtrip(info.partner_id);
    assert(bytes.subrange(0, 4) =~= le_bytes(info.share_handle));
    assert(bytes.subrange(4, 8) =~= le_bytes(info.width));
    assert(bytes.subrange(8, 12) =~= le_bytes(info.height));
    assert(bytes.subrange(12, 16) =~= le_bytes(info.format));
    assert(bytes.subrange(16, 20) =~= le_bytes(info.usage));
    assert(bytes.subrange(276, 280) =~= le_bytes(info.partner_id));
    assert(bytes.subrange(20, 276) =~= info.description@);
    assert(le_u32(bytes, 0) == le_u32(bytes.subrange(0, 4), 0));
    assert(le_u32(bytes, 4) == le_u32(bytes.subrange(4, 8), 0));
    assert(le_u32(bytes, 8) == le_u32(bytes.subrange(8, 12), 0));
    assert(le_u32(bytes, 12) == le_u32(bytes.subrange(12, 16), 0));
    assert(le_u32(bytes, 16) == le_u32(bytes.subrange(16, 20), 0));
    assert(le_u32(bytes, 276) == le_u32(bytes.subrange(276, 280), 0));
}

/// A Spout sender as listed to the GUI.
#[derive(Debug, Clone)]
pub struct SpoutSenderInfo {
    /// Sender name as registered in the name table.
    pub name: String,
    /// Width of the shared texture (0 when unknown).
    pub width: u32,
    /// Height of the shared texture (0 when unknown).
    pub height: u32,
}

/// The size recorded in a sender's information block: `(0, 0)` when the
/// block could not be read or is too short.
pub open spec fn spec_sender_dimensions(block: Option<Seq<u8>>) -> (u32, u32) {
    match block {
        Some(b) => if b.len() >= 280 {
            (le_u32(b, 4), le_u32(b, 8))
        } else {
            (0u32, 0u32)
        },
        None => (0u32, 0u32),
    }
}

/// The size recorded in a sender's information block, if it was read.
pub fn read_sender_dimensions(block: Option<&[u8]>) -> (r: (u32, u32))
    ensures
        r == spec_sender_dimensions(
            match block {
                Some(b) => Some(b@),
                None => None,
            },
        ),
{
    match block {
        Some(b) => match SharedTextureInfo::from_bytes(b) {
            Some(info) => (info.width, info.height),
            None => (0, 0),
        },
        None => (0, 0),
    }
}

/// The block of an optional read, by its bytes.
pub open spec fn block_view(block: Option<Vec<u8>>) -> Option<Seq<u8>> {
    match block {
        Some(b) => Some(b@),
        None => None,
    }
}

/// The senders listed from `names` and their information blocks: each
/// non-empty name with the size recorded in its block, in order.
pub open spec fn sender_infos(names: Seq<String>, blocks: Seq<Option<Vec<u8>>>) -> Seq<
    (Seq<char>, (u32, u32)),
>
    decreases names.len(),
{
    if names.len() == 0 {
        Seq::empty()
    } else {
        let rest = sender_infos(names.drop_last(), blocks.drop_last());
        if names.last()@.len() == 0 {
            rest
        } else {
            rest.push((names.last()@, spec_sender_dimensions(block_view(blocks.last()))))
        }
    }
}

/// Discovers active Spout senders from the shared name table.
pub struct SpoutDiscovery;

impl SpoutDiscovery {
    /// The senders listed, given their names (decoded from
    /// [`sender_names`]) and each sender's information block as read (or
    /// `None` when it could not be opened); see [`sender_infos`].
    pub fn list_senders(names: Vec<String>, blocks: Vec<Option<Vec<u8>>>) -> (r: Vec<
        SpoutSenderInfo,
    >)
        requires
            names@.len() == blocks@.len(),
        ensures
            r@.len() == sender_infos(names@, blocks@).len(),
            forall|k: int|
                0 <= k < r@.len() ==> (#[trigger] r@[k]).name@ == sender_infos(names@, blocks@)[k].0
                    && (r@[k].width, r@[k].height) == sender_infos(names@, blocks@)[k].1,
    {
        let ghost n0 = names@;
        let ghost b0 = blocks@;
        let mut out: Vec<SpoutSenderInfo> = Vec::new();
        let mut names = names;
        let mut blocks = blocks;
        let ghost mut k: int = 0;
        proof {
            assert(n0.subrange(0, 0) =~= Seq::<String>::empty());
        }
        while names.len() > 0
            invariant
                0 <= k <= n0.len(),
                n0.len() == b0.len(),
                names@ == n0.subrange(k, n0.len() as int),
                blocks@ == b0.subrange(k, b0.len() as int),
                out@.len() == sender_infos(n0.subrange(0, k), b0.subrange(0, k)).len(),
                forall|j: int|
                    0 <= j < out@.len() ==> (#[trigger] out@[j]).name@ == sender_infos(
                        n0.subrange(0, k),
                        b0.subrange(0, k),
                    )[j].0 && (out@[j].width, out@[j].height) == sender_infos(
                        n0.subrange(0, k),
                        b0.subrange(0, k),
                    )[j].1,
            decreases names@.len(),
        {
            let name = names.remove(0);
            let block = blocks.remove(0);
            let ghost before = sender_infos(n0.subrange(0, k), b0.subrange(0, k));
            proof {
                assert(n0.subrange(0, k + 1).drop_last() =~= n0.subrange(0, k));
                assert(b0.subrange(0, k + 1).drop_last() =~= b0.subrange(0, k));
                assert(n0.subrange(0, k + 1).last() == name);
                assert(b0.subrange(0, k + 1).last() == block);
                assert(names@ =~= n0.subrange(k + 1, n0.len() as int));
                assert(blocks@ =~= b0.subrange(k + 1, b0.len() as int));
                k = k + 1;
            }
            if name.as_str().unicode_len() != 0 {
                let (width, height) = match &block {
                    Some(b) => read_sender_dimensions(Some(b.as_slice())),
                    None => (0, 0),
                };
                out.push(SpoutSenderInfo { name, width, height });
            }
        }
        proof {
            assert(n0.subrange(0, k) =~= n0);
            assert(b0.subrange(0, k) =~= b0);
        }
        out
    }
}

impl SharedTextureInfo {
    /// The information block a sender publishes: its share handle and
    /// size, BGRA format, usage 0, partner id 0, and as description the
    /// first 255 bytes of its executable's path (when known), zero-padded
    /// to 256 bytes.
    pub fn for_sender(share_handle: u32, width: u32, height: u32, exe_path: Option<&[u8]>) -> (r:
        SharedTextureInfo)
        ensures
            r.share_handle == share_handle,
            r.width == width,
            r.height == height,
            r.format == crate::engine::texture_utils::dxgi_format::B8G8R8A8_UNORM,
            r.usage == 0,
            r.partner_id == 0,
            r.description@.len() == 256,
            forall|k: int|
                0 <= k < 256 ==> #[trigger] r.description@[k] == (match exe_path {
                    Some(p) => if k < p@.len() && k < 255 {
                        p@[k]
                    } else {
                        0u8
                    },
                    None => 0u8,
                }),
    {
        let mut description: Vec<u8> = Vec::new();
        let copy_len: usize = match exe_path {
            Some(p) => if p.len() < 255 {
                p.len()
            } else {
                255
            },
            None => 0,
        };
        let mut k: usize = 0;
        while k < 256
            invariant
                k <= 256,
                copy_len <= 255,
                copy_len == (match exe_path {
                    Some(p) => if p@.len() < 255 {
                        p@.len() as int
                    } else {
                        255
                    },
                    None => 0,
                }),
                description@.len() == k,
                forall|j: int|
                    0 <= j < k ==> #[trigger] description@[j] == (match exe_path {
                        Some(p) => if j < p@.len() && j < 255 {
                            p@[j]
                        } else {
                            0u8
                        },
                        None => 0u8,
                    }),
            decreases 256 - k,
        {
            let b: u8 = if k < copy_len {
                match exe_path {
                    Some(p) => p[k],
                    None => 0,
                }
            } else {
                0
            };
            description.push(b);
            k = k + 1;
        }
        SharedTextureInfo {
            share_handle,
            width,
            height,
            format: crate::engine::texture_utils::dxgi_format::B8G8R8A8_UNORM,
            usage: 0,
            description,
            partner_id: 0,
        }
    }
}

/// Why a sender's shared texture cannot be opened.
#[derive(Debug, Clone, Copy, PartialEq, Eq)]
pub enum SpoutOpenError {
    /// The sender publishes a zero width or height.
    ZeroDimensions,
    /// The sender publishes no share handle.
    NullHandle,
}

/// Check a sender's information block before opening its texture: the
/// share handle, width and height when usable.
pub fn check_sender_info(info: &SharedTextureInfo) -> (r: Result<(u32, u32, u32), SpoutOpenError>)
    ensures
        (info.width == 0 || info.height == 0) ==> r == Err::<(u32, u32, u32), SpoutOpenError>(
            SpoutOpenError::ZeroDimensions,
        ),
        (info.width != 0 && info.height != 0 && info.share_handle == 0) ==> r == Err::<
            (u32, u32, u32),
            SpoutOpenError,
        >(SpoutOpenError::NullHandle),
        (info.width != 0 && info.height != 0 && info.share_handle != 0) ==> r == Ok::<
            (u32, u32, u32),
            SpoutOpenError,
        >((info.share_handle, info.width, info.height)),
{
    if info.width == 0 || info.height == 0 {
        Err(SpoutOpenError::ZeroDimensions)
    } else if info.share_handle == 0 {
        Err(SpoutOpenError::NullHandle)
    } else {
        Ok((info.share_handle, info.width, info.height))
    }
}

/// Rows `0..rows` of an image stored with a row pitch of `pitch` bytes,
/// each cut to its first `row_bytes` bytes and laid end to end.
pub open spec fn packed_rows(src: Seq<u8>, pitch: int, row_bytes: int, rows: int) -> Seq<u8>
    decreases rows,
{
    if rows <= 0 {
        Seq::empty()
    } else {
        packed_rows(src, pitch, row_bytes, rows - 1) + src.subrange(
            (rows - 1) * pitch,
            (rows - 1) * pitch + row_bytes,
        )
    }
}

/// Copy an image with padded rows (pitch `pitch`) into a packed buffer
/// of `rows * row_bytes` bytes.
pub fn pack_rows(src: &[u8], pitch: usize, row_bytes: usize, rows: usize) -> (out: Vec<u8>)
    requires
        row_bytes <= pitch,
        rows == 0 || (rows - 1) * pitch + row_bytes <= src@.len(),
    ensures
        out@ == packed_rows(src@, pitch as int, row_bytes as int, rows as int),
{
    let mut out: Vec<u8> = Vec::new();
    let mut r: usize = 0;
    let mut base: usize = 0;
    let len: usize = src.len();
    while r < rows
        invariant
            r <= rows,
            len == src@.len(),
            row_bytes <= pitch,
            rows == 0 || (rows - 1) * pitch + row_bytes <= len,
            r < rows ==> base == r * pitch,
            out@ == packed_rows(src@, pitch as int, row_bytes as int, r as int),
        decreases rows - r,
    {
        proof {
            assert(r * pitch <= (rows - 1) * pitch) by (nonlinear_arith)
                requires r <= rows - 1;
        }
        let ghost before = out@;
        let mut k: usize = 0;
        while k < row_bytes
            invariant
                k <= row_bytes,
                base + row_bytes <= len,
                len == src@.len(),
                out@ == before + src@.subrange(base as int, base + k),
            decreases row_bytes - k,
        {
            out.push(src[base + k]);
            proof {
                assert(src@.subrange(base as int, base + k + 1) =~= src@.subrange(
                    base as int,
                    base + k,
                ).push(src@[base + k]));
            }
            k = k + 1;
        }
        proof {
            assert((r + 1) * pitch == r * pitch + pitch) by (nonlinear_arith);
            if r + 1 < rows {
                assert((r + 1) * pitch <= (rows - 1) * pitch) by (nonlinear_arith)
                    requires r + 1 <= rows - 1;
            }
        }
        r = r + 1;
        if r < rows {
            base = base + pitch;
        }
    }
    out
}

/// Connection and frame state of a Spout receiver: the sender followed,
/// the size of its shared texture, and the last frame's BGRA pixels.
pub struct SpoutInputReceiver {
    pub sender_name: Option<String>,
    pub resolution: (u32, u32),
    pub pixel_buffer: Vec<u8>,
}

impl SpoutInputReceiver {
    /// Not connected, size 0x0, no pixels.
    pub fn new() -> (r: Self)
        ensures
            r.sender_name is None,
            r.resolution == (0u32, 0u32),
            r.pixel_buffer@.len() == 0,
    {
        SpoutInputReceiver { sender_name: None, resolution: (0, 0), pixel_buffer: Vec::new() }
    }

    /// Forget the sender, its size and any pixels.
    pub fn disconnect(&mut self)
        ensures
            final(self).sender_name is None,
            final(self).resolution == (0u32, 0u32),
            final(self).pixel_buffer@.len() == 0,
    {
        self.resolution = (0, 0);
        self.pixel_buffer.clear();
        self.sender_name = None;
    }

    /// Start following `sender_name` (after dropping any previous sender);
    /// its texture is opened next.
    pub fn connect(&mut self, sender_name: &str)
        ensures
            final(self).sender_name matches Some(n) && n@ == sender_name@,
            final(self).resolution == (0u32, 0u32),
            final(self).pixel_buffer@.len() == 0,
    {
        self.disconnect();
        self.sender_name = Some(crate::text::string_of(sender_name));
    }

    /// Record the size of the opened shared texture.
    pub fn texture_opened(&mut self, width: u32, height: u32)
        ensures
            final(self).resolution == (width, height),
            final(self).sender_name == old(self).sender_name,
            final(self).pixel_buffer == old(self).pixel_buffer,
    {
        self.resolution = (width, height);
    }

    /// Store a mapped frame with row pitch `row_pitch` as packed BGRA
    /// pixels of the current size.
    pub fn store_frame(&mut self, mapped: &[u8], row_pitch: usize)
        requires
            old(self).resolution.0 * 4 <= row_pitch,
            old(self).resolution.1 == 0 || (old(self).resolution.1 - 1) * row_pitch
                + old(self).resolution.0 * 4 <= mapped@.len(),
        ensures
            final(self).pixel_buffer@ == packed_rows(
                mapped@,
                row_pitch as int,
                old(self).resolution.0 * 4,
                old(self).resolution.1 as int,
            ),
            final(self).resolution == old(self).resolution,
            final(self).sender_name == old(self).sender_name,
    {
        let (w, h) = self.resolution;
        self.pixel_buffer = pack_rows(mapped, row_pitch, (w as usize) * 4, h as usize);
    }

    /// Move the pixels out: `None` when there are none.
    pub fn take_pixels(&mut self) -> (r: Option<Vec<u8>>)
        ensures
            old(self).pixel_buffer@.len() == 0 ==> r is None && final(self).pixel_buffer@.len() == 0,
            old(self).pixel_buffer@.len() > 0 ==> (r matches Some(p) && p@ == old(
                self,
            ).pixel_buffer@) && final(self).pixel_buffer@.len() == 0,
            final(self).resolution == old(self).resolution,
            final(self).sender_name == old(self).sender_name,
    {
        if self.pixel_buffer.len() == 0 {
            None
        } else {
            let mut taken: Vec<u8> = Vec::new();
            std::mem::swap(&mut taken, &mut self.pixel_buffer);
            Some(taken)
        }
    }

    /// Borrow the pixels: `None` when there are none.
    pub fn pixels(&self) -> (r: Option<&[u8]>)
        ensures
            self.pixel_buffer@.len() == 0 ==> r is None,
            self.pixel_buffer@.len() > 0 ==> (r matches Some(p) && p@ == self.pixel_buffer@),
    {
        if self.pixel_buffer.len() == 0 {
            None
        } else {
            Some(self.pixel_buffer.as_slice())
        }
    }

    /// Size of the shared texture.
    pub fn resolution(&self) -> (r: (u32, u32))
        ensures
            r == self.resolution,
    {
        self.resolution
    }
}

} // verus!
