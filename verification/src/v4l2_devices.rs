//! V4L2 device enumeration.
//!
//! `/dev/video*` nodes are listed in name order and classified as capture or
//! output devices by the capabilities the driver reports; the GUI offers
//! them as V4L2 inputs and loopback outputs.
use vstd::prelude::*;
use crate::presets::{lemma_name_le_total, lemma_name_le_transitive, name_le, name_le_exec};
use crate::text::{
    digits_value, is_digit, digit_value, has_prefix, push_str, starts_with, string_of,
};

verus! {

/// Information about one V4L2 device node.
#[derive(Debug, Clone)]
pub struct V4l2DeviceInfo {
    /// Path, e.g. `/dev/video10`.
    pub path: String,
    /// Numeric suffix of the path (`10` for `/dev/video10`).
    pub index: u32,
    /// Card name reported by the driver.
    pub card: String,
    /// Driver name.
    pub driver: String,
}

impl V4l2DeviceInfo {
    /// Label for UI combos: `card (path)`.
    pub fn display_name(&self) -> (r: String)
        ensures
            r@ == self.card@ + seq![' ', '('] + self.path@ + seq![')'],
    {
        let mut r = string_of(self.card.as_str());
        crate::text::push_char(&mut r, ' ');
        crate::text::push_char(&mut r, '(');
        push_str(&mut r, self.path.as_str());
        crate::text::push_char(&mut r, ')');
        proof {
            assert(r@ =~= self.card@ + seq![' ', '('] + self.path@ + seq![')']);
        }
        r
    }
}

/// The device-node prefix of a file name.
pub open spec fn video_prefix() -> Seq<char> {
    seq!['v', 'i', 'd', 'e', 'o']
}

/// Whether `name` names a video device node: `video` followed only by
/// ASCII digits (possibly none).
pub open spec fn is_video_node_name(name: Seq<char>) -> bool {
    has_prefix(name, video_prefix()) && forall|k: int|
        5 <= k < name.len() ==> is_digit(#[trigger] name[k])
}

/// The index of a video node: the number after `video`, or `u32::MAX` when
/// there is no digit or the number does not fit in a `u32`.
pub open spec fn video_node_index(name: Seq<char>) -> u32 {
    let digits = name.subrange(5, name.len() as int);
    if digits.len() == 0 || digits_value(digits) > u32::MAX {
        u32::MAX
    } else {
        digits_value(digits) as u32
    }
}

/// Classify a `/dev` entry name: `None` unless it is a video node name,
/// otherwise its index (see [`video_node_index`]).
pub fn parse_video_node_name(name: &str) -> (r: Option<u32>)
    ensures
        r is Some <==> is_video_node_name(name@),
        r is Some ==> r->0 == video_node_index(name@),
{
    let prefix = "video";
    proof {
        reveal_strlit("video");
        assert(prefix@ =~= video_prefix());
    }
    if !starts_with(name, prefix) {
        return None;
    }
    let len = name.unicode_len();
    let ghost digits = name@.subrange(5, len as int);
    let mut i: usize = 5;
    let mut acc: u64 = 0;
    let mut overflow = false;
    while i < len
        invariant
            5 <= i <= len,
            len == name@.len(),
            digits == name@.subrange(5, len as int),
            forall|k: int| 5 <= k < i ==> is_digit(#[trigger] name@[k]),
            overflow <==> digits_value(name@.subrange(5, i as int)) > u32::MAX,
            !overflow ==> acc == digits_value(name@.subrange(5, i as int)),
        decreases len - i,
    {
        let c = name.get_char(i);
        if !('0' <= c && c <= '9') {
            assert(!is_digit(name@[i as int]));
            return None;
        }
        let ghost prev = name@.subrange(5, i as int);
        proof {
            let next = name@.subrange(5, i + 1);
            assert(next.drop_last() =~= prev);
            assert(next.last() == c);
            crate::text::lemma_digits_nonneg_of(prev, name@, i as int);
        }
        if !overflow {
            let d: u64 = (c as u32 - 48) as u64;
            acc = acc * 10 + d;
            if acc > 0xFFFF_FFFF {
                overflow = true;
            }
        }
        i = i + 1;
    }
    if len == 5 || overflow {
        Some(u32::MAX)
    } else {
        Some(acc as u32)
    }
}

/// Whether every capability bit of `required` is set in `caps`.
pub fn has_capabilities(caps: u32, required: u32) -> (r: bool)
    ensures
        r == (caps & required == required),
{
    caps & required == required
}

/// `VIDEO_CAPTURE` capability bit.
pub const CAP_VIDEO_CAPTURE: u32 = 0x0000_0001;

/// `VIDEO_OUTPUT` capability bit.
pub const CAP_VIDEO_OUTPUT: u32 = 0x0000_0002;

/// A video node found among the `/dev` entries: its file name and index.
#[derive(Debug, Clone)]
pub struct VideoNode {
    pub name: String,
    pub index: u32,
}

/// The names among `entries` that name video nodes, in the order given.
pub open spec fn video_names(entries: Seq<String>) -> Seq<Seq<char>>
    decreases entries.len(),
{
    if entries.len() == 0 {
        Seq::empty()
    } else {
        let rest = video_names(entries.drop_last());
        if is_video_node_name(entries.last()@) {
            rest.push(entries.last()@)
        } else {
            rest
        }
    }
}

/// Where `key` goes in `s`: after every leading name that sorts before or
/// equal to it.
pub open spec fn name_position(s: Seq<Seq<char>>, key: Seq<char>, j: int) -> int
    decreases s.len() - j,
{
    if j >= s.len() {
        s.len() as int
    } else if name_le(s[j], key) {
        name_position(s, key, j + 1)
    } else {
        j
    }
}

/// The names of `s` in name order (a stable insertion sort).
pub open spec fn sort_names(s: Seq<Seq<char>>) -> Seq<Seq<char>>
    decreases s.len(),
{
    if s.len() == 0 {
        s
    } else {
        let sorted = sort_names(s.drop_last());
        sorted.insert(name_position(sorted, s.last(), 0), s.last())
    }
}

/// Whether the names of `s` are in name order.
pub open spec fn names_in_order(s: Seq<Seq<char>>) -> bool {
    forall|i: int, j: int| 0 <= i < j < s.len() ==> name_le(#[trigger] s[i], #[trigger] s[j])
}

proof fn lemma_name_position(s: Seq<Seq<char>>, key: Seq<char>, from: int)
    requires
        0 <= from <= s.len(),
    ensures
        from <= name_position(s, key, from) <= s.len(),
        forall|j: int| from <= j < name_position(s, key, from) ==> name_le(#[trigger] s[j], key),
        name_position(s, key, from) < s.len() ==> !name_le(s[name_position(s, key, from)], key),
    decreases s.len() - from,
{
    if from < s.len() && name_le(s[from], key) {
        lemma_name_position(s, key, from + 1);
    }
}

/// Sorting yields the names in name order, as many as were given, each
/// one of the given names.
pub proof fn lemma_sort_names_in_order(s: Seq<Seq<char>>)
    ensures
        names_in_order(sort_names(s)),
        sort_names(s).len() == s.len(),
        forall|i: int| 0 <= i < s.len() ==> #[trigger] s.contains(sort_names(s)[i]),
    decreases s.len(),
{
    if s.len() > 0 {
        let rest = s.drop_last();
        let x = s.last();
        lemma_sort_names_in_order(rest);
        let sorted = sort_names(rest);
        let p = name_position(sorted, x, 0);
        lemma_name_position(sorted, x, 0);
        let r = sorted.insert(p, x);
        assert forall|i: int, j: int| 0 <= i < j < r.len() implies name_le(
            #[trigger] r[i],
            #[trigger] r[j],
        ) by {
            if i < p && j < p {
                assert(r[i] == sorted[i] && r[j] == sorted[j]);
            } else if i < p && j == p {
                assert(r[i] == sorted[i] && r[j] == x);
            } else if i < p && j > p {
                assert(r[i] == sorted[i] && r[j] == sorted[j - 1]);
                if i < j - 1 {
                    assert(name_le(sorted[i], sorted[j - 1]));
                }
            } else if i == p {
                assert(r[i] == x && r[j] == sorted[j - 1]);
                lemma_name_le_total(sorted[p], x);
                if j - 1 > p {
                    assert(name_le(sorted[p], sorted[j - 1]));
                    lemma_name_le_transitive(x, sorted[p], sorted[j - 1]);
                }
            } else {
                assert(r[i] == sorted[i - 1] && r[j] == sorted[j - 1]);
            }
        }
        assert forall|i: int| 0 <= i < s.len() implies #[trigger] s.contains(r[i]) by {
            if i == p {
                assert(s[s.len() - 1] == x);
            } else {
                let k = if i < p { i } else { i - 1 };
                assert(r[i] == sorted[k]);
                assert(rest.contains(sorted[k]));
                let w = choose|w: int| 0 <= w < rest.len() && rest[w] == sorted[k];
                assert(s[w] == rest[w]);
            }
        }
    }
}

/// The video nodes among the `/dev` entry names, in name order, each
/// with its index (see [`video_node_index`]).
pub fn video_nodes(entries: &[String]) -> (r: Vec<VideoNode>)
    ensures
        r@.len() == sort_names(video_names(entries@)).len(),
        forall|i: int|
            0 <= i < r@.len() ==> {
                &&& (#[trigger] r@[i]).name@ == sort_names(video_names(entries@))[i]
                &&& r@[i].index == video_node_index(r@[i].name@)
            },
{
    let mut out: Vec<VideoNode> = Vec::new();
    let mut k: usize = 0;
    proof {
        assert(entries@.subrange(0, 0) =~= Seq::<String>::empty());
    }
    while k < entries.len()
        invariant
            k <= entries@.len(),
            out@.len() == sort_names(video_names(entries@.subrange(0, k as int))).len(),
            forall|i: int|
                0 <= i < out@.len() ==> {
                    &&& (#[trigger] out@[i]).name@ == sort_names(
                        video_names(entries@.subrange(0, k as int)),
                    )[i]
                    &&& out@[i].index == video_node_index(out@[i].name@)
                },
        decreases entries@.len() - k,
    {
        let ghost prefix = entries@.subrange(0, k as int);
        let ghost next = entries@.subrange(0, k + 1);
        proof {
            assert(next.drop_last() =~= prefix);
            assert(next.last() == entries@[k as int]);
        }
        let name = &entries[k];
        match parse_video_node_name(name.as_str()) {
            Some(index) => {
                let ghost sorted = sort_names(video_names(prefix));
                proof {
                    lemma_name_position(sorted, name@, 0);
                }
                let mut pos: usize = 0;
                while pos < out.len() && name_le_exec(out[pos].name.as_str(), name.as_str())
                    invariant
                        pos <= out@.len(),
                        out@.len() == sorted.len(),
                        forall|i: int| 0 <= i < out@.len() ==> (#[trigger] out@[i]).name@ == sorted[i],
                        name_position(sorted, name@, 0) == name_position(sorted, name@, pos as int),
                    decreases out@.len() - pos,
                {
                    pos = pos + 1;
                }
                let ghost before = out@;
                out.insert(pos, VideoNode { name: string_of(name.as_str()), index });
                proof {
                    let target = sorted.insert(pos as int, name@);
                    assert(video_names(next) == video_names(prefix).push(name@));
                    assert(sort_names(video_names(next)) =~= target) by {
                        assert(video_names(next).drop_last() =~= video_names(prefix));
                    }
                    assert forall|i: int| 0 <= i < out@.len() implies {
                        &&& (#[trigger] out@[i]).name@ == target[i]
                        &&& out@[i].index == video_node_index(out@[i].name@)
                    } by {
                        if i < pos {
                            assert(out@[i] == before[i]);
                        } else if i > pos {
                            assert(out@[i] == before[i - 1]);
                        }
                    }
                }
            },
            None => {
                proof {
                    assert(video_names(next) == video_names(prefix));
                }
            },
        }
        k = k + 1;
    }
    proof {
        assert(entries@.subrange(0, entries@.len() as int) =~= entries@);
    }
    out
}

/// What probing a video node reported: its capability bits, card name
/// and driver name (`None` when it could not be opened or queried).
pub type NodeProbe = Option<(u32, String, String)>;

/// The devices kept from `nodes` and their probes: each node whose probe
/// succeeded with every `required` capability bit, as
/// `(path, index, card, driver)`, in order; the path is `/dev/` followed
/// by the node's name.
pub open spec fn capable_devices(
    nodes: Seq<VideoNode>,
    probes: Seq<NodeProbe>,
    required: u32,
) -> Seq<(Seq<char>, u32, Seq<char>, Seq<char>)>
    decreases nodes.len(),
{
    if nodes.len() == 0 {
        Seq::empty()
    } else {
        let rest = capable_devices(nodes.drop_last(), probes.drop_last(), required);
        match probes.last() {
            Some((caps, card, driver)) => if caps & required == required {
                rest.push(
                    (
                        seq!['/', 'd', 'e', 'v', '/'] + nodes.last().name@,
                        nodes.last().index,
                        card@,
                        driver@,
                    ),
                )
            } else {
                rest
            },
            None => rest,
        }
    }
}

/// The device list offered for `required` capabilities (capture or
/// output), from the video nodes in name order and what probing each
/// reported; see [`capable_devices`].
pub fn select_devices(nodes: Vec<VideoNode>, probes: Vec<NodeProbe>, required: u32) -> (r: Vec<
    V4l2DeviceInfo,
>)
    requires
        nodes@.len() == probes@.len(),
    ensures
        r@.len() == capable_devices(nodes@, probes@, required).len(),
        forall|i: int|
            0 <= i < r@.len() ==> ((#[trigger] r@[i]).path@, r@[i].index, r@[i].card@, r@[i].driver@)
                == capable_devices(nodes@, probes@, required)[i],
{
    let ghost n0 = nodes@;
    let ghost p0 = probes@;
    let mut out: Vec<V4l2DeviceInfo> = Vec::new();
    let mut k: usize = 0;
    proof {
        assert(n0.subrange(0, 0) =~= Seq::<VideoNode>::empty());
    }
    while k < nodes.len()
        invariant
            k <= n0.len(),
            n0.len() == p0.len(),
            nodes@ == n0,
            probes@ == p0,
            out@.len() == capable_devices(n0.subrange(0, k as int), p0.subrange(0, k as int), required).len(),
            forall|i: int|
                0 <= i < out@.len() ==> ((#[trigger] out@[i]).path@, out@[i].index, out@[i].card@,
                out@[i].driver@) == capable_devices(
                    n0.subrange(0, k as int),
                    p0.subrange(0, k as int),
                    required,
                )[i],
        decreases n0.len() - k,
    {
        let ghost nk = n0.subrange(0, k + 1);
        let ghost pk = p0.subrange(0, k + 1);
        proof {
            assert(nk.drop_last() =~= n0.subrange(0, k as int));
            assert(pk.drop_last() =~= p0.subrange(0, k as int));
            assert(nk.last() == n0[k as int]);
            assert(pk.last() == p0[k as int]);
        }
        match &probes[k] {
            Some((caps, card, driver)) => {
                if has_capabilities(*caps, required) {
                    let mut path = string_of("/dev/");
                    proof {
                        reveal_strlit("/dev/");
                    }
                    push_str(&mut path, nodes[k].name.as_str());
                    out.push(
                        V4l2DeviceInfo {
                            path,
                            index: nodes[k].index,
                            card: string_of(card.as_str()),
                            driver: string_of(driver.as_str()),
                        },
                    );
                }
            },
            None => {},
        }
        k = k + 1;
    }
    proof {
        assert(n0.subrange(0, n0.len() as int) =~= n0);
        assert(p0.subrange(0, p0.len() as int) =~= p0);
    }
    out
}

} // verus!
