//! MIDI control-change mapping with a learn mode.
//!
//! Each mapping binds one (controller, channel) pair to a parameter path.
//! In learn mode the next control change received is bound to the
//! parameter being learned, replacing any mapping of that pair. Each
//! mapping carries a payload `V` holding its value and output range.
use vstd::prelude::*;
use crate::text::string_of;

verus! {

broadcast use vstd::seq_lib::group_filter_ensures;

/// Commands for MIDI device and learn-mode control.
#[derive(Debug, Clone, PartialEq, Eq)]
pub enum MidiCommand {
    Idle,
    RefreshDevices,
    SelectDevice(String),
    StartLearn { param_path: String, param_name: String },
    CancelLearn,
    ClearMappings,
}

/// Learn mode state.
#[derive(Debug, Clone, Copy, PartialEq, Eq)]
pub enum LearnState {
    /// Not in learn mode.
    Idle,
    /// Waiting for a control change.
    Waiting,
    /// Learned a controller, waiting for a parameter.
    Learned { cc: u8, channel: u8 },
}

/// A received control change.
#[derive(Debug, Clone, Copy, PartialEq, Eq)]
pub struct MidiInputEvent {
    pub channel: u8,
    pub cc: u8,
    pub value: u8,
}

/// The control change carried by a raw MIDI message: `None` unless the
/// message has at least three bytes and a control-change status
/// (`0xB0` to `0xBF`).
pub open spec fn spec_parse_cc(message: Seq<u8>) -> Option<MidiInputEvent> {
    if message.len() >= 3 && (message[0] & 0xF0u8) == 0xB0u8 {
        Some(
            MidiInputEvent {
                channel: message[0] & 0x0Fu8,
                cc: message[1],
                value: message[2],
            },
        )
    } else {
        None
    }
}

/// A raw MIDI message is a control change exactly when it has at least
/// three bytes and a status byte from `0xB0` to `0xBF` (high nibble `0xB`);
/// the low nibble of the status is the channel, and the next two bytes are
/// the controller and its value. Any other status (note, aftertouch,
/// pitch bend, system) is no control change.
pub proof fn lemma_cc_is_status_b(message: Seq<u8>)
    ensures
        spec_parse_cc(message) is Some <==> (message.len() >= 3 && 0xB0 <= message[0] <= 0xBF),
        spec_parse_cc(message) is Some <==> (message.len() >= 3 && message[0] / 16 == 0xB),
        spec_parse_cc(message) matches Some(e) ==> (e.channel == message[0] - 0xB0 && e.cc
            == message[1] && e.value == message[2]),
{
    if message.len() >= 3 {
        let b = message[0];
        assert(((b & 0xF0u8) == 0xB0u8) <==> (0xB0 <= b && b <= 0xBF)) by (bit_vector);
        assert((0xB0 <= b && b <= 0xBF) ==> (b & 0x0Fu8) == b - 0xB0) by (bit_vector);
    }
}

/// Decode a raw MIDI message into a control change: `Some` exactly when
/// the message has at least three bytes and its status byte is `0xB0` to
/// `0xBF`, with the channel from the status's low nibble and the
/// controller and value from the next two bytes.
pub fn parse_cc_message(message: &[u8]) -> (r: Option<MidiInputEvent>)
    ensures
        r == spec_parse_cc(message@),
        r is Some <==> (message@.len() >= 3 && 0xB0 <= message@[0] <= 0xBF),
        r matches Some(e) ==> (e.channel == message@[0] - 0xB0 && e.cc == message@[1] && e.value
            == message@[2]),
{
    proof {
        lemma_cc_is_status_b(message@);
    }
    if message.len() >= 3 {
        let status = message[0];
        if (status & 0xF0) == 0xB0 {
            return Some(MidiInputEvent { channel: status & 0x0F, cc: message[1], value: message[2] });
        }
    }
    None
}

/// A mapping of one controller on one channel to a parameter.
pub struct MidiMapping<V> {
    /// Controller number (0-127).
    pub cc: u8,
    /// MIDI channel (0-15).
    pub channel: u8,
    /// Human-readable parameter name.
    pub name: String,
    /// Parameter path (e.g. `color/hue_shift`).
    pub param_path: String,
    /// Value and output range of the mapping.
    pub payload: V,
}

/// Whether mapping `m` listens to controller `cc` on `channel`.
pub open spec fn listens_to<V>(m: MidiMapping<V>, cc: u8, channel: u8) -> bool {
    m.cc == cc && m.channel == channel
}

/// The mappings kept when `(cc, channel)` is learned anew.
pub open spec fn kept_mappings<V>(ms: Seq<MidiMapping<V>>, cc: u8, channel: u8) -> Seq<
    MidiMapping<V>,
> {
    ms.filter(|m: MidiMapping<V>| !listens_to(m, cc, channel))
}

/// No two mappings listen to the same controller on the same channel.
pub open spec fn pairs_unique<V>(ms: Seq<MidiMapping<V>>) -> bool {
    forall|i: int, j: int|
        0 <= i < j < ms.len() ==> !listens_to(#[trigger] ms[i], ms[j].cc, #[trigger] ms[j].channel)
}

/// How completing learning with controller `cc` on `channel` (payload
/// `fresh`) takes `before` to `after`: learn mode ends and the learned
/// parameter is forgotten; when a parameter was being learned, the
/// mappings of that pair are dropped and a mapping of the pair to the
/// parameter is appended, otherwise the mappings stay; the device state
/// stays.
pub open spec fn learning_completed<V>(
    before: MidiState<V>,
    after: MidiState<V>,
    cc: u8,
    channel: u8,
    fresh: V,
) -> bool {
    &&& after.learn_state == LearnState::Idle
    &&& after.learning_param_path is None
    &&& after.learning_param_name is None
    &&& after.enabled == before.enabled
    &&& after.selected_device == before.selected_device
    &&& after.available_devices@ == before.available_devices@
    &&& (before.learning_param_path is None || before.learning_param_name is None) ==> after.mappings@
        == before.mappings@
    &&& (before.learning_param_path is Some && before.learning_param_name is Some) ==> {
        let kept = kept_mappings(before.mappings@, cc, channel);
        let last = after.mappings@.last();
        &&& after.mappings@.len() == kept.len() + 1
        &&& after.mappings@.subrange(0, kept.len() as int) == kept
        &&& last.cc == cc
        &&& last.channel == channel
        &&& last.param_path@ == before.learning_param_path->0@
        &&& last.name@ == before.learning_param_name->0@
        &&& last.payload == fresh
    }
}

/// Shared MIDI state.
pub struct MidiState<V> {
    /// All current mappings.
    pub mappings: Vec<MidiMapping<V>>,
    /// Current learn state.
    pub learn_state: LearnState,
    /// Last received input.
    pub last_input: Option<MidiInputEvent>,
    /// Currently selected device name.
    pub selected_device: Option<String>,
    /// Available devices (updated on refresh).
    pub available_devices: Vec<String>,
    /// Whether MIDI is enabled.
    pub enabled: bool,
    /// Path of the parameter being learned.
    pub learning_param_path: Option<String>,
    /// Name of the parameter being learned.
    pub learning_param_name: Option<String>,
}

impl<V> MidiState<V> {
    /// No mappings, not learning, no device, disabled.
    pub fn new() -> (r: Self)
        ensures
            r.mappings@.len() == 0,
            r.learn_state == LearnState::Idle,
            r.last_input is None,
            r.selected_device is None,
            r.available_devices@.len() == 0,
            !r.enabled,
            r.learning_param_path is None,
            r.learning_param_name is None,
    {
        MidiState {
            mappings: Vec::new(),
            learn_state: LearnState::Idle,
            last_input: None,
            selected_device: None,
            available_devices: Vec::new(),
            enabled: false,
            learning_param_path: None,
            learning_param_name: None,
        }
    }

    /// Start learning the parameter `param_path` (shown as `param_name`).
    pub fn start_learning(&mut self, param_path: &str, param_name: &str)
        ensures
            final(self).learn_state == LearnState::Waiting,
            final(self).learning_param_path matches Some(p) && p@ == param_path@,
            final(self).learning_param_name matches Some(n) && n@ == param_name@,
            final(self).mappings == old(self).mappings,
            final(self).last_input == old(self).last_input,
            final(self).enabled == old(self).enabled,
    {
        self.learn_state = LearnState::Waiting;
        self.learning_param_path = Some(string_of(param_path));
        self.learning_param_name = Some(string_of(param_name));
    }

    /// Leave learn mode without mapping anything.
    pub fn cancel_learning(&mut self)
        ensures
            final(self).learn_state == LearnState::Idle,
            final(self).learning_param_path is None,
            final(self).learning_param_name is None,
            final(self).mappings == old(self).mappings,
            final(self).last_input == old(self).last_input,
            final(self).enabled == old(self).enabled,
    {
        self.learn_state = LearnState::Idle;
        self.learning_param_path = None;
        self.learning_param_name = None;
    }

    /// Finish learning with controller `cc` on `channel`: when a parameter
    /// is being learned, mappings of that pair are dropped and a mapping of
    /// the pair to the parameter (with payload `fresh`) is appended. Learn
    /// mode ends in every case.
    pub fn complete_learning(&mut self, cc: u8, channel: u8, fresh: V)
        ensures
            learning_completed(*old(self), *final(self), cc, channel, fresh),
            final(self).last_input == old(self).last_input,
    {
        let learning = match (&self.learning_param_path, &self.learning_param_name) {
            (Some(path), Some(name)) => Some((string_of(path.as_str()), string_of(name.as_str()))),
            _ => None,
        };
        match learning {
            Some((path, name)) => {
                let ghost orig = self.mappings@;
                let ghost pred = |m: MidiMapping<V>| !listens_to(m, cc, channel);
                let mut rest: Vec<MidiMapping<V>> = Vec::new();
                std::mem::swap(&mut rest, &mut self.mappings);
                let mut kept: Vec<MidiMapping<V>> = Vec::new();
                let ghost mut k: int = 0;
                proof {
                    reveal(Seq::filter);
                    assert(orig.subrange(0, 0) =~= Seq::<MidiMapping<V>>::empty());
                    assert(orig.subrange(0, orig.len() as int) =~= orig);
                }
                while rest.len() > 0
                    invariant
                        0 <= k <= orig.len(),
                        rest@ == orig.subrange(k, orig.len() as int),
                        kept@ == orig.subrange(0, k).filter(pred),
                        pred == (|m: MidiMapping<V>| !listens_to(m, cc, channel)),
                    decreases rest@.len(),
                {
                    let m = rest.remove(0);
                    proof {
                        reveal(Seq::filter);
                        assert(orig.subrange(0, k + 1).drop_last() =~= orig.subrange(0, k));
                        assert(orig.subrange(0, k + 1).last() == m);
                        assert(rest@ =~= orig.subrange(k + 1, orig.len() as int));
                    }
                    if !(m.cc == cc && m.channel == channel) {
                        kept.push(m);
                    }
                    proof {
                        k = k + 1;
                    }
                }
                proof {
                    assert(k == orig.len());
                    assert(orig.subrange(0, k) =~= orig);
                }
                let ghost kept_view = kept@;
                kept.push(MidiMapping { cc, channel, name, param_path: path, payload: fresh });
                proof {
                    assert(kept@.subrange(0, kept_view.len() as int) =~= kept_view);
                }
                self.mappings = kept;
            },
            None => {},
        }
        self.learn_state = LearnState::Idle;
        self.learning_param_path = None;
        self.learning_param_name = None;
    }

    /// Remove the mapping at `index` (nothing happens when there is none).
    pub fn remove_mapping(&mut self, index: usize)
        ensures
            index < old(self).mappings@.len() ==> final(self).mappings@ == old(
                self,
            ).mappings@.remove(index as int),
            index >= old(self).mappings@.len() ==> final(self).mappings@ == old(
                self,
            ).mappings@,
            final(self).learn_state == old(self).learn_state,
            final(self).learning_param_path == old(self).learning_param_path,
            final(self).learning_param_name == old(self).learning_param_name,
    {
        if index < self.mappings.len() {
            let _removed = self.mappings.remove(index);
        }
    }

    /// Replace the payload (value and range) of the mapping at `index`
    /// (nothing happens when there is none).
    pub fn set_payload(&mut self, index: usize, payload: V)
        ensures
            final(self).mappings@.len() == old(self).mappings@.len(),
            forall|i: int|
                0 <= i < old(self).mappings@.len() && i != index ==> #[trigger] final(self).mappings@[i] == old(self).mappings@[i],
            index < old(self).mappings@.len() ==> final(self).mappings@[index as int] == (MidiMapping { payload, ..old(self).mappings@[index as int] }),
            final(self).learn_state == old(self).learn_state,
    {
        if index < self.mappings.len() {
            self.mappings[index].payload = payload;
        }
    }

    /// Handle a control change: it is recorded as the last input; in learn
    /// mode it completes learning (see [`Self::complete_learning`]) and no
    /// mapping is updated; otherwise the indices of the mappings listening
    /// to it are returned, in order, for their values to be updated.
    pub fn handle_cc(&mut self, channel: u8, cc: u8, value: u8, fresh: V) -> (updated: Vec<
        usize,
    >)
        ensures
            final(self).last_input == Some(MidiInputEvent { channel, cc, value }),
            old(self).learn_state == LearnState::Waiting ==> updated@.len() == 0
                && learning_completed(*old(self), *final(self), cc, channel, fresh),
            old(self).learn_state != LearnState::Waiting ==> {
                &&& final(self).mappings@ == old(self).mappings@
                &&& final(self).learn_state == old(self).learn_state
                &&& forall|k: int|
                    0 <= k < updated@.len() ==> (#[trigger] updated@[k] as int) < old(
                        self,
                    ).mappings@.len() && listens_to(
                        old(self).mappings@[updated@[k] as int],
                        cc,
                        channel,
                    )
                &&& forall|i: int|
                    0 <= i < old(self).mappings@.len() && listens_to(
                        #[trigger] old(self).mappings@[i],
                        cc,
                        channel,
                    ) ==> updated@.contains(i as usize)
                &&& forall|a: int, b: int|
                    0 <= a < b < updated@.len() ==> updated@[a] < updated@[b]
            },
    {
        self.last_input = Some(MidiInputEvent { channel, cc, value });
        match self.learn_state {
            LearnState::Waiting => {
                self.complete_learning(cc, channel, fresh);
                Vec::new()
            },
            _ => {
                let mut updated: Vec<usize> = Vec::new();
                let mut i: usize = 0;
                while i < self.mappings.len()
                    invariant
                        i <= self.mappings@.len(),
                        self.mappings@ == old(self).mappings@,
                        forall|k: int|
                            0 <= k < updated@.len() ==> (#[trigger] updated@[k] as int) < i
                                && listens_to(self.mappings@[updated@[k] as int], cc, channel),
                        forall|j: int|
                            0 <= j < i && listens_to(#[trigger] self.mappings@[j], cc, channel)
                                        ==> updated@.contains(j as usize),
                        forall|a: int, b: int|
                            0 <= a < b < updated@.len() ==> updated@[a] < updated@[b],
                    decreases self.mappings@.len() - i,
                {
                    if self.mappings[i].cc == cc && self.mappings[i].channel == channel {
                        let ghost before = updated@;
                        updated.push(i);
                        proof {
                            assert forall|j: int|
                                0 <= j < i && listens_to(
                                    #[trigger] self.mappings@[j],
                                    cc,
                                    channel,
                                ) implies updated@.contains(j as usize) by {
                                let w = choose|w: int| 0 <= w < before.len() && before[w] == j as usize;
                                assert(updated@[w] == j as usize);
                            }
                            assert(updated@[updated@.len() - 1] == i);
                        }
                    }
                    i = i + 1;
                }
                updated
            },
        }
    }

    /// Index of the first mapping of `param_path`, if any.
    pub fn find_mapping(&self, param_path: &str) -> (r: Option<usize>)
        ensures
            match r {
                Some(i) => i < self.mappings@.len() && self.mappings@[i as int].param_path@
                    == param_path@ && forall|j: int|
                    0 <= j < i ==> (#[trigger] self.mappings@[j]).param_path@ != param_path@,
                None => forall|j: int|
                    0 <= j < self.mappings@.len() ==> (
                    #[trigger] self.mappings@[j]).param_path@ != param_path@,
            },
    {
        let mut i: usize = 0;
        while i < self.mappings.len()
            invariant
                i <= self.mappings@.len(),
                forall|j: int|
                    0 <= j < i ==> (#[trigger] self.mappings@[j]).param_path@ != param_path@,
            decreases self.mappings@.len() - i,
        {
            if crate::text::str_eq(self.mappings[i].param_path.as_str(), param_path) {
                return Some(i);
            }
            i = i + 1;
        }
        None
    }

    /// Whether a parameter is mapped.
    pub fn is_mapped(&self, param_path: &str) -> (r: bool)
        ensures
            r == exists|j: int|
                0 <= j < self.mappings@.len() && (
                #[trigger] self.mappings@[j]).param_path@ == param_path@,
    {
        match self.find_mapping(param_path) {
            Some(i) => true,
            None => false,
        }
    }

    /// The first mapping of a parameter, if any.
    pub fn get_mapping(&self, param_path: &str) -> (r: Option<&MidiMapping<V>>)
        ensures
            match r {
                Some(m) => exists|j: int|
                    0 <= j < self.mappings@.len() && self.mappings@[j] == *m
                        && m.param_path@ == param_path@,
                None => forall|j: int|
                    0 <= j < self.mappings@.len() ==> (
                    #[trigger] self.mappings@[j]).param_path@ != param_path@,
            },
    {
        match self.find_mapping(param_path) {
            Some(i) => Some(&self.mappings[i]),
            None => None,
        }
    }

    /// Remove every mapping.
    pub fn clear_mappings(&mut self)
        ensures
            final(self).mappings@.len() == 0,
            final(self).learn_state == old(self).learn_state,
            final(self).selected_device == old(self).selected_device,
            final(self).enabled == old(self).enabled,
    {
        self.mappings.clear();
    }

    /// A device was connected: it becomes the selected device and MIDI is
    /// enabled.
    pub fn device_connected(&mut self, device_name: &str)
        ensures
            final(self).selected_device matches Some(d) && d@ == device_name@,
            final(self).enabled,
            final(self).mappings@ == old(self).mappings@,
            final(self).learn_state == old(self).learn_state,
            final(self).available_devices@ == old(self).available_devices@,
    {
        self.selected_device = Some(string_of(device_name));
        self.enabled = true;
    }

    /// The device was disconnected: no device is selected and MIDI is
    /// disabled.
    pub fn device_disconnected(&mut self)
        ensures
            final(self).selected_device is None,
            !final(self).enabled,
            final(self).mappings@ == old(self).mappings@,
            final(self).learn_state == old(self).learn_state,
            final(self).available_devices@ == old(self).available_devices@,
    {
        self.selected_device = None;
        self.enabled = false;
    }

    /// Record the port names found by a device refresh.
    pub fn devices_refreshed(&mut self, names: Vec<String>)
        ensures
            final(self).available_devices@ == names@,
            final(self).selected_device == old(self).selected_device,
            final(self).enabled == old(self).enabled,
            final(self).mappings@ == old(self).mappings@,
            final(self).learn_state == old(self).learn_state,
    {
        self.available_devices = names;
    }

    /// Whether the selected device is still present among `port_names`.
    /// With no device selected, or no port list to be had (`None`), the
    /// device counts as present.
    pub fn device_available(&self, port_names: Option<&[String]>) -> (r: bool)
        ensures
            r == match self.selected_device {
                None => true,
                Some(d) => match port_names {
                    None => true,
                    Some(ports) => exists|i: int|
                        0 <= i < ports@.len() && (#[trigger] ports@[i])@ == d@,
                },
            },
    {
        match &self.selected_device {
            None => true,
            Some(d) => match port_names {
                None => true,
                Some(ports) => match find_port(ports, d.as_str()) {
                    Some(_) => true,
                    None => false,
                },
            },
        }
    }
}

/// Seconds between two checks that the selected device is still present.
pub const DEVICE_CHECK_INTERVAL_SECS: u64 = 3;

/// Whether the presence check of the selected device is due: at most once
/// every [`DEVICE_CHECK_INTERVAL_SECS`] seconds after the last one.
pub fn device_check_due(elapsed_secs: u64) -> (r: bool)
    ensures
        r == (elapsed_secs >= DEVICE_CHECK_INTERVAL_SECS),
{
    elapsed_secs >= DEVICE_CHECK_INTERVAL_SECS
}

/// Index of the first port named exactly `device_name`.
pub fn find_port(port_names: &[String], device_name: &str) -> (r: Option<usize>)
    ensures
        match r {
            Some(i) => i < port_names@.len() && port_names@[i as int]@ == device_name@
                && forall|j: int| 0 <= j < i ==> (#[trigger] port_names@[j])@ != device_name@,
            None => forall|j: int|
                0 <= j < port_names@.len() ==> (#[trigger] port_names@[j])@ != device_name@,
        },
{
    let mut i: usize = 0;
    while i < port_names.len()
        invariant
            i <= port_names@.len(),
            forall|j: int| 0 <= j < i ==> (#[trigger] port_names@[j])@ != device_name@,
        decreases port_names@.len() - i,
    {
        if crate::text::str_eq(port_names[i].as_str(), device_name) {
            return Some(i);
        }
        i = i + 1;
    }
    None
}

proof fn lemma_filter_unique<V>(ms: Seq<MidiMapping<V>>, cc: u8, channel: u8)
    requires
        pairs_unique(ms),
    ensures
        pairs_unique(kept_mappings(ms, cc, channel)),
        forall|i: int|
            0 <= i < kept_mappings(ms, cc, channel).len() ==> !listens_to(
                #[trigger] kept_mappings(ms, cc, channel)[i],
                cc,
                channel,
            ),
    decreases ms.len(),
{
    reveal(Seq::filter);
    let pred = |m: MidiMapping<V>| !listens_to(m, cc, channel);
    if ms.len() > 0 {
        let rest = ms.drop_last();
        assert(pairs_unique(rest)) by {
            assert forall|i: int, j: int| 0 <= i < j < rest.len() implies !listens_to(
                #[trigger] rest[i],
                rest[j].cc,
                #[trigger] rest[j].channel,
            ) by {
                assert(rest[i] == ms[i] && rest[j] == ms[j]);
            }
        }
        lemma_filter_unique(rest, cc, channel);
        let kr = kept_mappings(rest, cc, channel);
        if pred(ms.last()) {
            let k = kr.push(ms.last());
            assert(kept_mappings(ms, cc, channel) == k);
            assert forall|i: int, j: int| 0 <= i < j < k.len() implies !listens_to(
                #[trigger] k[i],
                k[j].cc,
                #[trigger] k[j].channel,
            ) by {
                if j == k.len() - 1 {
                    assert(kr.contains(k[i]));
                    rest.lemma_filter_contains_rev(pred, k[i]);
                    let w = choose|w: int| 0 <= w < rest.len() && rest[w] == k[i];
                    assert(ms[w] == rest[w]);
                    assert(!listens_to(ms[w], ms[ms.len() - 1].cc, ms[ms.len() - 1].channel));
                } else {
                    assert(k[i] == kr[i] && k[j] == kr[j]);
                }
            }
        }
    }
}

/// Learning keeps every (controller, channel) pair mapped at most once,
/// and the learned pair ends up mapped exactly once: by the new mapping.
pub proof fn lemma_learning_keeps_pairs_unique<V>(
    before: Seq<MidiMapping<V>>,
    after: Seq<MidiMapping<V>>,
    cc: u8,
    channel: u8,
)
    requires
        pairs_unique(before),
        after.len() == kept_mappings(before, cc, channel).len() + 1,
        after.subrange(0, after.len() - 1) == kept_mappings(before, cc, channel),
        after.last().cc == cc,
        after.last().channel == channel,
    ensures
        pairs_unique(after),
        forall|i: int| 0 <= i < after.len() - 1 ==> !listens_to(#[trigger] after[i], cc, channel),
{
    let kept = kept_mappings(before, cc, channel);
    lemma_filter_unique(before, cc, channel);
    assert forall|i: int| 0 <= i < after.len() - 1 implies !listens_to(
        #[trigger] after[i],
        cc,
        channel,
    ) by {
        assert(after[i] == after.subrange(0, after.len() - 1)[i]);
    }
    assert forall|i: int, j: int| 0 <= i < j < after.len() implies !listens_to(
        #[trigger] after[i],
        after[j].cc,
        #[trigger] after[j].channel,
    ) by {
        assert(after[i] == after.subrange(0, after.len() - 1)[i]);
        if j < after.len() - 1 {
            assert(after[j] == after.subrange(0, after.len() - 1)[j]);
        }
    }
}

/// Removing a mapping keeps the pairs unique.
pub proof fn lemma_remove_keeps_pairs_unique<V>(ms: Seq<MidiMapping<V>>, index: int)
    requires
        pairs_unique(ms),
        0 <= index < ms.len(),
    ensures
        pairs_unique(ms.remove(index)),
{
    let r = ms.remove(index);
    assert forall|i: int, j: int| 0 <= i < j < r.len() implies !listens_to(
        #[trigger] r[i],
        r[j].cc,
        #[trigger] r[j].channel,
    ) by {
        let oi = if i < index { i } else { i + 1 };
        let oj = if j < index { j } else { j + 1 };
        assert(r[i] == ms[oi] && r[j] == ms[oj]);
    }
}

} // verus!
