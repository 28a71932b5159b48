//! Decisions of the control panels, apart from the widgets that show them:
//! the resolution presets of the settings tab, the quick-slot buttons
//! and menus of the presets tab, and the device choice and switch of the
//! audio tab.
use vstd::prelude::*;
use crate::input::ndi::{contains_str, occurs_at};
use crate::presets::PresetCommand;
use crate::shared::state::AudioCommand;
use crate::text::{decimal, push_char, push_decimal, push_str, str_eq, string_of};

verus! {

/// Entries of the resolution preset list; entry 0 is "Custom".
pub const RESOLUTION_PRESET_COUNT: usize = 8;

/// Smallest width and height accepted from the custom fields.
pub const MIN_CUSTOM_WIDTH: u32 = 320;
pub const MIN_CUSTOM_HEIGHT: u32 = 240;

/// The size of resolution preset `i` (`(0, 0)` for "Custom").
pub open spec fn preset_size(i: int) -> (u32, u32) {
    if i == 1 {
        (640u32, 480u32)
    } else if i == 2 {
        (1280u32, 720u32)
    } else if i == 3 {
        (1920u32, 1080u32)
    } else if i == 4 {
        (2560u32, 1440u32)
    } else if i == 5 {
        (3840u32, 2160u32)
    } else if i == 6 {
        (1080u32, 1080u32)
    } else if i == 7 {
        (1080u32, 1920u32)
    } else {
        (0u32, 0u32)
    }
}

/// The label of resolution preset `i`.
pub open spec fn preset_label(i: int) -> Seq<char> {
    if i == 1 {
        "480p (640x480)"@
    } else if i == 2 {
        "720p (1280x720)"@
    } else if i == 3 {
        "1080p (1920x1080)"@
    } else if i == 4 {
        "1440p (2560x1440)"@
    } else if i == 5 {
        "4K UHD (3840x2160)"@
    } else if i == 6 {
        "Square 1:1 (1080x1080)"@
    } else if i == 7 {
        "Vertical 9:16 (1080x1920)"@
    } else {
        "Custom"@
    }
}

/// The size written as `(WIDTHxHEIGHT)`, in decimal.
pub open spec fn size_tag(width: nat, height: nat) -> Seq<char> {
    seq!['('] + decimal(width) + seq!['x'] + decimal(height) + seq![')']
}

/// Every resolution preset but "Custom" has the size its label names:
/// the label holds `(WIDTHxHEIGHT)` for the preset's width and height.
pub proof fn lemma_preset_label_names_its_size(i: int)
    requires
        1 <= i < RESOLUTION_PRESET_COUNT,
    ensures
        contains_str(preset_label(i), size_tag(preset_size(i).0 as nat, preset_size(i).1 as nat)),
{
    reveal_with_fuel(decimal, 5);
    let lab = preset_label(i);
    let tag = size_tag(preset_size(i).0 as nat, preset_size(i).1 as nat);
    if i == 1 {
        reveal_strlit("480p (640x480)");
        assert(lab.subrange(5, 14) =~= tag);
        assert(occurs_at(lab, tag, 5));
    } else if i == 2 {
        reveal_strlit("720p (1280x720)");
        assert(lab.subrange(5, 15) =~= tag);
        assert(occurs_at(lab, tag, 5));
    } else if i == 3 {
        reveal_strlit("1080p (1920x1080)");
        assert(lab.subrange(6, 17) =~= tag);
        assert(occurs_at(lab, tag, 6));
    } else if i == 4 {
        reveal_strlit("1440p (2560x1440)");
        assert(lab.subrange(6, 17) =~= tag);
        assert(occurs_at(lab, tag, 6));
    } else if i == 5 {
        reveal_strlit("4K UHD (3840x2160)");
        assert(lab.subrange(7, 18) =~= tag);
        assert(occurs_at(lab, tag, 7));
    } else if i == 6 {
        reveal_strlit("Square 1:1 (1080x1080)");
        assert(lab.subrange(11, 22) =~= tag);
        assert(occurs_at(lab, tag, 11));
    } else {
        reveal_strlit("Vertical 9:16 (1080x1920)");
        assert(lab.subrange(14, 25) =~= tag);
        assert(occurs_at(lab, tag, 14));
    }
}

/// Resolution preset `index`: its label and size. Every preset but
/// "Custom" names its own size in its label, as `(WIDTHxHEIGHT)`.
pub fn resolution_preset(index: usize) -> (r: (&'static str, u32, u32))
    requires
        index < RESOLUTION_PRESET_COUNT,
    ensures
        r.0@ == preset_label(index as int),
        (r.1, r.2) == preset_size(index as int),
        index > 0 ==> contains_str(r.0@, size_tag(r.1 as nat, r.2 as nat)),
        index == 0 ==> (r.1, r.2) == (0u32, 0u32),
        index == 1 ==> (r.1, r.2) == (640u32, 480u32),
        index == 2 ==> (r.1, r.2) == (1280u32, 720u32),
        index == 3 ==> (r.1, r.2) == (1920u32, 1080u32),
        index == 4 ==> (r.1, r.2) == (2560u32, 1440u32),
        index == 5 ==> (r.1, r.2) == (3840u32, 2160u32),
        index == 6 ==> (r.1, r.2) == (1080u32, 1080u32),
        index == 7 ==> (r.1, r.2) == (1080u32, 1920u32),
{
    proof {
        if index > 0 {
            lemma_preset_label_names_its_size(index as int);
        }
    }
    match index {
        1 => ("480p (640x480)", 640, 480),
        2 => ("720p (1280x720)", 1280, 720),
        3 => ("1080p (1920x1080)", 1920, 1080),
        4 => ("1440p (2560x1440)", 2560, 1440),
        5 => ("4K UHD (3840x2160)", 3840, 2160),
        6 => ("Square 1:1 (1080x1080)", 1080, 1080),
        7 => ("Vertical 9:16 (1080x1920)", 1080, 1920),
        _ => ("Custom", 0, 0),
    }
}

/// The preset shown for a current size: the first preset (after
/// "Custom") of that size, or "Custom" (0) when none has it.
pub fn matching_preset(width: u32, height: u32) -> (i: usize)
    ensures
        i < RESOLUTION_PRESET_COUNT,
        i > 0 ==> preset_size(i as int) == (width, height),
        forall|j: int| 1 <= j < (if i == 0 { 8 } else { i as int }) ==> preset_size(j) != (width, height),
{
    let mut i: usize = 1;
    while i < RESOLUTION_PRESET_COUNT
        invariant
            1 <= i <= RESOLUTION_PRESET_COUNT,
            forall|j: int| 1 <= j < i ==> preset_size(j) != (width, height),
        decreases RESOLUTION_PRESET_COUNT - i,
    {
        let (_, w, h) = resolution_preset(i);
        if w == width && h == height {
            return i;
        }
        i = i + 1;
    }
    0
}

/// The size a preset choice asks for: a change of choice to a preset
/// other than "Custom" gives its size; anything else keeps the pending
/// size.
pub fn chosen_preset_size(previous: usize, chosen: usize) -> (r: Option<(u32, u32)>)
    requires
        chosen < RESOLUTION_PRESET_COUNT,
    ensures
        r is Some <==> (chosen != previous && chosen > 0),
        r matches Some(s) ==> s == preset_size(chosen as int),
        r matches Some(s) ==> contains_str(preset_label(chosen as int), size_tag(s.0 as nat, s.1 as nat)),
{
    if chosen != previous && chosen > 0 {
        let (_, w, h) = resolution_preset(chosen);
        Some((w, h))
    } else {
        None
    }
}

/// A custom width as accepted: at least [`MIN_CUSTOM_WIDTH`].
pub fn custom_width(typed: i32) -> (w: u32)
    ensures
        w == (if typed < MIN_CUSTOM_WIDTH { MIN_CUSTOM_WIDTH as int } else { typed as int }),
{
    if typed < 320 {
        MIN_CUSTOM_WIDTH
    } else {
        typed as u32
    }
}

/// A custom height as accepted: at least [`MIN_CUSTOM_HEIGHT`].
pub fn custom_height(typed: i32) -> (h: u32)
    ensures
        h == (if typed < MIN_CUSTOM_HEIGHT { MIN_CUSTOM_HEIGHT as int } else { typed as int }),
{
    if typed < 240 {
        MIN_CUSTOM_HEIGHT
    } else {
        typed as u32
    }
}

/// Characters of a preset name shown on a quick-slot button.
pub const SLOT_LABEL_CHARS: usize = 7;

/// The label of quick-slot button `slot`: the slot number, a line break,
/// then the first seven characters of the preset's name, or `--` for an
/// empty slot.
pub open spec fn spec_slot_button_label(slot: usize, name: Option<Seq<char>>) -> Seq<char> {
    decimal(slot as nat) + seq!['\n'] + match name {
        Some(n) => if n.len() <= 7 {
            n
        } else {
            n.subrange(0, 7)
        },
        None => seq!['-', '-'],
    }
}

/// The view of an optional name.
pub open spec fn name_view(name: Option<&str>) -> Option<Seq<char>> {
    match name {
        Some(n) => Some(n@),
        None => None,
    }
}

/// The label of quick-slot button `slot`; see [`spec_slot_button_label`].
pub fn slot_button_label(slot: usize, name: Option<&str>) -> (r: String)
    ensures
        r@ == spec_slot_button_label(slot, name_view(name)),
{
    let mut r = String::new();
    push_decimal(&mut r, slot as u64);
    push_char(&mut r, '\n');
    let ghost head = r@;
    match name {
        Some(n) => {
            let len = n.unicode_len();
            let take: usize = if len <= SLOT_LABEL_CHARS {
                len
            } else {
                SLOT_LABEL_CHARS
            };
            let mut i: usize = 0;
            while i < take
                invariant
                    i <= take,
                    take <= len,
                    len == n@.len(),
                    r@ == head + n@.subrange(0, i as int),
                decreases take - i,
            {
                let c = n.get_char(i);
                push_char(&mut r, c);
                proof {
                    assert(n@.subrange(0, i + 1) =~= n@.subrange(0, i as int).push(c));
                }
                i = i + 1;
            }
            proof {
                if len <= 7 {
                    assert(n@.subrange(0, len as int) =~= n@);
                }
            }
        },
        None => {
            push_char(&mut r, '-');
            push_char(&mut r, '-');
        },
    }
    proof {
        assert(r@ =~= spec_slot_button_label(slot, name_view(name)));
    }
    r
}

/// The entry for quick slot `slot` in a preset's menu: `Slot <n> (<name>)`,
/// or `Slot <n> — empty`.
pub open spec fn spec_slot_menu_label(slot: usize, name: Option<Seq<char>>) -> Seq<char> {
    "Slot "@ + decimal(slot as nat) + match name {
        Some(n) => seq![' ', '('] + n + seq![')'],
        None => " \u{2014} empty"@,
    }
}

/// The entry for quick slot `slot` in a preset's context menu.
pub fn slot_menu_label(slot: usize, name: Option<&str>) -> (r: String)
    ensures
        r@ == spec_slot_menu_label(slot, name_view(name)),
{
    let mut r = string_of("Slot ");
    push_decimal(&mut r, slot as u64);
    match name {
        Some(n) => {
            push_char(&mut r, ' ');
            push_char(&mut r, '(');
            push_str(&mut r, n);
            push_char(&mut r, ')');
        },
        None => {
            push_str(&mut r, " \u{2014} empty");
        },
    }
    proof {
        assert(r@ =~= spec_slot_menu_label(slot, name_view(name)));
    }
    r
}

/// What clicking quick-slot button `slot` posts: applying the slot, when
/// it holds a preset; nothing otherwise.
pub fn slot_clicked(slot: usize, has_preset: bool) -> (r: Option<PresetCommand>)
    ensures
        has_preset ==> r == Some(PresetCommand::ApplySlot(slot)),
        !has_preset ==> r is None,
{
    if has_preset {
        Some(PresetCommand::ApplySlot(slot))
    } else {
        None
    }
}

/// What the Save button posts for the typed name: saving under that
/// name, unless it is empty.
pub fn save_clicked(name_buffer: &str) -> (r: Option<PresetCommand>)
    ensures
        name_buffer@.len() == 0 ==> r is None,
        name_buffer@.len() > 0 ==> (r matches Some(PresetCommand::Save { name }) && name@
            == name_buffer@),
{
    if name_buffer.unicode_len() == 0 {
        None
    } else {
        Some(PresetCommand::Save { name: string_of(name_buffer) })
    }
}

/// The entry of the audio device list shown as chosen: the first entry
/// that names the active device, when there is one; otherwise the entry
/// shown so far.
pub fn shown_audio_device(devices: &[String], active: Option<&str>, shown: usize) -> (r: usize)
    ensures
        match active {
            Some(a) => if exists|p: int| 0 <= p < devices@.len() && #[trigger] devices@[p]@ == a@ {
                r < devices@.len() && devices@[r as int]@ == a@ && forall|j: int|
                    0 <= j < r ==> #[trigger] devices@[j]@ != a@
            } else {
                r == shown
            },
            None => r == shown,
        },
{
    match active {
        Some(a) => {
            let mut i: usize = 0;
            while i < devices.len()
                invariant
                    active == Some(a),
                    i <= devices@.len(),
                    forall|j: int| 0 <= j < i ==> #[trigger] devices@[j]@ != a@,
                decreases devices@.len() - i,
            {
                if str_eq(devices[i].as_str(), a) {
                    assert(devices@[i as int]@ == a@);
                    return i;
                }
                i = i + 1;
            }
            shown
        },
        None => shown,
    }
}

/// What choosing entry `index` of the audio device list posts: selecting
/// that device, or a device with an empty name when the index is past the
/// end of the list.
pub fn audio_device_chosen(devices: &[String], index: usize) -> (r: AudioCommand)
    ensures
        r matches AudioCommand::SelectDevice(name) && (if index < devices@.len() {
            name@ == devices@[index as int]@
        } else {
            name@.len() == 0
        }),
{
    if index < devices.len() {
        AudioCommand::SelectDevice(string_of(devices[index].as_str()))
    } else {
        AudioCommand::SelectDevice(String::new())
    }
}

/// What switching audio analysis on or off posts: starting the capture,
/// or stopping it.
pub fn audio_switched(enabled: bool) -> (r: AudioCommand)
    ensures
        r == (if enabled {
            AudioCommand::Start
        } else {
            AudioCommand::Stop
        }),
{
    if enabled {
        AudioCommand::Start
    } else {
        AudioCommand::Stop
    }
}

} // verus!
