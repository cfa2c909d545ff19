//! Global shortcuts: the spellings under which one shortcut is registered,
//! and what a round of registrations comes to.
//!
//! Registering with the system is the caller's. The same key combination
//! can be written with its modifiers in any order, so every order of up to
//! three modifiers is offered for registration.

use vstd::prelude::*;
use crate::services::platform::Platform;
use crate::text::join_texts;
use crate::text::join_with;
use crate::text::lowercase;
use crate::text::opt_text;
use crate::text::same_text;
use crate::text::split_on;
use crate::text::split_text;
use crate::text::texts;
use crate::text::to_lowercase;

verus! {

/// Two triggers of a shortcut closer together than this many milliseconds
/// count as one.
pub const DEBOUNCE_MS: u128 = 200;

/// The lowercase forms of the names that denote a modifier key.
pub open spec fn modifier_names() -> Seq<Seq<char>> {
    seq![
        "commandorcontrol"@,
        "cmdorctrl"@,
        "command"@,
        "cmd"@,
        "control"@,
        "ctrl"@,
        "shift"@,
        "alt"@,
        "option"@,
        "super"@,
        "meta"@,
    ]
}

/// One part of a shortcut, between two `+`, with its lowercase form.
#[derive(Debug)]
pub struct KeyPart {
    /// The part as written.
    pub name: String,
    /// Its lowercase form, by which modifiers are told.
    pub lowered: String,
}

/// The mathematical content of a [`KeyPart`].
pub struct KeyPartView {
    pub name: Seq<char>,
    pub lowered: Seq<char>,
}

impl View for KeyPart {
    type V = KeyPartView;

    open spec fn view(&self) -> KeyPartView {
        KeyPartView { name: self.name@, lowered: self.lowered@ }
    }
}

/// The views of the parts of a shortcut, in order.
pub open spec fn parts_view(parts: Seq<KeyPart>) -> Seq<KeyPartView> {
    parts.map_values(|p: KeyPart| p@)
}

/// Whether a lowercase name is that of a modifier key.
pub open spec fn is_modifier(lowered: Seq<char>) -> bool {
    modifier_names().contains(lowered)
}

/// Whether a lowercase name is one of the two that stand for Command on
/// macOS and for Control elsewhere.
pub open spec fn is_portable_modifier(lowered: Seq<char>) -> bool {
    lowered == "commandorcontrol"@ || lowered == "cmdorctrl"@
}

/// A modifier as the platform spells it: the portable names become
/// `Command` on macOS and `Ctrl` elsewhere, every other name stays as
/// written.
pub open spec fn expanded(part: KeyPartView, platform: Platform) -> Seq<char> {
    if is_portable_modifier(part.lowered) {
        if platform == Platform::MacOs {
            "Command"@
        } else {
            "Ctrl"@
        }
    } else {
        part.name
    }
}

/// The modifiers among the parts of a shortcut, expanded, in order.
pub open spec fn modifiers_of(parts: Seq<KeyPartView>, platform: Platform) -> Seq<Seq<char>>
    decreases parts.len(),
{
    if parts.len() == 0 {
        Seq::empty()
    } else {
        let init = modifiers_of(parts.drop_last(), platform);
        if is_modifier(parts.last().lowered) {
            init.push(expanded(parts.last(), platform))
        } else {
            init
        }
    }
}

/// The main key of a shortcut: the last of its parts that is no modifier.
pub open spec fn main_key_of(parts: Seq<KeyPartView>) -> Option<Seq<char>>
    decreases parts.len(),
{
    if parts.len() == 0 {
        None
    } else if !is_modifier(parts.last().lowered) {
        Some(parts.last().name)
    } else {
        main_key_of(parts.drop_last())
    }
}

/// A shortcut written out: the modifiers joined by `+`, then `+` and the
/// main key.
pub open spec fn combination(modifiers: Seq<Seq<char>>, key: Seq<char>) -> Seq<char> {
    join_with(modifiers, "+"@) + "+"@ + key
}

/// The spellings under which a shortcut with the given parts is
/// registered. A shortcut of fewer than two parts, or without a main key,
/// is kept as it is. Otherwise the modifiers are expanded for the
/// platform; two modifiers are offered in both orders, three in all six,
/// any other number in the order given.
pub open spec fn variants_of(
    text: Seq<char>,
    parts: Seq<KeyPartView>,
    platform: Platform,
) -> Seq<Seq<char>> {
    if parts.len() < 2 {
        seq![text]
    } else {
        match main_key_of(parts) {
            None => seq![text],
            Some(key) => {
                let m = modifiers_of(parts, platform);
                if m.len() == 2 {
                    seq![combination(m, key), combination(seq![m[1], m[0]], key)]
                } else if m.len() == 3 {
                    seq![
                        combination(m, key),
                        combination(seq![m[0], m[2], m[1]], key),
                        combination(seq![m[1], m[0], m[2]], key),
                        combination(seq![m[1], m[2], m[0]], key),
                        combination(seq![m[2], m[0], m[1]], key),
                        combination(seq![m[2], m[1], m[0]], key),
                    ]
                } else {
                    seq![combination(m, key)]
                }
            },
        }
    }
}

/// The parts of a shortcut: the pieces between its `+`, each with its
/// lowercase form.
pub open spec fn key_parts(text: Seq<char>) -> Seq<KeyPartView> {
    let pieces = split_on(text, '+');
    Seq::new(
        pieces.len(),
        |i: int| KeyPartView { name: pieces[i], lowered: lowercase(pieces[i]) },
    )
}

/// The spellings under which a shortcut is registered on a platform.
pub open spec fn shortcut_variants(text: Seq<char>, platform: Platform) -> Seq<Seq<char>> {
    variants_of(text, key_parts(text), platform)
}

/// Whether a lowercase name is that of a modifier key.
pub fn is_modifier_name(lowered: &str) -> (r: bool)
    ensures
        r == is_modifier(lowered@),
{
    let l = lowered;
    let found = same_text(l, "commandorcontrol") || same_text(l, "cmdorctrl") || same_text(
        l,
        "command",
    ) || same_text(l, "cmd") || same_text(l, "control") || same_text(l, "ctrl") || same_text(
        l,
        "shift",
    ) || same_text(l, "alt") || same_text(l, "option") || same_text(l, "super") || same_text(
        l,
        "meta",
    );
    proof {
        let names = modifier_names();
        if found {
            let k = choose|k: int| 0 <= k < 11 && names[k] == lowered@;
            assert(names[k] == lowered@);
        }
        if names.contains(lowered@) {
            let k = choose|k: int| 0 <= k < names.len() && names[k] == lowered@;
            assert(0 <= k < 11);
        }
    }
    found
}

/// Whether a part of a shortcut names a modifier key, in any letter case.
pub fn names_modifier(part: &str) -> (r: bool)
    ensures
        r == is_modifier(lowercase(part@)),
{
    let lowered = to_lowercase(part);
    is_modifier_name(lowered.as_str())
}

/// A part of a shortcut with its lowercase form.
pub fn key_part(name: &str) -> (r: KeyPart)
    ensures
        r@ == (KeyPartView { name: name@, lowered: lowercase(name@) }),
{
    KeyPart { name: name.to_string(), lowered: to_lowercase(name) }
}

/// A modifier as the platform spells it, decided by its lowercase form.
pub fn expand_part(part: &KeyPart, platform: Platform) -> (r: String)
    ensures
        r@ == expanded(part@, platform),
{
    let lowered = part.lowered.as_str();
    if same_text(lowered, "commandorcontrol") || same_text(lowered, "cmdorctrl") {
        match platform {
            Platform::MacOs => "Command".to_string(),
            _ => "Ctrl".to_string(),
        }
    } else {
        part.name.clone()
    }
}

/// A modifier as the platform spells it.
pub fn expand_platform_modifier(modifier: &str, platform: Platform) -> (r: String)
    ensures
        r@ == expanded(KeyPartView { name: modifier@, lowered: lowercase(modifier@) }, platform),
{
    let part = key_part(modifier);
    expand_part(&part, platform)
}

/// A shortcut written out from its modifiers and main key.
pub fn combine(modifiers: &Vec<String>, key: &str) -> (r: String)
    ensures
        r@ == combination(texts(modifiers@), key@),
{
    let mut out = join_texts(modifiers, "+");
    out.append("+");
    out.append(key);
    out
}

/// A shortcut written out with its modifiers in the order that the three
/// positions give.
fn combine_in_order(modifiers: &Vec<String>, a: usize, b: usize, c: usize, key: &str) -> (r: String)
    requires
        modifiers.len() == 3,
        a < 3,
        b < 3,
        c < 3,
    ensures
        r@ == combination(
            seq![modifiers[a as int]@, modifiers[b as int]@, modifiers[c as int]@],
            key@,
        ),
{
    let mut order: Vec<String> = Vec::new();
    order.push(modifiers[a].clone());
    order.push(modifiers[b].clone());
    order.push(modifiers[c].clone());
    assert(texts(order@) =~= seq![
        modifiers[a as int]@,
        modifiers[b as int]@,
        modifiers[c as int]@,
    ]);
    combine(&order, key)
}

/// The parts of a shortcut, each with its lowercase form.
pub fn key_parts_of(shortcut_str: &str) -> (r: Vec<KeyPart>)
    ensures
        parts_view(r@) == key_parts(shortcut_str@),
{
    let pieces = split_text(shortcut_str, '+');
    let mut parts: Vec<KeyPart> = Vec::new();
    let mut i: usize = 0;
    while i < pieces.len()
        invariant
            i <= pieces.len(),
            texts(pieces@) == split_on(shortcut_str@, '+'),
            parts.len() == i,
            forall|j: int|
                0 <= j < i ==> (#[trigger] parts[j])@ == (KeyPartView {
                    name: pieces[j]@,
                    lowered: lowercase(pieces[j]@),
                }),
        decreases pieces.len() - i,
    {
        parts.push(key_part(pieces[i].as_str()));
        i += 1;
    }
    assert(parts_view(parts@) =~= key_parts(shortcut_str@)) by {
        assert forall|j: int| 0 <= j < parts.len() implies parts_view(parts@)[j] == key_parts(
            shortcut_str@,
        )[j] by {
            assert(texts(pieces@)[j] == pieces[j]@);
        }
    }
    parts
}

/// The spellings under which a shortcut with the given parts is
/// registered on a platform.
pub fn variants_from_parts(shortcut_str: &str, parts: &Vec<KeyPart>, platform: Platform) -> (r:
    Vec<String>)
    ensures
        texts(r@) == variants_of(shortcut_str@, parts_view(parts@), platform),
{
    let mut variants: Vec<String> = Vec::new();
    if parts.len() < 2 {
        variants.push(shortcut_str.to_string());
        assert(texts(variants@) =~= seq![shortcut_str@]);
        return variants;
    }
    let ghost all = parts_view(parts@);
    let mut modifiers: Vec<String> = Vec::new();
    let mut main_key: Option<String> = None;
    let mut i: usize = 0;
    assert(all.take(0) =~= Seq::<KeyPartView>::empty());
    assert(texts(modifiers@) =~= modifiers_of(all.take(0), platform));
    while i < parts.len()
        invariant
            i <= parts.len(),
            all == parts_view(parts@),
            texts(modifiers@) == modifiers_of(all.take(i as int), platform),
            opt_text(main_key) == main_key_of(all.take(i as int)),
        decreases parts.len() - i,
    {
        let ghost upto = all.take(i + 1);
        let ghost so_far = texts(modifiers@);
        assert(upto.drop_last() == all.take(i as int));
        assert(upto.last() == parts[i as int]@);
        let part = &parts[i];
        if is_modifier_name(part.lowered.as_str()) {
            modifiers.push(expand_part(part, platform));
            assert(texts(modifiers@) =~= so_far.push(expanded(part@, platform)));
        } else {
            main_key = Some(part.name.clone());
        }
        i += 1;
    }
    assert(all.take(parts.len() as int) == all);
    let key = match main_key {
        Some(key) => key,
        None => {
            variants.push(shortcut_str.to_string());
            assert(texts(variants@) =~= seq![shortcut_str@]);
            return variants;
        },
    };
    let ghost m = texts(modifiers@);
    variants.push(combine(&modifiers, key.as_str()));
    if modifiers.len() == 2 {
        let mut swapped: Vec<String> = Vec::new();
        swapped.push(modifiers[1].clone());
        swapped.push(modifiers[0].clone());
        assert(texts(swapped@) =~= seq![m[1], m[0]]);
        variants.push(combine(&swapped, key.as_str()));
        assert(texts(variants@) =~= seq![
            combination(m, key@),
            combination(seq![m[1], m[0]], key@),
        ]);
    } else if modifiers.len() == 3 {
        variants.push(combine_in_order(&modifiers, 0, 2, 1, key.as_str()));
        variants.push(combine_in_order(&modifiers, 1, 0, 2, key.as_str()));
        variants.push(combine_in_order(&modifiers, 1, 2, 0, key.as_str()));
        variants.push(combine_in_order(&modifiers, 2, 0, 1, key.as_str()));
        variants.push(combine_in_order(&modifiers, 2, 1, 0, key.as_str()));
        assert(texts(variants@) =~= seq![
            combination(m, key@),
            combination(seq![m[0], m[2], m[1]], key@),
            combination(seq![m[1], m[0], m[2]], key@),
            combination(seq![m[1], m[2], m[0]], key@),
            combination(seq![m[2], m[0], m[1]], key@),
            combination(seq![m[2], m[1], m[0]], key@),
        ]);
    } else {
        assert(texts(variants@) =~= seq![combination(m, key@)]);
    }
    variants
}

/// The spellings under which a shortcut is registered on a platform.
pub fn generate_shortcut_variants(shortcut_str: &str, platform: Platform) -> (r: Vec<String>)
    ensures
        texts(r@) == shortcut_variants(shortcut_str@, platform),
{
    let parts = key_parts_of(shortcut_str);
    variants_from_parts(shortcut_str, &parts, platform)
}

/// What became of registering one spelling of a shortcut.
#[derive(Debug)]
pub enum Attempt {
    /// The spelling is not a shortcut the system understands; it was
    /// skipped.
    Invalid,
    /// The system took the registration.
    Registered,
    /// The system refused, with this message.
    Rejected(String),
}

/// Whether some attempt was taken by the system.
pub open spec fn any_registered(attempts: Seq<Attempt>) -> bool {
    exists|i: int| 0 <= i < attempts.len() && (#[trigger] attempts[i]) is Registered
}

/// The message of the first refusal among the attempts.
pub open spec fn first_rejection(attempts: Seq<Attempt>) -> Option<Seq<char>>
    decreases attempts.len(),
{
    if attempts.len() == 0 {
        None
    } else {
        match attempts[0] {
            Attempt::Rejected(message) => Some(message@),
            _ => first_rejection(attempts.drop_first()),
        }
    }
}

/// The failure message for a shortcut none of whose spellings could be
/// registered.
pub open spec fn registration_failure(shortcut: Seq<char>, attempts: Seq<Attempt>) -> Seq<char> {
    "快捷键注册失败 ["@ + shortcut + "]: "@ + match first_rejection(attempts) {
        Some(message) => message,
        None => "未知错误"@,
    }
}

/// What a round of registrations comes to: success where the system took
/// at least one spelling, else the failure message with the first refusal.
pub fn registration_outcome(shortcut_str: &str, attempts: &Vec<Attempt>) -> (r: Result<(), String>)
    ensures
        match r {
            Ok(_) => any_registered(attempts@),
            Err(message) => !any_registered(attempts@) && message@ == registration_failure(
                shortcut_str@,
                attempts@,
            ),
        },
{
    let mut first_error: Option<String> = None;
    let mut i: usize = 0;
    assert(attempts@.skip(0) == attempts@);
    while i < attempts.len()
        invariant
            i <= attempts.len(),
            forall|j: int| 0 <= j < i ==> !((#[trigger] attempts@[j]) is Registered),
            match first_error {
                Some(message) => first_rejection(attempts@) == Some(message@),
                None => first_rejection(attempts@) == first_rejection(attempts@.skip(i as int)),
            },
        decreases attempts.len() - i,
    {
        let ghost rest = attempts@.skip(i as int);
        assert(rest[0] == attempts@[i as int]);
        assert(rest.drop_first() == attempts@.skip(i + 1));
        match &attempts[i] {
            Attempt::Registered => {
                return Ok(());
            },
            Attempt::Rejected(message) => {
                if first_error.is_none() {
                    first_error = Some(message.clone());
                }
            },
            Attempt::Invalid => {},
        }
        i += 1;
    }
    let mut text = "快捷键注册失败 [".to_string();
    text.append(shortcut_str);
    text.append("]: ");
    match first_error {
        Some(message) => {
            text.append(message.as_str());
        },
        None => {
            text.append("未知错误");
        },
    }
    Err(text)
}

/// Whether a trigger of a shortcut is acted on: not where the previous one
/// lies less than [`DEBOUNCE_MS`] milliseconds back.
pub fn accepts_trigger(since_last_ms: Option<u128>) -> (r: bool)
    ensures
        r == !(since_last_ms matches Some(elapsed) && elapsed < DEBOUNCE_MS),
{
    match since_last_ms {
        Some(elapsed) => elapsed >= DEBOUNCE_MS,
        None => true,
    }
}

/// A quotient rounded towards zero.
pub open spec fn toward_zero(amount: int, parts: int) -> int
    recommends
        parts > 0,
{
    if amount >= 0 {
        amount / parts
    } else {
        -((-amount) / parts)
    }
}

/// Where the search window goes on a monitor, from the monitor's top left
/// corner: centred across, a third of the free height from the top. A
/// window larger than the monitor gives negative offsets.
pub fn centered_position(
    monitor_width: u32,
    monitor_height: u32,
    window_width: u32,
    window_height: u32,
) -> (r: (i32, i32))
    ensures
        r.0 == toward_zero(monitor_width - window_width, 2),
        r.1 == toward_zero(monitor_height - window_height, 3),
{
    let x: i32 = if monitor_width >= window_width {
        ((monitor_width - window_width) / 2) as i32
    } else {
        -(((window_width - monitor_width) / 2) as i32)
    };
    let y: i32 = if monitor_height >= window_height {
        ((monitor_height - window_height) / 3) as i32
    } else {
        -(((window_height - monitor_height) / 3) as i32)
    };
    (x, y)
}

} // verus!
