//! A keyboard that predicts the text of key presses, without touching real input.
//!
//! The keyboard keeps the modifiers held and any pending dead key. What a key gives under
//! those belongs to the active layout, which only the OS knows: `feed` hands back the
//! question to put to it, and `resolve` takes its answer.

use vstd::prelude::*;

use crate::redev::{EventType, Key, UnicodeInfo};

verus! {

/// A dead key waiting for the next character: the key and the modifiers it was pressed with.
#[derive(Debug, Clone, Copy, PartialEq, Eq, Structural)]
pub struct DeadKey {
    pub key: Key,
    pub shift: bool,
    pub caps_lock: bool,
    pub alt_gr: bool,
}

/// A question to the layout: what text a key press gives under these modifiers, composed
/// with the pending dead key, if any.
#[derive(Debug, Clone, Copy, PartialEq, Eq, Structural)]
pub struct LayoutQuery {
    pub key: Key,
    pub shift: bool,
    pub caps_lock: bool,
    pub alt_gr: bool,
    pub control: bool,
    pub dead: Option<DeadKey>,
    pub event_popup: bool,
}

impl LayoutQuery {
    /// The pending dead key that this press leaves, where the layout calls it dead.
    pub open spec fn as_dead(self) -> DeadKey {
        DeadKey { key: self.key, shift: self.shift, caps_lock: self.caps_lock, alt_gr: self.alt_gr }
    }
}

/// The layout's answer to a query.
#[derive(Debug)]
pub enum LayoutAnswer {
    /// The key gives no text (a function or navigation key).
    NoText,
    /// The key gives this text (UTF-16), composed with the pending dead key if there was one.
    Text { unicode: Vec<u16>, name: Option<String> },
    /// The key is a dead key: it gives no text of its own and changes the next press.
    Dead { name: Option<String> },
}

/// The state of a keyboard: the modifiers held and the pending dead key.
#[derive(Debug, Clone, Copy, PartialEq, Eq, Structural)]
pub struct Keyboard {
    pub shift_left: bool,
    pub shift_right: bool,
    pub caps_lock: bool,
    pub alt_gr: bool,
    pub control_left: bool,
    pub control_right: bool,
    pub dead: Option<DeadKey>,
    pub event_popup: bool,
}

/// The keys whose state the keyboard tracks itself.
pub open spec fn is_modifier(key: Key) -> bool {
    ||| key == Key::ShiftLeft
    ||| key == Key::ShiftRight
    ||| key == Key::CapsLock
    ||| key == Key::AltGr
    ||| key == Key::ControlLeft
    ||| key == Key::ControlRight
}

/// The keyboard after an event, as far as the modifiers go. A caps lock press toggles
/// it; any other modifier is held from its press to its release.
pub open spec fn after_event(s: Keyboard, e: EventType) -> Keyboard {
    match e {
        EventType::KeyPress(key) => if key == Key::ShiftLeft {
            Keyboard { shift_left: true, ..s }
        } else if key == Key::ShiftRight {
            Keyboard { shift_right: true, ..s }
        } else if key == Key::CapsLock {
            Keyboard { caps_lock: !s.caps_lock, ..s }
        } else if key == Key::AltGr {
            Keyboard { alt_gr: true, ..s }
        } else if key == Key::ControlLeft {
            Keyboard { control_left: true, ..s }
        } else if key == Key::ControlRight {
            Keyboard { control_right: true, ..s }
        } else {
            s
        },
        EventType::KeyRelease(key) => if key == Key::ShiftLeft {
            Keyboard { shift_left: false, ..s }
        } else if key == Key::ShiftRight {
            Keyboard { shift_right: false, ..s }
        } else if key == Key::AltGr {
            Keyboard { alt_gr: false, ..s }
        } else if key == Key::ControlLeft {
            Keyboard { control_left: false, ..s }
        } else if key == Key::ControlRight {
            Keyboard { control_right: false, ..s }
        } else {
            s
        },
        _ => s,
    }
}

/// The question that an event puts to the layout: one for each press of a key that is
/// not a modifier, under the modifiers held and the pending dead key.
pub open spec fn query_of(s: Keyboard, e: EventType) -> Option<LayoutQuery> {
    match e {
        EventType::KeyPress(key) => if is_modifier(key) {
            None
        } else {
            Some(
                LayoutQuery {
                    key,
                    shift: s.shift_left || s.shift_right,
                    caps_lock: s.caps_lock,
                    alt_gr: s.alt_gr,
                    control: s.control_left || s.control_right,
                    dead: s.dead,
                    event_popup: s.event_popup,
                },
            )
        },
        _ => None,
    }
}

/// The keyboard after the layout answered a query: a dead key is left pending, a text
/// consumes the pending dead key, and no text leaves the keyboard as it was.
pub open spec fn after_answer(s: Keyboard, q: LayoutQuery, a: LayoutAnswer) -> Keyboard {
    match a {
        LayoutAnswer::NoText => s,
        LayoutAnswer::Text { .. } => Keyboard { dead: None, ..s },
        LayoutAnswer::Dead { .. } => Keyboard { dead: Some(q.as_dead()), ..s },
    }
}

/// The text reported for an answer, and whether it is a dead key: none for no text, the
/// text itself, or no text and dead.
pub open spec fn text_of(a: LayoutAnswer) -> Option<(Seq<u16>, bool)> {
    match a {
        LayoutAnswer::NoText => None,
        LayoutAnswer::Text { unicode, .. } => Some((unicode@, false)),
        LayoutAnswer::Dead { .. } => Some((Seq::empty(), true)),
    }
}

/// The name that an answer gives the key.
pub open spec fn name_of(a: LayoutAnswer) -> Option<String> {
    match a {
        LayoutAnswer::NoText => None,
        LayoutAnswer::Text { name, .. } => name,
        LayoutAnswer::Dead { name } => name,
    }
}

impl Keyboard {
    /// A keyboard with no modifier held and no dead key pending.
    pub fn new() -> (r: Keyboard)
        ensures
            r == (Keyboard {
                shift_left: false,
                shift_right: false,
                caps_lock: false,
                alt_gr: false,
                control_left: false,
                control_right: false,
                dead: None,
                event_popup: false,
            }),
    {
        Keyboard {
            shift_left: false,
            shift_right: false,
            caps_lock: false,
            alt_gr: false,
            control_left: false,
            control_right: false,
            dead: None,
            event_popup: false,
        }
    }

    /// Takes an event into account. Returns the question to put to the layout where the
    /// event is the press of a key that gives text; `resolve` then takes the answer.
    pub fn feed(&mut self, event_type: &EventType) -> (r: Option<LayoutQuery>)
        ensures
            *final(self) == after_event(*old(self), *event_type),
            r == query_of(*old(self), *event_type),
    {
        match *event_type {
            EventType::KeyPress(key) => {
                if key == Key::ShiftLeft {
                    self.shift_left = true;
                    None
                } else if key == Key::ShiftRight {
                    self.shift_right = true;
                    None
                } else if key == Key::CapsLock {
                    self.caps_lock = !self.caps_lock;
                    None
                } else if key == Key::AltGr {
                    self.alt_gr = true;
                    None
                } else if key == Key::ControlLeft {
                    self.control_left = true;
                    None
                } else if key == Key::ControlRight {
                    self.control_right = true;
                    None
                } else {
                    Some(
                        LayoutQuery {
                            key,
                            shift: self.shift_left || self.shift_right,
                            caps_lock: self.caps_lock,
                            alt_gr: self.alt_gr,
                            control: self.control_left || self.control_right,
                            dead: self.dead,
                            event_popup: self.event_popup,
                        },
                    )
                }
            },
            EventType::KeyRelease(key) => {
                if key == Key::ShiftLeft {
                    self.shift_left = false;
                } else if key == Key::ShiftRight {
                    self.shift_right = false;
                } else if key == Key::AltGr {
                    self.alt_gr = false;
                } else if key == Key::ControlLeft {
                    self.control_left = false;
                } else if key == Key::ControlRight {
                    self.control_right = false;
                }
                None
            },
            _ => None,
        }
    }

    /// Takes the layout's answer to the query that `feed` returned, and gives the text
    /// of the press: none where the key gives no text, no text and dead for a dead key
    /// (which stays pending), else the text, which consumes the pending dead key.
    pub fn resolve(&mut self, query: &LayoutQuery, answer: LayoutAnswer) -> (r: Option<UnicodeInfo>)
        ensures
            *final(self) == after_answer(*old(self), *query, answer),
            r is Some <==> text_of(answer) is Some,
            r is Some ==> (r->0.unicode@, r->0.is_dead) == text_of(answer)->0,
            r is Some ==> r->0.name == name_of(answer),
    {
        match answer {
            LayoutAnswer::NoText => None,
            LayoutAnswer::Text { unicode, name } => {
                self.dead = None;
                Some(UnicodeInfo { name, unicode, is_dead: false })
            },
            LayoutAnswer::Dead { name } => {
                self.dead = Some(
                    DeadKey {
                        key: query.key,
                        shift: query.shift,
                        caps_lock: query.caps_lock,
                        alt_gr: query.alt_gr,
                    },
                );
                Some(UnicodeInfo { name, unicode: Vec::new(), is_dead: true })
            },
        }
    }
}

/// Sets the flag that the keyboard hands on to the layout with each query.
pub fn set_event_popup(keyboard: &mut Keyboard, b: bool)
    ensures
        *final(keyboard) == (Keyboard { event_popup: b, ..*old(keyboard) }),
{
    keyboard.event_popup = b;
}

/// Dead-key composition. A dead key's press reports no text and is dead; it leaves the
/// key pending, so that the next press of a key that gives text is put to the layout
/// with it, and is reported as that text, not dead; after which nothing is pending.
pub proof fn lemma_dead_key_composition(
    s: Keyboard,
    dead_key: Key,
    next: Key,
    dead: LayoutAnswer,
    composed: LayoutAnswer,
)
    requires
        !is_modifier(dead_key),
        !is_modifier(next),
        dead is Dead,
        composed is Text,
    ensures
        ({
            let q1 = query_of(s, EventType::KeyPress(dead_key))->0;
            let s1 = after_answer(after_event(s, EventType::KeyPress(dead_key)), q1, dead);
            let q2 = query_of(s1, EventType::KeyPress(next))->0;
            let s2 = after_answer(after_event(s1, EventType::KeyPress(next)), q2, composed);
            &&& text_of(dead) == Some((Seq::<u16>::empty(), true))
            &&& q1.key == dead_key
            &&& s1.dead == Some(q1.as_dead())
            &&& q2.dead == Some(q1.as_dead())
            &&& q2.key == next
            &&& text_of(composed) == Some((composed->unicode@, false))
            &&& s2.dead is None
        }),
{
}

/// Releasing keys that are not modifiers, and events that are not key events, change nothing.
pub proof fn lemma_other_events_keep_state(s: Keyboard, e: EventType)
    requires
        !(e is KeyPress),
        e is KeyRelease ==> !is_modifier(e->KeyRelease_0),
    ensures
        after_event(s, e) == s,
        query_of(s, e) is None,
{
}

} // verus!
