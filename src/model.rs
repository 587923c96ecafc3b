use vstd::prelude::*;

use crate::action::{KeyAction, MouseButton, PointerAction, PointerOrigin};

verus! {

/// The abstract state of an action chain: the delay of each device and the
/// two timelines of actions.
pub struct ChainModel {
    pub key_delay: u64,
    pub pointer_delay: u64,
    pub keys: Seq<KeyAction>,
    pub pointers: Seq<PointerAction>,
}

/// `n` keyboard pauses of `delay` milliseconds each.
pub open spec fn key_pauses(delay: u64, n: nat) -> Seq<KeyAction> {
    Seq::new(n, |i: int| KeyAction::Pause { duration: delay })
}

/// `n` pointer pauses of `delay` milliseconds each.
pub open spec fn pointer_pauses(delay: u64, n: nat) -> Seq<PointerAction> {
    Seq::new(n, |i: int| PointerAction::Pause { duration: delay })
}

/// The `i`-th keyboard action that types `text`: even positions press the
/// key of a character, odd positions release it.
pub open spec fn key_stroke(text: Seq<char>, i: int) -> KeyAction {
    if i % 2 == 0 {
        KeyAction::KeyDown { value: text[i / 2] }
    } else {
        KeyAction::KeyUp { value: text[i / 2] }
    }
}

/// The keyboard actions that type `text`: for each character in turn, a key
/// press and then its release.
pub open spec fn key_strokes(text: Seq<char>) -> Seq<KeyAction> {
    Seq::new(2 * text.len(), |i: int| key_stroke(text, i))
}

pub open spec fn press(button: MouseButton) -> PointerAction {
    PointerAction::Down { button }
}

pub open spec fn lift(button: MouseButton) -> PointerAction {
    PointerAction::Up { button }
}

impl ChainModel {
    /// A chain with no actions yet.
    pub open spec fn empty(key_delay: u64, pointer_delay: u64) -> ChainModel {
        ChainModel { key_delay, pointer_delay, keys: Seq::empty(), pointers: Seq::empty() }
    }

    /// Both timelines hold the same number of actions.
    pub open spec fn aligned(self) -> bool {
        self.keys.len() == self.pointers.len()
    }

    /// The pointer performs `actions` while the keyboard waits, one pause for
    /// each of them.
    pub open spec fn pointer_step(self, actions: Seq<PointerAction>) -> ChainModel {
        ChainModel {
            keys: self.keys + key_pauses(self.key_delay, actions.len()),
            pointers: self.pointers + actions,
            ..self
        }
    }

    /// The keyboard performs `actions` while the pointer waits, one pause for
    /// each of them.
    pub open spec fn key_step(self, actions: Seq<KeyAction>) -> ChainModel {
        ChainModel {
            keys: self.keys + actions,
            pointers: self.pointers + pointer_pauses(self.pointer_delay, actions.len()),
            ..self
        }
    }

    /// A pointer move whose duration is the pointer delay.
    pub open spec fn move_action(self, x: i64, y: i64, origin: PointerOrigin) -> PointerAction {
        PointerAction::Move { duration: self.pointer_delay, x, y, origin }
    }

    /// A move to the center of the element with id `element_id`.
    pub open spec fn center_of(self, element_id: String) -> PointerAction {
        self.move_action(0, 0, PointerOrigin::Element(element_id))
    }

    pub open spec fn click(self) -> ChainModel {
        self.pointer_step(seq![press(MouseButton::Left), lift(MouseButton::Left)])
    }

    pub open spec fn click_and_hold(self) -> ChainModel {
        self.pointer_step(seq![press(MouseButton::Left)])
    }

    pub open spec fn context_click(self) -> ChainModel {
        self.pointer_step(seq![press(MouseButton::Right), lift(MouseButton::Right)])
    }

    pub open spec fn double_click(self) -> ChainModel {
        self.pointer_step(
            seq![
                press(MouseButton::Left),
                lift(MouseButton::Left),
                press(MouseButton::Left),
                lift(MouseButton::Left),
            ],
        )
    }

    pub open spec fn release(self) -> ChainModel {
        self.pointer_step(seq![lift(MouseButton::Left)])
    }

    pub open spec fn move_to(self, x: i64, y: i64) -> ChainModel {
        self.pointer_step(seq![self.move_action(x, y, PointerOrigin::Viewport)])
    }

    pub open spec fn move_by_offset(self, x_offset: i64, y_offset: i64) -> ChainModel {
        self.pointer_step(seq![self.move_action(x_offset, y_offset, PointerOrigin::Pointer)])
    }

    pub open spec fn move_to_element_center(self, element_id: String) -> ChainModel {
        self.pointer_step(seq![self.center_of(element_id)])
    }

    pub open spec fn move_to_element_with_offset(
        self,
        element_id: String,
        x_offset: i64,
        y_offset: i64,
    ) -> ChainModel {
        self.pointer_step(
            seq![self.move_action(x_offset, y_offset, PointerOrigin::Element(element_id))],
        )
    }

    pub open spec fn click_element(self, element_id: String) -> ChainModel {
        self.pointer_step(
            seq![self.center_of(element_id), press(MouseButton::Left), lift(MouseButton::Left)],
        )
    }

    pub open spec fn click_and_hold_element(self, element_id: String) -> ChainModel {
        self.pointer_step(seq![self.center_of(element_id), press(MouseButton::Left)])
    }

    pub open spec fn context_click_element(self, element_id: String) -> ChainModel {
        self.pointer_step(
            seq![self.center_of(element_id), press(MouseButton::Right), lift(MouseButton::Right)],
        )
    }

    pub open spec fn double_click_element(self, element_id: String) -> ChainModel {
        self.pointer_step(
            seq![
                self.center_of(element_id),
                press(MouseButton::Left),
                lift(MouseButton::Left),
                press(MouseButton::Left),
                lift(MouseButton::Left),
            ],
        )
    }

    pub open spec fn release_on_element(self, element_id: String) -> ChainModel {
        self.pointer_step(seq![self.center_of(element_id), lift(MouseButton::Left)])
    }

    /// Press on the source, move to the target's center, release there.
    pub open spec fn drag_and_drop_element(self, source_id: String, target_id: String) -> ChainModel {
        self.pointer_step(
            seq![
                self.center_of(source_id),
                press(MouseButton::Left),
                self.center_of(target_id),
                lift(MouseButton::Left),
            ],
        )
    }

    pub open spec fn drag_and_drop_by_offset(self, x_offset: i64, y_offset: i64) -> ChainModel {
        self.pointer_step(
            seq![
                press(MouseButton::Left),
                self.move_action(x_offset, y_offset, PointerOrigin::Pointer),
            ],
        )
    }

    pub open spec fn drag_and_drop_element_by_offset(
        self,
        element_id: String,
        x_offset: i64,
        y_offset: i64,
    ) -> ChainModel {
        self.pointer_step(
            seq![
                self.center_of(element_id),
                press(MouseButton::Left),
                self.move_action(x_offset, y_offset, PointerOrigin::Pointer),
            ],
        )
    }

    pub open spec fn key_down(self, value: char) -> ChainModel {
        self.key_step(seq![KeyAction::KeyDown { value }])
    }

    pub open spec fn key_up(self, value: char) -> ChainModel {
        self.key_step(seq![KeyAction::KeyUp { value }])
    }

    pub open spec fn send_keys(self, text: Seq<char>) -> ChainModel {
        self.key_step(key_strokes(text))
    }
}

} // verus!
