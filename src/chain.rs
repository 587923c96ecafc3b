use vstd::prelude::*;

use crate::action::{
    ActionSource, KeyAction, MouseButton, PointerAction, PointerOrigin, PointerType, SourceType,
    WebElement,
};
use crate::laws::{
    lemma_click_and_hold_element, lemma_click_element, lemma_context_click_element,
    lemma_double_click_element, lemma_drag_and_drop_by_offset, lemma_drag_and_drop_element,
    lemma_drag_and_drop_element_by_offset, lemma_release_on_element, lemma_send_keys_push,
};
use crate::model::{key_pauses, key_strokes, ChainModel};

verus! {

/// Delay of the keyboard device, in milliseconds, when none is given.
pub const DEFAULT_KEY_DELAY: u64 = 0;

/// Delay of the pointer device, in milliseconds, when none is given.
pub const DEFAULT_POINTER_DELAY: u64 = 250;

/// A sequence of input actions on a keyboard and a mouse, built up call by
/// call and sent in one request through the session handle `H`.
///
/// Every step appends to both timelines: the device that does nothing in a
/// step gets one pause for each action of the other, so the two timelines
/// always hold the same number of actions.
pub struct ActionChain<H> {
    handle: H,
    key_actions: ActionSource<KeyAction>,
    pointer_actions: ActionSource<PointerAction>,
}

/// A vector that holds `action` alone.
fn one_action(action: PointerAction) -> (r: Vec<PointerAction>)
    ensures
        r@ == seq![action],
{
    let mut r = Vec::new();
    r.push(action);
    assert(r@ =~= seq![action]);
    r
}

impl<H> View for ActionChain<H> {
    type V = ChainModel;

    closed spec fn view(&self) -> ChainModel {
        ChainModel {
            key_delay: self.key_actions.delay,
            pointer_delay: self.pointer_actions.delay,
            keys: self.key_actions.actions@,
            pointers: self.pointer_actions.actions@,
        }
    }
}

impl<H> ActionChain<H> {
    #[verifier::type_invariant]
    spec fn well_formed(self) -> bool {
        &&& self.key_actions.id@ == "key"@
        &&& self.key_actions.source_type == SourceType::Key
        &&& self.key_actions.pointer_type is None
        &&& self.pointer_actions.id@ == "pointer"@
        &&& self.pointer_actions.source_type == SourceType::Pointer
        &&& self.pointer_actions.pointer_type == Some(PointerType::Mouse)
        &&& self.key_actions.actions@.len() == self.pointer_actions.actions@.len()
    }

    /// The session handle that the chain was made with.
    pub closed spec fn session(self) -> H {
        self.handle
    }

    /// A chain with no actions, a keyboard delay of 0 ms and a pointer delay
    /// of 250 ms.
    pub fn new(handle: H) -> (r: Self)
        ensures
            r@ == ChainModel::empty(DEFAULT_KEY_DELAY, DEFAULT_POINTER_DELAY),
            r.session() == handle,
    {
        Self::new_with_delay(handle, None, None)
    }

    /// A chain with no actions and the given delays in milliseconds; a delay
    /// that is not given takes its default.
    pub fn new_with_delay(
        handle: H,
        key_delay: Option<u64>,
        pointer_delay: Option<u64>,
    ) -> (r: Self)
        ensures
            r@ == ChainModel::empty(
                match key_delay {
                    Some(d) => d,
                    None => DEFAULT_KEY_DELAY,
                },
                match pointer_delay {
                    Some(d) => d,
                    None => DEFAULT_POINTER_DELAY,
                },
            ),
            r.session() == handle,
    {
        let key_delay = match key_delay {
            Some(d) => d,
            None => DEFAULT_KEY_DELAY,
        };
        let pointer_delay = match pointer_delay {
            Some(d) => d,
            None => DEFAULT_POINTER_DELAY,
        };
        let r = ActionChain {
            handle,
            key_actions: ActionSource::new_key(key_delay),
            pointer_actions: ActionSource::new_pointer(PointerType::Mouse, pointer_delay),
        };
        assert(r@ =~= ChainModel::empty(key_delay, pointer_delay));
        r
    }

    /// The pointer performs `actions` while the keyboard pauses as often.
    fn pointer_step(self, actions: Vec<PointerAction>) -> (r: Self)
        ensures
            r@ == self@.pointer_step(actions@),
            r.session() == self.session(),
    {
        proof {
            use_type_invariant(&self);
        }
        let ghost before = self@;
        let n = actions.len();
        let ActionChain { handle, mut key_actions, mut pointer_actions } = self;
        pointer_actions.append(actions);
        let mut i: usize = 0;
        while i < n
            invariant
                i <= n,
                key_actions.actions@ == before.keys + key_pauses(before.key_delay, i as nat),
                key_actions.id == self.key_actions.id,
                key_actions.source_type == self.key_actions.source_type,
                key_actions.pointer_type == self.key_actions.pointer_type,
                key_actions.delay == before.key_delay,
            decreases n - i,
        {
            key_actions.pause();
            i += 1;
            assert(key_pauses(before.key_delay, i as nat) =~= key_pauses(
                before.key_delay,
                (i - 1) as nat,
            ).push(KeyAction::Pause { duration: before.key_delay }));
        }
        let r = ActionChain { handle, key_actions, pointer_actions };
        assert(r@ =~= before.pointer_step(actions@));
        r
    }

    /// The keyboard performs `action` while the pointer pauses once.
    fn key_step(self, action: KeyAction) -> (r: Self)
        ensures
            r@ == self@.key_step(seq![action]),
            r.session() == self.session(),
    {
        proof {
            use_type_invariant(&self);
        }
        let ghost before = self@;
        let ActionChain { handle, mut key_actions, mut pointer_actions } = self;
        key_actions.actions.push(action);
        pointer_actions.pause();
        let r = ActionChain { handle, key_actions, pointer_actions };
        assert(r@.keys =~= before.key_step(seq![action]).keys);
        assert(r@.pointers =~= before.key_step(seq![action]).pointers);
        assert(r@ =~= before.key_step(seq![action]));
        r
    }

    /// Press and release the left mouse button.
    pub fn click(self) -> (r: Self)
        ensures
            r@ == self@.click(),
            r.session() == self.session(),
    {
        self.pointer_step(
            vec![
                PointerAction::Down { button: MouseButton::Left },
                PointerAction::Up { button: MouseButton::Left },
            ],
        )
    }

    /// Press the left mouse button and hold it down.
    pub fn click_and_hold(self) -> (r: Self)
        ensures
            r@ == self@.click_and_hold(),
            r.session() == self.session(),
    {
        self.pointer_step(one_action(PointerAction::Down { button: MouseButton::Left }))
    }

    /// Press and release the right mouse button.
    pub fn context_click(self) -> (r: Self)
        ensures
            r@ == self@.context_click(),
            r.session() == self.session(),
    {
        self.pointer_step(
            vec![
                PointerAction::Down { button: MouseButton::Right },
                PointerAction::Up { button: MouseButton::Right },
            ],
        )
    }

    /// Press and release the left mouse button twice.
    pub fn double_click(self) -> (r: Self)
        ensures
            r@ == self@.double_click(),
            r.session() == self.session(),
    {
        self.pointer_step(
            vec![
                PointerAction::Down { button: MouseButton::Left },
                PointerAction::Up { button: MouseButton::Left },
                PointerAction::Down { button: MouseButton::Left },
                PointerAction::Up { button: MouseButton::Left },
            ],
        )
    }

    /// Release the left mouse button.
    pub fn release(self) -> (r: Self)
        ensures
            r@ == self@.release(),
            r.session() == self.session(),
    {
        self.pointer_step(one_action(PointerAction::Up { button: MouseButton::Left }))
    }

    /// Move the pointer to the coordinates `x`, `y` of the viewport.
    pub fn move_to(self, x: i64, y: i64) -> (r: Self)
        ensures
            r@ == self@.move_to(x, y),
            r.session() == self.session(),
    {
        let duration = self.pointer_actions.delay;
        let origin = PointerOrigin::Viewport;
        self.pointer_step(one_action(PointerAction::Move { duration, x, y, origin }))
    }

    /// Move the pointer by the given offsets from where it is.
    pub fn move_by_offset(self, x_offset: i64, y_offset: i64) -> (r: Self)
        ensures
            r@ == self@.move_by_offset(x_offset, y_offset),
            r.session() == self.session(),
    {
        let duration = self.pointer_actions.delay;
        self.pointer_step(
            one_action(
                PointerAction::Move {
                    duration,
                    x: x_offset,
                    y: y_offset,
                    origin: PointerOrigin::Pointer,
                },
            ),
        )
    }

    /// Move the pointer to the center of `element`.
    pub fn move_to_element_center(self, element: &WebElement) -> (r: Self)
        ensures
            r@ == self@.move_to_element_center(element.element_id),
            r.session() == self.session(),
    {
        let duration = self.pointer_actions.delay;
        let origin = PointerOrigin::Element(element.element_id.clone());
        self.pointer_step(one_action(PointerAction::Move { duration, x: 0, y: 0, origin }))
    }

    /// Move the pointer to the given offsets from the center of `element`.
    pub fn move_to_element_with_offset(
        self,
        element: &WebElement,
        x_offset: i64,
        y_offset: i64,
    ) -> (r: Self)
        ensures
            r@ == self@.move_to_element_with_offset(element.element_id, x_offset, y_offset),
            r.session() == self.session(),
    {
        let duration = self.pointer_actions.delay;
        let origin = PointerOrigin::Element(element.element_id.clone());
        let action = PointerAction::Move { duration, x: x_offset, y: y_offset, origin };
        self.pointer_step(one_action(action))
    }

    /// Move to the center of `element` and click it with the left button.
    pub fn click_element(self, element: &WebElement) -> (r: Self)
        ensures
            r@ == self@.click_element(element.element_id),
            r.session() == self.session(),
    {
        proof {
            lemma_click_element(self@, element.element_id);
        }
        self.move_to_element_center(element).click()
    }

    /// Move to the center of `element` and press the left button there.
    pub fn click_and_hold_element(self, element: &WebElement) -> (r: Self)
        ensures
            r@ == self@.click_and_hold_element(element.element_id),
            r.session() == self.session(),
    {
        proof {
            lemma_click_and_hold_element(self@, element.element_id);
        }
        self.move_to_element_center(element).click_and_hold()
    }

    /// Move to the center of `element` and click it with the right button.
    pub fn context_click_element(self, element: &WebElement) -> (r: Self)
        ensures
            r@ == self@.context_click_element(element.element_id),
            r.session() == self.session(),
    {
        proof {
            lemma_context_click_element(self@, element.element_id);
        }
        self.move_to_element_center(element).context_click()
    }

    /// Move to the center of `element` and double-click it.
    pub fn double_click_element(self, element: &WebElement) -> (r: Self)
        ensures
            r@ == self@.double_click_element(element.element_id),
            r.session() == self.session(),
    {
        proof {
            lemma_double_click_element(self@, element.element_id);
        }
        self.move_to_element_center(element).double_click()
    }

    /// Move to the center of `element` and release the left button there.
    pub fn release_on_element(self, element: &WebElement) -> (r: Self)
        ensures
            r@ == self@.release_on_element(element.element_id),
            r.session() == self.session(),
    {
        proof {
            lemma_release_on_element(self@, element.element_id);
        }
        self.move_to_element_center(element).release()
    }

    /// Drag from the center of `source` to the center of `target`.
    pub fn drag_and_drop_element(self, source: &WebElement, target: &WebElement) -> (r: Self)
        ensures
            r@ == self@.drag_and_drop_element(source.element_id, target.element_id),
            r.session() == self.session(),
    {
        proof {
            lemma_drag_and_drop_element(self@, source.element_id, target.element_id);
        }
        self.click_and_hold_element(source).release_on_element(target)
    }

    /// Press the left button and move the pointer by the given offsets.
    pub fn drag_and_drop_by_offset(self, x_offset: i64, y_offset: i64) -> (r: Self)
        ensures
            r@ == self@.drag_and_drop_by_offset(x_offset, y_offset),
            r.session() == self.session(),
    {
        proof {
            lemma_drag_and_drop_by_offset(self@, x_offset, y_offset);
        }
        self.click_and_hold().move_by_offset(x_offset, y_offset)
    }

    /// Press the left button on the center of `element` and move the pointer
    /// by the given offsets.
    pub fn drag_and_drop_element_by_offset(
        self,
        element: &WebElement,
        x_offset: i64,
        y_offset: i64,
    ) -> (r: Self)
        ensures
            r@ == self@.drag_and_drop_element_by_offset(element.element_id, x_offset, y_offset),
            r.session() == self.session(),
    {
        proof {
            lemma_drag_and_drop_element_by_offset(self@, element.element_id, x_offset, y_offset);
        }
        self.click_and_hold_element(element).move_by_offset(x_offset, y_offset)
    }

    /// Press the key of `value`.
    pub fn key_down(self, value: char) -> (r: Self)
        ensures
            r@ == self@.key_down(value),
            r.session() == self.session(),
    {
        self.key_step(KeyAction::KeyDown { value })
    }

    /// Click `element`, then press the key of `value`.
    pub fn key_down_on_element(self, element: &WebElement, value: char) -> (r: Self)
        ensures
            r@ == self@.click_element(element.element_id).key_down(value),
            r.session() == self.session(),
    {
        self.click_element(element).key_down(value)
    }

    /// Release the key of `value`.
    pub fn key_up(self, value: char) -> (r: Self)
        ensures
            r@ == self@.key_up(value),
            r.session() == self.session(),
    {
        self.key_step(KeyAction::KeyUp { value })
    }

    /// Click `element`, then release the key of `value`.
    pub fn key_up_on_element(self, element: &WebElement, value: char) -> (r: Self)
        ensures
            r@ == self@.click_element(element.element_id).key_up(value),
            r.session() == self.session(),
    {
        self.click_element(element).key_up(value)
    }

    /// Type `text`: press and release the key of each of its characters in
    /// turn.
    pub fn send_keys(self, text: &str) -> (r: Self)
        ensures
            r@ == self@.send_keys(text@),
            r.session() == self.session(),
    {
        let n = text.unicode_len();
        let mut chain = self;
        let mut i: usize = 0;
        proof {
            assert(text@.take(0) =~= Seq::<char>::empty());
            assert(key_strokes(Seq::<char>::empty()) =~= Seq::<KeyAction>::empty());
            assert(self@.send_keys(text@.take(0)) =~= self@);
        }
        while i < n
            invariant
                i <= n == text@.len(),
                chain@ == self@.send_keys(text@.take(i as int)),
                chain.session() == self.session(),
            decreases n - i,
        {
            let c = text.get_char(i);
            proof {
                assert(text@.take(i + 1) =~= text@.take(i as int).push(c));
                lemma_send_keys_push(self@, text@.take(i as int), c);
            }
            chain = chain.key_down(c).key_up(c);
            i += 1;
        }
        proof {
            assert(text@.take(n as int) =~= text@);
        }
        chain
    }

    /// Click `element`, then type `text`.
    pub fn send_keys_to_element(self, element: &WebElement, text: &str) -> (r: Self)
        ensures
            r@ == self@.click_element(element.element_id).send_keys(text@),
            r.session() == self.session(),
    {
        self.click_element(element).send_keys(text)
    }

    /// The session handle that the chain was made with.
    pub fn handle(&self) -> (r: &H)
        ensures
            *r == self.session(),
    {
        &self.handle
    }

    /// The two input sources that make up the request: the keyboard
    /// (id "key") and the mouse pointer (id "pointer"), each with its delay
    /// and its actions. Their action lists have the same length.
    pub fn sources(&self) -> (r: (&ActionSource<KeyAction>, &ActionSource<PointerAction>))
        ensures
            r.0.id@ == "key"@,
            r.0.source_type == SourceType::Key,
            r.0.pointer_type is None,
            r.0.delay == self@.key_delay,
            r.0.actions@ == self@.keys,
            r.1.id@ == "pointer"@,
            r.1.source_type == SourceType::Pointer,
            r.1.pointer_type == Some(PointerType::Mouse),
            r.1.delay == self@.pointer_delay,
            r.1.actions@ == self@.pointers,
            r.0.actions@.len() == r.1.actions@.len(),
    {
        proof {
            use_type_invariant(self);
        }
        (&self.key_actions, &self.pointer_actions)
    }
}

} // verus!
