use vstd::prelude::*;

verus! {

/// A mouse button that a pointer action presses or releases.
#[derive(Clone, Copy, Debug, PartialEq, Eq, Structural)]
pub enum MouseButton {
    Left,
    Middle,
    Right,
}

/// The kind of physical device behind a pointer input source.
#[derive(Clone, Copy, Debug, PartialEq, Eq, Structural)]
pub enum PointerType {
    Mouse,
    Pen,
    Touch,
}

/// The kind of an input source: a keyboard or a pointer.
#[derive(Clone, Copy, Debug, PartialEq, Eq, Structural)]
pub enum SourceType {
    Key,
    Pointer,
}

/// One atomic event of the keyboard device.
#[derive(Clone, Copy, Debug, PartialEq, Eq, Structural)]
pub enum KeyAction {
    KeyDown { value: char },
    KeyUp { value: char },
    Pause { duration: u64 },
}

/// What the coordinates of a pointer move are measured from.
#[derive(Clone, Debug, PartialEq, Eq)]
pub enum PointerOrigin {
    /// Absolute coordinates in the viewport.
    Viewport,
    /// An offset from the current pointer position.
    Pointer,
    /// An offset from the center of the element with this server-side id.
    Element(String),
}

/// One atomic event of the pointer device.
#[derive(Clone, Debug, PartialEq, Eq)]
pub enum PointerAction {
    Down { button: MouseButton },
    Up { button: MouseButton },
    Move { duration: u64, x: i64, y: i64, origin: PointerOrigin },
    Pause { duration: u64 },
}

/// A reference to an element located earlier in the page, by the opaque id
/// that the remote end gave it.
#[derive(Clone, Debug, PartialEq, Eq)]
pub struct WebElement {
    pub element_id: String,
}

impl WebElement {
    pub fn new(element_id: &str) -> (r: WebElement)
        ensures
            r.element_id@ == element_id@,
    {
        WebElement { element_id: String::from_str(element_id) }
    }
}

/// One input device as it goes on the wire: its id, its kind, the pointer
/// type of a pointer device, the delay between its actions in milliseconds,
/// and its ordered actions.
#[derive(Clone, Debug, PartialEq, Eq)]
pub struct ActionSource<A> {
    pub id: String,
    pub source_type: SourceType,
    pub pointer_type: Option<PointerType>,
    pub delay: u64,
    pub actions: Vec<A>,
}

impl<A> ActionSource<A> {
    pub(crate) fn append(&mut self, actions: Vec<A>)
        ensures
            final(self).actions@ == old(self).actions@ + actions@,
            final(self).id == old(self).id,
            final(self).source_type == old(self).source_type,
            final(self).pointer_type == old(self).pointer_type,
            final(self).delay == old(self).delay,
    {
        let mut actions = actions;
        self.actions.append(&mut actions);
    }
}

impl ActionSource<KeyAction> {
    pub(crate) fn new_key(delay: u64) -> (r: Self)
        ensures
            r.id@ == "key"@,
            r.source_type == SourceType::Key,
            r.pointer_type is None,
            r.delay == delay,
            r.actions@ == Seq::<KeyAction>::empty(),
    {
        ActionSource {
            id: String::from_str("key"),
            source_type: SourceType::Key,
            pointer_type: None,
            delay,
            actions: Vec::new(),
        }
    }

    pub(crate) fn pause(&mut self)
        ensures
            final(self).actions@ == old(self).actions@.push(
                KeyAction::Pause { duration: old(self).delay },
            ),
            final(self).id == old(self).id,
            final(self).source_type == old(self).source_type,
            final(self).pointer_type == old(self).pointer_type,
            final(self).delay == old(self).delay,
    {
        let duration = self.delay;
        self.actions.push(KeyAction::Pause { duration });
    }
}

impl ActionSource<PointerAction> {
    pub(crate) fn new_pointer(pointer_type: PointerType, delay: u64) -> (r: Self)
        ensures
            r.id@ == "pointer"@,
            r.source_type == SourceType::Pointer,
            r.pointer_type == Some(pointer_type),
            r.delay == delay,
            r.actions@ == Seq::<PointerAction>::empty(),
    {
        ActionSource {
            id: String::from_str("pointer"),
            source_type: SourceType::Pointer,
            pointer_type: Some(pointer_type),
            delay,
            actions: Vec::new(),
        }
    }

    pub(crate) fn pause(&mut self)
        ensures
            final(self).actions@ == old(self).actions@.push(
                PointerAction::Pause { duration: old(self).delay },
            ),
            final(self).id == old(self).id,
            final(self).source_type == old(self).source_type,
            final(self).pointer_type == old(self).pointer_type,
            final(self).delay == old(self).delay,
    {
        let duration = self.delay;
        self.actions.push(PointerAction::Pause { duration });
    }
}

} // verus!
