use vstd::prelude::*;

use crate::action::{KeyAction, MouseButton, PointerAction, PointerOrigin};
use crate::model::{key_pauses, key_strokes, lift, pointer_pauses, press, ChainModel};

verus! {

/// Two pointer steps in a row are one step with the actions of both, in
/// order.
pub proof fn lemma_pointer_steps(m: ChainModel, a: Seq<PointerAction>, b: Seq<PointerAction>)
    ensures
        m.pointer_step(a).pointer_step(b) == m.pointer_step(a + b),
{
    assert(key_pauses(m.key_delay, a.len()) + key_pauses(m.key_delay, b.len()) =~= key_pauses(
        m.key_delay,
        (a + b).len(),
    ));
    assert(m.keys + key_pauses(m.key_delay, a.len()) + key_pauses(m.key_delay, b.len()) =~= m.keys
        + key_pauses(m.key_delay, (a + b).len()));
    assert(m.pointers + a + b =~= m.pointers + (a + b));
    assert(m.pointer_step(a).pointer_step(b) =~= m.pointer_step(a + b));
}

/// Two keyboard steps in a row are one step with the actions of both, in
/// order.
pub proof fn lemma_key_steps(m: ChainModel, a: Seq<KeyAction>, b: Seq<KeyAction>)
    ensures
        m.key_step(a).key_step(b) == m.key_step(a + b),
{
    assert(pointer_pauses(m.pointer_delay, a.len()) + pointer_pauses(m.pointer_delay, b.len())
        =~= pointer_pauses(m.pointer_delay, (a + b).len()));
    assert(m.pointers + pointer_pauses(m.pointer_delay, a.len()) + pointer_pauses(
        m.pointer_delay,
        b.len(),
    ) =~= m.pointers + pointer_pauses(m.pointer_delay, (a + b).len()));
    assert(m.keys + a + b =~= m.keys + (a + b));
    assert(m.key_step(a).key_step(b) =~= m.key_step(a + b));
}

/// Every step keeps the two timelines of equal length.
pub proof fn lemma_steps_keep_alignment(m: ChainModel, p: Seq<PointerAction>, k: Seq<KeyAction>)
    requires
        m.aligned(),
    ensures
        m.pointer_step(p).aligned(),
        m.key_step(k).aligned(),
{
}

/// Clicking an element is moving to its center and then clicking.
pub proof fn lemma_click_element(m: ChainModel, element_id: String)
    ensures
        m.click_element(element_id) == m.move_to_element_center(element_id).click(),
{
    let a = seq![m.center_of(element_id)];
    let b = seq![press(MouseButton::Left), lift(MouseButton::Left)];
    lemma_pointer_steps(m, a, b);
    assert(a + b =~= seq![a[0], b[0], b[1]]);
}

/// Pressing on an element is moving to its center and then pressing.
pub proof fn lemma_click_and_hold_element(m: ChainModel, element_id: String)
    ensures
        m.click_and_hold_element(element_id) == m.move_to_element_center(element_id).click_and_hold(),
{
    let a = seq![m.center_of(element_id)];
    let b = seq![press(MouseButton::Left)];
    lemma_pointer_steps(m, a, b);
    assert(a + b =~= seq![a[0], b[0]]);
}

/// Right-clicking an element is moving to its center and then right-clicking.
pub proof fn lemma_context_click_element(m: ChainModel, element_id: String)
    ensures
        m.context_click_element(element_id) == m.move_to_element_center(element_id).context_click(),
{
    let a = seq![m.center_of(element_id)];
    let b = seq![press(MouseButton::Right), lift(MouseButton::Right)];
    lemma_pointer_steps(m, a, b);
    assert(a + b =~= seq![a[0], b[0], b[1]]);
}

/// Double-clicking an element is moving to its center and then
/// double-clicking.
pub proof fn lemma_double_click_element(m: ChainModel, element_id: String)
    ensures
        m.double_click_element(element_id) == m.move_to_element_center(element_id).double_click(),
{
    let a = seq![m.center_of(element_id)];
    let b = seq![
        press(MouseButton::Left),
        lift(MouseButton::Left),
        press(MouseButton::Left),
        lift(MouseButton::Left),
    ];
    lemma_pointer_steps(m, a, b);
    assert(a + b =~= seq![a[0], b[0], b[1], b[2], b[3]]);
}

/// Releasing on an element is moving to its center and then releasing.
pub proof fn lemma_release_on_element(m: ChainModel, element_id: String)
    ensures
        m.release_on_element(element_id) == m.move_to_element_center(element_id).release(),
{
    let a = seq![m.center_of(element_id)];
    let b = seq![lift(MouseButton::Left)];
    lemma_pointer_steps(m, a, b);
    assert(a + b =~= seq![a[0], b[0]]);
}

/// Dragging one element onto another is pressing on the first and releasing
/// on the second.
pub proof fn lemma_drag_and_drop_element(m: ChainModel, source_id: String, target_id: String)
    ensures
        m.drag_and_drop_element(source_id, target_id) == m.click_and_hold_element(
            source_id,
        ).release_on_element(target_id),
{
    let a = seq![m.center_of(source_id), press(MouseButton::Left)];
    let b = seq![m.center_of(target_id), lift(MouseButton::Left)];
    lemma_pointer_steps(m, a, b);
    assert(a + b =~= seq![a[0], a[1], b[0], b[1]]);
}

/// Dragging by an offset is pressing and then moving by that offset.
pub proof fn lemma_drag_and_drop_by_offset(m: ChainModel, x_offset: i64, y_offset: i64)
    ensures
        m.drag_and_drop_by_offset(x_offset, y_offset) == m.click_and_hold().move_by_offset(
            x_offset,
            y_offset,
        ),
{
    let a = seq![press(MouseButton::Left)];
    let b = seq![m.move_action(x_offset, y_offset, PointerOrigin::Pointer)];
    lemma_pointer_steps(m, a, b);
    assert(a + b =~= seq![a[0], b[0]]);
}

/// Dragging an element by an offset is pressing on it and then moving by
/// that offset.
pub proof fn lemma_drag_and_drop_element_by_offset(
    m: ChainModel,
    element_id: String,
    x_offset: i64,
    y_offset: i64,
)
    ensures
        m.drag_and_drop_element_by_offset(element_id, x_offset, y_offset)
            == m.click_and_hold_element(element_id).move_by_offset(x_offset, y_offset),
{
    let a = seq![m.center_of(element_id), press(MouseButton::Left)];
    let b = seq![m.move_action(x_offset, y_offset, PointerOrigin::Pointer)];
    lemma_pointer_steps(m, a, b);
    assert(a + b =~= seq![a[0], a[1], b[0]]);
}

/// Typing one more character is pressing and then releasing its key.
pub proof fn lemma_send_keys_push(m: ChainModel, text: Seq<char>, c: char)
    ensures
        m.send_keys(text.push(c)) == m.send_keys(text).key_down(c).key_up(c),
{
    let down = seq![KeyAction::KeyDown { value: c }];
    let up = seq![KeyAction::KeyUp { value: c }];
    lemma_key_steps(m, key_strokes(text), down);
    lemma_key_steps(m, key_strokes(text) + down, up);
    let t = text.push(c);
    let n = text.len() as int;
    assert forall|i: int| 0 <= i < key_strokes(t).len() implies #[trigger] key_strokes(t)[i] == (
    key_strokes(text) + down + up)[i] by {
        if i < 2 * n {
            assert(i / 2 < n && i / 2 >= 0) by (nonlinear_arith)
                requires
                    0 <= i < 2 * n,
            ;
            assert(t[i / 2] == text[i / 2]);
        } else if i == 2 * n {
            assert(i % 2 == 0 && i / 2 == n) by (nonlinear_arith)
                requires
                    i == 2 * n,
            ;
        } else {
            assert(i % 2 == 1 && i / 2 == n) by (nonlinear_arith)
                requires
                    i == 2 * n + 1,
            ;
        }
    }
    assert(key_strokes(t) =~= key_strokes(text) + down + up);
}

/// Typing `a` and then `b` is typing their concatenation.
pub proof fn lemma_send_keys_concat(m: ChainModel, a: Seq<char>, b: Seq<char>)
    ensures
        m.send_keys(a).send_keys(b) == m.send_keys(a + b),
    decreases b.len(),
{
    if b.len() == 0 {
        assert(a + b =~= a);
        assert(key_strokes(b).len() == 0);
        lemma_key_steps(m, key_strokes(a), key_strokes(b));
        assert(key_strokes(a) + key_strokes(b) =~= key_strokes(a));
    } else {
        let c = b.last();
        let rest = b.drop_last();
        assert(b =~= rest.push(c));
        assert(a + b =~= (a + rest).push(c));
        lemma_send_keys_concat(m, a, rest);
        lemma_send_keys_push(m.send_keys(a), rest, c);
        lemma_send_keys_push(m, a + rest, c);
    }
}

} // verus!
