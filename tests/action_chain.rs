use action_chain::{
    ActionChain, KeyAction, MouseButton, PointerAction, PointerOrigin, PointerType, SourceType,
    WebElement, DEFAULT_KEY_DELAY, DEFAULT_POINTER_DELAY,
};

fn chain() -> ActionChain<()> {
    ActionChain::new(())
}

fn keys(c: &ActionChain<()>) -> Vec<KeyAction> {
    c.sources().0.actions.clone()
}

fn pointers(c: &ActionChain<()>) -> Vec<PointerAction> {
    c.sources().1.actions.clone()
}

fn key_pause(duration: u64) -> KeyAction {
    KeyAction::Pause { duration }
}

fn pointer_pause(duration: u64) -> PointerAction {
    PointerAction::Pause { duration }
}

fn down(button: MouseButton) -> PointerAction {
    PointerAction::Down { button }
}

fn up(button: MouseButton) -> PointerAction {
    PointerAction::Up { button }
}

fn center(id: &str, duration: u64) -> PointerAction {
    PointerAction::Move { duration, x: 0, y: 0, origin: PointerOrigin::Element(id.to_string()) }
}

#[test]
fn new_chain_has_two_empty_sources() {
    let c = chain();
    let (k, p) = c.sources();
    assert_eq!(k.id, "key");
    assert_eq!(k.source_type, SourceType::Key);
    assert_eq!(k.pointer_type, None);
    assert!(k.actions.is_empty());
    assert_eq!(p.id, "pointer");
    assert_eq!(p.source_type, SourceType::Pointer);
    assert_eq!(p.pointer_type, Some(PointerType::Mouse));
    assert!(p.actions.is_empty());
}

#[test]
fn default_delays() {
    let c = chain();
    assert_eq!(c.sources().0.delay, 0);
    assert_eq!(c.sources().1.delay, 250);
    assert_eq!(DEFAULT_KEY_DELAY, 0);
    assert_eq!(DEFAULT_POINTER_DELAY, 250);
    let d = ActionChain::new_with_delay((), None, None);
    assert_eq!(d.sources().0.delay, 0);
    assert_eq!(d.sources().1.delay, 250);
}

#[test]
fn explicit_delays_override_independently() {
    let k = ActionChain::new_with_delay((), Some(40), None);
    assert_eq!((k.sources().0.delay, k.sources().1.delay), (40, 250));
    let p = ActionChain::new_with_delay((), None, Some(10));
    assert_eq!((p.sources().0.delay, p.sources().1.delay), (0, 10));
    let both = ActionChain::new_with_delay((), Some(5), Some(0));
    assert_eq!((both.sources().0.delay, both.sources().1.delay), (5, 0));
}

#[test]
fn delays_reach_the_actions() {
    let c = ActionChain::new_with_delay((), Some(7), Some(30)).click().key_down('x').move_to(1, 2);
    assert_eq!(keys(&c), vec![key_pause(7), key_pause(7), KeyAction::KeyDown { value: 'x' }, key_pause(7)]);
    assert_eq!(
        pointers(&c),
        vec![
            down(MouseButton::Left),
            up(MouseButton::Left),
            pointer_pause(30),
            PointerAction::Move { duration: 30, x: 1, y: 2, origin: PointerOrigin::Viewport },
        ]
    );
}

#[test]
fn click_appends_press_release_and_two_pauses() {
    let c = chain().click();
    assert_eq!(pointers(&c), vec![down(MouseButton::Left), up(MouseButton::Left)]);
    assert_eq!(keys(&c), vec![key_pause(0), key_pause(0)]);
    let c = c.click();
    assert_eq!(pointers(&c).len(), 4);
    assert_eq!(keys(&c).len(), 4);
}

#[test]
fn double_click_appends_four_and_four() {
    let c = chain().key_down('a').double_click();
    let p = pointers(&c);
    assert_eq!(p.len(), 5);
    assert_eq!(
        p[1..].to_vec(),
        vec![
            down(MouseButton::Left),
            up(MouseButton::Left),
            down(MouseButton::Left),
            up(MouseButton::Left),
        ]
    );
    assert_eq!(keys(&c)[1..].to_vec(), vec![key_pause(0); 4]);
}

#[test]
fn context_click_uses_the_right_button() {
    let c = chain().context_click();
    assert_eq!(pointers(&c), vec![down(MouseButton::Right), up(MouseButton::Right)]);
    assert_eq!(keys(&c), vec![key_pause(0); 2]);
}

#[test]
fn click_and_hold_then_release() {
    let c = chain().click_and_hold().release();
    assert_eq!(pointers(&c), vec![down(MouseButton::Left), up(MouseButton::Left)]);
    assert_eq!(keys(&c), vec![key_pause(0); 2]);
}

#[test]
fn key_down_and_up_pause_the_pointer() {
    let c = chain().key_down('q').key_up('q');
    assert_eq!(keys(&c), vec![KeyAction::KeyDown { value: 'q' }, KeyAction::KeyUp { value: 'q' }]);
    assert_eq!(pointers(&c), vec![pointer_pause(250); 2]);
}

#[test]
fn moves_carry_their_origin_and_the_pointer_delay() {
    let e = WebElement::new("elem-7");
    let c = chain()
        .move_to(10, -20)
        .move_by_offset(-3, 4)
        .move_to_element_center(&e)
        .move_to_element_with_offset(&e, 5, 6);
    assert_eq!(
        pointers(&c),
        vec![
            PointerAction::Move { duration: 250, x: 10, y: -20, origin: PointerOrigin::Viewport },
            PointerAction::Move { duration: 250, x: -3, y: 4, origin: PointerOrigin::Pointer },
            center("elem-7", 250),
            PointerAction::Move {
                duration: 250,
                x: 5,
                y: 6,
                origin: PointerOrigin::Element("elem-7".to_string()),
            },
        ]
    );
    assert_eq!(keys(&c), vec![key_pause(0); 4]);
}

#[test]
fn extreme_offsets_are_kept() {
    let c = chain().move_by_offset(i64::MIN, i64::MAX);
    assert_eq!(
        pointers(&c),
        vec![PointerAction::Move { duration: 250, x: i64::MIN, y: i64::MAX, origin: PointerOrigin::Pointer }]
    );
}

#[test]
fn send_keys_ab_is_key_down_up_per_character() {
    let a = chain().send_keys("ab");
    let b = chain().key_down('a').key_up('a').key_down('b').key_up('b');
    assert_eq!(a.sources(), b.sources());
    assert_eq!(
        keys(&a),
        vec![
            KeyAction::KeyDown { value: 'a' },
            KeyAction::KeyUp { value: 'a' },
            KeyAction::KeyDown { value: 'b' },
            KeyAction::KeyUp { value: 'b' },
        ]
    );
    assert_eq!(pointers(&a), vec![pointer_pause(250); 4]);
}

#[test]
fn send_keys_empty_text_adds_nothing() {
    let c = chain().click().send_keys("");
    assert_eq!(c.sources(), chain().click().sources());
}

#[test]
fn send_keys_takes_each_code_point() {
    let c = chain().send_keys("é\u{E009}z");
    assert_eq!(
        keys(&c),
        vec![
            KeyAction::KeyDown { value: 'é' },
            KeyAction::KeyUp { value: 'é' },
            KeyAction::KeyDown { value: '\u{E009}' },
            KeyAction::KeyUp { value: '\u{E009}' },
            KeyAction::KeyDown { value: 'z' },
            KeyAction::KeyUp { value: 'z' },
        ]
    );
    assert_eq!(pointers(&c).len(), 6);
}

#[test]
fn send_keys_in_parts_is_send_keys_of_the_whole() {
    let a = chain().send_keys("sel").send_keys("enium");
    let b = chain().send_keys("selenium");
    assert_eq!(a.sources(), b.sources());
}

#[test]
fn click_element_is_move_then_click() {
    let e = WebElement::new("button1");
    let a = chain().click_element(&e);
    let b = chain().move_to_element_center(&e).click();
    assert_eq!(a.sources(), b.sources());
    assert_eq!(
        pointers(&a),
        vec![center("button1", 250), down(MouseButton::Left), up(MouseButton::Left)]
    );
    assert_eq!(keys(&a), vec![key_pause(0); 3]);
}

#[test]
fn element_variants_move_to_center_first() {
    let e = WebElement::new("e1");
    assert_eq!(
        chain().click_and_hold_element(&e).sources(),
        chain().move_to_element_center(&e).click_and_hold().sources()
    );
    assert_eq!(
        chain().context_click_element(&e).sources(),
        chain().move_to_element_center(&e).context_click().sources()
    );
    assert_eq!(
        chain().double_click_element(&e).sources(),
        chain().move_to_element_center(&e).double_click().sources()
    );
    assert_eq!(
        chain().release_on_element(&e).sources(),
        chain().move_to_element_center(&e).release().sources()
    );
    assert_eq!(pointers(&chain().double_click_element(&e)).len(), 5);
}

#[test]
fn drag_and_drop_element_is_hold_then_release_on_target() {
    let src = WebElement::new("src");
    let tgt = WebElement::new("tgt");
    let a = chain().drag_and_drop_element(&src, &tgt);
    let b = chain().click_and_hold_element(&src).release_on_element(&tgt);
    assert_eq!(a.sources(), b.sources());
    assert_eq!(
        pointers(&a),
        vec![center("src", 250), down(MouseButton::Left), center("tgt", 250), up(MouseButton::Left)]
    );
    assert_eq!(keys(&a), vec![key_pause(0); 4]);
}

#[test]
fn drag_and_drop_by_offsets() {
    let e = WebElement::new("e");
    let a = chain().drag_and_drop_by_offset(15, -5);
    assert_eq!(a.sources(), chain().click_and_hold().move_by_offset(15, -5).sources());
    assert_eq!(
        pointers(&a),
        vec![
            down(MouseButton::Left),
            PointerAction::Move { duration: 250, x: 15, y: -5, origin: PointerOrigin::Pointer },
        ]
    );
    let b = chain().drag_and_drop_element_by_offset(&e, 3, 4);
    assert_eq!(b.sources(), chain().click_and_hold_element(&e).move_by_offset(3, 4).sources());
    assert_eq!(pointers(&b).len(), 3);
}

#[test]
fn key_and_text_on_element_click_it_first() {
    let e = WebElement::new("input1");
    assert_eq!(
        chain().key_down_on_element(&e, 'a').sources(),
        chain().click_element(&e).key_down('a').sources()
    );
    assert_eq!(
        chain().key_up_on_element(&e, 'a').sources(),
        chain().click_element(&e).key_up('a').sources()
    );
    let c = chain().send_keys_to_element(&e, "hi");
    assert_eq!(c.sources(), chain().click_element(&e).send_keys("hi").sources());
    assert_eq!(keys(&c).len(), 7);
    assert_eq!(keys(&c)[3], KeyAction::KeyDown { value: 'h' });
}

#[test]
fn timelines_stay_aligned_over_mixed_calls() {
    let e = WebElement::new("x");
    let c = chain()
        .double_click()
        .send_keys("abc")
        .drag_and_drop_element(&e, &e)
        .key_down('\u{E009}')
        .context_click_element(&e)
        .move_by_offset(1, 1)
        .key_up('\u{E009}');
    let (k, p) = c.sources();
    assert_eq!(k.actions.len(), p.actions.len());
    assert_eq!(k.actions.len(), 4 + 6 + 4 + 1 + 3 + 1 + 1);
}

#[test]
fn handle_is_kept_through_the_chain() {
    let c = ActionChain::new(42u32).click().send_keys("a").move_to(0, 0);
    assert_eq!(*c.handle(), 42);
}

#[test]
fn web_element_keeps_its_id() {
    assert_eq!(WebElement::new("abc-123").element_id, "abc-123");
}
