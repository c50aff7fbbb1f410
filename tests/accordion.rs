use accordion::context::AccordionContext;
use accordion::focus::{step_next, step_prev};
use accordion::item::{content_id, Item, OpenWatcher};
use accordion::keyboard::Key;

fn with_items(allow_multiple_open: bool, collapsible: bool, horizontal: bool, n: usize) -> AccordionContext {
    let mut ctx = AccordionContext::new(allow_multiple_open, false, collapsible, horizontal);
    for _ in 0..n {
        ctx.register_item();
    }
    ctx
}

fn item(id: usize, index: usize, disabled: bool) -> Item {
    Item { id, index, aria_id: format!("item-{}", id), disabled }
}

#[test]
fn new_context_is_empty() {
    let ctx = AccordionContext::new(true, true, false, true);
    assert_eq!(ctx.next_id, 0);
    assert_eq!(ctx.num_items, 0);
    assert!(ctx.open_items.is_empty());
    assert_eq!(ctx.focused_index, None);
    assert!(ctx.is_disabled());
    assert!(ctx.is_horizontal());
    assert!(ctx.allow_multiple_open);
    assert!(!ctx.collapsible);
}

#[test]
fn single_open_scenario_collapsible() {
    let mut ctx = with_items(false, true, false, 4);
    ctx.set_open(2);
    assert_eq!(ctx.open_items, vec![2]);
    ctx.set_open(0);
    assert_eq!(ctx.open_items, vec![0]);
    assert!(!ctx.is_open(2));
    ctx.set_closed(0);
    assert!(ctx.open_items.is_empty());
}

#[test]
fn single_open_scenario_not_collapsible() {
    let mut ctx = with_items(false, false, false, 4);
    ctx.set_open(0);
    ctx.set_closed(0);
    assert_eq!(ctx.open_items, vec![0]);
    assert!(ctx.is_open(0));
}

#[test]
fn never_more_than_one_open_when_single() {
    let mut ctx = with_items(false, true, false, 5);
    let ops: [(bool, usize); 10] = [
        (true, 1),
        (true, 3),
        (false, 1),
        (true, 4),
        (true, 4),
        (false, 4),
        (false, 0),
        (true, 0),
        (true, 2),
        (false, 3),
    ];
    for (open, id) in ops {
        if open {
            ctx.set_open(id);
        } else {
            ctx.set_closed(id);
        }
        assert!(ctx.open_items.len() <= 1);
    }
    assert_eq!(ctx.open_items, vec![2]);
}

#[test]
fn not_collapsible_keeps_last_open() {
    let mut ctx = with_items(true, false, false, 3);
    ctx.set_open(1);
    ctx.set_closed(1);
    assert_eq!(ctx.open_items.len(), 1);
    assert_eq!(ctx.open_items, vec![1]);
}

#[test]
fn not_collapsible_closes_when_several_open() {
    let mut ctx = with_items(true, false, false, 3);
    ctx.set_open(0);
    ctx.set_open(2);
    ctx.set_closed(0);
    assert_eq!(ctx.open_items, vec![2]);
    ctx.set_closed(2);
    assert_eq!(ctx.open_items, vec![2]);
}

#[test]
fn multiple_open_keeps_order_and_no_repeats() {
    let mut ctx = with_items(true, true, false, 4);
    ctx.set_open(3);
    ctx.set_open(1);
    ctx.set_open(3);
    ctx.set_open(0);
    assert_eq!(ctx.open_items, vec![3, 1, 0]);
    ctx.set_closed(1);
    assert_eq!(ctx.open_items, vec![3, 0]);
    ctx.set_closed(2);
    assert_eq!(ctx.open_items, vec![3, 0]);
}

#[test]
fn register_gives_increasing_ids() {
    let mut ctx = AccordionContext::new(false, false, true, false);
    let mut ids = Vec::new();
    for _ in 0..5 {
        ids.push(ctx.register_item());
    }
    assert_eq!(ids, vec![0, 1, 2, 3, 4]);
    assert_eq!(ctx.num_items, 5);
    ctx.unregister_item();
    ctx.unregister_item();
    assert_eq!(ctx.num_items, 3);
    let again = ctx.register_item();
    assert_eq!(again, 5);
    assert!(!ids.contains(&again));
    assert_eq!(ctx.num_items, 4);
}

#[test]
fn next_then_prev_returns() {
    for n in 1..6usize {
        for i in 0..n {
            assert_eq!(step_prev(step_next(i, n), n), i);
            assert_eq!(step_next(step_prev(i, n), n), i);
        }
    }
    assert_eq!(step_next(3, 4), 0);
    assert_eq!(step_prev(0, 4), 3);
    assert_eq!(step_next(1, 4), 2);
    assert_eq!(step_prev(2, 4), 1);
}

#[test]
fn focus_moves_wrap() {
    let mut ctx = with_items(false, true, false, 3);
    ctx.focus_next();
    assert_eq!(ctx.focused_index, None);
    ctx.focus_prev();
    assert_eq!(ctx.focused_index, None);
    ctx.set_focus(Some(2));
    assert!(ctx.is_focused(2));
    ctx.focus_next();
    assert_eq!(ctx.focused_index, Some(0));
    ctx.focus_prev();
    assert_eq!(ctx.focused_index, Some(2));
    ctx.focus_start();
    assert_eq!(ctx.focused_index, Some(0));
    ctx.focus_end();
    assert_eq!(ctx.focused_index, Some(2));
    ctx.set_focus(None);
    assert!(!ctx.is_focused(2));
}

#[test]
fn horizontal_arrows_scenario() {
    let mut ctx = with_items(false, true, true, 4);
    ctx.set_focus(Some(0));
    assert!(ctx.handle_key(Key::ArrowRight));
    assert_eq!(ctx.focused_index, Some(1));
    assert!(ctx.handle_key(Key::ArrowLeft));
    assert!(ctx.handle_key(Key::ArrowLeft));
    assert_eq!(ctx.focused_index, Some(3));
}

#[test]
fn keys_off_the_layout_are_ignored() {
    let mut ctx = with_items(false, true, true, 4);
    ctx.set_focus(Some(1));
    assert!(!ctx.handle_key(Key::ArrowDown));
    assert!(!ctx.handle_key(Key::ArrowUp));
    assert!(!ctx.handle_key(Key::Other));
    assert_eq!(ctx.focused_index, Some(1));

    let mut vertical = with_items(false, true, false, 4);
    vertical.set_focus(Some(1));
    assert!(!vertical.handle_key(Key::ArrowRight));
    assert!(!vertical.handle_key(Key::ArrowLeft));
    assert!(vertical.handle_key(Key::ArrowDown));
    assert_eq!(vertical.focused_index, Some(2));
    assert!(vertical.handle_key(Key::ArrowUp));
    assert!(vertical.handle_key(Key::ArrowUp));
    assert_eq!(vertical.focused_index, Some(0));
    assert!(vertical.handle_key(Key::End));
    assert_eq!(vertical.focused_index, Some(3));
    assert!(vertical.handle_key(Key::Home));
    assert_eq!(vertical.focused_index, Some(0));
}

#[test]
fn disabled_trigger_takes_no_click() {
    let mut root_disabled = AccordionContext::new(false, true, true, false);
    let id = root_disabled.register_item();
    let it = item(id, 0, false);
    assert!(root_disabled.is_item_disabled(&it));

    let mut ctx = with_items(false, true, false, 2);
    let off = item(1, 1, true);
    assert!(ctx.is_item_disabled(&off));
    let on = item(0, 0, false);
    assert!(!ctx.is_item_disabled(&on));
    ctx.toggle(on.id);
    assert_eq!(ctx.open_items, vec![0]);
    ctx.toggle(on.id);
    assert!(ctx.open_items.is_empty());
}

#[test]
fn mount_with_default_open() {
    let mut ctx = AccordionContext::new(false, false, true, false);
    let a = ctx.mount_item(false);
    let b = ctx.mount_item(true);
    assert_eq!((a, b), (0, 1));
    assert_eq!(ctx.open_items, vec![1]);
    assert_eq!(ctx.num_items, 2);
}

#[test]
fn change_reported_once_per_transition() {
    let mut w = OpenWatcher::new();
    assert!(w.observe(true));
    assert!(!w.observe(true));
    assert!(w.observe(false));
    assert!(!w.observe(false));
    assert!(w.observe(true));

    let mut closed_at_mount = OpenWatcher::new();
    assert!(!closed_at_mount.observe(false));
}

#[test]
fn watcher_follows_accordion() {
    let mut ctx = AccordionContext::new(false, false, true, false);
    let a = ctx.mount_item(true);
    let b = ctx.mount_item(false);
    let mut wa = OpenWatcher::new();
    let mut wb = OpenWatcher::new();
    let mut fired: Vec<(usize, bool)> = Vec::new();
    let mut watch_all = |ctx: &AccordionContext, fired: &mut Vec<(usize, bool)>| {
        if wa.observe(ctx.is_open(a)) {
            fired.push((a, ctx.is_open(a)));
        }
        if wb.observe(ctx.is_open(b)) {
            fired.push((b, ctx.is_open(b)));
        }
    };
    watch_all(&ctx, &mut fired);
    ctx.set_open(b);
    watch_all(&ctx, &mut fired);
    ctx.set_open(b);
    watch_all(&ctx, &mut fired);
    assert_eq!(fired, vec![(0, true), (0, false), (1, true)]);
}

#[test]
fn content_id_prefers_explicit() {
    let it = item(7, 0, false);
    assert_eq!(content_id(Some("panel".to_string()), &it), "panel");
    assert_eq!(content_id(None, &it), "item-7");
    assert_eq!(it.aria_id(), "item-7");
    assert!(!it.is_disabled());
}
