use pauza::idle::{emitter_block, PauzaEvent, Threshold};
use pauza::pauza::{idle_millis, IdleWatch};
use pauza::swaybar::{Block, SlotTable};

#[test]
fn default_block_is_empty() {
    let b = Block::default();
    assert_eq!(b.full_text, "");
    assert!(b.background.is_none());
    assert!(b.name.is_none());
    assert!(b.border_left.is_none());
}

#[test]
fn emitter_labels_and_frames() {
    let b = Block::plain(" 00:07 ".to_string(), None);
    let b = emitter_block(b, "pauza".to_string(), "main".to_string());
    assert_eq!(b.full_text, " 00:07 ");
    assert_eq!(b.name.as_deref(), Some("pauza"));
    assert_eq!(b.instance.as_deref(), Some("main"));
    assert_eq!(b.border_left, Some(3));
    assert_eq!(b.border_right, Some(3));
    assert!(b.border_top.is_none());
}

fn texts(t: &SlotTable) -> Vec<String> {
    t.snapshot().into_iter().map(|b| b.full_text.clone()).collect()
}

#[test]
fn slot_table_keeps_latest_per_slot_in_order() {
    let mut t = SlotTable::new(4);
    assert!(texts(&t).is_empty());

    t.update(2, Block::plain("power".to_string(), None));
    t.update(0, Block::plain("timer".to_string(), None));
    assert_eq!(texts(&t), vec!["timer".to_string(), "power".to_string()]);

    // last write wins inside one slot
    t.update(0, Block::plain("timer2".to_string(), None));
    assert_eq!(texts(&t), vec!["timer2".to_string(), "power".to_string()]);

    // empty slots are left out, not filled in
    t.update(3, Block::plain("clock".to_string(), None));
    assert_eq!(
        texts(&t),
        vec!["timer2".to_string(), "power".to_string(), "clock".to_string()],
    );

    // an offset beyond the table is ignored
    t.update(9, Block::plain("lost".to_string(), None));
    assert_eq!(texts(&t).len(), 3);
}

#[test]
fn idle_time_units() {
    assert_eq!(idle_millis(true, 5000), 5000);
    assert_eq!(idle_millis(false, 5), 5000);
    assert_eq!(idle_millis(false, u32::MAX), u32::MAX as u64 * 1000);
}

#[test]
fn idle_watch_emits_only_crossings() {
    let mut w = IdleWatch::new();
    assert!(w.observe(0).is_empty());
    assert!(w.observe(29_999).is_empty());

    // half a minute idle: the pause threshold fires, once
    assert_eq!(w.observe(35_000), vec![PauzaEvent::WentIdle(Threshold::Pause)]);
    assert!(w.observe(40_000).is_empty());

    // a minute idle: the short-break threshold follows
    assert_eq!(w.observe(65_000), vec![PauzaEvent::WentIdle(Threshold::ShortBreak)]);

    // five minutes idle: the reset threshold follows
    assert_eq!(w.observe(400_000), vec![PauzaEvent::WentIdle(Threshold::Reset)]);

    // activity resumes every threshold at once, in threshold order
    assert_eq!(
        w.observe(0),
        vec![
            PauzaEvent::Resumed(Threshold::Pause),
            PauzaEvent::Resumed(Threshold::ShortBreak),
            PauzaEvent::Resumed(Threshold::Reset),
        ],
    );
    assert!(w.observe(1_000).is_empty());
}

#[test]
fn idle_watch_can_cross_several_thresholds_at_once() {
    let mut w = IdleWatch::new();
    assert_eq!(
        w.observe(301_000),
        vec![
            PauzaEvent::WentIdle(Threshold::Pause),
            PauzaEvent::WentIdle(Threshold::ShortBreak),
            PauzaEvent::WentIdle(Threshold::Reset),
        ],
    );
}
