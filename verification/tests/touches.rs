use smartboard::input::{TouchEnd, TouchMove, TouchStart};
use smartboard::touches::{touch_began, touch_finished, touch_moved};
use std::collections::HashMap;

#[test]
fn touches_keep_separate_records() {
    let mut pointers: HashMap<u64, &str> = HashMap::new();
    touch_began(&mut pointers, 1, TouchStart::Pan, "pan");
    touch_began(&mut pointers, 2, TouchStart::Erase, "erase");
    touch_began(&mut pointers, 3, TouchStart::BrushStroke, "brush");
    touch_began(&mut pointers, 4, TouchStart::Ignore, "none");
    assert_eq!(pointers.len(), 2);
    touch_moved(&mut pointers, 1, TouchMove::Pan, "panned");
    touch_moved(&mut pointers, 3, TouchMove::Track, "ghost");
    touch_moved(&mut pointers, 2, TouchMove::ExtendStroke, "stroke");
    assert_eq!(pointers.get(&1), Some(&"panned"));
    assert_eq!(pointers.get(&2), Some(&"erase"));
    assert_eq!(pointers.get(&3), None);
    assert_eq!(touch_finished(&mut pointers, 1, TouchEnd::Release), Some("panned"));
    assert_eq!(touch_finished(&mut pointers, 2, TouchEnd::EndStroke), None);
    assert_eq!(pointers.get(&2), Some(&"erase"));
    assert_eq!(touch_finished(&mut pointers, 2, TouchEnd::FinishShape), Some("erase"));
    assert!(pointers.is_empty());
    assert_eq!(touch_finished(&mut pointers, 9, TouchEnd::FinishSelection), None);
}
