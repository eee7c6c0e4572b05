//! The art model: named entities with named animations.

use std::time::Duration;
use ves::entities::{Animations, Entities, Entity};
use ves::sprite::{Animation, AnimationFrame, CelRef};

fn animation(cels: &[u16]) -> Animation {
    Animation {
        frames: cels
            .iter()
            .map(|cel| AnimationFrame { cel: CelRef(*cel), duration: Duration::from_millis(100) })
            .collect(),
    }
}

#[test]
fn entities_keep_insertion_order_and_refuse_duplicates() {
    let mut yoshi = Entity::new();
    yoshi.animations_mut().push("walk", animation(&[12, 13, 14, 15])).unwrap();
    yoshi.animations_mut().push("run", animation(&[77, 88, 99])).unwrap();
    assert_eq!(
        yoshi.animations_mut().push("walk", animation(&[1])),
        Err(String::from("Attempt at adding a duplicate animation: walk"))
    );

    let mut shy_guy = Entity::new();
    shy_guy.animations_mut().push("walk", animation(&[100, 200, 300, 400])).unwrap();
    shy_guy.animations_mut().push("dance", animation(&[901, 902, 903])).unwrap();

    let mut entities = Entities::new();
    entities.push("yoshi", yoshi).unwrap();
    entities.push("shy_guy", shy_guy).unwrap();
    assert_eq!(
        entities.push("yoshi", Entity::new()),
        Err(String::from("Attempt at adding a duplicate entity: yoshi"))
    );

    let names: Vec<String> = entities.entries().into_iter().map(|(name, _)| name).collect();
    assert_eq!(names, vec![String::from("yoshi"), String::from("shy_guy")]);

    let yoshi = entities.get("yoshi").unwrap();
    let anims: Vec<(String, usize)> = yoshi
        .animations()
        .entries()
        .into_iter()
        .map(|(name, anim)| (name, anim.frames.len()))
        .collect();
    assert_eq!(anims, vec![(String::from("walk"), 4), (String::from("run"), 3)]);
    assert!(entities.get("koopa").is_none());
}

#[test]
fn entities_can_be_changed_in_place() {
    let mut entities = Entities::new();
    entities.push("yoshi", Entity::new()).unwrap();
    entities
        .get_mut("yoshi")
        .unwrap()
        .animations_mut()
        .push("jump", animation(&[5]))
        .unwrap();
    assert!(entities.get_mut("koopa").is_none());
    let yoshi = entities.get("yoshi").unwrap();
    let entries = yoshi.animations().entries();
    assert_eq!(entries.len(), 1);
    assert_eq!(entries[0].0, "jump");
    assert_eq!(entries[0].1.frames[0].cel, CelRef(5));
    assert!(Animations::new().entries().is_empty());
}
