use skirm_core::act::{ActComp, Move};
use skirm_core::equipment::EquipmentComp;
use skirm_core::input::{Input, InputState, PlayerInputState};
use skirm_core::item::{ItemFactory, Weapon};
use skirm_core::map::{pixel_distance, tile_distance};
use skirm_core::point::MapPoint;
use skirm_core::render::{AnimComp, SpriteComp};
use skirm_core::skirmer::{SkirmerFactory, SkirmerType};
use skirm_core::sound::{SoundComp, SoundType};
use skirm_core::state::StateComp;
use skirm_core::stats::StatsComp;

fn rifle() -> Weapon {
    Weapon {
        weapon_type: String::from("rifle"),
        description: String::from("A trusty .22"),
        damage: 40,
        accuracy: 7,
        range: 12,
        sound: String::from("shot"),
    }
}

#[test]
fn weapon_attack_returns_damage() {
    let w = rifle();
    assert_eq!(w.attack(3), 40);
    assert_eq!(w.attack(250), 40);
}

#[test]
fn item_factory_hands_out_named_weapon() {
    let factory = ItemFactory::from_entries(vec![
        (String::from("knife"), Weapon { damage: 10, ..rifle() }),
        (String::from(".22 Rifle"), rifle()),
    ]);
    let w = factory.get_weapon(".22 Rifle");
    assert_eq!(w.damage, 40);
    assert_eq!(w.weapon_type, "rifle");
    let k = factory.get_weapon("knife");
    assert_eq!(k.damage, 10);
}

#[test]
fn skirmer_factory_equips_the_rifle() {
    let factory = ItemFactory::from_entries(vec![(String::from(".22 Rifle"), rifle())]);
    let skirmers = SkirmerFactory::new();
    let (weapon, items) = skirmers.get_skirmer_items(&SkirmerType::Fighter, &factory);
    assert_eq!(weapon.damage, 40);
    assert!(items.is_empty());
    let (w2, _) = skirmers.get_skirmer_items(&SkirmerType::Sniper, &factory);
    assert_eq!(w2.damage, 40);
}

#[test]
fn stats_default_and_damage_clamp() {
    let mut s = StatsComp::default();
    assert_eq!(
        (s.health, s.max_health, s.strength, s.aim, s.move_per_turn),
        (100, 100, 5, 5, 7)
    );
    s.apply_damage(30);
    assert_eq!(s.health, 70);
    assert!(!s.is_dead());
    s.apply_damage(90);
    assert_eq!(s.health, 0);
    assert!(s.is_dead());
}

#[test]
fn move_flags_and_direction() {
    let mut m = Move::new();
    assert!(!m.is_some_direction());
    m.left = true;
    assert!(m.is_some_direction());
    let a = ActComp::new();
    assert!(!a.move_action.is_some_direction());
    assert!(a.attack_action.is_none());
}

#[test]
fn input_set_marks_unhandled() {
    let mut st = InputState::new();
    assert!(!st.is_any_unhandled());
    assert!(!st.is_some_direction());
    st.up.set(true);
    assert!(st.is_any_unhandled());
    assert!(st.is_some_direction());
    let single = Input::new();
    assert!(single.handled);
    assert!(!single.state);
}

#[test]
fn player_input_state_tracks_entity() {
    let p = PlayerInputState::new(42);
    assert_eq!(p.ent, 42);
    assert!(!p.input.is_some_direction());
}

#[test]
fn state_comp_movement_queries() {
    let mut s = StateComp::new();
    assert!(!s.is_moving());
    assert!(!s.is_on_ground());
    s.move_action.down.set(true);
    assert!(s.is_moving_vertical());
    assert!(!s.is_moving_horizontal());
    assert!(s.is_moving());
    s.on_ground = true;
    assert!(s.is_on_ground());
}

#[test]
fn anim_comp_change_and_reset() {
    let mut a = AnimComp::new(String::from("default"), true);
    assert_eq!(a.id, "default");
    assert!(a.dirty);
    a.current_millis = 900;
    a.frame_num = 4;
    a.change_id(String::from("move"), false);
    assert_eq!(a.id, "move");
    assert_eq!(a.frame_num, 0);
    assert_eq!(a.current_millis, 0);
    assert!(!a.repeat);
    a.current_millis = 55;
    a.reset_time();
    assert_eq!(a.current_millis, 0);
}

#[test]
fn sprite_and_sound_components() {
    let s = SpriteComp::new(String::from("green_box"));
    assert_eq!(s.id, "green_box");
    let snd = SoundComp::new(vec![(SoundType::Move, ("sine", true))]);
    assert_eq!(snd.sound_map.len(), 1);
    assert_eq!(snd.sound_map[0].0, SoundType::Move);
}

#[test]
fn equipment_holds_weapon_and_items() {
    let e = EquipmentComp::new(rifle(), Vec::new());
    assert_eq!(e.weapon.damage, 40);
    assert!(e.items.is_empty());
}

#[test]
fn distances_truncate_and_clamp() {
    assert_eq!(tile_distance(&MapPoint::new(0, 0), MapPoint::new(3, 4)), 5);
    assert_eq!(tile_distance(&MapPoint::new(1, 1), MapPoint::new(2, 2)), 1);
    assert_eq!(tile_distance(&MapPoint::new(0, 0), MapPoint::new(0, 0)), 0);
    assert_eq!(pixel_distance((0, 0), (5, 12)), 13);
    assert_eq!(pixel_distance((0, 0), (100000, 0)), 65535);
    assert_eq!(pixel_distance((-3, 0), (0, -4)), 5);
}

#[test]
fn pixel_conversions_round_trip() {
    let p = MapPoint::from_pixel_coord(17, 29);
    assert_eq!(p.as_tuple(), (2, 2));
    let q = MapPoint::new(2, 3);
    assert_eq!(q.as_pixel_coord_tuple(), (16, 42));
    assert_eq!(q.center(), (20, 49));
    // pixels left of or above the origin floor into the -1 tiles and beyond
    assert_eq!(MapPoint::from_pixel_coord(-9, -15), MapPoint::new(-2, -2));
    assert_eq!(MapPoint::from_pixel_coord(-1, -1), MapPoint::new(-1, -1));
}
