use state_shift::complex::{PlayerBuilder, Race};

#[test]
fn complex_player_creation_works() {
    let player = PlayerBuilder::new()
        .set_race(Race::Human)
        .set_level(10)
        .set_skill_slots(10)
        .set_spells(10)
        .say_hi()
        .build();

    assert_eq!(player.race, Race::Human);
    assert_eq!(player.level, 10);
    assert_eq!(player.skill_slots, 11);
    assert_eq!(player.spell_slots, 22);
}

#[test]
fn skill_slots_before_level_works() {
    let player = PlayerBuilder::new()
        .set_race(Race::Orc)
        .set_skill_slots(3)
        .set_level(20)
        .set_spells(1)
        .build();

    assert_eq!(player.level, 22);
    assert_eq!(player.skill_slots, 3);
    assert_eq!(player.spell_slots, 6);
}
