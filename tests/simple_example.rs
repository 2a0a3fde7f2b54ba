use state_shift::simple::{PlayerBuilder, Race};

#[test]
fn simple_example_simple_player_creation_works() {
    let player = PlayerBuilder::new()
        .set_race(Race::Human)
        .set_level(10)
        .set_skill_slots(10)
        .say_hi()
        .build();

    assert_eq!(player.race, Race::Human);
    assert_eq!(player.level, 10);
    assert_eq!(player.skill_slots, 11);
}

#[test]
fn simple_example_method_outside_of_macro_works() {
    let player = PlayerBuilder::new();
    let another_player = PlayerBuilder::my_weird_method(&player);

    assert_eq!(player.level, another_player.level);
    assert_eq!(player.skill_slots, another_player.skill_slots);
}

#[test]
fn orc_gets_two_extra_levels() {
    let player = PlayerBuilder::new()
        .set_race(Race::Orc)
        .set_level(10)
        .set_skill_slots(10)
        .build();

    assert_eq!(player.level, 12);
    assert_eq!(player.skill_slots, 10);
}
