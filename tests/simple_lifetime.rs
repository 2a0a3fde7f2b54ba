use state_shift::simple_lifetime::{PlayerBuilder, Race};

#[test]
fn simple_lifetime_simple_player_creation_works() {
    let items = vec![&"Sword", &"Shield"];
    let player = PlayerBuilder::new()
        .set_race(Race::Human)
        .set_level(10)
        .set_items(items)
        .say_hi()
        .build();

    assert_eq!(player.race, Race::Human);
    assert_eq!(player.level, 10);
    assert_eq!(player.items, vec![&"Sword", &"Shield"]);
}

#[test]
fn simple_lifetime_method_outside_of_macro_works() {
    let player = PlayerBuilder::<&str>::new();
    let another_player = PlayerBuilder::my_weird_method(&player);

    assert_eq!(player.level, another_player.level);
    assert_eq!(player.items, another_player.items);
}
