use state_shift::lifetime::{PlayerBuilder, Race};

#[test]
fn lifetime_example_simple_player_creation_works() {
    let items = vec![&"Sword", &"Shield"];
    let player = PlayerBuilder::new()
        .set_race(Race::Human)
        .set_level(10)
        .set_items(items)
        .say_hi()
        .build();

    assert_eq!(player.race, Race::Human);
    assert_eq!(player.level, 10);
    assert_eq!(player.items, vec![&"Sword", &"Shield"]);
}

#[test]
fn different_type_items_works() {
    let items = vec![&"Sword", &"Shield"];
    let player = PlayerBuilder::<String>::new()
        .set_race(Race::Human)
        .set_level(10)
        .set_different_type_items(items)
        .say_hi()
        .build();

    assert_eq!(player.race, Race::Human);
    assert_eq!(player.level, 10);
    assert_eq!(player.items, vec![&"Sword", &"Shield"]);
}

#[test]
fn set_items_might_fail_works() {
    let items = vec![&"Sword", &"Shield"];
    let player = PlayerBuilder::new()
        .set_race(Race::Human)
        .set_level(10)
        .set_items_might_fail(items);

    assert!(player.is_some());

    let items = vec![];
    let player = PlayerBuilder::<String>::new()
        .set_race(Race::Human)
        .set_level(10)
        .set_items_might_fail(items);

    assert!(player.is_none());
}

#[test]
fn lifetime_example_method_outside_of_macro_works() {
    let player: PlayerBuilder<'_, '_, &str> = PlayerBuilder::new();

    let another_player = PlayerBuilder::my_weird_method(&player);

    assert_eq!(player.level, another_player.level);
    assert_eq!(player.items, another_player.items);
}
