use state_shift::double::{PlayerBuilder1, PlayerBuilder2, Race};

#[test]
fn double_player_creation_works() {
    let player1 = PlayerBuilder1::new().set_race(Race::Human).build();
    let player2 = PlayerBuilder2::new().set_race(Race::Orc).build();

    assert_eq!(player1.race, Race::Human);
    assert_eq!(player2.race, Race::Orc);
}
