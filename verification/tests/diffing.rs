use enemy_diff::biomes::Biome;
use enemy_diff::events::Event;
use enemy_diff::layers::Layer;
use enemy_diff::prelude::{Coins, Diff, Enemy, OrderingText, Rarity};

/// A small catalog of reference enemies, keyed by their numeric ids.
fn list_enemies() -> Vec<Enemy> {
    vec![
        Enemy::new(
            137,
            "Illuminant Bat".to_string(),
            110,
            26,
            Coins::new(0, 6, 0),
            vec![Biome::Hallow],
            vec![],
            vec![Layer::Caverns],
            Rarity::Common,
        ),
        Enemy::new(
            527,
            "Dreamer Ghoul".to_string(),
            240,
            14,
            Coins::new(0, 7, 50),
            vec![Biome::Desert, Biome::Hallow],
            vec![],
            vec![Layer::Underground],
            Rarity::Common,
        ),
        Enemy::new(
            159,
            "Vampire".to_string(),
            500,
            24,
            Coins::new(0, 2, 50),
            vec![Biome::Forest, Biome::Day],
            vec![Event::Eclipse],
            vec![Layer::Surface],
            Rarity::Rare,
        ),
        Enemy::new(
            253,
            "Reaper".to_string(),
            450,
            26,
            Coins::new(0, 5, 0),
            vec![Biome::Day],
            vec![Event::Eclipse],
            vec![Layer::Surface],
            Rarity::Rare,
        ),
    ]
}

#[test]
fn partial_enemy_diff() {
    let enemies = list_enemies();
    let illuminant_bat = enemies.iter().find(|e| e.id == 137).unwrap();
    let dreamer_ghoul = enemies.iter().find(|e| e.id == 527).unwrap();
    let bad_diff = illuminant_bat.diff(&dreamer_ghoul);
    assert!(bad_diff.biomes.missing);

    let vampire = enemies.iter().find(|e| e.id == 159).unwrap();
    let reaper = enemies.iter().find(|e| e.id == 253).unwrap();
    let good_diff = vampire.diff(&reaper);
    assert!(good_diff.biomes.missing);
}

#[test]
fn set_diff_partitions_the_left_collection() {
    let left = [Biome::Jungle, Biome::Forest, Biome::Jungle, Biome::Snow];
    let right = [Biome::Forest, Biome::Snow];
    let d = Diff::with(&left, &right);
    assert_eq!(d.right, vec![Biome::Forest, Biome::Snow]);
    assert_eq!(d.wrong, vec![Biome::Jungle, Biome::Jungle]);
    assert_eq!(d.right.len() + d.wrong.len(), left.len());
    assert!(d.missing);
}

#[test]
fn missing_flag_on_empty_inputs() {
    let none: [Layer; 0] = [];
    let d = Diff::<Layer>::with(&none, &none);
    assert!(d.right.is_empty());
    assert!(d.wrong.is_empty());
    assert!(!d.missing);

    let d = Diff::with(&none, &[Layer::Surface]);
    assert!(d.right.is_empty());
    assert!(d.wrong.is_empty());
    assert!(d.missing);
}

#[test]
fn missing_flag_tracks_membership_and_size() {
    let d = Diff::with(&[Event::Rain], &[Event::Rain]);
    assert!(!d.missing);

    let d = Diff::with(&[Event::Rain], &[Event::Blood]);
    assert!(d.missing);

    let d = Diff::with(&[Event::Rain], &[Event::Rain, Event::Blood]);
    assert!(d.wrong.is_empty());
    assert!(d.missing);
}

#[test]
fn rank_order_inversion() {
    assert_eq!(
        Rarity::Common.compare(&Rarity::Rare),
        OrderingText::Greater
    );
    assert_eq!(Rarity::Rare.compare(&Rarity::Common), OrderingText::Less);
    assert_eq!(
        Rarity::Common.compare(&Rarity::Uncommon),
        OrderingText::Greater
    );
    assert_eq!(
        Rarity::Uncommon.compare(&Rarity::Rare),
        OrderingText::Greater
    );
    for r in [
        Rarity::Common,
        Rarity::Uncommon,
        Rarity::Rare,
        Rarity::Unknown,
    ] {
        assert_eq!(r.compare(&r), OrderingText::Equal);
    }
}

#[test]
fn unknown_rank_sorts_below_every_concrete_rank() {
    for r in [Rarity::Common, Rarity::Uncommon, Rarity::Rare] {
        assert_eq!(Rarity::Unknown.compare(&r), OrderingText::Less);
        assert_eq!(r.compare(&Rarity::Unknown), OrderingText::Greater);
    }
}

#[test]
fn copper_total_is_mixed_radix() {
    assert_eq!(Coins::new(1, 2, 3).as_copper(), 1203);
    assert_eq!(Coins::new(0, 0, 0).as_copper(), 0);
    assert_eq!(Coins::new(255, 255, 255).as_copper(), 280755);
}

#[test]
fn currency_total_monotonic_in_base_denomination() {
    let secret = bat();
    let mut guess = bat();
    guess.coins = Coins::new(0, 0, 6);
    let d = secret.diff(&guess);
    assert_eq!(d.coins, OrderingText::Less);
    let d = guess.diff(&secret);
    assert_eq!(d.coins, OrderingText::Greater);
}

#[test]
fn ordering_text_is_eq() {
    assert!(OrderingText::Equal.is_eq());
    assert!(!OrderingText::Less.is_eq());
    assert!(!OrderingText::Greater.is_eq());
}

/// The end-to-end scenario's enemy record.
fn bat() -> Enemy {
    Enemy::new(
        1,
        "Bat".to_string(),
        16,
        0,
        Coins::new(0, 0, 5),
        vec![],
        vec![],
        vec![Layer::Caverns],
        Rarity::Common,
    )
}

#[test]
fn end_to_end_scenario() {
    let secret = bat();
    let guess = bat();
    let d = secret.diff(&guess);
    assert!(d.is_same());
    assert!(d.name);
    assert_eq!(d.life, OrderingText::Equal);
    assert_eq!(d.defence, OrderingText::Equal);
    assert_eq!(d.coins, OrderingText::Equal);
    assert_eq!(d.rarity, OrderingText::Equal);
    assert!(d.biomes.wrong.is_empty() && !d.biomes.missing);
    assert!(d.events.wrong.is_empty() && !d.events.missing);
    assert!(d.layers.wrong.is_empty() && !d.layers.missing);
}

#[test]
fn end_to_end_mismatch() {
    let mut secret = bat();
    secret.biomes = vec![Biome::Jungle];
    let mut guess = bat();
    guess.biomes = vec![Biome::Forest];
    let d = secret.diff(&guess);
    assert_eq!(d.biomes.wrong, vec![Biome::Jungle]);
    assert_eq!(d.biomes.right, Vec::<Biome>::new());
    assert!(d.biomes.missing);
    assert!(!d.is_same());
}

#[test]
fn over_inclusion_on_the_guess_side_still_matches() {
    let mut secret = bat();
    secret.biomes = vec![Biome::Forest];
    let mut guess = bat();
    guess.biomes = vec![Biome::Forest, Biome::Snow];
    let d = secret.diff(&guess);
    assert!(d.biomes.wrong.is_empty());
    assert!(d.biomes.missing);
    assert!(d.is_same());
}

#[test]
fn under_inclusion_on_the_guess_side_does_not_match() {
    let mut secret = bat();
    secret.biomes = vec![Biome::Forest, Biome::Snow];
    let mut guess = bat();
    guess.biomes = vec![Biome::Forest];
    let d = secret.diff(&guess);
    assert_eq!(d.biomes.wrong, vec![Biome::Snow]);
    assert!(d.biomes.missing);
    assert!(!d.is_same());
}

#[test]
fn self_diff_reports_the_same_enemy() {
    let enemies = list_enemies();
    for e in &enemies {
        let d = e.diff(e);
        assert!(d.is_same());
        assert!(d.name);
        assert_eq!(d.life, OrderingText::Equal);
        assert_eq!(d.defence, OrderingText::Equal);
        assert_eq!(d.coins, OrderingText::Equal);
        assert_eq!(d.rarity, OrderingText::Equal);
    }
}

#[test]
fn scalar_signals_follow_the_field_ordering() {
    let secret = bat();
    let mut guess = bat();
    guess.life = 100;
    guess.defence = 0;
    let d = secret.diff(&guess);
    assert_eq!(d.life, OrderingText::Less);
    assert_eq!(d.defence, OrderingText::Equal);
    assert!(!d.is_same());

    let d = guess.diff(&secret);
    assert_eq!(d.life, OrderingText::Greater);
}

#[test]
fn name_mismatch_is_not_the_same_enemy() {
    let secret = bat();
    let mut guess = bat();
    guess.name = "Cave Bat".to_string();
    let d = secret.diff(&guess);
    assert!(!d.name);
    assert!(!d.is_same());
}

#[test]
fn coins_labels() {
    assert_eq!(Coins::new(0, 0, 0).label(), "Nothing");
    assert_eq!(Coins::new(1, 2, 3).label(), "1 gold 2 silver 3 copper");
    assert_eq!(Coins::new(0, 2, 0).label(), " 2 silver");
    assert_eq!(Coins::new(0, 0, 255).label(), " 255 copper");
    assert_eq!(Coins::new(12, 0, 5).label(), "12 gold 5 copper");
}

#[test]
fn rarity_labels() {
    assert_eq!(Rarity::Common.label(), "Common");
    assert_eq!(Rarity::Uncommon.label(), "Uncommon");
    assert_eq!(Rarity::Rare.label(), "Rare");
    assert_eq!(Rarity::Unknown.label(), "Unknown");
}

#[test]
fn tag_labels() {
    assert_eq!(Biome::Mushroom.label(), "Glowing Mushrooms");
    assert_eq!(Biome::Margranite.label(), "Marble or Granite");
    assert_eq!(Biome::Forest.label(), "Forest");
    assert_eq!(Event::OldOnes.label(), "Old One's Army");
    assert_eq!(Event::Slime.label(), "Slime Rain");
    assert_eq!(Layer::Underworld.label(), "Underworld");
}
