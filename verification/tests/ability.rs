use battle_assets::ability::{Ability, ABILITY_COUNT};

#[test]
fn there_are_fifteen_abilities_in_loading_order() {
    let all = Ability::all();
    assert_eq!(all.len(), 15);
    assert_eq!(ABILITY_COUNT, 15);
    assert_eq!(
        all,
        vec![
            Ability::Knockback,
            Ability::Club,
            Ability::Jump,
            Ability::LongJump,
            Ability::Bomb,
            Ability::BombPush,
            Ability::BombFire,
            Ability::BombPoison,
            Ability::BombDemonic,
            Ability::Summon,
            Ability::Dash,
            Ability::Rage,
            Ability::Heal,
            Ability::GreatHeal,
            Ability::Bloodlust,
        ]
    );
}

#[test]
fn index_and_from_index_are_inverse() {
    for (i, ability) in Ability::all().into_iter().enumerate() {
        assert_eq!(ability.index(), i);
        assert_eq!(Ability::from_index(i), Some(ability));
    }
}

#[test]
fn from_index_ends_at_the_count() {
    assert_eq!(Ability::from_index(14), Some(Ability::Bloodlust));
    assert_eq!(Ability::from_index(15), None);
    assert_eq!(Ability::from_index(usize::MAX), None);
}

#[test]
fn icon_names_are_the_file_stems() {
    let expected = [
        "knockback",
        "club",
        "jump",
        "long_jump",
        "bomb",
        "bomb_push",
        "bomb_fire",
        "bomb_poison",
        "bomb_demonic",
        "summon",
        "dash",
        "rage",
        "heal",
        "great_heal",
        "bloodlust",
    ];
    let all = Ability::all();
    for i in 0..15 {
        assert_eq!(all[i].icon_name(), expected[i]);
    }
}

#[test]
fn icon_path_is_prefix_name_and_extension() {
    assert_eq!(Ability::Knockback.icon_path(), "assets/img/icon_ability_knockback.png");
    assert_eq!(Ability::LongJump.icon_path(), "assets/img/icon_ability_long_jump.png");
    assert_eq!(Ability::BombDemonic.icon_path(), "assets/img/icon_ability_bomb_demonic.png");
    assert_eq!(Ability::Bloodlust.icon_path(), "assets/img/icon_ability_bloodlust.png");
    for ability in Ability::all() {
        assert_eq!(
            ability.icon_path(),
            format!("assets/img/icon_ability_{}.png", ability.icon_name())
        );
    }
}

#[test]
fn icon_paths_are_pairwise_distinct() {
    let all = Ability::all();
    for a in 0..all.len() {
        for b in 0..all.len() {
            if a != b {
                assert_ne!(all[a].icon_path(), all[b].icon_path());
            }
        }
    }
}
