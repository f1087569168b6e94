use battle_assets::ability::Ability;
use battle_assets::images::{image_path, AbilityIcons, Images, IMAGE_COUNT};
use macroquad::miniquad::{RawId, TextureId};
use macroquad::texture::Texture2D;

fn texture(id: u32) -> Texture2D {
    Texture2D::from_miniquad_texture(TextureId::from_raw_id(RawId::OpenGl(id)))
}

fn textures(first: u32, count: u32) -> Vec<Texture2D> {
    (0..count).map(|i| texture(first + i)).collect()
}

#[test]
fn image_paths_in_loading_order() {
    let expected = [
        "assets/img/selection.png",
        "assets/img/white_hex.png",
        "assets/img/tile.png",
        "assets/img/tile_rocks.png",
        "assets/img/grass.png",
        "assets/img/dot.png",
        "assets/img/blood.png",
        "assets/img/explosion_ground_mark.png",
        "assets/img/shadow.png",
        "assets/img/slash.png",
        "assets/img/smash.png",
        "assets/img/pierce.png",
        "assets/img/claw.png",
        "assets/img/effect_stun.png",
        "assets/img/effect_poison.png",
        "assets/img/effect_bloodlust.png",
        "assets/img/icon_info.png",
        "assets/img/icon_end_turn.png",
        "assets/img/icon_menu.png",
    ];
    assert_eq!(IMAGE_COUNT, expected.len());
    for (slot, path) in expected.iter().enumerate() {
        assert_eq!(image_path(slot), Some(*path));
    }
}

#[test]
fn image_path_ends_at_the_count() {
    assert_eq!(image_path(19), None);
    assert_eq!(image_path(usize::MAX), None);
}

#[test]
fn ability_icons_are_found_by_ability() {
    let icons = AbilityIcons::from_textures(textures(100, 15)).unwrap();
    assert_eq!(*icons.get(Ability::Knockback), texture(100));
    assert_eq!(*icons.get(Ability::LongJump), texture(103));
    assert_eq!(*icons.get(Ability::Bloodlust), texture(114));
    for ability in Ability::all() {
        assert_eq!(*icons.get(ability), texture(100 + ability.index() as u32));
    }
}

#[test]
fn ability_icons_need_one_texture_each() {
    assert!(AbilityIcons::from_textures(textures(0, 14)).is_none());
    assert!(AbilityIcons::from_textures(textures(0, 16)).is_none());
    assert!(AbilityIcons::from_textures(Vec::new()).is_none());
}

#[test]
fn images_put_each_texture_in_its_field() {
    let icons = AbilityIcons::from_textures(textures(100, 15)).unwrap();
    let images = Images::from_textures(icons, textures(0, 19)).unwrap();
    assert_eq!(images.selection, texture(0));
    assert_eq!(images.white_hex, texture(1));
    assert_eq!(images.tile, texture(2));
    assert_eq!(images.tile_rocks, texture(3));
    assert_eq!(images.grass, texture(4));
    assert_eq!(images.dot, texture(5));
    assert_eq!(images.blood, texture(6));
    assert_eq!(images.explosion_ground_mark, texture(7));
    assert_eq!(images.shadow, texture(8));
    assert_eq!(images.attack_slash, texture(9));
    assert_eq!(images.attack_smash, texture(10));
    assert_eq!(images.attack_pierce, texture(11));
    assert_eq!(images.attack_claws, texture(12));
    assert_eq!(images.effect_stun, texture(13));
    assert_eq!(images.effect_poison, texture(14));
    assert_eq!(images.effect_bloodlust, texture(15));
    assert_eq!(images.icon_info, texture(16));
    assert_eq!(images.icon_end_turn, texture(17));
    assert_eq!(images.icon_main_menu, texture(18));
    assert_eq!(*images.ability_icons.get(Ability::Rage), texture(111));
}

#[test]
fn images_need_one_texture_per_slot() {
    let icons = AbilityIcons::from_textures(textures(100, 15)).unwrap();
    assert!(Images::from_textures(icons, textures(0, 18)).is_none());
    let icons = AbilityIcons::from_textures(textures(100, 15)).unwrap();
    assert!(Images::from_textures(icons, textures(0, 20)).is_none());
}
