//! The fixed set of textures that the game draws with, and the files they
//! come from.

use crate::ability::{Ability, ABILITY_COUNT};
use macroquad::texture::Texture2D;
use vstd::prelude::*;

verus! {

/// `macroquad::texture::Texture2D`, a handle to a texture in GPU memory.
///
/// Nothing is claimed of it: the library only carries such handles from where
/// they were loaded to the field or table entry that they belong to.
#[verifier::external_type_specification]
#[verifier::external_body]
pub struct ExTexture2D(macroquad::texture::Texture2D);

/// Number of textures in [`Images`] besides the ability icons.
pub const IMAGE_COUNT: usize = 19;

/// Path of the file behind each slot of [`Images`], by position in the
/// loading order (see [`Images::spec_texture`] for the slots).
pub open spec fn spec_image_path(slot: nat) -> Option<Seq<char>> {
    if slot == 0 {
        Some("assets/img/selection.png"@)
    } else if slot == 1 {
        Some("assets/img/white_hex.png"@)
    } else if slot == 2 {
        Some("assets/img/tile.png"@)
    } else if slot == 3 {
        Some("assets/img/tile_rocks.png"@)
    } else if slot == 4 {
        Some("assets/img/grass.png"@)
    } else if slot == 5 {
        Some("assets/img/dot.png"@)
    } else if slot == 6 {
        Some("assets/img/blood.png"@)
    } else if slot == 7 {
        Some("assets/img/explosion_ground_mark.png"@)
    } else if slot == 8 {
        Some("assets/img/shadow.png"@)
    } else if slot == 9 {
        Some("assets/img/slash.png"@)
    } else if slot == 10 {
        Some("assets/img/smash.png"@)
    } else if slot == 11 {
        Some("assets/img/pierce.png"@)
    } else if slot == 12 {
        Some("assets/img/claw.png"@)
    } else if slot == 13 {
        Some("assets/img/effect_stun.png"@)
    } else if slot == 14 {
        Some("assets/img/effect_poison.png"@)
    } else if slot == 15 {
        Some("assets/img/effect_bloodlust.png"@)
    } else if slot == 16 {
        Some("assets/img/icon_info.png"@)
    } else if slot == 17 {
        Some("assets/img/icon_end_turn.png"@)
    } else if slot == 18 {
        Some("assets/img/icon_menu.png"@)
    } else {
        None
    }
}

/// Path of the file behind a slot of [`Images`]; `None` from [`IMAGE_COUNT`]
/// on.
pub fn image_path(slot: usize) -> (path: Option<&'static str>)
    ensures
        path.is_some() <==> slot < IMAGE_COUNT,
        match path {
            Some(p) => spec_image_path(slot as nat) == Some(p@),
            None => spec_image_path(slot as nat).is_none(),
        },
{
    match slot {
        0 => Some("assets/img/selection.png"),
        1 => Some("assets/img/white_hex.png"),
        2 => Some("assets/img/tile.png"),
        3 => Some("assets/img/tile_rocks.png"),
        4 => Some("assets/img/grass.png"),
        5 => Some("assets/img/dot.png"),
        6 => Some("assets/img/blood.png"),
        7 => Some("assets/img/explosion_ground_mark.png"),
        8 => Some("assets/img/shadow.png"),
        9 => Some("assets/img/slash.png"),
        10 => Some("assets/img/smash.png"),
        11 => Some("assets/img/pierce.png"),
        12 => Some("assets/img/claw.png"),
        13 => Some("assets/img/effect_stun.png"),
        14 => Some("assets/img/effect_poison.png"),
        15 => Some("assets/img/effect_bloodlust.png"),
        16 => Some("assets/img/icon_info.png"),
        17 => Some("assets/img/icon_end_turn.png"),
        18 => Some("assets/img/icon_menu.png"),
        _ => None,
    }
}

/// Takes the last texture off a non-empty list.
pub(crate) fn take_last(textures: &mut Vec<Texture2D>) -> (texture: Texture2D)
    requires
        old(textures)@.len() > 0,
    ensures
        texture == old(textures)@[old(textures)@.len() - 1],
        final(textures)@ == old(textures)@.subrange(0, old(textures)@.len() - 1),
{
    textures.pop().unwrap()
}

/// The icon of every ability.
#[derive(Debug)]
pub struct AbilityIcons {
    textures: Vec<Texture2D>,
}

impl AbilityIcons {
    /// One texture per ability, stored by the ability's position.
    #[verifier::type_invariant]
    spec fn well_formed(self) -> bool {
        self.textures@.len() == ABILITY_COUNT
    }

    /// The icon of an ability.
    pub closed spec fn spec_get(self, ability: Ability) -> Texture2D {
        self.textures@[ability.spec_index() as int]
    }

    /// Builds the table from the icons in loading order: `textures[i]` is the
    /// icon of the ability at position `i`. Fails unless there is exactly one
    /// texture per ability.
    pub fn from_textures(textures: Vec<Texture2D>) -> (icons: Option<AbilityIcons>)
        ensures
            icons.is_some() <==> textures@.len() == ABILITY_COUNT,
            icons.is_some() ==> forall|ability: Ability|
                #[trigger] icons.unwrap().spec_get(ability) == textures@[ability.spec_index() as int],
    {
        if textures.len() == ABILITY_COUNT {
            Some(AbilityIcons { textures })
        } else {
            None
        }
    }

    /// The icon of an ability.
    pub fn get(&self, ability: Ability) -> (texture: &Texture2D)
        ensures
            *texture == self.spec_get(ability),
    {
        proof {
            use_type_invariant(self);
        }
        &self.textures[ability.index()]
    }
}

/// Every texture that is not tied to a kind of object.
#[derive(Debug)]
pub struct Images {
    pub selection: Texture2D,
    pub white_hex: Texture2D,
    pub tile: Texture2D,
    pub tile_rocks: Texture2D,
    pub grass: Texture2D,
    pub dot: Texture2D,
    pub blood: Texture2D,
    pub explosion_ground_mark: Texture2D,
    pub shadow: Texture2D,
    pub ability_icons: AbilityIcons,
    pub attack_slash: Texture2D,
    pub attack_smash: Texture2D,
    pub attack_pierce: Texture2D,
    pub attack_claws: Texture2D,
    pub effect_stun: Texture2D,
    pub effect_poison: Texture2D,
    pub effect_bloodlust: Texture2D,
    pub icon_info: Texture2D,
    pub icon_end_turn: Texture2D,
    pub icon_main_menu: Texture2D,
}

impl Images {
    /// The texture in a slot; slot `i` holds what was loaded from
    /// `spec_image_path(i)`.
    pub open spec fn spec_texture(self, slot: nat) -> Texture2D
        recommends
            slot < IMAGE_COUNT,
    {
        if slot == 0 {
            self.selection
        } else if slot == 1 {
            self.white_hex
        } else if slot == 2 {
            self.tile
        } else if slot == 3 {
            self.tile_rocks
        } else if slot == 4 {
            self.grass
        } else if slot == 5 {
            self.dot
        } else if slot == 6 {
            self.blood
        } else if slot == 7 {
            self.explosion_ground_mark
        } else if slot == 8 {
            self.shadow
        } else if slot == 9 {
            self.attack_slash
        } else if slot == 10 {
            self.attack_smash
        } else if slot == 11 {
            self.attack_pierce
        } else if slot == 12 {
            self.attack_claws
        } else if slot == 13 {
            self.effect_stun
        } else if slot == 14 {
            self.effect_poison
        } else if slot == 15 {
            self.effect_bloodlust
        } else if slot == 16 {
            self.icon_info
        } else if slot == 17 {
            self.icon_end_turn
        } else {
            self.icon_main_menu
        }
    }

    /// Puts loaded textures into their fields: `textures[i]` is the texture
    /// that was loaded from the path of slot `i`. Fails unless there is
    /// exactly one texture per slot.
    pub fn from_textures(ability_icons: AbilityIcons, textures: Vec<Texture2D>) -> (images: Option<
        Images,
    >)
        ensures
            images.is_some() <==> textures@.len() == IMAGE_COUNT,
            images.is_some() ==> images.unwrap().ability_icons == ability_icons,
            images.is_some() ==> forall|slot: nat|
                slot < IMAGE_COUNT ==> #[trigger] images.unwrap().spec_texture(slot) == textures@[slot as int],
    {
        if textures.len() != IMAGE_COUNT {
            return None;
        }
        let mut rest = textures;
        let icon_main_menu = take_last(&mut rest);
        let icon_end_turn = take_last(&mut rest);
        let icon_info = take_last(&mut rest);
        let effect_bloodlust = take_last(&mut rest);
        let effect_poison = take_last(&mut rest);
        let effect_stun = take_last(&mut rest);
        let attack_claws = take_last(&mut rest);
        let attack_pierce = take_last(&mut rest);
        let attack_smash = take_last(&mut rest);
        let attack_slash = take_last(&mut rest);
        let shadow = take_last(&mut rest);
        let explosion_ground_mark = take_last(&mut rest);
        let blood = take_last(&mut rest);
        let dot = take_last(&mut rest);
        let grass = take_last(&mut rest);
        let tile_rocks = take_last(&mut rest);
        let tile = take_last(&mut rest);
        let white_hex = take_last(&mut rest);
        let selection = take_last(&mut rest);
        Some(
            Images {
                selection,
                white_hex,
                tile,
                tile_rocks,
                grass,
                dot,
                blood,
                explosion_ground_mark,
                shadow,
                ability_icons,
                attack_slash,
                attack_smash,
                attack_pierce,
                attack_claws,
                effect_stun,
                effect_poison,
                effect_bloodlust,
                icon_info,
                icon_end_turn,
                icon_main_menu,
            },
        )
    }
}

} // verus!
