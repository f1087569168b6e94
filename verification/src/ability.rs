//! Abilities that have an icon, and where each icon lives on disk.

use vstd::prelude::*;
use vstd::string::*;

verus! {

/// Number of abilities that have an icon.
pub const ABILITY_COUNT: usize = 15;

/// An ability that is shown with an icon of its own.
///
/// The variants are listed in the order in which their icons are loaded.
#[derive(Clone, Copy, Debug, PartialEq, Eq, Hash, Structural)]
pub enum Ability {
    Knockback,
    Club,
    Jump,
    LongJump,
    Bomb,
    BombPush,
    BombFire,
    BombPoison,
    BombDemonic,
    Summon,
    Dash,
    Rage,
    Heal,
    GreatHeal,
    Bloodlust,
}

/// Directory and file-name prefix shared by all ability icons.
pub open spec fn icon_prefix() -> Seq<char> {
    "assets/img/icon_ability_"@
}

/// File extension of an ability icon.
pub open spec fn icon_suffix() -> Seq<char> {
    ".png"@
}

impl Ability {
    /// Position of the ability in the loading order.
    pub open spec fn spec_index(self) -> nat {
        match self {
            Ability::Knockback => 0,
            Ability::Club => 1,
            Ability::Jump => 2,
            Ability::LongJump => 3,
            Ability::Bomb => 4,
            Ability::BombPush => 5,
            Ability::BombFire => 6,
            Ability::BombPoison => 7,
            Ability::BombDemonic => 8,
            Ability::Summon => 9,
            Ability::Dash => 10,
            Ability::Rage => 11,
            Ability::Heal => 12,
            Ability::GreatHeal => 13,
            Ability::Bloodlust => 14,
        }
    }

    /// The ability at a position of the loading order, if there is one.
    pub open spec fn spec_from_index(i: nat) -> Option<Ability> {
        if i == 0 {
            Some(Ability::Knockback)
        } else if i == 1 {
            Some(Ability::Club)
        } else if i == 2 {
            Some(Ability::Jump)
        } else if i == 3 {
            Some(Ability::LongJump)
        } else if i == 4 {
            Some(Ability::Bomb)
        } else if i == 5 {
            Some(Ability::BombPush)
        } else if i == 6 {
            Some(Ability::BombFire)
        } else if i == 7 {
            Some(Ability::BombPoison)
        } else if i == 8 {
            Some(Ability::BombDemonic)
        } else if i == 9 {
            Some(Ability::Summon)
        } else if i == 10 {
            Some(Ability::Dash)
        } else if i == 11 {
            Some(Ability::Rage)
        } else if i == 12 {
            Some(Ability::Heal)
        } else if i == 13 {
            Some(Ability::GreatHeal)
        } else if i == 14 {
            Some(Ability::Bloodlust)
        } else {
            None
        }
    }

    /// Stem of the icon's file name.
    pub open spec fn spec_icon_name(self) -> Seq<char> {
        match self {
            Ability::Knockback => "knockback"@,
            Ability::Club => "club"@,
            Ability::Jump => "jump"@,
            Ability::LongJump => "long_jump"@,
            Ability::Bomb => "bomb"@,
            Ability::BombPush => "bomb_push"@,
            Ability::BombFire => "bomb_fire"@,
            Ability::BombPoison => "bomb_poison"@,
            Ability::BombDemonic => "bomb_demonic"@,
            Ability::Summon => "summon"@,
            Ability::Dash => "dash"@,
            Ability::Rage => "rage"@,
            Ability::Heal => "heal"@,
            Ability::GreatHeal => "great_heal"@,
            Ability::Bloodlust => "bloodlust"@,
        }
    }

    /// Path of the icon's file: the shared prefix, the stem, the extension.
    pub open spec fn spec_icon_path(self) -> Seq<char> {
        icon_prefix() + self.spec_icon_name() + icon_suffix()
    }

    /// Position of the ability in the loading order.
    pub fn index(self) -> (i: usize)
        ensures
            i == self.spec_index(),
            i < ABILITY_COUNT,
    {
        match self {
            Ability::Knockback => 0,
            Ability::Club => 1,
            Ability::Jump => 2,
            Ability::LongJump => 3,
            Ability::Bomb => 4,
            Ability::BombPush => 5,
            Ability::BombFire => 6,
            Ability::BombPoison => 7,
            Ability::BombDemonic => 8,
            Ability::Summon => 9,
            Ability::Dash => 10,
            Ability::Rage => 11,
            Ability::Heal => 12,
            Ability::GreatHeal => 13,
            Ability::Bloodlust => 14,
        }
    }

    /// The ability at position `i` of the loading order; `None` from
    /// [`ABILITY_COUNT`] on.
    pub fn from_index(i: usize) -> (r: Option<Ability>)
        ensures
            r == Ability::spec_from_index(i as nat),
            r.is_some() <==> i < ABILITY_COUNT,
            r.is_some() ==> r.unwrap().spec_index() == i,
    {
        match i {
            0 => Some(Ability::Knockback),
            1 => Some(Ability::Club),
            2 => Some(Ability::Jump),
            3 => Some(Ability::LongJump),
            4 => Some(Ability::Bomb),
            5 => Some(Ability::BombPush),
            6 => Some(Ability::BombFire),
            7 => Some(Ability::BombPoison),
            8 => Some(Ability::BombDemonic),
            9 => Some(Ability::Summon),
            10 => Some(Ability::Dash),
            11 => Some(Ability::Rage),
            12 => Some(Ability::Heal),
            13 => Some(Ability::GreatHeal),
            14 => Some(Ability::Bloodlust),
            _ => None,
        }
    }

    /// Stem of the icon's file name.
    pub fn icon_name(self) -> (name: &'static str)
        ensures
            name@ == self.spec_icon_name(),
    {
        match self {
            Ability::Knockback => "knockback",
            Ability::Club => "club",
            Ability::Jump => "jump",
            Ability::LongJump => "long_jump",
            Ability::Bomb => "bomb",
            Ability::BombPush => "bomb_push",
            Ability::BombFire => "bomb_fire",
            Ability::BombPoison => "bomb_poison",
            Ability::BombDemonic => "bomb_demonic",
            Ability::Summon => "summon",
            Ability::Dash => "dash",
            Ability::Rage => "rage",
            Ability::Heal => "heal",
            Ability::GreatHeal => "great_heal",
            Ability::Bloodlust => "bloodlust",
        }
    }

    /// Path of the file that holds the ability's icon.
    pub fn icon_path(self) -> (path: String)
        ensures
            path@ == self.spec_icon_path(),
    {
        let mut path = String::from_str("assets/img/icon_ability_");
        path.append(self.icon_name());
        path.append(".png");
        path
    }

    /// All abilities, in loading order.
    pub fn all() -> (abilities: Vec<Ability>)
        ensures
            abilities@.len() == ABILITY_COUNT,
            forall|i: int|
                0 <= i < abilities@.len() ==> Ability::spec_from_index(i as nat) == Some(
                    #[trigger] abilities@[i],
                ),
    {
        let mut abilities: Vec<Ability> = Vec::new();
        let mut i: usize = 0;
        while i < ABILITY_COUNT
            invariant
                i <= ABILITY_COUNT,
                abilities@.len() == i,
                forall|j: int|
                    0 <= j < abilities@.len() ==> Ability::spec_from_index(j as nat) == Some(
                        #[trigger] abilities@[j],
                    ),
            decreases ABILITY_COUNT - i,
        {
            match Ability::from_index(i) {
                Some(ability) => abilities.push(ability),
                None => {},
            }
            i += 1;
        }
        abilities
    }
}

/// Going from an ability to its position and back gives the ability again,
/// and every position below [`ABILITY_COUNT`] belongs to exactly one ability.
pub proof fn lemma_index_round_trip(ability: Ability, i: nat)
    ensures
        ability.spec_index() < ABILITY_COUNT,
        Ability::spec_from_index(ability.spec_index()) == Some(ability),
        Ability::spec_from_index(i).is_some() <==> i < ABILITY_COUNT,
        Ability::spec_from_index(i) == Some(ability) <==> ability.spec_index() == i,
{
}

/// No two abilities share an icon file.
pub proof fn lemma_icon_paths_distinct(a: Ability, b: Ability)
    requires
        a != b,
    ensures
        a.spec_icon_name() != b.spec_icon_name(),
        a.spec_icon_path() != b.spec_icon_path(),
{
    reveal_strlit("knockback");
    reveal_strlit("club");
    reveal_strlit("jump");
    reveal_strlit("long_jump");
    reveal_strlit("bomb");
    reveal_strlit("bomb_push");
    reveal_strlit("bomb_fire");
    reveal_strlit("bomb_poison");
    reveal_strlit("bomb_demonic");
    reveal_strlit("summon");
    reveal_strlit("dash");
    reveal_strlit("rage");
    reveal_strlit("heal");
    reveal_strlit("great_heal");
    reveal_strlit("bloodlust");
    let x = a.spec_icon_name();
    let y = b.spec_icon_name();
    assert(x != y) by {
        if x.len() == y.len() {
            assert(x[0] != y[0] || x[1] != y[1] || x[5] != y[5]);
        }
    }
    let p = icon_prefix();
    let s = icon_suffix();
    if p + x + s == p + y + s {
        assert((p + x + s).subrange(p.len() as int, (p.len() + x.len()) as int) =~= x);
        assert((p + y + s).subrange(p.len() as int, (p.len() + y.len()) as int) =~= y);
        assert((p + x + s).len() == p.len() + x.len() + s.len());
        assert((p + y + s).len() == p.len() + y.len() + s.len());
    }
}

} // verus!
