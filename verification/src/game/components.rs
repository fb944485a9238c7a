//! What a player is made of.

use super::input::KeyCode;
use super::rng::{choose_one, random_range_inclusive, thread_rng};
use super::settings::{
    BUFF_DICE_FACES, DEFAULT_DAMAGE, DEFAULT_HEALTH, DEFAULT_LUCK, DEFAULT_MARKSMANSHIP,
    N_BULLETS, N_DODGES, N_KEYS_PER_PLAYER,
};
use vstd::prelude::*;

verus! {

/// A dice with `value - 1` faces, numbered from 1 to `value - 1`.
#[derive(Debug, Clone, Copy, PartialEq, Eq, Structural)]
pub struct Dice {
    pub value: u8,
}

impl Dice {
    /// Whether the dice has a face at all.
    pub open spec fn rollable(&self) -> bool {
        self.value >= 2
    }

    /// Whether `face` is one of the faces of the dice.
    pub open spec fn shows(&self, face: u8) -> bool {
        1 <= face < self.value
    }

    /// Throws the dice. Every face is as likely as any other; the contract
    /// says only that a face comes up.
    pub fn roll(&self) -> (face: u8)
        requires
            self.rollable(),
        ensures
            self.shows(face),
    {
        let mut rng = thread_rng();
        let nums = faces(self.value);
        let face = choose_one(&nums, &mut rng).unwrap();
        proof {
            let i = choose|i: int| 0 <= i < nums@.len() && nums@[i] == face;
            assert(nums@[i] == i + 1);
        }
        face
    }

    /// Adds the faces of `other` to the dice.
    pub fn add_assign(&mut self, other: Dice)
        requires
            old(self).value + other.value <= u8::MAX,
        ensures
            final(self).value == old(self).value + other.value,
    {
        self.value = self.value + other.value;
    }
}

/// The faces of a dice of the given value, in rising order: `1, 2, ..,
/// value - 1`.
fn faces(value: u8) -> (nums: Vec<u8>)
    ensures
        value >= 1 ==> nums@.len() == value - 1,
        value == 0 ==> nums@.len() == 0,
        forall|i: int| 0 <= i < nums@.len() ==> #[trigger] nums@[i] == i + 1,
{
    let mut nums: Vec<u8> = Vec::new();
    let mut face: u8 = 1;
    while face < value
        invariant
            1 <= face,
            face <= value || face == 1,
            nums@.len() == face - 1,
            forall|i: int| 0 <= i < nums@.len() ==> #[trigger] nums@[i] == i + 1,
        decreases value - face,
    {
        nums.push(face);
        face = face + 1;
    }
    nums
}

/// How much damage a player can still take.
#[derive(Debug, Clone, Copy, PartialEq, Eq, Structural)]
pub struct Health {
    pub value: u8,
}

impl Default for Health {
    fn default() -> (r: Health)
        ensures
            r.value == DEFAULT_HEALTH,
    {
        Health { value: DEFAULT_HEALTH }
    }
}

/// The dice a player throws to escape a shot and to win resources back.
#[derive(Debug, Clone, Copy, PartialEq, Eq, Structural)]
pub struct Luck {
    pub value: Dice,
}

impl Default for Luck {
    fn default() -> (r: Luck)
        ensures
            r.value.value == DEFAULT_LUCK,
    {
        Luck { value: Dice { value: DEFAULT_LUCK } }
    }
}

/// The dice a player throws to land a shot.
#[derive(Debug, Clone, Copy, PartialEq, Eq, Structural)]
pub struct Marksmanship {
    pub value: Dice,
}

impl Default for Marksmanship {
    fn default() -> (r: Marksmanship)
        ensures
            r.value.value == DEFAULT_MARKSMANSHIP,
    {
        Marksmanship { value: Dice { value: DEFAULT_MARKSMANSHIP } }
    }
}

/// Dodges a player has left.
#[derive(Debug, Clone, Copy, PartialEq, Eq, Structural)]
pub struct Dodges {
    pub value: u8,
}

impl Default for Dodges {
    fn default() -> (r: Dodges)
        ensures
            r.value == N_DODGES,
    {
        Dodges { value: N_DODGES }
    }
}

/// Bullets a player has left.
#[derive(Debug, Clone, Copy, PartialEq, Eq, Structural)]
pub struct Bullets {
    pub value: u8,
}

impl Default for Bullets {
    fn default() -> (r: Bullets)
        ensures
            r.value == N_BULLETS,
    {
        Bullets { value: N_BULLETS }
    }
}

/// Health a hit of the player takes from the opponent.
#[derive(Debug, Clone, Copy, PartialEq, Eq, Structural)]
pub struct Damage {
    pub value: u8,
}

impl Default for Damage {
    fn default() -> (r: Damage)
        ensures
            r.value == DEFAULT_DAMAGE,
    {
        Damage { value: DEFAULT_DAMAGE }
    }
}

/// The buffs a player can draw.
#[derive(Debug, Clone, Copy, PartialEq, Eq, Structural)]
pub enum Buffes {
    GoldenBulletBuff,
    IncreaseDamageBuff,
    HealBuff,
    SuperHealBuff,
    LuckBuff,
    MarksmanshipBuff,
}

impl Buffes {
    /// The buff with the given number, counted from 0 in the order of
    /// declaration.
    pub open spec fn spec_from_index(index: u8) -> Buffes
        recommends
            index <= 5,
    {
        if index == 0 {
            Buffes::GoldenBulletBuff
        } else if index == 1 {
            Buffes::IncreaseDamageBuff
        } else if index == 2 {
            Buffes::HealBuff
        } else if index == 3 {
            Buffes::SuperHealBuff
        } else if index == 4 {
            Buffes::LuckBuff
        } else {
            Buffes::MarksmanshipBuff
        }
    }

    /// The number of the buff, the inverse of `spec_from_index`.
    pub open spec fn index(self) -> u8 {
        match self {
            Buffes::GoldenBulletBuff => 0,
            Buffes::IncreaseDamageBuff => 1,
            Buffes::HealBuff => 2,
            Buffes::SuperHealBuff => 3,
            Buffes::LuckBuff => 4,
            Buffes::MarksmanshipBuff => 5,
        }
    }

    #[verifier::when_used_as_spec(spec_from_index)]
    pub fn from_index(index: u8) -> (buff: Buffes)
        requires
            index <= 5,
        ensures
            buff == Buffes::spec_from_index(index),
            buff.index() == index,
    {
        if index == 0 {
            Buffes::GoldenBulletBuff
        } else if index == 1 {
            Buffes::IncreaseDamageBuff
        } else if index == 2 {
            Buffes::HealBuff
        } else if index == 3 {
            Buffes::SuperHealBuff
        } else if index == 4 {
            Buffes::LuckBuff
        } else {
            Buffes::MarksmanshipBuff
        }
    }

    /// Draws one of the six buffs, each as likely as any other. Nothing is
    /// known of the draw but that it is a buff.
    pub fn sample() -> (buff: Buffes) {
        let mut rng = thread_rng();
        let index = random_range_inclusive(&mut rng, 0, 5);
        Buffes::from_index(index)
    }

    /// Every buff has a number, and a draw can bring any of them.
    pub proof fn lemma_index_round_trip(self)
        ensures
            self.index() <= 5,
            Buffes::spec_from_index(self.index()) == self,
    {
    }
}

/// The buff a player holds, if any.
#[derive(Debug, Clone, Copy, PartialEq, Eq, Structural)]
pub struct Buff {
    pub value: Option<Buffes>,
}

impl Default for Buff {
    fn default() -> (r: Buff)
        ensures
            r.value is None,
    {
        Buff { value: None }
    }
}

/// Where each pose of a hand sits in its sheet of textures.
#[derive(Debug, Clone, Copy, PartialEq, Eq, Structural)]
pub struct HandTextureIndices {
    pub idle: usize,
    pub shoot: usize,
    pub dodge: usize,
    pub buff: usize,
}

impl Default for HandTextureIndices {
    fn default() -> (r: HandTextureIndices)
        ensures
            r == (HandTextureIndices { buff: 0, idle: 1, shoot: 2, dodge: 3 }),
    {
        HandTextureIndices { buff: 0, idle: 1, shoot: 2, dodge: 3 }
    }
}

/// What a player intends to do in the round.
///
/// `NotAttacking` and `NotDodging` are an attack and a dodge that were asked
/// for without a bullet or a dodge left.
#[derive(Debug, Clone, Copy, PartialEq, Eq, Structural)]
pub enum PlayerStates {
    Idle,
    Attacking,
    NotAttacking,
    Dodging,
    NotDodging,
    Buffing,
}

impl Default for PlayerStates {
    fn default() -> (r: PlayerStates)
        ensures
            r == PlayerStates::Idle,
    {
        PlayerStates::Idle
    }
}

/// The intent of a player.
#[derive(Debug, Clone, Copy, PartialEq, Eq, Structural)]
pub struct PlayerState(pub PlayerStates);

impl Default for PlayerState {
    fn default() -> (r: PlayerState)
        ensures
            r.0 == PlayerStates::Idle,
    {
        PlayerState(PlayerStates::Idle)
    }
}

impl PlayerState {
    /// The texture of the pose that goes with the intent.
    pub open spec fn spec_derive_hand_texture_index(
        &self,
        hand_texture_indices: &HandTextureIndices,
    ) -> usize {
        match self.0 {
            PlayerStates::Idle => hand_texture_indices.idle,
            PlayerStates::Buffing => hand_texture_indices.buff,
            PlayerStates::Attacking | PlayerStates::NotAttacking => hand_texture_indices.shoot,
            PlayerStates::Dodging | PlayerStates::NotDodging => hand_texture_indices.dodge,
        }
    }

    #[verifier::when_used_as_spec(spec_derive_hand_texture_index)]
    pub fn derive_hand_texture_index(&self, hand_texture_indices: &HandTextureIndices) -> (index:
        usize)
        ensures
            index == self.spec_derive_hand_texture_index(hand_texture_indices),
    {
        match self.0 {
            PlayerStates::Idle => hand_texture_indices.idle,
            PlayerStates::Buffing => hand_texture_indices.buff,
            PlayerStates::Attacking | PlayerStates::NotAttacking => hand_texture_indices.shoot,
            PlayerStates::Dodging | PlayerStates::NotDodging => hand_texture_indices.dodge,
        }
    }
}

/// The keys of a player, in the order attack, dodge, buff.
#[derive(Debug, Clone, Copy, PartialEq, Eq)]
pub struct KeyAssignment(pub [KeyCode; N_KEYS_PER_PLAYER]);

impl KeyAssignment {
    /// The intent that `key` asks for: the first of attack, dodge and buff
    /// whose key it is, or none.
    pub open spec fn spec_derive_player_state(&self, key: &KeyCode) -> Option<PlayerStates> {
        if *key == self.0[0] {
            Some(PlayerStates::Attacking)
        } else if *key == self.0[1] {
            Some(PlayerStates::Dodging)
        } else if *key == self.0[2] {
            Some(PlayerStates::Buffing)
        } else {
            None
        }
    }

    #[verifier::when_used_as_spec(spec_derive_player_state)]
    pub fn derive_player_state(&self, key: &KeyCode) -> (state: Option<PlayerStates>)
        ensures
            state == self.spec_derive_player_state(key),
    {
        if *key == self.0[0] {
            Some(PlayerStates::Attacking)
        } else if *key == self.0[1] {
            Some(PlayerStates::Dodging)
        } else if *key == self.0[2] {
            Some(PlayerStates::Buffing)
        } else {
            None
        }
    }
}

/// One of the two players of a match, with everything the match keeps of
/// them.
#[derive(Debug, Clone, Copy, PartialEq, Eq)]
pub struct Player {
    /// 1 for the first player, 2 for the second.
    pub value: u8,
    pub health: Health,
    pub luck: Luck,
    pub marksmanship: Marksmanship,
    pub damage: Damage,
    pub bullets: Bullets,
    pub dodges: Dodges,
    pub buff: Buff,
    pub state: PlayerState,
    pub keys: KeyAssignment,
    pub hand_texture_indices: HandTextureIndices,
}

impl Player {
    /// A player as the match starts: full health, the starting resources,
    /// unbuffed dice, no buff and no intent.
    pub open spec fn spec_new(value: u8, keys: KeyAssignment) -> Player {
        Player {
            value,
            health: Health { value: DEFAULT_HEALTH },
            luck: Luck { value: Dice { value: DEFAULT_LUCK } },
            marksmanship: Marksmanship { value: Dice { value: DEFAULT_MARKSMANSHIP } },
            damage: Damage { value: DEFAULT_DAMAGE },
            bullets: Bullets { value: N_BULLETS },
            dodges: Dodges { value: N_DODGES },
            buff: Buff { value: None },
            state: PlayerState(PlayerStates::Idle),
            keys,
            hand_texture_indices: HandTextureIndices { buff: 0, idle: 1, shoot: 2, dodge: 3 },
        }
    }

    /// What the match relies on: the player is the first or the second, and
    /// both dice can be thrown.
    pub open spec fn wf(&self) -> bool {
        &&& (self.value == 1 || self.value == 2)
        &&& self.luck.value.rollable()
        &&& self.marksmanship.value.rollable()
    }

    #[verifier::when_used_as_spec(spec_new)]
    pub fn new(value: u8, keys: KeyAssignment) -> (player: Player)
        ensures
            player == Player::spec_new(value, keys),
    {
        Player {
            value,
            health: Health::default(),
            luck: Luck::default(),
            marksmanship: Marksmanship::default(),
            damage: Damage::default(),
            bullets: Bullets::default(),
            dodges: Dodges::default(),
            buff: Buff::default(),
            state: PlayerState::default(),
            keys,
            hand_texture_indices: HandTextureIndices::default(),
        }
    }

    /// Whether the numbers of the player are far enough from the largest
    /// number that whatever a frame adds to them fits.
    pub open spec fn spec_roomy(&self) -> bool {
        &&& self.damage.value < u8::MAX
        &&& self.bullets.value < u8::MAX - 1
        &&& self.dodges.value < u8::MAX
        &&& self.luck.value.value <= u8::MAX - BUFF_DICE_FACES
        &&& self.marksmanship.value.value <= u8::MAX - BUFF_DICE_FACES
    }

    #[verifier::when_used_as_spec(spec_roomy)]
    pub fn roomy(&self) -> (roomy: bool)
        ensures
            roomy == self.spec_roomy(),
    {
        self.damage.value < u8::MAX && self.bullets.value < u8::MAX - 1 && self.dodges.value
            < u8::MAX && self.luck.value.value <= u8::MAX - BUFF_DICE_FACES
            && self.marksmanship.value.value <= u8::MAX - BUFF_DICE_FACES
    }

    /// Works out whether the player is one of the two players, with dice
    /// that can be thrown.
    pub fn is_wf(&self) -> (wf: bool)
        ensures
            wf == self.wf(),
    {
        (self.value == 1 || self.value == 2) && self.luck.value.value >= 2
            && self.marksmanship.value.value >= 2
    }

    /// Whether the player has no health left.
    pub open spec fn spec_is_dead(&self) -> bool {
        self.health.value == 0
    }

    #[verifier::when_used_as_spec(spec_is_dead)]
    pub fn is_dead(&self) -> (dead: bool)
        ensures
            dead == self.spec_is_dead(),
    {
        self.health.value == 0
    }
}

} // verus!
