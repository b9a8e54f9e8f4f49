//! Non-player characters: their attributes, limits, damage tracks and
//! initiative scores.

use vstd::prelude::*;
use vstd::string::StringExecFns;
use crate::dice::basic_roll;
use crate::text::{decimal_digits, decimal_text, parse_u8, parsed_integer, same_text};

verus! {

#[derive(Debug, PartialEq, Eq, Clone, Copy, Structural)]
pub enum Metatype {
    Human,
    Elf,
    Dwarf,
    Ork,
    Troll,
}

/// The name under which a metatype is shown.
pub open spec fn metatype_name(metatype: Metatype) -> Seq<char> {
    match metatype {
        Metatype::Human => "Human"@,
        Metatype::Elf => "Elf"@,
        Metatype::Dwarf => "Dwarf"@,
        Metatype::Ork => "Ork"@,
        Metatype::Troll => "Troll"@,
    }
}

/// No two metatypes are shown under the same name, so each metatype is read
/// back from its name.
pub proof fn lemma_metatype_names_differ(a: Metatype, b: Metatype)
    ensures
        metatype_name(a) == metatype_name(b) ==> a == b,
{
    reveal_strlit("Human");
    reveal_strlit("Elf");
    reveal_strlit("Dwarf");
    reveal_strlit("Ork");
    reveal_strlit("Troll");
    if metatype_name(a) == metatype_name(b) {
        assert(metatype_name(a).len() == metatype_name(b).len());
        assert(metatype_name(a)[0] == metatype_name(b)[0]);
    }
}

impl Metatype {
    /// The name under which the metatype is shown.
    pub fn to_string(&self) -> (name: String)
        ensures
            name@ == metatype_name(*self),
    {
        match self {
            Metatype::Human => String::from_str("Human"),
            Metatype::Elf => String::from_str("Elf"),
            Metatype::Dwarf => String::from_str("Dwarf"),
            Metatype::Ork => String::from_str("Ork"),
            Metatype::Troll => String::from_str("Troll"),
        }
    }

    /// The metatype shown under `name`, if any.
    pub fn from_name(name: &str) -> (metatype: Option<Metatype>)
        ensures
            forall|m: Metatype| metatype == Some(m) <==> name@ == metatype_name(m),
    {
        let found = if same_text(name, "Human") {
            Some(Metatype::Human)
        } else if same_text(name, "Elf") {
            Some(Metatype::Elf)
        } else if same_text(name, "Dwarf") {
            Some(Metatype::Dwarf)
        } else if same_text(name, "Ork") {
            Some(Metatype::Ork)
        } else if same_text(name, "Troll") {
            Some(Metatype::Troll)
        } else {
            None
        };
        assert forall|m: Metatype| found == Some(m) <==> name@ == metatype_name(m) by {
            if found is Some {
                lemma_metatype_names_differ(found->0, m);
            }
            match m {
                Metatype::Human => {},
                Metatype::Elf => {},
                Metatype::Dwarf => {},
                Metatype::Ork => {},
                Metatype::Troll => {},
            }
        }
        found
    }
}

#[derive(Debug, PartialEq, Eq, Clone, Copy, Structural)]
pub enum Archetype {
    Adept,
    Decker,
    Face,
    Mage,
    Rigger,
    Shaman,
    StreetSamurai,
    Technomancer,
}

/// The name under which an archetype is shown.
pub open spec fn archetype_name(archetype: Archetype) -> Seq<char> {
    match archetype {
        Archetype::Adept => "Adept"@,
        Archetype::Decker => "Decker"@,
        Archetype::Face => "Face"@,
        Archetype::Mage => "Mage"@,
        Archetype::Rigger => "Rigger"@,
        Archetype::Shaman => "Shaman"@,
        Archetype::StreetSamurai => "Street Samurai"@,
        Archetype::Technomancer => "Technomancer"@,
    }
}

/// No two archetypes are shown under the same name, so each archetype is read
/// back from its name.
pub proof fn lemma_archetype_names_differ(a: Archetype, b: Archetype)
    ensures
        archetype_name(a) == archetype_name(b) ==> a == b,
{
    reveal_strlit("Adept");
    reveal_strlit("Decker");
    reveal_strlit("Face");
    reveal_strlit("Mage");
    reveal_strlit("Rigger");
    reveal_strlit("Shaman");
    reveal_strlit("Street Samurai");
    reveal_strlit("Technomancer");
    if archetype_name(a) == archetype_name(b) {
        assert(archetype_name(a).len() == archetype_name(b).len());
        assert(archetype_name(a)[0] == archetype_name(b)[0]);
    }
}

impl Archetype {
    /// The name under which the archetype is shown.
    pub fn to_string(&self) -> (name: String)
        ensures
            name@ == archetype_name(*self),
    {
        match self {
            Archetype::Adept => String::from_str("Adept"),
            Archetype::Decker => String::from_str("Decker"),
            Archetype::Face => String::from_str("Face"),
            Archetype::Mage => String::from_str("Mage"),
            Archetype::Rigger => String::from_str("Rigger"),
            Archetype::Shaman => String::from_str("Shaman"),
            Archetype::StreetSamurai => String::from_str("Street Samurai"),
            Archetype::Technomancer => String::from_str("Technomancer"),
        }
    }

    /// Technomancers wield resonance where others wield magic.
    pub fn uses_resonance(&self) -> (resonance: bool)
        ensures
            resonance == (*self == Archetype::Technomancer),
    {
        match self {
            Archetype::Technomancer => true,
            _ => false,
        }
    }

    /// The archetype shown under `name`, if any.
    pub fn from_name(name: &str) -> (archetype: Option<Archetype>)
        ensures
            forall|a: Archetype| archetype == Some(a) <==> name@ == archetype_name(a),
    {
        let found = if same_text(name, "Adept") {
            Some(Archetype::Adept)
        } else if same_text(name, "Decker") {
            Some(Archetype::Decker)
        } else if same_text(name, "Face") {
            Some(Archetype::Face)
        } else if same_text(name, "Mage") {
            Some(Archetype::Mage)
        } else if same_text(name, "Rigger") {
            Some(Archetype::Rigger)
        } else if same_text(name, "Shaman") {
            Some(Archetype::Shaman)
        } else if same_text(name, "Street Samurai") {
            Some(Archetype::StreetSamurai)
        } else if same_text(name, "Technomancer") {
            Some(Archetype::Technomancer)
        } else {
            None
        };
        assert forall|a: Archetype| found == Some(a) <==> name@ == archetype_name(a) by {
            if found is Some {
                lemma_archetype_names_differ(found->0, a);
            }
            match a {
                Archetype::Adept => {},
                Archetype::Decker => {},
                Archetype::Face => {},
                Archetype::Mage => {},
                Archetype::Rigger => {},
                Archetype::Shaman => {},
                Archetype::StreetSamurai => {},
                Archetype::Technomancer => {},
            }
        }
        found
    }
}


/// The bit pattern of the single-precision number 6.0, the essence of a
/// character that has lost none.
pub const DEFAULT_ESSENCE_BITS: u32 = 0x40c0_0000;

/// A non-player character.
///
/// The essence score is a single-precision number; the library only carries
/// it, as its IEEE-754 bit pattern (`f32::to_bits`), and never computes with it.
#[derive(Debug, Clone)]
pub struct Character {
    pub body: u8,
    pub agility: u8,
    pub reaction: u8,
    pub strength: u8,
    pub will: u8,
    pub logic: u8,
    pub intuition: u8,
    pub charisma: u8,
    pub edge: u8,
    pub magic_or_resonance: u8,
    pub essence_bits: u32,
    pub physical_damage: u8,
    pub stun_damage: u8,
    pub initiative: u8,
    pub matrix_initiative: u8,
    pub astral_initiative: u8,
    pub name: String,
    pub metatype: Metatype,
    pub archetype: Archetype,
}

/// `x / 3` rounded to the nearest whole number, halves rounded up: the whole
/// part of `x / 3 + 1/2`.
pub open spec fn rounded_third(x: int) -> int {
    (2 * x + 3) / 6
}

/// The two damage tracks of a character.
#[derive(Debug, PartialEq, Eq, Clone, Copy, Structural)]
pub enum DamageTrack {
    Physical,
    Stun,
}

/// The initiative scores of a character.
#[derive(Debug, PartialEq, Eq, Clone, Copy, Structural)]
pub enum InitiativeTrack {
    Physical,
    Matrix,
    Astral,
}

/// How a character enters the Matrix.
#[derive(Debug, PartialEq, Eq, Clone, Copy, Structural)]
pub enum MatrixMode {
    /// Augmented reality.
    Ar,
    /// Cold-sim virtual reality.
    ColdVr,
    /// Hot-sim virtual reality.
    HotVr,
}

/// An initiative roll: which score it sets, and how.
#[derive(Debug, PartialEq, Eq, Clone, Copy, Structural)]
pub enum InitiativeRoll {
    Physical,
    Matrix(MatrixMode),
    Astral,
}

/// The label under which each Matrix mode is offered.
pub open spec fn matrix_mode_label(mode: MatrixMode) -> Seq<char> {
    match mode {
        MatrixMode::Ar => "AR"@,
        MatrixMode::ColdVr => "VR (Cold)"@,
        MatrixMode::HotVr => "VR (Hot)"@,
    }
}

impl MatrixMode {
    /// The mode picked under `label`: augmented reality unless the label
    /// names one of the virtual-reality modes, also when nothing is picked.
    pub fn from_label(label: Option<&str>) -> (mode: MatrixMode)
        ensures
            mode == match label {
                Some(l) => if l@ == matrix_mode_label(MatrixMode::ColdVr) {
                    MatrixMode::ColdVr
                } else if l@ == matrix_mode_label(MatrixMode::HotVr) {
                    MatrixMode::HotVr
                } else {
                    MatrixMode::Ar
                },
                None => MatrixMode::Ar,
            },
    {
        match label {
            Some(l) => {
                if same_text(l, "VR (Cold)") {
                    MatrixMode::ColdVr
                } else if same_text(l, "VR (Hot)") {
                    MatrixMode::HotVr
                } else {
                    MatrixMode::Ar
                }
            },
            None => MatrixMode::Ar,
        }
    }
}

/// The score that an initiative roll sets.
pub open spec fn track_of(roll: InitiativeRoll) -> InitiativeTrack {
    match roll {
        InitiativeRoll::Physical => InitiativeTrack::Physical,
        InitiativeRoll::Matrix(_) => InitiativeTrack::Matrix,
        InitiativeRoll::Astral => InitiativeTrack::Astral,
    }
}

/// How many dice an initiative roll adds to its base.
pub open spec fn initiative_dice_of(roll: InitiativeRoll) -> nat {
    match roll {
        InitiativeRoll::Physical => 1,
        InitiativeRoll::Matrix(MatrixMode::Ar) => 1,
        InitiativeRoll::Matrix(MatrixMode::ColdVr) => 3,
        InitiativeRoll::Matrix(MatrixMode::HotVr) => 4,
        InitiativeRoll::Astral => 2,
    }
}

/// The attributes that an initiative roll adds to its dice.
pub open spec fn initiative_base_of(c: Character, roll: InitiativeRoll) -> int {
    match roll {
        InitiativeRoll::Physical => c.reaction + c.intuition,
        InitiativeRoll::Matrix(MatrixMode::Ar) => c.reaction + c.intuition,
        InitiativeRoll::Matrix(MatrixMode::ColdVr) => c.intuition as int,
        InitiativeRoll::Matrix(MatrixMode::HotVr) => c.intuition as int,
        InitiativeRoll::Astral => c.intuition + c.intuition,
    }
}

/// One initiative score of a character.
pub open spec fn initiative_score(c: Character, track: InitiativeTrack) -> u8 {
    match track {
        InitiativeTrack::Physical => c.initiative,
        InitiativeTrack::Matrix => c.matrix_initiative,
        InitiativeTrack::Astral => c.astral_initiative,
    }
}

/// `c` with one initiative score set to `score`.
pub open spec fn with_initiative(c: Character, track: InitiativeTrack, score: u8) -> Character {
    match track {
        InitiativeTrack::Physical => Character { initiative: score, ..c },
        InitiativeTrack::Matrix => Character { matrix_initiative: score, ..c },
        InitiativeTrack::Astral => Character { astral_initiative: score, ..c },
    }
}

/// The length of a damage track: half the body (or will) plus eight boxes.
pub open spec fn damage_max_of(c: Character, track: DamageTrack) -> int {
    match track {
        DamageTrack::Physical => c.body / 2 + 8,
        DamageTrack::Stun => c.will / 2 + 8,
    }
}

/// The damage on one track of a character.
pub open spec fn damage_of(c: Character, track: DamageTrack) -> u8 {
    match track {
        DamageTrack::Physical => c.physical_damage,
        DamageTrack::Stun => c.stun_damage,
    }
}

/// `c` with the damage on one track set to `damage`.
pub open spec fn with_damage(c: Character, track: DamageTrack, damage: u8) -> Character {
    match track {
        DamageTrack::Physical => Character { physical_damage: damage, ..c },
        DamageTrack::Stun => Character { stun_damage: damage, ..c },
    }
}

/// An initiative score after one initiative pass: ten less, but not below zero.
pub open spec fn after_pass(score: u8) -> u8 {
    if score >= 10 {
        (score - 10) as u8
    } else {
        0
    }
}

impl Character {
    /// The mental limit: (2 logic + intuition + will) / 3, rounded.
    pub fn mental_limit(&self) -> (limit: usize)
        requires
            self.logic * 2 + self.intuition + self.will <= 255,
        ensures
            limit == rounded_third(self.logic * 2 + self.intuition + self.will),
    {
        let inner: u8 = self.logic * 2 + self.intuition + self.will;
        (inner as usize + 1) / 3
    }

    /// The physical limit: (2 strength + body + reaction) / 3, rounded.
    pub fn physical_limit(&self) -> (limit: usize)
        requires
            self.strength * 2 + self.body + self.reaction <= 255,
        ensures
            limit == rounded_third(self.strength * 2 + self.body + self.reaction),
    {
        let inner: u8 = self.strength * 2 + self.body + self.reaction;
        (inner as usize + 1) / 3
    }

    /// The number of boxes of the physical damage track.
    pub fn physical_damage_max(&self) -> (max: usize)
        ensures
            max == damage_max_of(*self, DamageTrack::Physical),
    {
        (self.body as usize) / 2 + 8
    }

    /// The number of boxes of the stun damage track.
    pub fn stun_damage_max(&self) -> (max: usize)
        ensures
            max == damage_max_of(*self, DamageTrack::Stun),
    {
        (self.will as usize) / 2 + 8
    }

    /// The number of boxes of a damage track.
    pub fn damage_max(&self, track: DamageTrack) -> (max: usize)
        ensures
            max == damage_max_of(*self, track),
    {
        match track {
            DamageTrack::Physical => self.physical_damage_max(),
            DamageTrack::Stun => self.stun_damage_max(),
        }
    }

    /// The box `index` of a damage track was clicked and is now checked
    /// (`checked`) or not: the track then holds damage up to that box, and
    /// the box itself when it is checked.
    pub fn mark_damage(&mut self, track: DamageTrack, index: usize, checked: bool)
        requires
            index < damage_max_of(*old(self), track),
        ensures
            *final(self) == with_damage(*old(self), track, (index + if checked {
                1int
            } else {
                0int
            }) as u8),
            damage_of(*final(self), track) <= damage_max_of(*final(self), track),
    {
        let damage: u8 = index as u8 + if checked {
            1
        } else {
            0
        };
        match track {
            DamageTrack::Physical => {
                self.physical_damage = damage;
            },
            DamageTrack::Stun => {
                self.stun_damage = damage;
            },
        }
    }

    /// The number of dice that an initiative roll adds.
    pub fn initiative_dice(roll: InitiativeRoll) -> (dice: usize)
        ensures
            dice == initiative_dice_of(roll),
    {
        match roll {
            InitiativeRoll::Physical => 1,
            InitiativeRoll::Matrix(MatrixMode::Ar) => 1,
            InitiativeRoll::Matrix(MatrixMode::ColdVr) => 3,
            InitiativeRoll::Matrix(MatrixMode::HotVr) => 4,
            InitiativeRoll::Astral => 2,
        }
    }

    /// Sets the score of an initiative roll whose dice came to `dice_total`.
    pub fn set_initiative(&mut self, roll: InitiativeRoll, dice_total: u8)
        requires
            initiative_base_of(*old(self), roll) + dice_total <= 255,
        ensures
            *final(self) == with_initiative(
                *old(self),
                track_of(roll),
                (initiative_base_of(*old(self), roll) + dice_total) as u8,
            ),
    {
        match roll {
            InitiativeRoll::Physical => {
                self.initiative = self.reaction + self.intuition + dice_total;
            },
            InitiativeRoll::Matrix(MatrixMode::Ar) => {
                self.matrix_initiative = self.reaction + self.intuition + dice_total;
            },
            InitiativeRoll::Matrix(MatrixMode::ColdVr) => {
                self.matrix_initiative = self.intuition + dice_total;
            },
            InitiativeRoll::Matrix(MatrixMode::HotVr) => {
                self.matrix_initiative = self.intuition + dice_total;
            },
            InitiativeRoll::Astral => {
                self.astral_initiative = self.intuition + self.intuition + dice_total;
            },
        }
    }

    /// The attributes that an initiative roll adds to its dice.
    pub fn initiative_base(&self, roll: InitiativeRoll) -> (base: u16)
        ensures
            base == initiative_base_of(*self, roll),
    {
        match roll {
            InitiativeRoll::Physical => self.reaction as u16 + self.intuition as u16,
            InitiativeRoll::Matrix(MatrixMode::Ar) => self.reaction as u16 + self.intuition as u16,
            InitiativeRoll::Matrix(MatrixMode::ColdVr) => self.intuition as u16,
            InitiativeRoll::Matrix(MatrixMode::HotVr) => self.intuition as u16,
            InitiativeRoll::Astral => self.intuition as u16 + self.intuition as u16,
        }
    }

    /// Sets the score of an initiative roll whose dice came to `dice_total`,
    /// when base and dice together fit in the score (255 at most); otherwise
    /// nothing changes and the result is `false`.
    pub fn apply_initiative(&mut self, roll: InitiativeRoll, dice_total: usize) -> (set: bool)
        ensures
            set == (initiative_base_of(*old(self), roll) + dice_total <= 255),
            set ==> *final(self) == with_initiative(
                *old(self),
                track_of(roll),
                (initiative_base_of(*old(self), roll) + dice_total) as u8,
            ),
            !set ==> *final(self) == *old(self),
    {
        let base = self.initiative_base(roll);
        if dice_total > 255 || base as usize + dice_total > 255 {
            return false;
        }
        self.set_initiative(roll, dice_total as u8);
        true
    }

    /// Rolls initiative: the base of the roll plus its dice. Which total the
    /// dice show is chance, and it comes back with the result. The score is
    /// set to base plus that total exactly when it fits in the score (255 at
    /// most); otherwise nothing changes and the first part is `false`.
    pub fn roll_initiative(&mut self, roll: InitiativeRoll) -> (rolled: (bool, usize))
        ensures
            initiative_dice_of(roll) <= rolled.1 <= 6 * initiative_dice_of(roll),
            rolled.0 == (initiative_base_of(*old(self), roll) + rolled.1 <= 255),
            rolled.0 ==> *final(self) == with_initiative(
                *old(self),
                track_of(roll),
                (initiative_base_of(*old(self), roll) + rolled.1) as u8,
            ),
            !rolled.0 ==> *final(self) == *old(self),
    {
        let dice = Character::initiative_dice(roll);
        let total = basic_roll(dice);
        let set = self.apply_initiative(roll, total);
        (set, total)
    }

    /// One initiative pass: the score drops by ten, but not below zero.
    pub fn advance_initiative(&mut self, track: InitiativeTrack)
        ensures
            *final(self) == with_initiative(
                *old(self),
                track,
                after_pass(initiative_score(*old(self), track)),
            ),
    {
        match track {
            InitiativeTrack::Physical => {
                self.initiative = if self.initiative >= 10 {
                    self.initiative - 10
                } else {
                    0
                };
            },
            InitiativeTrack::Matrix => {
                self.matrix_initiative = if self.matrix_initiative >= 10 {
                    self.matrix_initiative - 10
                } else {
                    0
                };
            },
            InitiativeTrack::Astral => {
                self.astral_initiative = if self.astral_initiative >= 10 {
                    self.astral_initiative - 10
                } else {
                    0
                };
            },
        }
    }
}

/// Whether box `box_index` of a damage track is to be checked (`Some(true)`)
/// or cleared (`Some(false)`) after box `clicked` was clicked: the boxes
/// before it are checked, the boxes after it cleared, and the clicked box
/// keeps the state that the click gave it (`None`).
pub fn damage_box_after_click(box_index: usize, clicked: usize) -> (state: Option<bool>)
    ensures
        state == if box_index < clicked {
            Some(true)
        } else if box_index > clicked {
            Some(false)
        } else {
            None::<bool>
        },
{
    if box_index < clicked {
        Some(true)
    } else if box_index > clicked {
        Some(false)
    } else {
        None
    }
}

/// The (row, column) of box `box_index` in a damage track laid out three
/// boxes to a row.
pub fn damage_box_cell(box_index: usize) -> (cell: (i32, i32))
    requires
        box_index / 3 <= i32::MAX,
    ensures
        cell.0 == box_index / 3,
        cell.1 == box_index % 3,
{
    ((box_index / 3) as i32, (box_index % 3) as i32)
}

/// After a click on a box of a damage track, the track is filled from its
/// start: box `j` is checked exactly when it lies below the damage that the
/// click marked.
pub proof fn lemma_damage_track_filled_from_start(clicked: int, checked: bool, j: int)
    requires
        0 <= clicked,
        0 <= j,
    ensures
        ({
            let damage = clicked + if checked {
                1int
            } else {
                0int
            };
            let state = if j < clicked {
                Some(true)
            } else if j > clicked {
                Some(false)
            } else {
                None::<bool>
            };
            let box_checked = match state {
                Some(b) => b,
                None => checked,
            };
            box_checked == (j < damage)
        }),
{
}

/// An initiative pass never raises a score, and lowers every score of ten
/// or more by exactly ten.
pub proof fn lemma_initiative_pass(score: u8)
    ensures
        after_pass(score) <= score,
        score >= 10 ==> after_pass(score) + 10 == score,
        score < 10 ==> after_pass(score) == 0,
{
}

/// A rounded limit lies within half a point of a third of its sum: three
/// times the limit is at most one away from the sum, or one and a half below.
pub proof fn lemma_rounded_third_nearest(x: int)
    requires
        0 <= x,
    ensures
        3 * rounded_third(x) - 1 <= x <= 3 * rounded_third(x) + 1,
{
}

/// A rounded limit never falls as its sum grows.
pub proof fn lemma_rounded_third_monotonic(x: int, y: int)
    requires
        0 <= x <= y,
    ensures
        rounded_third(x) <= rounded_third(y),
{
}


/// An attribute typed into an entry: the number it holds, or `default` when
/// there is no text or the text is not a number from 0 to 255.
pub open spec fn attribute_from(text: Option<String>, default: u8) -> u8 {
    match text {
        Some(t) => match parsed_integer(t@, false, 0, 255) {
            Some(v) => v as u8,
            None => default,
        },
        None => default,
    }
}

/// The metatype picked under `name`, or human when there is none.
pub open spec fn metatype_or_human(name: Option<String>) -> Metatype {
    match name {
        Some(n) => if exists|m: Metatype| n@ == metatype_name(m) {
            choose|m: Metatype| n@ == metatype_name(m)
        } else {
            Metatype::Human
        },
        None => Metatype::Human,
    }
}

/// The archetype picked under `name`, or adept when there is none.
pub open spec fn archetype_or_adept(name: Option<String>) -> Archetype {
    match name {
        Some(n) => if exists|a: Archetype| n@ == archetype_name(a) {
            choose|a: Archetype| n@ == archetype_name(a)
        } else {
            Archetype::Adept
        },
        None => Archetype::Adept,
    }
}

/// Reads an attribute typed into an entry, with a default for an empty or
/// unreadable entry.
pub fn entry_to_num(text: &Option<String>, default: u8) -> (value: u8)
    ensures
        value == attribute_from(*text, default),
{
    match text {
        Some(t) => match parse_u8(t.as_str()) {
            Some(v) => v,
            None => default,
        },
        None => default,
    }
}

/// What the template form holds: the texts of its entries and of the picked
/// metatype and archetype (`None` where there is none), and the essence
/// typed in, as the bit pattern of a single-precision number (`None` when it
/// is not a number).
pub struct TemplateForm {
    pub name: Option<String>,
    pub metatype: Option<String>,
    pub archetype: Option<String>,
    pub body: Option<String>,
    pub agility: Option<String>,
    pub reaction: Option<String>,
    pub strength: Option<String>,
    pub will: Option<String>,
    pub logic: Option<String>,
    pub intuition: Option<String>,
    pub charisma: Option<String>,
    pub edge: Option<String>,
    pub magic: Option<String>,
    pub essence_bits: Option<u32>,
}

/// The metatype picked under `name`, or human when there is none.
fn metatype_from_form(name: &Option<String>) -> (metatype: Metatype)
    ensures
        metatype == metatype_or_human(*name),
{
    match name {
        Some(n) => {
            let text = n.as_str();
            match Metatype::from_name(text) {
                Some(m) => {
                    proof {
                        assert(n@ == metatype_name(m));
                        let c = choose|x: Metatype| n@ == metatype_name(x);
                        lemma_metatype_names_differ(c, m);
                    }
                    m
                },
                None => {
                    proof {
                        assert forall|x: Metatype| n@ != metatype_name(x) by {
                            if n@ == metatype_name(x) {
                                assert(text@ == metatype_name(x));
                            }
                        }
                    }
                    Metatype::Human
                },
            }
        },
        None => Metatype::Human,
    }
}

/// The archetype picked under `name`, or adept when there is none.
fn archetype_from_form(name: &Option<String>) -> (archetype: Archetype)
    ensures
        archetype == archetype_or_adept(*name),
{
    match name {
        Some(n) => {
            let text = n.as_str();
            match Archetype::from_name(text) {
                Some(a) => {
                    proof {
                        assert(n@ == archetype_name(a));
                        let c = choose|x: Archetype| n@ == archetype_name(x);
                        lemma_archetype_names_differ(c, a);
                    }
                    a
                },
                None => {
                    proof {
                        assert forall|x: Archetype| n@ != archetype_name(x) by {
                            if n@ == archetype_name(x) {
                                assert(text@ == archetype_name(x));
                            }
                        }
                    }
                    Archetype::Adept
                },
            }
        },
        None => Archetype::Adept,
    }
}

/// A new character from the template form: attributes that are missing or
/// unreadable are 0, the essence 6, the name "Unnamed Character", the
/// metatype human and the archetype adept; damage and initiative start at 0.
pub fn make_character_from_template(form: &TemplateForm) -> (c: Character)
    ensures
        c.name@ == match form.name {
            Some(n) => n@,
            None => "Unnamed Character"@,
        },
        c.metatype == metatype_or_human(form.metatype),
        c.archetype == archetype_or_adept(form.archetype),
        c.body == attribute_from(form.body, 0),
        c.agility == attribute_from(form.agility, 0),
        c.reaction == attribute_from(form.reaction, 0),
        c.strength == attribute_from(form.strength, 0),
        c.will == attribute_from(form.will, 0),
        c.logic == attribute_from(form.logic, 0),
        c.intuition == attribute_from(form.intuition, 0),
        c.charisma == attribute_from(form.charisma, 0),
        c.edge == attribute_from(form.edge, 0),
        c.magic_or_resonance == attribute_from(form.magic, 0),
        c.essence_bits == match form.essence_bits {
            Some(bits) => bits,
            None => DEFAULT_ESSENCE_BITS,
        },
        c.physical_damage == 0,
        c.stun_damage == 0,
        c.initiative == 0,
        c.matrix_initiative == 0,
        c.astral_initiative == 0,
{
    let name = match &form.name {
        Some(n) => n.clone(),
        None => String::from_str("Unnamed Character"),
    };
    Character {
        body: entry_to_num(&form.body, 0),
        agility: entry_to_num(&form.agility, 0),
        reaction: entry_to_num(&form.reaction, 0),
        strength: entry_to_num(&form.strength, 0),
        will: entry_to_num(&form.will, 0),
        logic: entry_to_num(&form.logic, 0),
        intuition: entry_to_num(&form.intuition, 0),
        charisma: entry_to_num(&form.charisma, 0),
        edge: entry_to_num(&form.edge, 0),
        magic_or_resonance: entry_to_num(&form.magic, 0),
        essence_bits: match form.essence_bits {
            Some(bits) => bits,
            None => DEFAULT_ESSENCE_BITS,
        },
        physical_damage: 0,
        stun_damage: 0,
        initiative: 0,
        matrix_initiative: 0,
        astral_initiative: 0,
        name: name,
        metatype: metatype_from_form(&form.metatype),
        archetype: archetype_from_form(&form.archetype),
    }
}


/// The three limits of a character.
#[derive(Debug, PartialEq, Eq, Clone, Copy, Structural)]
pub enum LimitKind {
    Physical,
    Mental,
    Social,
}

/// The caption under which each limit is shown.
pub open spec fn limit_caption(kind: LimitKind) -> Seq<char> {
    match kind {
        LimitKind::Physical => "<b>Physical: </b>"@,
        LimitKind::Mental => "<b>Mental: </b>"@,
        LimitKind::Social => "<b>Social: </b>"@,
    }
}

/// The caption under which each initiative score is shown.
pub open spec fn initiative_caption(track: InitiativeTrack) -> Seq<char> {
    match track {
        InitiativeTrack::Physical => "<b>Initiative: </b>"@,
        InitiativeTrack::Matrix => "<b>Matrix Init: </b>"@,
        InitiativeTrack::Astral => "<b>Astral Init: </b>"@,
    }
}

/// How a limit is shown: its caption in bold, then its value.
pub fn limit_markup(kind: LimitKind, limit: usize) -> (markup: String)
    ensures
        markup@ == limit_caption(kind) + decimal_digits(limit as nat),
{
    let mut markup = match kind {
        LimitKind::Physical => String::from_str("<b>Physical: </b>"),
        LimitKind::Mental => String::from_str("<b>Mental: </b>"),
        LimitKind::Social => String::from_str("<b>Social: </b>"),
    };
    let digits = decimal_text(limit);
    markup.append(digits.as_str());
    markup
}

/// How an initiative score is shown: its caption in bold, then the score.
pub fn initiative_markup(track: InitiativeTrack, score: u8) -> (markup: String)
    ensures
        markup@ == initiative_caption(track) + decimal_digits(score as nat),
{
    let mut markup = match track {
        InitiativeTrack::Physical => String::from_str("<b>Initiative: </b>"),
        InitiativeTrack::Matrix => String::from_str("<b>Matrix Init: </b>"),
        InitiativeTrack::Astral => String::from_str("<b>Astral Init: </b>"),
    };
    let digits = decimal_text(score as usize);
    markup.append(digits.as_str());
    markup
}

impl Character {
    /// How the name is shown: heavy and large.
    pub fn name_markup(&self) -> (markup: String)
        ensures
            markup@ == "<span font_weight=\"heavy\" size=\"18432\">"@ + self.name@ + "</span>"@,
    {
        let mut markup = String::from_str("<span font_weight=\"heavy\" size=\"18432\">");
        markup.append(self.name.as_str());
        markup.append("</span>");
        markup
    }

    /// How the metatype and archetype are shown: in italics, a space between.
    pub fn lineage_markup(&self) -> (markup: String)
        ensures
            markup@ == "<span size=\"16384\" font_style=\"italic\">"@ + metatype_name(self.metatype)
                + " "@ + archetype_name(self.archetype) + "</span>"@,
    {
        let mut markup = String::from_str("<span size=\"16384\" font_style=\"italic\">");
        let metatype = self.metatype.to_string();
        markup.append(metatype.as_str());
        markup.append(" ");
        let archetype = self.archetype.to_string();
        markup.append(archetype.as_str());
        markup.append("</span>");
        markup
    }
}


/// Each metatype is shown under the name of its own kind, letter by letter.
pub proof fn lemma_metatype_shown_names(m: Metatype)
    ensures
        metatype_name(m) == match m {
            Metatype::Human => seq!['H', 'u', 'm', 'a', 'n'],
            Metatype::Elf => seq!['E', 'l', 'f'],
            Metatype::Dwarf => seq!['D', 'w', 'a', 'r', 'f'],
            Metatype::Ork => seq!['O', 'r', 'k'],
            Metatype::Troll => seq!['T', 'r', 'o', 'l', 'l'],
        },
{
    reveal_strlit("Human");
    reveal_strlit("Elf");
    reveal_strlit("Dwarf");
    reveal_strlit("Ork");
    reveal_strlit("Troll");
    match m {
        Metatype::Human => assert(metatype_name(m) =~= seq!['H', 'u', 'm', 'a', 'n']),
        Metatype::Elf => assert(metatype_name(m) =~= seq!['E', 'l', 'f']),
        Metatype::Dwarf => assert(metatype_name(m) =~= seq!['D', 'w', 'a', 'r', 'f']),
        Metatype::Ork => assert(metatype_name(m) =~= seq!['O', 'r', 'k']),
        Metatype::Troll => assert(metatype_name(m) =~= seq!['T', 'r', 'o', 'l', 'l']),
    }
}

/// Each archetype is shown under the name of its own kind, letter by letter;
/// the street samurai with a space between the two words.
pub proof fn lemma_archetype_shown_names(a: Archetype)
    ensures
        archetype_name(a) == match a {
            Archetype::Adept => seq!['A', 'd', 'e', 'p', 't'],
            Archetype::Decker => seq!['D', 'e', 'c', 'k', 'e', 'r'],
            Archetype::Face => seq!['F', 'a', 'c', 'e'],
            Archetype::Mage => seq!['M', 'a', 'g', 'e'],
            Archetype::Rigger => seq!['R', 'i', 'g', 'g', 'e', 'r'],
            Archetype::Shaman => seq!['S', 'h', 'a', 'm', 'a', 'n'],
            Archetype::StreetSamurai => seq![
                'S', 't', 'r', 'e', 'e', 't', ' ', 'S', 'a', 'm', 'u', 'r', 'a', 'i',
            ],
            Archetype::Technomancer => seq![
                'T', 'e', 'c', 'h', 'n', 'o', 'm', 'a', 'n', 'c', 'e', 'r',
            ],
        },
{
    reveal_strlit("Adept");
    reveal_strlit("Decker");
    reveal_strlit("Face");
    reveal_strlit("Mage");
    reveal_strlit("Rigger");
    reveal_strlit("Shaman");
    reveal_strlit("Street Samurai");
    reveal_strlit("Technomancer");
    match a {
        Archetype::Adept => assert(archetype_name(a) =~= seq!['A', 'd', 'e', 'p', 't']),
        Archetype::Decker => assert(archetype_name(a) =~= seq!['D', 'e', 'c', 'k', 'e', 'r']),
        Archetype::Face => assert(archetype_name(a) =~= seq!['F', 'a', 'c', 'e']),
        Archetype::Mage => assert(archetype_name(a) =~= seq!['M', 'a', 'g', 'e']),
        Archetype::Rigger => assert(archetype_name(a) =~= seq!['R', 'i', 'g', 'g', 'e', 'r']),
        Archetype::Shaman => assert(archetype_name(a) =~= seq!['S', 'h', 'a', 'm', 'a', 'n']),
        Archetype::StreetSamurai => assert(archetype_name(a) =~= seq![
            'S', 't', 'r', 'e', 'e', 't', ' ', 'S', 'a', 'm', 'u', 'r', 'a', 'i',
        ]),
        Archetype::Technomancer => assert(archetype_name(a) =~= seq![
            'T', 'e', 'c', 'h', 'n', 'o', 'm', 'a', 'n', 'c', 'e', 'r',
        ]),
    }
}

/// A damage track holds eight boxes plus one per two points of its
/// attribute (body for physical, will for stun), an odd point left over:
/// the attribute lies between twice the extra boxes and one more than that.
/// Both tracks follow the same rule, the stun track taking will for body.
pub proof fn lemma_damage_track_length(c: Character, track: DamageTrack)
    ensures
        ({
            let attribute = match track {
                DamageTrack::Physical => c.body as int,
                DamageTrack::Stun => c.will as int,
            };
            let extra = damage_max_of(c, track) - 8;
            2 * extra <= attribute <= 2 * extra + 1
        }),
        damage_max_of(c, DamageTrack::Stun) == damage_max_of(
            Character { body: c.will, ..c },
            DamageTrack::Physical,
        ),
{
}

} // verus!
