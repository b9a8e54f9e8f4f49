use shadowpal::character::{
    damage_box_after_click, damage_box_cell, entry_to_num, initiative_markup, limit_markup,
    make_character_from_template, LimitKind,
    Archetype, Character, DamageTrack, InitiativeRoll, InitiativeTrack, MatrixMode, Metatype,
    TemplateForm, DEFAULT_ESSENCE_BITS,
};

fn beefy_guard() -> Character {
    Character {
        body: 5,
        agility: 2,
        reaction: 6,
        strength: 6,
        will: 2,
        logic: 2,
        intuition: 3,
        charisma: 2,
        edge: 2,
        magic_or_resonance: 0,
        essence_bits: 6.0f32.to_bits(),
        physical_damage: 0,
        stun_damage: 0,
        initiative: 0,
        matrix_initiative: 0,
        astral_initiative: 0,
        name: "Beefy Guard".to_string(),
        metatype: Metatype::Troll,
        archetype: Archetype::StreetSamurai,
    }
}

#[test]
fn limits_of_the_beefy_guard() {
    let c = beefy_guard();
    // (2 * 2 + 3 + 2) / 3 = 3
    assert_eq!(c.mental_limit(), 3);
    // (2 * 6 + 5 + 6) / 3 = 7.67, rounded to 8
    assert_eq!(c.physical_limit(), 8);
}

#[test]
fn limits_round_halves_and_thirds() {
    let mut c = beefy_guard();
    c.logic = 1;
    c.intuition = 1;
    c.will = 1;
    // 4 / 3 = 1.33 -> 1
    assert_eq!(c.mental_limit(), 1);
    c.will = 2;
    // 5 / 3 = 1.67 -> 2
    assert_eq!(c.mental_limit(), 2);
    c.logic = 0;
    c.intuition = 0;
    c.will = 0;
    assert_eq!(c.mental_limit(), 0);
    c.logic = 100;
    c.intuition = 50;
    c.will = 5;
    // 255 / 3 = 85
    assert_eq!(c.mental_limit(), 85);
}

#[test]
fn limits_agree_with_single_precision_rounding() {
    let mut c = beefy_guard();
    for strength in 0u8..=60 {
        for body in 0u8..=60 {
            c.strength = strength;
            c.body = body;
            c.reaction = 3;
            let inner = (strength * 2 + body + 3) as f32;
            let expected = (inner / 3.0 + 0.5).floor() as usize;
            assert_eq!(c.physical_limit(), expected);
        }
    }
}

#[test]
fn damage_track_lengths() {
    let c = beefy_guard();
    assert_eq!(c.physical_damage_max(), 10);
    assert_eq!(c.stun_damage_max(), 9);
    assert_eq!(c.damage_max(DamageTrack::Physical), 10);
    assert_eq!(c.damage_max(DamageTrack::Stun), 9);
    let mut c = beefy_guard();
    c.body = 255;
    c.will = 0;
    assert_eq!(c.physical_damage_max(), 135);
    assert_eq!(c.stun_damage_max(), 8);
}

#[test]
fn marking_damage_fills_to_the_clicked_box() {
    let mut c = beefy_guard();
    c.mark_damage(DamageTrack::Physical, 3, true);
    assert_eq!(c.physical_damage, 4);
    assert_eq!(c.stun_damage, 0);
    c.mark_damage(DamageTrack::Physical, 3, false);
    assert_eq!(c.physical_damage, 3);
    c.mark_damage(DamageTrack::Stun, 0, true);
    assert_eq!(c.stun_damage, 1);
    c.mark_damage(DamageTrack::Stun, 0, false);
    assert_eq!(c.stun_damage, 0);
    assert_eq!(c.physical_damage, 3);
}

#[test]
fn boxes_after_a_click_fill_the_track_from_its_start() {
    for clicked in 0..10usize {
        for &checked in &[true, false] {
            let damage = clicked + if checked { 1 } else { 0 };
            for j in 0..10usize {
                let state = damage_box_after_click(j, clicked).unwrap_or(checked);
                assert_eq!(state, j < damage);
            }
        }
    }
    assert_eq!(damage_box_after_click(1, 4), Some(true));
    assert_eq!(damage_box_after_click(5, 4), Some(false));
    assert_eq!(damage_box_after_click(4, 4), None);
}

#[test]
fn damage_boxes_sit_three_to_a_row() {
    assert_eq!(damage_box_cell(0), (0, 0));
    assert_eq!(damage_box_cell(2), (0, 2));
    assert_eq!(damage_box_cell(3), (1, 0));
    assert_eq!(damage_box_cell(10), (3, 1));
}

#[test]
fn initiative_scores() {
    let mut c = beefy_guard();
    c.set_initiative(InitiativeRoll::Physical, 4);
    assert_eq!(c.initiative, 6 + 3 + 4);
    c.set_initiative(InitiativeRoll::Matrix(MatrixMode::Ar), 2);
    assert_eq!(c.matrix_initiative, 6 + 3 + 2);
    c.set_initiative(InitiativeRoll::Matrix(MatrixMode::ColdVr), 10);
    assert_eq!(c.matrix_initiative, 3 + 10);
    c.set_initiative(InitiativeRoll::Matrix(MatrixMode::HotVr), 15);
    assert_eq!(c.matrix_initiative, 3 + 15);
    c.set_initiative(InitiativeRoll::Astral, 7);
    assert_eq!(c.astral_initiative, 3 + 3 + 7);
    assert_eq!(c.initiative, 13);
}

#[test]
fn initiative_dice_per_roll() {
    assert_eq!(Character::initiative_dice(InitiativeRoll::Physical), 1);
    assert_eq!(Character::initiative_dice(InitiativeRoll::Matrix(MatrixMode::Ar)), 1);
    assert_eq!(Character::initiative_dice(InitiativeRoll::Matrix(MatrixMode::ColdVr)), 3);
    assert_eq!(Character::initiative_dice(InitiativeRoll::Matrix(MatrixMode::HotVr)), 4);
    assert_eq!(Character::initiative_dice(InitiativeRoll::Astral), 2);
}

#[test]
fn rolled_initiative_stays_in_range() {
    for _ in 0..100 {
        let mut c = beefy_guard();
        let (set, total) = c.roll_initiative(InitiativeRoll::Physical);
        assert!(set && (1..=6).contains(&total));
        assert_eq!(c.initiative as usize, 9 + total);
        let (set, total) = c.roll_initiative(InitiativeRoll::Matrix(MatrixMode::HotVr));
        assert!(set && (4..=24).contains(&total));
        assert_eq!(c.matrix_initiative as usize, 3 + total);
        let (set, total) = c.roll_initiative(InitiativeRoll::Astral);
        assert!(set && (2..=12).contains(&total));
        assert_eq!(c.astral_initiative as usize, 6 + total);
        assert!(c.astral_initiative >= 8 && c.astral_initiative <= 18);
    }
}

#[test]
fn initiative_that_cannot_fit_leaves_the_score() {
    let mut c = beefy_guard();
    c.reaction = 250;
    c.intuition = 5;
    c.initiative = 7;
    let (set, total) = c.roll_initiative(InitiativeRoll::Physical);
    assert!(!set && (1..=6).contains(&total));
    assert_eq!(c.initiative, 7);
    assert_eq!(c.initiative_base(InitiativeRoll::Physical), 255);
    assert_eq!(c.initiative_base(InitiativeRoll::Astral), 10);
}

#[test]
fn initiative_is_set_exactly_when_it_fits() {
    let mut c = beefy_guard();
    c.reaction = 250;
    c.intuition = 2;
    c.initiative = 7;
    assert!(!c.apply_initiative(InitiativeRoll::Physical, 4));
    assert_eq!(c.initiative, 7);
    assert!(c.apply_initiative(InitiativeRoll::Physical, 3));
    assert_eq!(c.initiative, 255);
    assert!(c.apply_initiative(InitiativeRoll::Matrix(MatrixMode::ColdVr), 18));
    assert_eq!(c.matrix_initiative, 20);
    assert!(!c.apply_initiative(InitiativeRoll::Astral, 1000));
    assert_eq!(c.astral_initiative, 0);
    // Near the top, a roll that fits is set: a base of 252 and a die of 1..=3.
    for _ in 0..200 {
        let mut c = beefy_guard();
        c.reaction = 250;
        c.intuition = 2;
        let (set, total) = c.roll_initiative(InitiativeRoll::Physical);
        assert_eq!(set, total <= 3);
        if set {
            assert_eq!(c.initiative as usize, 252 + total);
        } else {
            assert_eq!(c.initiative, 0);
        }
    }
}

#[test]
fn markups_of_a_character() {
    let c = beefy_guard();
    assert_eq!(
        c.name_markup(),
        "<span font_weight=\"heavy\" size=\"18432\">Beefy Guard</span>"
    );
    assert_eq!(
        c.lineage_markup(),
        "<span size=\"16384\" font_style=\"italic\">Troll Street Samurai</span>"
    );
    assert_eq!(limit_markup(LimitKind::Physical, 8), "<b>Physical: </b>8");
    assert_eq!(limit_markup(LimitKind::Mental, 3), "<b>Mental: </b>3");
    assert_eq!(limit_markup(LimitKind::Social, 12), "<b>Social: </b>12");
    assert_eq!(initiative_markup(InitiativeTrack::Physical, 13), "<b>Initiative: </b>13");
    assert_eq!(initiative_markup(InitiativeTrack::Matrix, 0), "<b>Matrix Init: </b>0");
    assert_eq!(initiative_markup(InitiativeTrack::Astral, 255), "<b>Astral Init: </b>255");
}

#[test]
fn only_technomancers_use_resonance() {
    assert!(Archetype::Technomancer.uses_resonance());
    assert!(!Archetype::Mage.uses_resonance());
}

#[test]
fn initiative_passes_take_ten() {
    let mut c = beefy_guard();
    c.initiative = 23;
    c.matrix_initiative = 9;
    c.astral_initiative = 10;
    c.advance_initiative(InitiativeTrack::Physical);
    assert_eq!(c.initiative, 13);
    c.advance_initiative(InitiativeTrack::Physical);
    assert_eq!(c.initiative, 3);
    c.advance_initiative(InitiativeTrack::Physical);
    assert_eq!(c.initiative, 0);
    c.advance_initiative(InitiativeTrack::Matrix);
    assert_eq!(c.matrix_initiative, 0);
    c.advance_initiative(InitiativeTrack::Astral);
    assert_eq!(c.astral_initiative, 0);
}

#[test]
fn matrix_modes_from_labels() {
    assert_eq!(MatrixMode::from_label(Some("AR")), MatrixMode::Ar);
    assert_eq!(MatrixMode::from_label(Some("VR (Cold)")), MatrixMode::ColdVr);
    assert_eq!(MatrixMode::from_label(Some("VR (Hot)")), MatrixMode::HotVr);
    assert_eq!(MatrixMode::from_label(Some("VR")), MatrixMode::Ar);
    assert_eq!(MatrixMode::from_label(None), MatrixMode::Ar);
}

#[test]
fn metatype_names() {
    assert_eq!(Metatype::Human.to_string(), "Human");
    assert_eq!(Metatype::Elf.to_string(), "Elf");
    assert_eq!(Metatype::Dwarf.to_string(), "Dwarf");
    assert_eq!(Metatype::Ork.to_string(), "Ork");
    assert_eq!(Metatype::Troll.to_string(), "Troll");
    for &m in &[Metatype::Human, Metatype::Elf, Metatype::Dwarf, Metatype::Ork, Metatype::Troll] {
        assert_eq!(Metatype::from_name(&m.to_string()), Some(m));
    }
    assert_eq!(Metatype::from_name("troll"), None);
    assert_eq!(Metatype::from_name(""), None);
}

#[test]
fn archetype_names() {
    assert_eq!(Archetype::StreetSamurai.to_string(), "Street Samurai");
    assert_eq!(Archetype::Technomancer.to_string(), "Technomancer");
    assert_eq!(Archetype::Adept.to_string(), "Adept");
    let all = [
        Archetype::Adept,
        Archetype::Decker,
        Archetype::Face,
        Archetype::Mage,
        Archetype::Rigger,
        Archetype::Shaman,
        Archetype::StreetSamurai,
        Archetype::Technomancer,
    ];
    for &a in &all {
        assert_eq!(Archetype::from_name(&a.to_string()), Some(a));
    }
    assert_eq!(Archetype::from_name("StreetSamurai"), None);
}

#[test]
fn entries_read_as_numbers_or_default() {
    assert_eq!(entry_to_num(&Some("5".to_string()), 0), 5);
    assert_eq!(entry_to_num(&Some("+12".to_string()), 0), 12);
    assert_eq!(entry_to_num(&Some("256".to_string()), 3), 3);
    assert_eq!(entry_to_num(&Some("-1".to_string()), 3), 3);
    assert_eq!(entry_to_num(&Some(" 4".to_string()), 3), 3);
    assert_eq!(entry_to_num(&Some("".to_string()), 7), 7);
    assert_eq!(entry_to_num(&None, 9), 9);
}

fn empty_form() -> TemplateForm {
    TemplateForm {
        name: None,
        metatype: None,
        archetype: None,
        body: None,
        agility: None,
        reaction: None,
        strength: None,
        will: None,
        logic: None,
        intuition: None,
        charisma: None,
        edge: None,
        magic: None,
        essence_bits: None,
    }
}

#[test]
fn a_blank_template_gives_the_defaults() {
    let c = make_character_from_template(&empty_form());
    assert_eq!(c.name, "Unnamed Character");
    assert_eq!(c.metatype, Metatype::Human);
    assert_eq!(c.archetype, Archetype::Adept);
    assert_eq!(c.body, 0);
    assert_eq!(c.magic_or_resonance, 0);
    assert_eq!(c.essence_bits, DEFAULT_ESSENCE_BITS);
    assert_eq!(f32::from_bits(c.essence_bits), 6.0);
    assert_eq!(c.physical_damage, 0);
    assert_eq!(c.initiative, 0);
}

#[test]
fn a_filled_template_gives_its_values() {
    let mut form = empty_form();
    form.name = Some("Ganger".to_string());
    form.metatype = Some("Ork".to_string());
    form.archetype = Some("Street Samurai".to_string());
    form.body = Some("6".to_string());
    form.agility = Some("4".to_string());
    form.will = Some("x".to_string());
    form.magic = Some("2".to_string());
    form.essence_bits = Some(3.5f32.to_bits());
    let c = make_character_from_template(&form);
    assert_eq!(c.name, "Ganger");
    assert_eq!(c.metatype, Metatype::Ork);
    assert_eq!(c.archetype, Archetype::StreetSamurai);
    assert_eq!(c.body, 6);
    assert_eq!(c.agility, 4);
    assert_eq!(c.will, 0);
    assert_eq!(c.magic_or_resonance, 2);
    assert_eq!(f32::from_bits(c.essence_bits), 3.5);
    form.metatype = Some("Gnome".to_string());
    assert_eq!(make_character_from_template(&form).metatype, Metatype::Human);
}
