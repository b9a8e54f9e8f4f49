//! Rolling pools of six-sided dice under the Shadowrun 5E rules.
//!
//! A die that shows 5 or 6 is a hit. A die that shows 1 (or 2, for rolls that
//! glitch on one or two) counts towards a glitch: a roll glitches when more
//! than half of its dice count towards one, and the glitch is critical when
//! the roll has no hit.

use vstd::prelude::*;
use rand::Rng;
use rand::rngs::ThreadRng;
use vstd::string::StringExecFns;
use crate::text::{decimal_digits, decimal_text, same_text};

verus! {

/// Whether a roll glitched, and how badly.
#[derive(Debug, PartialEq, Eq, Clone, Copy, Structural)]
pub enum Glitch {
    NoGlitch,
    Glitch,
    CriticalGlitch,
}

/// The rule under which a pool of dice is rolled.
#[derive(Debug, PartialEq, Eq, Clone, Copy, Structural)]
pub enum RollType {
    /// Roll the pool once.
    Standard,
    /// "Push the Limit": every six is re-rolled, and so is every six that a
    /// re-roll shows ("exploding dice").
    ReRollSixes,
    /// "Second Chance": every miss of the first roll is re-rolled once; the
    /// re-rolls add hits but cannot undo a glitch.
    ReRollMisses,
    /// A standard roll in which twos count towards a glitch as ones do.
    GlitchOnOneOrTwo,
}

/// The face of a six-sided die.
pub open spec fn is_face(face: u8) -> bool {
    1 <= face <= 6
}

/// A die that shows 5 or 6 is a hit.
pub open spec fn is_hit(face: u8) -> bool {
    face == 5 || face == 6
}

/// A die that counts towards a glitch under the given rule.
pub open spec fn is_glitch_face(face: u8, roll_type: RollType) -> bool {
    face == 1 || (face == 2 && roll_type == RollType::GlitchOnOneOrTwo)
}

/// How many of `faces` satisfy `p`.
pub open spec fn count_faces(faces: Seq<u8>, p: spec_fn(u8) -> bool) -> nat
    decreases faces.len(),
{
    if faces.len() == 0 {
        0
    } else {
        count_faces(faces.drop_last(), p) + if p(faces.last()) {
            1nat
        } else {
            0nat
        }
    }
}

pub open spec fn count_hits(faces: Seq<u8>) -> nat {
    count_faces(faces, |f: u8| is_hit(f))
}

pub open spec fn count_glitch_faces(faces: Seq<u8>, roll_type: RollType) -> nat {
    count_faces(faces, |f: u8| is_glitch_face(f, roll_type))
}

pub open spec fn count_sixes(faces: Seq<u8>) -> nat {
    count_faces(faces, |f: u8| f == 6)
}

pub open spec fn count_non_sixes(faces: Seq<u8>) -> nat {
    count_faces(faces, |f: u8| f != 6)
}

/// Every element is the face of a six-sided die.
pub open spec fn all_faces(faces: Seq<u8>) -> bool {
    forall|i: int| 0 <= i < faces.len() ==> is_face(#[trigger] faces[i])
}

/// What the rule of the roll asks of the re-rolled dice, given the first roll.
///
/// For "Push the Limit" every six of the first roll starts a chain of
/// re-rolls that goes on while the re-roll shows a six, so the re-rolls are
/// such chains one after the other: they hold one die other than a six per six
/// of the first roll, and none of them ends on a six.
pub open spec fn rerolls_follow_rules(dice: Seq<u8>, rerolls: Seq<u8>, roll_type: RollType) -> bool {
    match roll_type {
        RollType::ReRollSixes => count_non_sixes(rerolls) == count_sixes(dice) && (rerolls.len()
            == 0 || rerolls.last() != 6),
        RollType::ReRollMisses => rerolls.len() + count_hits(dice) == dice.len(),
        _ => rerolls.len() == 0,
    }
}

/// The re-rolls that are part of the pool when the glitch is judged: the
/// exploding sixes of "Push the Limit", but not the second chances.
pub open spec fn exploded_dice(rerolls: Seq<u8>, roll_type: RollType) -> Seq<u8> {
    if roll_type == RollType::ReRollSixes {
        rerolls
    } else {
        Seq::empty()
    }
}

/// Hits scored before any second chance.
pub open spec fn hits_before_second_chance(
    dice: Seq<u8>,
    rerolls: Seq<u8>,
    roll_type: RollType,
) -> nat {
    count_hits(dice) + count_hits(exploded_dice(rerolls, roll_type))
}

/// The glitch status of a roll: more than half of the judged pool counts
/// towards a glitch; critical when the judged pool has no hit.
pub open spec fn glitch_of(dice: Seq<u8>, rerolls: Seq<u8>, roll_type: RollType) -> Glitch {
    let judged = exploded_dice(rerolls, roll_type);
    let glitching = count_glitch_faces(dice, roll_type) + count_glitch_faces(judged, roll_type);
    if glitching > (dice.len() + judged.len()) / 2 {
        if hits_before_second_chance(dice, rerolls, roll_type) == 0 {
            Glitch::CriticalGlitch
        } else {
            Glitch::Glitch
        }
    } else {
        Glitch::NoGlitch
    }
}

/// The abstract content of a roll.
pub struct RollView {
    pub dice: Seq<u8>,
    pub reroll_dice: Seq<u8>,
    pub hits: nat,
    pub glitch: Glitch,
    pub roll_type: RollType,
}

/// The outcome that the rules give for a first roll `dice` and re-rolls `rerolls`.
pub open spec fn outcome_of(dice: Seq<u8>, rerolls: Seq<u8>, roll_type: RollType) -> RollView {
    RollView {
        dice: dice,
        reroll_dice: rerolls,
        hits: count_hits(dice) + count_hits(rerolls),
        glitch: glitch_of(dice, rerolls, roll_type),
        roll_type: roll_type,
    }
}

/// The dice are die faces, the re-rolls are what the rule asks for, and the
/// hits and the glitch are what the rules give for them.
pub open spec fn roll_follows_rules(v: RollView) -> bool {
    &&& all_faces(v.dice)
    &&& all_faces(v.reroll_dice)
    &&& rerolls_follow_rules(v.dice, v.reroll_dice, v.roll_type)
    &&& v == outcome_of(v.dice, v.reroll_dice, v.roll_type)
}

/// The result of rolling a pool of dice.
#[derive(Debug)]
pub struct RollResult {
    dice: Vec<u8>,
    reroll_dice: Vec<u8>,
    hits: usize,
    glitch: Glitch,
    roll_type: RollType,
}

impl View for RollResult {
    type V = RollView;

    closed spec fn view(&self) -> RollView {
        RollView {
            dice: self.dice@,
            reroll_dice: self.reroll_dice@,
            hits: self.hits as nat,
            glitch: self.glitch,
            roll_type: self.roll_type,
        }
    }
}

proof fn lemma_count_push(faces: Seq<u8>, face: u8, p: spec_fn(u8) -> bool)
    ensures
        count_faces(faces.push(face), p) == count_faces(faces, p) + if p(face) {
            1nat
        } else {
            0nat
        },
{
    assert(faces.push(face).drop_last() =~= faces);
}

proof fn lemma_count_le_len(faces: Seq<u8>, p: spec_fn(u8) -> bool)
    ensures
        count_faces(faces, p) <= faces.len(),
    decreases faces.len(),
{
    if faces.len() > 0 {
        lemma_count_le_len(faces.drop_last(), p);
    }
}

proof fn lemma_count_concat(a: Seq<u8>, b: Seq<u8>, p: spec_fn(u8) -> bool)
    ensures
        count_faces(a + b, p) == count_faces(a, p) + count_faces(b, p),
    decreases b.len(),
{
    if b.len() == 0 {
        assert(a + b =~= a);
    } else {
        lemma_count_concat(a, b.drop_last(), p);
        assert((a + b).drop_last() =~= a + b.drop_last());
    }
}

proof fn lemma_count_same_test(faces: Seq<u8>, p: spec_fn(u8) -> bool, q: spec_fn(u8) -> bool)
    requires
        forall|f: u8| #[trigger] p(f) == q(f),
    ensures
        count_faces(faces, p) == count_faces(faces, q),
    decreases faces.len(),
{
    if faces.len() > 0 {
        lemma_count_same_test(faces.drop_last(), p, q);
    }
}

/// The thread's random number generator.
#[verifier::external_type_specification]
#[verifier::external_body]
pub struct ExThreadRng(ThreadRng);

/// Calls `rand::thread_rng`, which hands out the generator of the current
/// thread. Nothing is claimed of it.
#[verifier::external_body]
fn thread_rng() -> ThreadRng {
    rand::thread_rng()
}

/// Calls `rand::Rng::gen_range` on the inclusive range `low..=high`, which
/// rand documents to return a value drawn uniformly from that range and to
/// panic on an empty range (excluded here). The contract claims only that the
/// value lies in the range: which value comes is chance.
#[verifier::external_body]
fn gen_range_inclusive(rng: &mut ThreadRng, low: u8, high: u8) -> (value: u8)
    requires
        low <= high,
    ensures
        low <= value <= high,
{
    rng.gen_range(low..=high)
}

/// Rolls one six-sided die.
fn roll_die(rng: &mut ThreadRng) -> (face: u8)
    ensures
        is_face(face),
{
    gen_range_inclusive(rng, 1, 6)
}


impl RollResult {
    /// The dice, re-rolls, hits and glitch of every result agree with the rules.
    #[verifier::type_invariant]
    spec fn follows_rules(self) -> bool {
        roll_follows_rules(self@)
    }

    /// Judges dice that were already rolled: `dice` is the first roll and
    /// `reroll_dice` the re-rolls that the rule asked for. Gives `None` when
    /// they are not die faces or not the re-rolls that the rule asks for.
    pub fn tally(dice: Vec<u8>, reroll_dice: Vec<u8>, roll_type: RollType) -> (result: Option<
        RollResult,
    >)
        requires
            dice@.len() + reroll_dice@.len() <= usize::MAX,
        ensures
            result is Some <==> (all_faces(dice@) && all_faces(reroll_dice@) && rerolls_follow_rules(
                dice@,
                reroll_dice@,
                roll_type,
            )),
            result matches Some(r) ==> r@ == outcome_of(dice@, reroll_dice@, roll_type),
    {
        let n = dice.len();
        let m = reroll_dice.len();
        let mut faces_ok = true;
        let mut hits: usize = 0;
        let mut glitching: usize = 0;
        let mut sixes: usize = 0;
        for i in 0..n
            invariant
                n == dice@.len(),
                faces_ok == all_faces(dice@.take(i as int)),
                hits == count_hits(dice@.take(i as int)),
                glitching == count_glitch_faces(dice@.take(i as int), roll_type),
                sixes == count_sixes(dice@.take(i as int)),
                hits <= i,
                glitching <= i,
                sixes <= i,
        {
            let face = dice[i];
            proof {
                assert(dice@.take(i + 1) =~= dice@.take(i as int).push(face));
                lemma_count_push(dice@.take(i as int), face, |f: u8| is_hit(f));
                lemma_count_push(dice@.take(i as int), face, |f: u8| is_glitch_face(f, roll_type));
                lemma_count_push(dice@.take(i as int), face, |f: u8| f == 6);
            }
            if face < 1 || face > 6 {
                faces_ok = false;
            }
            if face == 5 || face == 6 {
                hits += 1;
            } else if face == 1 || (face == 2 && roll_type == RollType::GlitchOnOneOrTwo) {
                glitching += 1;
            }
            if face == 6 {
                sixes += 1;
            }
        }
        assert(dice@.take(n as int) =~= dice@);
        let first_hits = hits;
        let mut reroll_faces_ok = true;
        let mut reroll_hits: usize = 0;
        let mut reroll_glitching: usize = 0;
        let mut non_sixes: usize = 0;
        for j in 0..m
            invariant
                m == reroll_dice@.len(),
                reroll_faces_ok == all_faces(reroll_dice@.take(j as int)),
                reroll_hits == count_hits(reroll_dice@.take(j as int)),
                reroll_glitching == count_glitch_faces(reroll_dice@.take(j as int), roll_type),
                non_sixes == count_non_sixes(reroll_dice@.take(j as int)),
                reroll_hits <= j,
                reroll_glitching <= j,
                non_sixes <= j,
        {
            let face = reroll_dice[j];
            proof {
                assert(reroll_dice@.take(j + 1) =~= reroll_dice@.take(j as int).push(face));
                lemma_count_push(reroll_dice@.take(j as int), face, |f: u8| is_hit(f));
                lemma_count_push(
                    reroll_dice@.take(j as int),
                    face,
                    |f: u8| is_glitch_face(f, roll_type),
                );
                lemma_count_push(reroll_dice@.take(j as int), face, |f: u8| f != 6);
            }
            if face < 1 || face > 6 {
                reroll_faces_ok = false;
            }
            if face == 5 || face == 6 {
                reroll_hits += 1;
            } else if face == 1 || (face == 2 && roll_type == RollType::GlitchOnOneOrTwo) {
                reroll_glitching += 1;
            }
            if face != 6 {
                non_sixes += 1;
            }
        }
        assert(reroll_dice@.take(m as int) =~= reroll_dice@);
        let rules_ok = match roll_type {
            RollType::ReRollSixes => non_sixes == sixes && (m == 0 || reroll_dice[m - 1] != 6),
            RollType::ReRollMisses => m + first_hits == n,
            _ => m == 0,
        };
        if !(faces_ok && reroll_faces_ok && rules_ok) {
            return None;
        }
        let exploding = roll_type == RollType::ReRollSixes;
        let judged_pool = if exploding {
            n + m
        } else {
            n
        };
        let judged_glitching = if exploding {
            glitching + reroll_glitching
        } else {
            glitching
        };
        let judged_hits = if exploding {
            first_hits + reroll_hits
        } else {
            first_hits
        };
        let glitch = if judged_glitching > judged_pool / 2 {
            if judged_hits == 0 {
                Glitch::CriticalGlitch
            } else {
                Glitch::Glitch
            }
        } else {
            Glitch::NoGlitch
        };
        proof {
            assert(count_hits(Seq::<u8>::empty()) == 0);
            assert(count_glitch_faces(Seq::<u8>::empty(), roll_type) == 0);
        }
        Some(RollResult { dice, reroll_dice, hits: first_hits + reroll_hits, glitch, roll_type })
    }

    /// The first roll of the pool.
    pub fn dice(&self) -> (dice: &Vec<u8>)
        ensures
            dice@ == self@.dice,
            roll_follows_rules(self@),
    {
        proof {
            use_type_invariant(self);
        }
        &self.dice
    }

    /// The re-rolled dice, in the order in which they were rolled.
    pub fn reroll_dice(&self) -> (rerolls: &Vec<u8>)
        ensures
            rerolls@ == self@.reroll_dice,
            roll_follows_rules(self@),
    {
        proof {
            use_type_invariant(self);
        }
        &self.reroll_dice
    }

    /// The hits of the first roll and of the re-rolls.
    pub fn hits(&self) -> (hits: usize)
        ensures
            hits == self@.hits,
            roll_follows_rules(self@),
    {
        proof {
            use_type_invariant(self);
        }
        self.hits
    }

    /// The glitch status of the roll.
    pub fn glitch(&self) -> (glitch: Glitch)
        ensures
            glitch == self@.glitch,
            roll_follows_rules(self@),
    {
        proof {
            use_type_invariant(self);
        }
        self.glitch
    }

    /// The rule under which the pool was rolled.
    pub fn roll_type(&self) -> (roll_type: RollType)
        ensures
            roll_type == self@.roll_type,
            roll_follows_rules(self@),
    {
        proof {
            use_type_invariant(self);
        }
        self.roll_type
    }
}

/// Rolls `dice_count` six-sided dice under the rule `roll_type`.
///
/// "Push the Limit" re-rolls every six, and every six that a re-roll shows,
/// until the re-roll shows something else. "Second Chance" re-rolls each miss
/// of the first roll once, after the glitch has been judged. The faces that
/// come up are chance; all else about the result follows from them.
pub fn roll(dice_count: usize, roll_type: RollType) -> (result: RollResult)
    ensures
        result@.dice.len() == dice_count,
        result@.roll_type == roll_type,
        roll_follows_rules(result@),
{
    let mut rng = thread_rng();
    // The first roll and then the re-rolls, in the order in which they fall.
    let mut pool: Vec<u8> = Vec::new();
    let mut glitch_count: usize = 0;
    let mut hits: usize = 0;

    // Standard roll
    for i in 0..dice_count
        invariant
            pool@.len() == i,
            all_faces(pool@),
            hits == count_hits(pool@),
            glitch_count == count_glitch_faces(pool@, roll_type),
            hits <= i,
            glitch_count <= i,
    {
        let face = roll_die(&mut rng);
        proof {
            lemma_count_push(pool@, face, |f: u8| is_hit(f));
            lemma_count_push(pool@, face, |f: u8| is_glitch_face(f, roll_type));
        }
        pool.push(face);
        if face == 5 || face == 6 {
            hits += 1;
        } else if face == 1 || (face == 2 && roll_type == RollType::GlitchOnOneOrTwo) {
            glitch_count += 1;
        }
    }
    let ghost dice = pool@;

    // "Push the Limit": re-roll all sixes, continuously
    if roll_type == RollType::ReRollSixes {
        for k in 0..dice_count
            invariant
                roll_type == RollType::ReRollSixes,
                dice.len() == dice_count,
                pool@.len() >= dice_count,
                pool@.take(dice_count as int) == dice,
                all_faces(pool@),
                hits == count_hits(pool@),
                glitch_count == count_glitch_faces(pool@, roll_type),
                hits <= pool@.len(),
                glitch_count <= pool@.len(),
                count_non_sixes(pool@.skip(dice_count as int)) == count_sixes(dice.take(k as int)),
                pool@.len() == dice_count || pool@.last() != 6,
        {
            let mut face = pool[k];
            proof {
                assert(pool@.take(dice_count as int)[k as int] == pool@[k as int]);
                assert(dice.take(k + 1) =~= dice.take(k as int).push(face));
                lemma_count_push(dice.take(k as int), face, |f: u8| f == 6);
            }
            while face == 6
                invariant
                    roll_type == RollType::ReRollSixes,
                    dice.len() == dice_count,
                    pool@.len() >= dice_count,
                    pool@.take(dice_count as int) == dice,
                    all_faces(pool@),
                    hits == count_hits(pool@),
                    glitch_count == count_glitch_faces(pool@, roll_type),
                    hits <= pool@.len(),
                    glitch_count <= pool@.len(),
                    count_non_sixes(pool@.skip(dice_count as int)) + (if face == 6 {
                        1int
                    } else {
                        0int
                    }) == count_sixes(dice.take(k + 1)),
                    face != 6 ==> (pool@.len() == dice_count || pool@.last() != 6),
                decreases usize::MAX - pool@.len(),
            {
                face = roll_die(&mut rng);
                proof {
                    lemma_count_push(pool@, face, |f: u8| is_hit(f));
                    lemma_count_push(pool@, face, |f: u8| is_glitch_face(f, roll_type));
                    assert(pool@.push(face).skip(dice_count as int) =~= pool@.skip(
                        dice_count as int,
                    ).push(face));
                    assert(pool@.push(face).take(dice_count as int) =~= pool@.take(
                        dice_count as int,
                    ));
                    lemma_count_push(pool@.skip(dice_count as int), face, |f: u8| f != 6);
                }
                pool.push(face);
                proof {
                    // a vector never holds more than usize::MAX dice
                    assert(pool@.len() == pool.len());
                }
                if face == 5 || face == 6 {
                    hits += 1;
                } else if face == 1 {
                    glitch_count += 1;
                }
            }
        }
        proof {
            assert(dice.take(dice_count as int) =~= dice);
        }
    }
    let ghost judged = pool@;

    // Evaluate glitch status
    let glitch = if glitch_count > pool.len() / 2 {
        if hits == 0 {
            Glitch::CriticalGlitch
        } else {
            Glitch::Glitch
        }
    } else {
        Glitch::NoGlitch
    };

    // "Second Chance": re-roll misses, but can't negate glitch/critical glitches
    if roll_type == RollType::ReRollMisses {
        proof {
            lemma_count_le_len(pool@, |f: u8| is_hit(f));
        }
        let misses = dice_count - hits;
        for j in 0..misses
            invariant
                dice.len() == dice_count,
                pool@.len() == dice_count + j,
                pool@.take(dice_count as int) == dice,
                all_faces(pool@),
                hits == count_hits(pool@),
                hits <= pool@.len(),
        {
            let face = roll_die(&mut rng);
            proof {
                lemma_count_push(pool@, face, |f: u8| is_hit(f));
                assert(pool@.push(face).take(dice_count as int) =~= pool@.take(dice_count as int));
            }
            pool.push(face);
            proof {
                // a vector never holds more than usize::MAX dice
                assert(pool@.len() == pool.len());
            }
            if face == 5 || face == 6 {
                hits += 1;
            }
        }
    }
    let ghost full = pool@;
    let reroll_dice = pool.split_off(dice_count);
    proof {
        assert(pool@ =~= dice);
        assert(hits == count_hits(full));
        assert(full =~= dice + reroll_dice@);
        assert(full.skip(dice_count as int) =~= reroll_dice@);
        lemma_count_concat(dice, reroll_dice@, |f: u8| is_hit(f));
        lemma_count_concat(dice, reroll_dice@, |f: u8| is_glitch_face(f, roll_type));
        if roll_type != RollType::ReRollSixes {
            assert(judged =~= dice);
            assert(exploded_dice(reroll_dice@, roll_type) =~= Seq::<u8>::empty());
            assert(count_hits(Seq::<u8>::empty()) == 0);
            assert(count_glitch_faces(Seq::<u8>::empty(), roll_type) == 0);
        } else {
            assert(judged =~= full);
        }
        assert forall|i: int| 0 <= i < reroll_dice@.len() implies is_face(#[trigger] reroll_dice@[i]) by {
            assert(reroll_dice@[i] == full[dice_count + i]);
        }
    }
    RollResult { dice: pool, reroll_dice, hits, glitch, roll_type }
}

/// Rolls `dice_count` six-sided dice and gives the sum of their faces.
/// Any sum from `dice_count` to six times `dice_count` can come.
pub fn basic_roll(dice_count: usize) -> (total: usize)
    requires
        dice_count <= usize::MAX / 6,
    ensures
        dice_count <= total <= 6 * dice_count,
{
    let mut rng = thread_rng();
    let mut total: usize = 0;
    for i in 0..dice_count
        invariant
            dice_count <= usize::MAX / 6,
            i <= total <= 6 * i,
    {
        let face = roll_die(&mut rng);
        total = total + face as usize;
    }
    total
}

proof fn lemma_count_implied(faces: Seq<u8>, p: spec_fn(u8) -> bool, q: spec_fn(u8) -> bool)
    requires
        forall|f: u8| #[trigger] p(f) ==> q(f),
    ensures
        count_faces(faces, p) <= count_faces(faces, q),
    decreases faces.len(),
{
    if faces.len() > 0 {
        lemma_count_implied(faces.drop_last(), p, q);
    }
}

/// A roll never scores more hits than it rolled dice, re-rolls included.
pub proof fn lemma_hits_at_most_dice(v: RollView)
    requires
        roll_follows_rules(v),
    ensures
        v.hits <= v.dice.len() + v.reroll_dice.len(),
{
    lemma_count_le_len(v.dice, |f: u8| is_hit(f));
    lemma_count_le_len(v.reroll_dice, |f: u8| is_hit(f));
}

/// "Second Chance" re-rolls misses but cannot negate a glitch or a critical
/// glitch: whatever the re-rolls show, the roll glitches exactly as a
/// standard roll of the same first dice does.
pub proof fn lemma_second_chance_keeps_glitch(dice: Seq<u8>, rerolls: Seq<u8>)
    ensures
        glitch_of(dice, rerolls, RollType::ReRollMisses) == glitch_of(
            dice,
            Seq::empty(),
            RollType::Standard,
        ),
{
    lemma_count_same_test(
        dice,
        |f: u8| is_glitch_face(f, RollType::ReRollMisses),
        |f: u8| is_glitch_face(f, RollType::Standard),
    );
    assert(count_hits(Seq::<u8>::empty()) == 0);
    assert(count_glitch_faces(Seq::<u8>::empty(), RollType::ReRollMisses) == 0);
    assert(count_glitch_faces(Seq::<u8>::empty(), RollType::Standard) == 0);
}

/// "Second Chance" re-rolls each miss once, so a roll under it scores at
/// most one hit per die of the pool.
pub proof fn lemma_second_chance_hits_at_most_pool(dice: Seq<u8>, rerolls: Seq<u8>)
    requires
        rerolls_follow_rules(dice, rerolls, RollType::ReRollMisses),
    ensures
        outcome_of(dice, rerolls, RollType::ReRollMisses).hits <= dice.len(),
{
    lemma_count_le_len(rerolls, |f: u8| is_hit(f));
}

/// Under "Push the Limit" every six of the first roll is re-rolled, so there
/// are at least as many re-rolls as sixes in the first roll, and the sixes
/// of the first roll are among its hits.
pub proof fn lemma_every_six_explodes(dice: Seq<u8>, rerolls: Seq<u8>)
    requires
        rerolls_follow_rules(dice, rerolls, RollType::ReRollSixes),
    ensures
        rerolls.len() >= count_sixes(dice),
        outcome_of(dice, rerolls, RollType::ReRollSixes).hits >= count_sixes(dice),
{
    lemma_count_le_len(rerolls, |f: u8| f != 6);
    lemma_count_implied(dice, |f: u8| f == 6, |f: u8| is_hit(f));
}

/// Counting twos towards a glitch never turns a glitch away: a roll that
/// glitches as a standard roll glitches in the same way when twos count too.
pub proof fn lemma_twos_only_add_glitches(dice: Seq<u8>)
    ensures
        glitch_of(dice, Seq::empty(), RollType::Standard) != Glitch::NoGlitch ==> glitch_of(
            dice,
            Seq::empty(),
            RollType::GlitchOnOneOrTwo,
        ) == glitch_of(dice, Seq::empty(), RollType::Standard),
{
    lemma_count_implied(
        dice,
        |f: u8| is_glitch_face(f, RollType::Standard),
        |f: u8| is_glitch_face(f, RollType::GlitchOnOneOrTwo),
    );
    assert(count_hits(Seq::<u8>::empty()) == 0);
    assert(count_glitch_faces(Seq::<u8>::empty(), RollType::Standard) == 0);
    assert(count_glitch_faces(Seq::<u8>::empty(), RollType::GlitchOnOneOrTwo) == 0);
}


proof fn lemma_count_uniform(faces: Seq<u8>, face: u8, p: spec_fn(u8) -> bool)
    requires
        forall|i: int| 0 <= i < faces.len() ==> faces[i] == face,
    ensures
        count_faces(faces, p) == if p(face) {
            faces.len()
        } else {
            0
        },
    decreases faces.len(),
{
    if faces.len() > 0 {
        lemma_count_uniform(faces.drop_last(), face, p);
    }
}

proof fn lemma_count_none(faces: Seq<u8>, p: spec_fn(u8) -> bool)
    requires
        forall|i: int| 0 <= i < faces.len() ==> !p(#[trigger] faces[i]),
    ensures
        count_faces(faces, p) == 0,
    decreases faces.len(),
{
    if faces.len() > 0 {
        lemma_count_none(faces.drop_last(), p);
    }
}

/// Only ones, and twos under "glitch on one or two", count towards a glitch:
/// a roll whose dice all show 3 or more never glitches, under any rule and
/// whatever the re-rolls show, as long as they show 3 or more too.
pub proof fn lemma_high_faces_never_glitch(dice: Seq<u8>, rerolls: Seq<u8>, roll_type: RollType)
    requires
        forall|i: int| 0 <= i < dice.len() ==> #[trigger] dice[i] >= 3,
        forall|i: int| 0 <= i < rerolls.len() ==> #[trigger] rerolls[i] >= 3,
    ensures
        glitch_of(dice, rerolls, roll_type) == Glitch::NoGlitch,
        outcome_of(dice, rerolls, roll_type).glitch == Glitch::NoGlitch,
{
    lemma_count_none(dice, |f: u8| is_glitch_face(f, roll_type));
    lemma_count_none(
        exploded_dice(rerolls, roll_type),
        |f: u8| is_glitch_face(f, roll_type),
    );
}

/// A pool whose dice all show the same face: ones always make a critical
/// glitch, twos make one exactly under "glitch on one or two", and every
/// other face makes none.
pub proof fn lemma_uniform_pool_glitch(dice: Seq<u8>, face: u8, roll_type: RollType)
    requires
        dice.len() > 0,
        forall|i: int| 0 <= i < dice.len() ==> dice[i] == face,
    ensures
        glitch_of(dice, Seq::empty(), roll_type) == if face == 1 || (face == 2 && roll_type
            == RollType::GlitchOnOneOrTwo) {
            Glitch::CriticalGlitch
        } else {
            Glitch::NoGlitch
        },
{
    lemma_count_uniform(dice, face, |f: u8| is_glitch_face(f, roll_type));
    lemma_count_uniform(dice, face, |f: u8| is_hit(f));
    let judged = exploded_dice(Seq::<u8>::empty(), roll_type);
    assert(judged.len() == 0);
    assert(count_hits(judged) == 0);
    assert(count_glitch_faces(judged, roll_type) == 0);
}

/// How a glitch status is shown.
pub open spec fn glitch_label(glitch: Glitch) -> Seq<char> {
    match glitch {
        Glitch::NoGlitch => "No"@,
        Glitch::Glitch => "Yes"@,
        Glitch::CriticalGlitch => "Crit"@,
    }
}

/// Each face in decimal, on a line of its own.
pub open spec fn face_lines(faces: Seq<u8>) -> Seq<char>
    decreases faces.len(),
{
    if faces.len() == 0 {
        Seq::empty()
    } else {
        face_lines(faces.drop_last()) + decimal_digits(faces.last() as nat) + seq!['\n']
    }
}

/// How the dice of a roll are listed: the first roll, then, when there are
/// re-rolls, a blank line, a heading and the re-rolls.
pub open spec fn roll_listing(v: RollView) -> Seq<char> {
    face_lines(v.dice) + if v.reroll_dice.len() > 0 {
        "\nRe-rolled dice:\n"@ + face_lines(v.reroll_dice)
    } else {
        Seq::empty()
    }
}

impl RollType {
    /// The rule picked under `label`: a standard roll unless the label names
    /// "Push The Limit" or "Second Chance", also when nothing is picked.
    pub fn from_label(label: Option<&str>) -> (roll_type: RollType)
        ensures
            roll_type == match label {
                Some(l) => if l@ == "Push The Limit"@ {
                    RollType::ReRollSixes
                } else if l@ == "Second Chance"@ {
                    RollType::ReRollMisses
                } else {
                    RollType::Standard
                },
                None => RollType::Standard,
            },
    {
        match label {
            Some(l) => {
                if same_text(l, "Push The Limit") {
                    RollType::ReRollSixes
                } else if same_text(l, "Second Chance") {
                    RollType::ReRollMisses
                } else {
                    RollType::Standard
                }
            },
            None => RollType::Standard,
        }
    }
}

impl Glitch {
    /// How the glitch status is shown: "No", "Yes" or "Crit".
    pub fn label(&self) -> (label: String)
        ensures
            label@ == glitch_label(*self),
    {
        match self {
            Glitch::NoGlitch => String::from_str("No"),
            Glitch::Glitch => String::from_str("Yes"),
            Glitch::CriticalGlitch => String::from_str("Crit"),
        }
    }
}

/// Appends each face in decimal, on a line of its own.
fn append_face_lines(text: &mut String, faces: &Vec<u8>)
    ensures
        final(text)@ == old(text)@ + face_lines(faces@),
{
    let n = faces.len();
    for i in 0..n
        invariant
            n == faces@.len(),
            text@ == old(text)@ + face_lines(faces@.take(i as int)),
    {
        let digits = decimal_text(faces[i] as usize);
        text.append(digits.as_str());
        text.append("\n");
        proof {
            reveal_strlit("\n");
            assert(faces@.take(i + 1).drop_last() =~= faces@.take(i as int));
            assert(faces@.take(i + 1).last() == faces@[i as int]);
            assert(text@ =~= old(text)@ + face_lines(faces@.take(i + 1)));
        }
    }
    proof {
        assert(faces@.take(n as int) =~= faces@);
    }
}

impl RollResult {
    /// How the hits are shown: a bold caption, then their number.
    pub fn hits_markup(&self) -> (markup: String)
        ensures
            markup@ == "<b>Hits:</b> "@ + decimal_digits(self@.hits),
    {
        proof {
            use_type_invariant(self);
        }
        let mut markup = String::from_str("<b>Hits:</b> ");
        let digits = decimal_text(self.hits);
        markup.append(digits.as_str());
        markup
    }

    /// How the glitch status is shown: a bold caption, then its label.
    pub fn glitch_markup(&self) -> (markup: String)
        ensures
            markup@ == "<b>Glitch:</b> "@ + glitch_label(self@.glitch),
    {
        let mut markup = String::from_str("<b>Glitch:</b> ");
        let label = self.glitch.label();
        markup.append(label.as_str());
        markup
    }

    /// The dice of the roll as they are listed to the user.
    pub fn listing(&self) -> (text: String)
        ensures
            text@ == roll_listing(self@),
    {
        let mut text = String::new();
        append_face_lines(&mut text, &self.dice);
        if self.reroll_dice.len() > 0 {
            text.append("\nRe-rolled dice:\n");
            append_face_lines(&mut text, &self.reroll_dice);
        }
        proof {
            assert(text@ =~= roll_listing(self@));
        }
        text
    }
}

} // verus!
