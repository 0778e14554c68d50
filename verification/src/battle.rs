//! The turn-based battle state machine: an ordered ring of fighters, a
//! current-turn pointer, a round log, and winner detection. One call of
//! [`Battle::run_action`] resolves exactly one action; the caller drives the
//! loop.
//!
//! Every state change is a function of four drawn numbers, gathered in
//! [`ActionRolls`]; [`Battle::run_action_with`] takes them as an argument
//! and is deterministic, and the whole transition is mirrored by the
//! mathematical [`step_snap`] so that facts about repeated turns can be
//! proved.

use vstd::prelude::*;

use crate::common::subtract_value_spec;
use crate::errors::GameError;
use crate::fighter::Fighter;
use crate::math;
use crate::rng::random_below;

verus! {

/// The actions a fighter can take on its turn.
#[derive(Debug, Clone, Copy, PartialEq, Eq, Structural)]
pub enum ActionType {
    Attack,
}

impl ActionType {
    /// The characters of the action's display name.
    pub open spec fn spec_name(self) -> Seq<char> {
        match self {
            ActionType::Attack => "Atacar"@,
        }
    }

    /// Finds the action with the given display name.
    pub fn from_name(name: &str) -> (r: Option<ActionType>)
        ensures
            r == if name@ == "Atacar"@ {
                Some(ActionType::Attack)
            } else {
                None::<ActionType>
            },
    {
        if name.to_owned() == "Atacar".to_owned() {
            Some(ActionType::Attack)
        } else {
            None
        }
    }

    /// The action's button emoji.
    pub fn emoji(&self) -> (r: &'static str)
        ensures
            r@ == "👊"@,
    {
        match self {
            ActionType::Attack => "👊",
        }
    }

    /// The action's display name.
    pub fn name(&self) -> (r: &'static str)
        ensures
            r@ == self.spec_name(),
    {
        match self {
            ActionType::Attack => "Atacar",
        }
    }
}

/// Every action a fighter can take, in display order.
pub fn all_action_types() -> (r: Vec<ActionType>)
    ensures
        r@ == seq![ActionType::Attack],
{
    let mut v: Vec<ActionType> = Vec::new();
    v.push(ActionType::Attack);
    proof {
        assert(v@ =~= seq![ActionType::Attack]);
    }
    v
}

/// One concrete consequence of an action.
#[derive(Debug, Clone, Copy, PartialEq, Eq, Structural)]
pub enum BattleEffect {
    Damage(i32),
    RemoveMana(i32),
}

/// A resolved action: who acted, on whom, and with what effects. The
/// fighters are snapshots taken before the effects applied.
#[derive(Debug)]
pub struct BattleAction {
    pub action_type: ActionType,
    pub attacker: Fighter,
    pub target: Option<Fighter>,
    pub effects: Vec<BattleEffect>,
}

/// Two actions that record the same thing (their effect lists may live in
/// different allocations).
pub open spec fn action_eqv(a: BattleAction, b: BattleAction) -> bool {
    &&& a.action_type == b.action_type
    &&& a.attacker == b.attacker
    &&& a.target == b.target
    &&& a.effects@ == b.effects@
}

impl Clone for BattleAction {
    /// A copied action records the same thing.
    fn clone(&self) -> (r: Self)
        ensures
            action_eqv(r, *self),
    {
        BattleAction {
            action_type: self.action_type,
            attacker: self.attacker.clone(),
            target: match &self.target {
                Some(f) => Some(f.clone()),
                None => None,
            },
            effects: self.effects.clone(),
        }
    }
}

/// The immutable record of one resolved turn: the acting fighter, the
/// action with its effects, the dodge and critical outcomes, and narrative
/// text the presentation layer may attach.
#[derive(Debug)]
pub struct Round {
    pub messages: Vec<String>,
    pub fighter: Fighter,
    pub action: BattleAction,
    pub dodged: bool,
    pub critical: bool,
}

/// Two rounds that record the same turn.
pub open spec fn round_eqv(a: Round, b: Round) -> bool {
    &&& a.fighter == b.fighter
    &&& action_eqv(a.action, b.action)
    &&& a.messages@ == b.messages@
    &&& a.dodged == b.dodged
    &&& a.critical == b.critical
}

impl Clone for Round {
    /// A copied round records the same turn.
    fn clone(&self) -> (r: Self)
        ensures
            round_eqv(r, *self),
    {
        Round {
            messages: self.messages.clone(),
            fighter: self.fighter.clone(),
            action: self.action.clone(),
            dodged: self.dodged,
            critical: self.critical,
        }
    }
}

impl Round {
    /// A round carrying one narrative message and no outcome flags.
    pub fn new_with_message(fighter: Fighter, action: BattleAction, message: String) -> (r: Self)
        ensures
            r.fighter == fighter,
            r.action == action,
            r.messages@.len() == 1,
            r.messages@[0]@ == message@,
            !r.dodged,
            !r.critical,
    {
        let mut messages: Vec<String> = Vec::new();
        messages.push(message);
        Self { messages, fighter, action, dodged: false, critical: false }
    }
}

/// The random draws one action resolution consumes.
#[derive(Debug, Clone, Copy, PartialEq, Eq, Structural)]
pub struct ActionRolls {
    /// Compared against the dodge chance; below it, the target dodges.
    pub dodge_roll: u32,
    /// Compared against the critical chance; below it, the hit is critical.
    pub critical_roll: u32,
    /// The damage multiplier, in hundredths.
    pub multiplier_pct: u32,
    /// The critical bonus added to the multiplier, in hundredths.
    pub crit_bonus_pct: u32,
}

impl ActionRolls {
    /// Every draw within its documented range.
    pub open spec fn wf(self) -> bool {
        &&& self.dodge_roll < 100
        &&& self.critical_roll < 100
        &&& crate::fighter::DAMAGE_MULTIPLIER_MIN_PCT <= self.multiplier_pct
            <= crate::fighter::DAMAGE_MULTIPLIER_MAX_PCT
        &&& crate::fighter::CRITICAL_BONUS_MIN_PCT <= self.crit_bonus_pct
            <= crate::fighter::CRITICAL_BONUS_MAX_PCT
    }
}

/// The mathematical state of a battle: the fighters, the current-turn
/// pointer, and the winner once resolved.
pub struct BattleSnap {
    pub fighters: Seq<Fighter>,
    pub current: int,
    pub winner: Option<Fighter>,
}

/// How many fighters in `s` are still alive.
pub open spec fn alive_count(s: Seq<Fighter>) -> int
    decreases s.len(),
{
    if s.len() == 0 {
        0
    } else {
        alive_count(s.drop_last()) + if s.last().health.value > 0 {
            1int
        } else {
            0int
        }
    }
}

/// The position of the first living fighter in `s`, or -1 when none lives.
pub open spec fn first_alive_index(s: Seq<Fighter>) -> int
    decreases s.len(),
{
    if s.len() == 0 {
        -1
    } else if s[0].health.value > 0 {
        0
    } else {
        let sub = first_alive_index(s.subrange(1, s.len() as int));
        if sub < 0 {
            -1
        } else {
            1 + sub
        }
    }
}

/// A scan that stops at the first living fighter agrees with
/// `first_alive_index`.
proof fn lemma_first_alive_at(s: Seq<Fighter>, i: int)
    requires
        0 <= i < s.len(),
        s[i].health.value > 0,
        forall|j: int| 0 <= j < i ==> (#[trigger] s[j]).health.value <= 0,
    ensures
        first_alive_index(s) == i,
    decreases i,
{
    if i > 0 {
        let sub = s.subrange(1, s.len() as int);
        assert(forall|j: int| 0 <= j < sub.len() ==> #[trigger] sub[j] == s[j + 1]);
        lemma_first_alive_at(sub, i - 1);
    }
}

impl BattleSnap {
    /// The target of the current fighter under ring targeting.
    pub open spec fn target_of_current(self) -> int {
        (self.current + 1) % self.fighters.len() as int
    }
}

/// Whether the target dodges under the given draws: the dodge roll falls
/// below the target's dodge chance against the attacker.
pub open spec fn step_dodged(s: BattleSnap, rolls: ActionRolls) -> bool {
    rolls.dodge_roll < math::dodge_chance_spec(
        s.fighters[s.target_of_current()].agility as int,
        s.fighters[s.current].agility as int,
    )
}

/// Whether the hit is critical under the given draws: the critical roll
/// falls below the attacker's critical chance against the target.
pub open spec fn step_critical(s: BattleSnap, rolls: ActionRolls) -> bool {
    rolls.critical_roll < math::critical_chance_spec(
        s.fighters[s.current].intelligence as int,
        s.fighters[s.target_of_current()].intelligence as int,
    )
}

/// The damage the action deals: none on a dodge, else the attacker's
/// strength scaled by the multiplier, with the critical bonus on a critical
/// hit.
pub open spec fn step_damage(s: BattleSnap, rolls: ActionRolls) -> int {
    if step_dodged(s, rolls) {
        0
    } else {
        math::damage_spec(
            s.fighters[s.current].strength as int,
            rolls.multiplier_pct as int + if step_critical(s, rolls) {
                rolls.crit_bonus_pct as int
            } else {
                0int
            },
        )
    }
}

/// The fighters after the action: on a dodge nothing changes, else the
/// target's health drops by the damage, floored at 0.
pub open spec fn step_fighters(s: BattleSnap, rolls: ActionRolls) -> Seq<Fighter> {
    if step_dodged(s, rolls) {
        s.fighters
    } else {
        let t = s.target_of_current();
        let target = s.fighters[t];
        s.fighters.update(
            t,
            Fighter { health: subtract_value_spec(target.health, step_damage(s, rolls)), ..target },
        )
    }
}

/// One full turn: the action resolves, the winner is set when exactly one
/// fighter lives, and the turn pointer advances around the ring.
pub open spec fn step_snap(s: BattleSnap, rolls: ActionRolls) -> BattleSnap {
    let nf = step_fighters(s, rolls);
    BattleSnap {
        fighters: nf,
        current: (s.current + 1) % s.fighters.len() as int,
        winner: if alive_count(nf) == 1 {
            Some(nf[first_alive_index(nf)])
        } else {
            s.winner
        },
    }
}

/// What a round recorded by one attack holds: the pre-action snapshots of
/// attacker and target, the single damage effect, the outcome flags, and no
/// narrative text yet.
pub open spec fn round_desc(
    r: Round,
    attacker: Fighter,
    target: Fighter,
    dodged: bool,
    critical: bool,
    damage: int,
) -> bool {
    &&& r.fighter == attacker
    &&& r.action.action_type == ActionType::Attack
    &&& r.action.attacker == attacker
    &&& r.action.target == Some(target)
    &&& r.action.effects@ == seq![BattleEffect::Damage(damage as i32)]
    &&& r.messages@ == Seq::<String>::empty()
    &&& r.dodged == dodged
    &&& r.critical == critical
}

/// The single damage effect of one attack.
fn damage_effects(damage: i32) -> (r: Vec<BattleEffect>)
    ensures
        r@ == seq![BattleEffect::Damage(damage)],
{
    let mut v: Vec<BattleEffect> = Vec::new();
    v.push(BattleEffect::Damage(damage));
    proof {
        assert(v@ =~= seq![BattleEffect::Damage(damage)]);
    }
    v
}

/// The index of the sole living fighter, when exactly one lives.
fn find_sole_survivor(fighters: &Vec<Fighter>) -> (r: Option<usize>)
    ensures
        (r is Some) <==> alive_count(fighters@) == 1,
        r matches Some(i) ==> i < fighters@.len() && i as int == first_alive_index(fighters@),
{
    let mut count: usize = 0;
    let mut first: usize = 0;
    let mut found = false;
    let mut i: usize = 0;
    while i < fighters.len()
        invariant
            i <= fighters@.len(),
            count == alive_count(fighters@.take(i as int)),
            count <= i,
            found <==> count > 0,
            found ==> (first as int) < i as int && fighters@[first as int].health.value > 0
                && (forall|j: int|
                0 <= j < first as int ==> (#[trigger] fighters@[j]).health.value <= 0),
            !found ==> (forall|j: int|
                0 <= j < i as int ==> (#[trigger] fighters@[j]).health.value <= 0),
        decreases fighters@.len() - i,
    {
        proof {
            assert(fighters@.take(i as int + 1).drop_last() =~= fighters@.take(i as int));
            assert(fighters@.take(i as int + 1).last() == fighters@[i as int]);
        }
        if fighters[i].health.value > 0 {
            if !found {
                first = i;
                found = true;
            }
            count = count + 1;
        }
        i = i + 1;
    }
    proof {
        assert(fighters@.take(fighters@.len() as int) =~= fighters@);
    }
    if count == 1 {
        proof {
            lemma_first_alive_at(fighters@, first as int);
        }
        Some(first)
    } else {
        None
    }
}

/// A turn-based battle: the fighters in ring order, the current-turn
/// pointer, the winner once exactly one fighter lives, and the log of
/// resolved rounds.
#[derive(Debug)]
pub struct Battle {
    pub fighters: Vec<Fighter>,
    pub current_fighter: usize,
    pub winner: Option<Fighter>,
    pub rounds: Vec<Round>,
}

impl Battle {
    /// The battle invariant: at least two fighters, the turn pointer in
    /// range, every fighter well formed, and ring targeting: fighter `i`
    /// targets fighter `(i + 1) mod n`.
    pub open spec fn wf(self) -> bool {
        &&& self.fighters@.len() >= 2
        &&& (self.current_fighter as int) < self.fighters@.len()
        &&& forall|i: int| 0 <= i < self.fighters@.len() ==> (#[trigger] self.fighters@[i]).wf()
        &&& forall|i: int|
            0 <= i < self.fighters@.len() ==> (#[trigger] self.fighters@[i]).target_index == Some(
                (((i + 1) % self.fighters@.len() as int)) as usize,
            )
    }

    /// The battle's mathematical state.
    pub open spec fn snap(self) -> BattleSnap {
        BattleSnap {
            fighters: self.fighters@,
            current: self.current_fighter as int,
            winner: self.winner,
        }
    }

    /// Builds a battle over the given fighters, assigning ring targets:
    /// fighter `i` targets fighter `(i + 1) mod n`. Fails with
    /// `InsufficientFighters` exactly when fewer than two fighters are
    /// given.
    pub fn new(fighters: Vec<Fighter>) -> (r: Result<Self, GameError>)
        requires
            forall|i: int| 0 <= i < fighters@.len() ==> (#[trigger] fighters@[i]).wf(),
        ensures
            (r is Err) <==> fighters@.len() < 2,
            r is Err ==> r == Err::<Battle, GameError>(GameError::InsufficientFighters),
            r matches Ok(b) ==> {
                &&& b.wf()
                &&& b.current_fighter == 0
                &&& b.winner is None
                &&& b.rounds@.len() == 0
                &&& b.fighters@.len() == fighters@.len()
                &&& forall|i: int|
                    0 <= i < fighters@.len() ==> #[trigger] b.fighters@[i] == (Fighter {
                        target_index: Some((((i + 1) % fighters@.len() as int)) as usize),
                        ..fighters@[i]
                    })
            },
    {
        let len = fighters.len();
        if len < 2 {
            return Err(GameError::InsufficientFighters);
        }
        let ghost orig = fighters@;
        let mut fighters = fighters;
        let mut i: usize = 0;
        while i < len
            invariant
                len == orig.len(),
                2 <= len,
                i <= len,
                fighters@.len() == orig.len(),
                forall|j: int|
                    0 <= j < i as int ==> #[trigger] fighters@[j] == (Fighter {
                        target_index: Some((((j + 1) % orig.len() as int)) as usize),
                        ..orig[j]
                    }),
                forall|j: int| i as int <= j < orig.len() ==> #[trigger] fighters@[j] == orig[j],
                forall|j: int| 0 <= j < orig.len() ==> (#[trigger] orig[j]).wf(),
            decreases len - i,
        {
            let mut f = fighters[i].clone();
            f.target_index = Some((i + 1) % len);
            fighters.set(i, f);
            i = i + 1;
        }
        Ok(Self { current_fighter: 0, fighters, winner: None, rounds: Vec::new() })
    }

    /// The index whose turn comes next.
    pub fn next_fighter(&self) -> (r: usize)
        requires
            self.wf(),
        ensures
            r as int == (self.current_fighter as int + 1) % self.fighters@.len() as int,
    {
        let len = self.fighters.len();
        (self.current_fighter + 1) % len
    }

    /// The fighter whose turn it is.
    pub fn current_fighter(&self) -> (r: &Fighter)
        requires
            self.wf(),
        ensures
            *r == self.fighters@[self.current_fighter as int],
    {
        &self.fighters[self.current_fighter]
    }

    /// The fighter the current fighter targets.
    pub fn target_fighter(&self) -> (r: &Fighter)
        requires
            self.wf(),
        ensures
            *r == self.fighters@[self.snap().target_of_current()],
    {
        let len = self.fighters.len();
        let cur = &self.fighters[self.current_fighter];
        let t_idx = match cur.target_index {
            Some(t) => t,
            None => {
                proof {
                    assert(false);
                }
                0
            },
        };
        proof {
            assert(t_idx as int == (self.current_fighter as int + 1)
                % self.fighters@.len() as int);
        }
        &self.fighters[t_idx]
    }

    /// Resolves one action with the given draws. The whole transition is
    /// exactly [`step_snap`]: the damage applies to the current fighter's
    /// ring target unless dodged (a dodge leaves every fighter untouched),
    /// the winner is set when exactly one fighter lives, the round is
    /// appended to the log, and the turn pointer advances.
    pub fn run_action_with(&mut self, action_type: ActionType, rolls: ActionRolls) -> (r: Round)
        requires
            old(self).wf(),
            rolls.wf(),
        ensures
            final(self).wf(),
            final(self).snap() == step_snap(old(self).snap(), rolls),
            final(self).fighters@.len() == old(self).fighters@.len(),
            step_dodged(old(self).snap(), rolls) ==> final(self).fighters@ == old(
                self,
            ).fighters@,
            final(self).rounds@.len() == old(self).rounds@.len() + 1,
            forall|j: int|
                0 <= j < old(self).rounds@.len() ==> #[trigger] final(self).rounds@[j] == old(
                    self,
                ).rounds@[j],
            round_desc(
                r,
                old(self).fighters@[old(self).current_fighter as int],
                old(self).fighters@[old(self).snap().target_of_current()],
                step_dodged(old(self).snap(), rolls),
                step_critical(old(self).snap(), rolls),
                step_damage(old(self).snap(), rolls),
            ),
            round_desc(
                final(self).rounds@.last(),
                old(self).fighters@[old(self).current_fighter as int],
                old(self).fighters@[old(self).snap().target_of_current()],
                step_dodged(old(self).snap(), rolls),
                step_critical(old(self).snap(), rolls),
                step_damage(old(self).snap(), rolls),
            ),
    {
        let n = self.fighters.len();
        let a_idx = self.current_fighter;
        let attacker = self.fighters[a_idx].clone();
        let t_idx: usize = match attacker.target_index {
            Some(t) => t,
            None => {
                proof {
                    assert(false);
                }
                0
            },
        };
        let target = self.fighters[t_idx].clone();

        let dodge_chance = target.calculate_dodge_chance(&attacker);
        let dodged = (rolls.dodge_roll as u8) < dodge_chance.value();
        let critical_chance = attacker.calculate_critical_chance(&target);
        let critical = (rolls.critical_roll as u8) < critical_chance.value();

        let damage: i32 = match action_type {
            ActionType::Attack => if dodged {
                0
            } else {
                attacker.calculate_damage_with(critical, rolls.multiplier_pct, rolls.crit_bonus_pct)
            },
        };

        let log_action = BattleAction {
            action_type: ActionType::Attack,
            attacker: attacker.clone(),
            target: Some(target.clone()),
            effects: damage_effects(damage),
        };
        let log_round = Round {
            messages: Vec::new(),
            fighter: attacker.clone(),
            action: log_action,
            dodged,
            critical,
        };

        if !dodged {
            let mut damaged = self.fighters[t_idx].clone();
            damaged.take_damage(damage);
            self.fighters.set(t_idx, damaged);
        }

        match find_sole_survivor(&self.fighters) {
            Some(survivor) => {
                self.winner = Some(self.fighters[survivor].clone());
            },
            None => {},
        }

        self.rounds.push(log_round);
        self.current_fighter = (a_idx + 1) % n;

        let action = BattleAction {
            action_type: ActionType::Attack,
            attacker: attacker.clone(),
            target: Some(target),
            effects: damage_effects(damage),
        };
        Round { messages: Vec::new(), fighter: attacker, action, dodged, critical }
    }

    /// Resolves one action, drawing the dodge, critical and damage rolls
    /// uniformly from their documented ranges; the transition is
    /// [`step_snap`] for those draws.
    pub fn run_action(&mut self, action_type: ActionType) -> (r: Round)
        requires
            old(self).wf(),
        ensures
            final(self).wf(),
            exists|rolls: ActionRolls|
                rolls.wf() && final(self).snap() == #[trigger] step_snap(old(self).snap(), rolls),
            final(self).fighters@.len() == old(self).fighters@.len(),
            final(self).current_fighter as int == (old(self).current_fighter as int + 1) % old(
                self,
            ).fighters@.len() as int,
            final(self).rounds@.len() == old(self).rounds@.len() + 1,
            forall|j: int|
                0 <= j < old(self).rounds@.len() ==> #[trigger] final(self).rounds@[j] == old(
                    self,
                ).rounds@[j],
    {
        let rolls = ActionRolls {
            dodge_roll: random_below(100),
            critical_roll: random_below(100),
            multiplier_pct: crate::fighter::DAMAGE_MULTIPLIER_MIN_PCT + random_below(
                crate::fighter::DAMAGE_MULTIPLIER_MAX_PCT - crate::fighter::DAMAGE_MULTIPLIER_MIN_PCT
                    + 1,
            ),
            crit_bonus_pct: crate::fighter::CRITICAL_BONUS_MIN_PCT + random_below(
                crate::fighter::CRITICAL_BONUS_MAX_PCT - crate::fighter::CRITICAL_BONUS_MIN_PCT + 1,
            ),
        };
        self.run_action_with(action_type, rolls)
    }
}

impl Clone for Battle {
    /// A copied battle has the same fighters, pointer and winner, and a
    /// round log recording the same turns.
    fn clone(&self) -> (r: Self)
        ensures
            r.fighters@ == self.fighters@,
            r.current_fighter == self.current_fighter,
            r.winner == self.winner,
            r.rounds@.len() == self.rounds@.len(),
            forall|j: int|
                0 <= j < self.rounds@.len() ==> round_eqv(
                    #[trigger] r.rounds@[j],
                    self.rounds@[j],
                ),
    {
        let fighters = self.fighters.clone();
        proof {
            assert(fighters@ =~= self.fighters@);
        }
        Battle {
            fighters,
            current_fighter: self.current_fighter,
            winner: match &self.winner {
                Some(w) => Some(w.clone()),
                None => None,
            },
            rounds: self.rounds.clone(),
        }
    }
}

impl Fighter {
    /// The action an anomaly-controlled fighter picks on its turn: it
    /// always attacks.
    pub fn choose_action_type(&self, _battle: &Battle) -> (r: ActionType)
        ensures
            r == ActionType::Attack,
    {
        ActionType::Attack
    }
}

/// The battle state after the drawn turns are resolved one by one; a
/// resolved battle is frozen, so the trace stops at a winner.
pub open spec fn run_trace(s: BattleSnap, rs: Seq<ActionRolls>) -> BattleSnap
    decreases rs.len(),
{
    if rs.len() == 0 || s.winner is Some {
        s
    } else {
        run_trace(step_snap(s, rs[0]), rs.subrange(1, rs.len() as int))
    }
}

/// In a two-fighter sequence, the living are exactly those of the two with
/// health left.
proof fn lemma_alive_count_two(s: Seq<Fighter>)
    requires
        s.len() == 2,
    ensures
        alive_count(s) == (if s[0].health.value > 0 {
            1int
        } else {
            0int
        }) + (if s[1].health.value > 0 {
            1int
        } else {
            0int
        }),
{
    reveal_with_fuel(alive_count, 3);
    assert(s.drop_last().drop_last().len() == 0);
    assert(s.drop_last()[0] == s[0]);
    assert(s.drop_last().last() == s[0]);
    assert(s.last() == s[1]);
}

/// A two-fighter battle resolves: as long as neither fighter can have its
/// blows reduced to nothing (strength at least 2, so every hit deals at
/// least 1 damage) and no roll in the sequence dodges, a winner is set
/// within as many turns as the fighters have health in total. Rolls that
/// dodge are excluded: a dodge leaves every fighter untouched, so no bound
/// on turns can hold of them.
pub proof fn lemma_two_fighter_termination(s: BattleSnap, rs: Seq<ActionRolls>)
    requires
        s.fighters.len() == 2,
        0 <= s.current < 2,
        s.fighters[0].wf(),
        s.fighters[1].wf(),
        s.winner is None,
        s.fighters[0].health.value >= 1,
        s.fighters[1].health.value >= 1,
        s.fighters[0].strength >= 2,
        s.fighters[1].strength >= 2,
        rs.len() >= s.fighters[0].health.value + s.fighters[1].health.value,
        forall|k: int| 0 <= k < rs.len() ==> (#[trigger] rs[k]).wf(),
        forall|k: int|
            0 <= k < rs.len() ==> (#[trigger] rs[k]).dodge_roll >= math::dodge_chance_spec(
                s.fighters[0].agility as int,
                s.fighters[1].agility as int,
            ),
        forall|k: int|
            0 <= k < rs.len() ==> (#[trigger] rs[k]).dodge_roll >= math::dodge_chance_spec(
                s.fighters[1].agility as int,
                s.fighters[0].agility as int,
            ),
    ensures
        run_trace(s, rs).winner is Some,
    decreases rs.len(),
{
    let a = s.current;
    let t = s.target_of_current();
    assert(t == if a == 0 {
        1int
    } else {
        0int
    });
    let rolls = rs[0];
    assert(rolls.wf());
    assert(!step_dodged(s, rolls));
    let attacker = s.fighters[a];
    let target = s.fighters[t];
    let total = rolls.multiplier_pct as int + if step_critical(s, rolls) {
        rolls.crit_bonus_pct as int
    } else {
        0int
    };
    assert(total >= 80);
    assert(attacker.strength * total >= 160) by (nonlinear_arith)
        requires
            attacker.strength >= 2,
            total >= 80,
    ;
    vstd::arithmetic::div_mod::lemma_div_is_ordered(160, attacker.strength * total, 100);
    let dmg = step_damage(s, rolls);
    assert(dmg >= 1);
    let nf = step_fighters(s, rolls);
    assert(nf[a] == s.fighters[a]);
    let nt = nf[t];
    assert(nt.health.value <= target.health.value - 1 && nt.health.value >= 0);
    let s1 = step_snap(s, rolls);
    let rest = rs.subrange(1, rs.len() as int);
    assert(run_trace(s, rs) == run_trace(s1, rest));
    lemma_alive_count_two(nf);
    if nt.health.value == 0 {
        assert(alive_count(nf) == 1);
        assert(s1.winner is Some);
        assert(run_trace(s1, rest) == s1);
    } else {
        assert(alive_count(nf) == 2);
        assert(s1.winner is None);
        assert(s1.fighters.len() == 2);
        assert(s1.fighters[0].wf() && s1.fighters[1].wf());
        assert(0 <= s1.current < 2);
        assert(s1.fighters[0].health.value >= 1 && s1.fighters[1].health.value >= 1);
        assert(s1.fighters[0].strength >= 2 && s1.fighters[1].strength >= 2);
        assert(s1.fighters[0].agility == s.fighters[0].agility && s1.fighters[1].agility
            == s.fighters[1].agility);
        assert(rest.len() >= s1.fighters[0].health.value + s1.fighters[1].health.value);
        assert(forall|k: int| 0 <= k < rest.len() ==> #[trigger] rest[k] == rs[k + 1]);
        lemma_two_fighter_termination(s1, rest);
    }
}

/// Ring targeting in a two-fighter battle degenerates to mutual targeting:
/// the first fighter targets the second and the second the first, and this
/// holds in every well-formed state.
pub proof fn lemma_ring_mutual_two(b: Battle)
    requires
        b.wf(),
        b.fighters@.len() == 2,
    ensures
        b.fighters@[0].target_index == Some(1usize),
        b.fighters@[1].target_index == Some(0usize),
{
}

} // verus!
