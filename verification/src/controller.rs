//! The decisions of the battle loop. The interaction layer owns the actual
//! waiting (with its timeout) and the rendering; it asks this module what to
//! do next, applies the answer, and hands back what the player chose. The
//! loop terminates because every resolved battle reports `Finished`, and a
//! timeout aborts with `ActionTimeout` instead of guessing an action.

use vstd::prelude::*;

use crate::battle::round_eqv;
use crate::battle::ActionType;
use crate::battle::Battle;
use crate::battle::Round;
use crate::battle::BattleSnap;
use crate::battle::step_snap;
use crate::errors::GameError;
use crate::fighter::Fighter;

verus! {

/// What the battle loop should do next.
#[derive(Debug, Clone, Copy, PartialEq, Eq, Structural)]
pub enum BattleDirective {
    /// Ask the player controlling the fighter at this index for an action.
    AwaitPlayerAction(usize),
    /// The game controls the current fighter; resolve this action.
    AnomalyAction(ActionType),
    /// The battle is resolved; collect the result.
    Finished,
}

/// The structured outcome of a resolved battle.
#[derive(Debug)]
pub struct BattleResult {
    pub winner: Fighter,
    pub defeated_fighters: Vec<Fighter>,
    pub all_fighters: Vec<Fighter>,
    pub battle: Battle,
}

/// The fighters of `s` whose health has reached 0, in order.
pub open spec fn defeated_of(s: Seq<Fighter>) -> Seq<Fighter>
    decreases s.len(),
{
    if s.len() == 0 {
        Seq::empty()
    } else if s.last().health.value == 0 {
        defeated_of(s.drop_last()).push(s.last())
    } else {
        defeated_of(s.drop_last())
    }
}

/// Decides the next step of the battle loop: a resolved battle is finished;
/// otherwise an anomaly-controlled fighter acts on its own, and a
/// player-controlled fighter's action must be awaited.
pub fn controller_step(battle: &Battle) -> (r: BattleDirective)
    requires
        battle.wf(),
    ensures
        (battle.winner is Some) <==> r == BattleDirective::Finished,
        battle.winner is None ==> r == (if battle.fighters@[battle.current_fighter as int].anomaly
            is Some {
            BattleDirective::AnomalyAction(ActionType::Attack)
        } else {
            BattleDirective::AwaitPlayerAction(battle.current_fighter)
        }),
{
    if battle.winner.is_some() {
        return BattleDirective::Finished;
    }
    let current = battle.current_fighter();
    if current.anomaly.is_some() {
        BattleDirective::AnomalyAction(current.choose_action_type(battle))
    } else {
        BattleDirective::AwaitPlayerAction(battle.current_fighter)
    }
}

/// Applies what the waiting step produced: a timeout (no action) aborts
/// with `ActionTimeout` and leaves the battle untouched; an action is
/// resolved as one randomly rolled turn.
pub fn apply_player_event(battle: &mut Battle, action: Option<ActionType>) -> (r: Result<
    Round,
    GameError,
>)
    requires
        old(battle).wf(),
    ensures
        final(battle).wf(),
        action is None ==> r == Err::<Round, GameError>(GameError::ActionTimeout) && *final(battle)
            == *old(battle),
        action is Some ==> r is Ok && (exists|rolls: crate::battle::ActionRolls|
            rolls.wf() && final(battle).snap() == #[trigger] step_snap(old(battle).snap(), rolls)),
        action is Some ==> final(battle).rounds@.len() == old(battle).rounds@.len() + 1,
{
    match action {
        None => Err(GameError::ActionTimeout),
        Some(a) => Ok(battle.run_action(a)),
    }
}

/// Collects the structured result of a resolved battle: the winner, every
/// fighter, and those defeated (health at 0). An unresolved battle has no
/// result yet.
pub fn battle_result(battle: &Battle) -> (r: Option<BattleResult>)
    requires
        battle.wf(),
    ensures
        (r is Some) <==> battle.winner is Some,
        r matches Some(res) ==> {
            &&& battle.winner == Some(res.winner)
            &&& res.all_fighters@ == battle.fighters@
            &&& res.defeated_fighters@ == defeated_of(battle.fighters@)
            &&& res.battle.fighters@ == battle.fighters@
            &&& res.battle.current_fighter == battle.current_fighter
            &&& res.battle.winner == battle.winner
            &&& res.battle.rounds@.len() == battle.rounds@.len()
            &&& forall|j: int|
                0 <= j < battle.rounds@.len() ==> round_eqv(
                    #[trigger] res.battle.rounds@[j],
                    battle.rounds@[j],
                )
        },
{
    let winner = match &battle.winner {
        None => {
            return None;
        },
        Some(w) => w.clone(),
    };
    let all_fighters = battle.fighters.clone();
    proof {
        assert(all_fighters@ =~= battle.fighters@);
    }
    let mut defeated: Vec<Fighter> = Vec::new();
    let mut i: usize = 0;
    while i < battle.fighters.len()
        invariant
            i <= battle.fighters@.len(),
            defeated@ == defeated_of(battle.fighters@.take(i as int)),
        decreases battle.fighters@.len() - i,
    {
        proof {
            assert(battle.fighters@.take(i as int + 1).drop_last() =~= battle.fighters@.take(
                i as int,
            ));
            assert(battle.fighters@.take(i as int + 1).last() == battle.fighters@[i as int]);
        }
        if battle.fighters[i].health.value == 0 {
            defeated.push(battle.fighters[i].clone());
        }
        i = i + 1;
    }
    proof {
        assert(battle.fighters@.take(battle.fighters@.len() as int) =~= battle.fighters@);
    }
    Some(
        BattleResult {
            winner,
            defeated_fighters: defeated,
            all_fighters,
            battle: battle.clone(),
        },
    )
}

} // verus!
