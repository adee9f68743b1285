//! Laws of registration and claims, stated over the record's values.
use vstd::prelude::*;
use crate::game::{claim_index, register, settle, GameView, PrizePoolError};

verus! {

/// A registration that succeeds stores the winners and amounts it was given,
/// with one amount and one flag for each winner, and every flag unset.
pub proof fn lemma_registration_shape(
    g: GameView,
    game_id: [u8; 32],
    winners: Seq<[u8; 32]>,
    amounts: Seq<u64>,
)
    requires
        register(g, game_id, winners, amounts) is Ok,
    ensures
        ({
            let r = register(g, game_id, winners, amounts)->Ok_0;
            &&& r.winners_set
            &&& r.game_id == game_id
            &&& r.winners == winners
            &&& r.amounts == amounts
            &&& r.winners.len() == r.amounts.len()
            &&& r.claimed.len() == r.winners.len()
            &&& forall|i: int| 0 <= i < r.claimed.len() ==> !r.claimed[i]
            &&& r.wf()
        }),
{
}

/// A record registers once: every later registration on it is refused, with
/// `WinnersAlreadySet` wherever its lists have equal lengths.
pub proof fn lemma_registration_once(
    g: GameView,
    game_id: [u8; 32],
    winners: Seq<[u8; 32]>,
    amounts: Seq<u64>,
    game_id2: [u8; 32],
    winners2: Seq<[u8; 32]>,
    amounts2: Seq<u64>,
)
    requires
        register(g, game_id, winners, amounts) is Ok,
    ensures
        ({
            let r = register(g, game_id, winners, amounts)->Ok_0;
            &&& register(r, game_id2, winners2, amounts2) is Err
            &&& winners2.len() == amounts2.len() ==> register(r, game_id2, winners2, amounts2)
                == Err::<GameView, PrizePoolError>(PrizePoolError::WinnersAlreadySet)
        }),
{
}

/// An award is paid once: after a claim is granted and its transfer made, a
/// second claim by the same identity for the same game is refused with
/// `AlreadyClaimed`.
pub proof fn lemma_claim_once(g: GameView, game_id: [u8; 32], who: [u8; 32])
    requires
        g.wf(),
        claim_index(g, game_id, who) is Ok,
    ensures
        ({
            let after = settle(g, claim_index(g, game_id, who)->Ok_0, true);
            claim_index(after, game_id, who) == Err::<int, PrizePoolError>(
                PrizePoolError::AlreadyClaimed,
            )
        }),
{
    g.winners.index_of_first_ensures(who);
    let i = claim_index(g, game_id, who)->Ok_0;
    let after = settle(g, i, true);
    assert(after.winners == g.winners);
}

/// A paid award stays paid, whatever transfer is settled afterwards.
pub proof fn lemma_paid_stays_paid(g: GameView, index: int, transferred: bool, j: int)
    requires
        0 <= index < g.claimed.len(),
        0 <= j < g.claimed.len(),
        g.claimed[j],
    ensures
        settle(g, index, transferred).claimed[j],
{
}

/// A claim by an identity that is not among the winners of a registered game
/// is refused with `NotAWinner`.
pub proof fn lemma_non_winner_refused(g: GameView, game_id: [u8; 32], who: [u8; 32])
    requires
        g.winners_set,
        g.game_id == game_id,
        !g.winners.contains(who),
    ensures
        claim_index(g, game_id, who) == Err::<int, PrizePoolError>(PrizePoolError::NotAWinner),
{
    g.winners.index_of_first_ensures(who);
}

/// A claim on a record that holds no winners yet is refused with
/// `WinnersNotSet`.
pub proof fn lemma_claim_before_registration(g: GameView, game_id: [u8; 32], who: [u8; 32])
    requires
        !g.winners_set,
    ensures
        claim_index(g, game_id, who) == Err::<int, PrizePoolError>(PrizePoolError::WinnersNotSet),
{
}

/// Where the transfer of a granted claim fails, the record is left as it
/// was, and the award is still unpaid.
pub proof fn lemma_failed_transfer_changes_nothing(g: GameView, game_id: [u8; 32], who: [u8; 32])
    requires
        claim_index(g, game_id, who) is Ok,
    ensures
        ({
            let i = claim_index(g, game_id, who)->Ok_0;
            &&& settle(g, i, false) == g
            &&& !settle(g, i, false).claimed[i]
        }),
{
}

} // verus!
