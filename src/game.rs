//! The game record, its registration, and the claim of an award.
use vstd::prelude::*;
use crate::authority::{authority_signer_seeds, signer_seeds};
use crate::keys::keys_equal;

verus! {

/// How many winners a game record has room for.
pub const MAX_WINNERS: usize = 10;

/// Why a registration or a claim was refused.
#[derive(PartialEq, Eq, Structural, Clone, Copy, Debug)]
pub enum PrizePoolError {
    /// The winners and the amounts differ in length.
    InvalidInput,
    /// The record already holds its winners.
    WinnersAlreadySet,
    /// The record holds no winners yet.
    WinnersNotSet,
    /// The game id does not match the record's.
    InvalidGameId,
    /// The caller is not among the winners.
    NotAWinner,
    /// The caller's award was paid already.
    AlreadyClaimed,
    /// The list of winners does not fit in the record.
    TooManyWinners,
}

/// The record of one game.
pub struct Game {
    pub game_id: [u8; 32],
    pub winners: Vec<[u8; 32]>,
    pub amounts: Vec<u64>,
    pub claimed: Vec<bool>,
    pub winners_set: bool,
}

/// What a game record holds, as values.
pub struct GameView {
    pub game_id: [u8; 32],
    pub winners: Seq<[u8; 32]>,
    pub amounts: Seq<u64>,
    pub claimed: Seq<bool>,
    pub winners_set: bool,
}

impl View for Game {
    type V = GameView;

    open spec fn view(&self) -> GameView {
        GameView {
            game_id: self.game_id,
            winners: self.winners@,
            amounts: self.amounts@,
            claimed: self.claimed@,
            winners_set: self.winners_set,
        }
    }
}

impl GameView {
    /// A registered record has one amount and one flag for each winner, and
    /// room for all of them.
    pub open spec fn wf(self) -> bool {
        &&& self.winners.len() <= MAX_WINNERS
        &&& self.winners_set ==> {
            &&& self.amounts.len() == self.winners.len()
            &&& self.claimed.len() == self.winners.len()
        }
    }

    /// The index that a claim by `who` resolves to: the first at which `who`
    /// is listed.
    pub open spec fn winner_index(self, who: [u8; 32]) -> Option<int> {
        self.winners.index_of_first(who)
    }
}

/// The record after registering `winners` with `amounts` for `game_id`, or
/// the error that refuses it.
pub open spec fn register(
    g: GameView,
    game_id: [u8; 32],
    winners: Seq<[u8; 32]>,
    amounts: Seq<u64>,
) -> Result<GameView, PrizePoolError> {
    if winners.len() != amounts.len() {
        Err(PrizePoolError::InvalidInput)
    } else if g.winners_set {
        Err(PrizePoolError::WinnersAlreadySet)
    } else if winners.len() > MAX_WINNERS {
        Err(PrizePoolError::TooManyWinners)
    } else {
        Ok(
            GameView {
                game_id,
                winners,
                amounts,
                claimed: Seq::new(winners.len(), |i: int| false),
                winners_set: true,
            },
        )
    }
}

/// The index whose award a claim by `who` for `game_id` pays, or the error
/// that refuses it.
pub open spec fn claim_index(g: GameView, game_id: [u8; 32], who: [u8; 32]) -> Result<
    int,
    PrizePoolError,
> {
    if !g.winners_set {
        Err(PrizePoolError::WinnersNotSet)
    } else if g.game_id != game_id {
        Err(PrizePoolError::InvalidGameId)
    } else {
        match g.winner_index(who) {
            None => Err(PrizePoolError::NotAWinner),
            Some(i) => if g.claimed[i] {
                Err(PrizePoolError::AlreadyClaimed)
            } else {
                Ok(i)
            },
        }
    }
}

/// The record once the transfer for the award at `index` has been made or
/// has failed: only a transfer that was made marks the award paid.
pub open spec fn settle(g: GameView, index: int, transferred: bool) -> GameView {
    if transferred {
        GameView { claimed: g.claimed.update(index, true), ..g }
    } else {
        g
    }
}

impl Game {
    /// An empty record, before registration.
    pub fn new() -> (r: Game)
        ensures
            r@.winners_set == false,
            r@.winners.len() == 0,
            r@.amounts.len() == 0,
            r@.claimed.len() == 0,
            r@.wf(),
    {
        Game {
            game_id: [0u8; 32],
            winners: Vec::new(),
            amounts: Vec::new(),
            claimed: Vec::new(),
            winners_set: false,
        }
    }

    /// Whether the record is well formed.
    pub fn is_well_formed(&self) -> (r: bool)
        ensures
            r == self@.wf(),
    {
        self.winners.len() <= MAX_WINNERS && (!self.winners_set || (self.amounts.len()
            == self.winners.len() && self.claimed.len() == self.winners.len()))
    }
}

/// What a registration acts on: the record, and the administrator who signs
/// for it and pays for its storage.
pub struct SetWinners {
    pub game: Game,
    pub authority: [u8; 32],
}

/// What a claim acts on: the record, the winner who signs the claim, and the
/// bump of the game's derived authority.
pub struct Claim {
    pub game: Game,
    pub winner: [u8; 32],
    pub authority_bump: u8,
}

/// The transfer that a granted claim asks for: the award at `index`, of
/// `amount` units, signed for with `signer_seeds`.
pub struct Payout {
    pub index: usize,
    pub amount: u64,
    pub signer_seeds: Vec<Vec<u8>>,
}

/// Registers the winners of `game_id` and their amounts, all unclaimed.
pub fn set_winners(
    ctx: &mut SetWinners,
    game_id: [u8; 32],
    winners: Vec<[u8; 32]>,
    amounts: Vec<u64>,
) -> (r: Result<(), PrizePoolError>)
    requires
        old(ctx).game@.wf(),
    ensures
        final(ctx).authority == old(ctx).authority,
        final(ctx).game@.wf(),
        match register(old(ctx).game@, game_id, winners@, amounts@) {
            Ok(g) => r is Ok && final(ctx).game@ == g,
            Err(e) => r == Err::<(), PrizePoolError>(e) && final(ctx).game@ == old(ctx).game@,
        },
{
    if winners.len() != amounts.len() {
        return Err(PrizePoolError::InvalidInput);
    }
    if ctx.game.winners_set {
        return Err(PrizePoolError::WinnersAlreadySet);
    }
    if winners.len() > MAX_WINNERS {
        return Err(PrizePoolError::TooManyWinners);
    }
    let n = winners.len();
    let claimed: Vec<bool> = vec![false; n];
    ctx.game.game_id = game_id;
    ctx.game.winners = winners;
    ctx.game.amounts = amounts;
    ctx.game.claimed = claimed;
    ctx.game.winners_set = true;
    assert(ctx.game@.claimed =~= Seq::new(n as nat, |i: int| false));
    Ok(())
}

/// The first index at which `who` is listed among `winners`.
fn find_winner(winners: &Vec<[u8; 32]>, who: &[u8; 32]) -> (r: Option<usize>)
    ensures
        match r {
            Some(i) => i < winners@.len() && winners@.index_of_first(*who) == Some(i as int),
            None => winners@.index_of_first(*who) is None,
        },
{
    let mut i: usize = 0;
    while i < winners.len()
        invariant
            0 <= i <= winners@.len(),
            forall|j: int| 0 <= j < i ==> winners@[j] != *who,
        decreases winners@.len() - i,
    {
        if keys_equal(&winners[i], who) {
            proof {
                winners@.index_of_first_ensures(*who);
            }
            assert(winners@.contains(*who));
            let ghost k = winners@.index_of_first(*who)->Some_0;
            assert(k == i as int) by {
                if k < i as int {
                    assert(winners@[k] != *who);
                }
            }
            return Some(i);
        }
        i = i + 1;
    }
    assert(!winners@.contains(*who));
    proof {
        winners@.index_of_first_ensures(*who);
    }
    None
}

/// Decides a claim by `ctx.winner` for `game_id`: the transfer to make, or
/// the error that refuses the claim. The record is not changed: the award
/// is marked paid by `settle_claim`, once the transfer has been made.
pub fn claim(ctx: &Claim, game_id: [u8; 32]) -> (r: Result<Payout, PrizePoolError>)
    requires
        ctx.game@.wf(),
    ensures
        match claim_index(ctx.game@, game_id, ctx.winner) {
            Ok(i) => r matches Ok(p) && {
                &&& p.index == i
                &&& p.amount == ctx.game@.amounts[i]
                &&& p.signer_seeds.deep_view() == authority_signer_seeds(game_id, ctx.authority_bump)
            },
            Err(e) => r matches Err(e2) && e2 == e,
        },
{
    let game = &ctx.game;
    if !game.winners_set {
        return Err(PrizePoolError::WinnersNotSet);
    }
    if !keys_equal(&game.game_id, &game_id) {
        return Err(PrizePoolError::InvalidGameId);
    }
    let index = match find_winner(&game.winners, &ctx.winner) {
        Some(i) => i,
        None => {
            return Err(PrizePoolError::NotAWinner);
        },
    };
    if game.claimed[index] {
        return Err(PrizePoolError::AlreadyClaimed);
    }
    Ok(
        Payout {
            index,
            amount: game.amounts[index],
            signer_seeds: signer_seeds(&game_id, ctx.authority_bump),
        },
    )
}

/// Records the outcome of the transfer that `payout` asked for: the award is
/// marked paid where the transfer was made, and nothing changes where it
/// failed.
pub fn settle_claim(ctx: &mut Claim, payout: &Payout, transferred: bool)
    requires
        old(ctx).game@.wf(),
        old(ctx).game@.winners_set,
        payout.index < old(ctx).game@.winners.len(),
    ensures
        final(ctx).game@ == settle(old(ctx).game@, payout.index as int, transferred),
        final(ctx).game@.wf(),
        final(ctx).winner == old(ctx).winner,
        final(ctx).authority_bump == old(ctx).authority_bump,
{
    if transferred {
        ctx.game.claimed.set(payout.index, true);
    }
}

} // verus!
