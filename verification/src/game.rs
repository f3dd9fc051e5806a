//! The game entity and its lifecycle: setup, sequential cell resolution by
//! bid contest, terminal detection, and the single-use reward latch.
//!
//! Every operation is an all-or-nothing transformation of one `Game` value:
//! a rejected call returns its error and leaves the game untouched. The host
//! that owns the entropy counter and moves the reward passes counter values
//! in and performs the transfer only after a claim succeeds.

use crate::bid::{bid_from_counter, get_random_number};
use crate::board::{
    board_outcome, count_sign, count_sign_upto, lemma_blank_board, lemma_count_sign_bound,
    lemma_count_sign_update, lemma_my_bid_sum_update, lemma_op_bid_sum_update, line_winner_from,
    my_bid_sum, op_bid_sum, trio_complete, win_pattern, Grid, Sign,
};
use crate::shuffle::{identity_order, is_cell_permutation, shuffle_array, shuffle_steps};
use vstd::prelude::*;

verus! {

/// The phase of a game. Once it leaves `Active` it never returns.
#[derive(Clone, Copy, PartialEq, Eq, Structural, Debug)]
pub enum GameState {
    Active,
    Won,
    Lose,
}

impl Default for GameState {
    /// A fresh game starts in play.
    fn default() -> (s: GameState)
        ensures
            s is Active,
    {
        GameState::Active
    }
}

/// Why an operation was rejected. `TileOutOfBounds` and `NotplayerTurn` are
/// reserved in the taxonomy; no operation here raises them.
#[derive(Clone, Copy, PartialEq, Eq, Structural, Debug)]
pub enum TicTacToeError {
    TileOutOfBounds,
    TileAlreadySet,
    GameAlreadyOver,
    OverBalance,
    NotplayerTurn,
    InvalidPlayer,
    RewardAlreadyTaken,
}

/// One match: the board, both balances, the turn pointer, the fixed cell
/// resolution order, and the reward latch.
#[derive(Clone, Copy, PartialEq, Eq, Debug)]
pub struct Game {
    pub player: [u8; 32],
    pub board: [Grid; 9],
    pub state: GameState,
    pub my_balance: u8,
    pub op_balance: u8,
    pub current_index: u8,
    pub rest_grid: [u8; 9],
    pub can_get_reward: bool,
}

impl Game {
    /// How many cells the game has resolved: the turn pointer, plus the
    /// closing move when the game has ended (the pointer is frozen then).
    pub open spec fn resolved_cells(self) -> int {
        if self.state is Active {
            self.current_index as int
        } else {
            self.current_index as int + 1
        }
    }

    /// Well-formedness, established by `setup_game` and preserved by every
    /// operation: the resolution order is a permutation of the nine cells;
    /// exactly the cells it lists before `resolved_cells` carry a sign;
    /// unresolved cells record no bids; each side's balance plus its wagered
    /// bids accounts for its initial 100 units; the sign counts agree with
    /// the number of resolved cells; and an active game has no majority yet.
    pub open spec fn wf(self) -> bool {
        &&& is_cell_permutation(self.rest_grid@)
        &&& self.current_index <= 8
        &&& forall|i: int|
            #![trigger self.rest_grid@[i]]
            0 <= i < 9 ==> (self.board@[self.rest_grid@[i] as int].flag is Some <==> i
                < self.resolved_cells())
        &&& forall|j: int|
            0 <= j < 9 && (#[trigger] self.board@[j]).flag is None ==> self.board@[j].my_bid == 0
                && self.board@[j].op_bid == 0
        &&& self.my_balance + my_bid_sum(self.board@) == 100
        &&& self.op_balance + op_bid_sum(self.board@) == 100
        &&& count_sign(self.board@, Sign::X) + count_sign(self.board@, Sign::O)
            == self.resolved_cells()
        &&& self.state is Active ==> count_sign(self.board@, Sign::X) <= 4 && count_sign(
            self.board@,
            Sign::O,
        ) <= 4
    }

    /// How re-evaluation settles the phase fields: a terminal outcome sets
    /// the matching phase and arms the reward latch with the turn pointer
    /// frozen; no outcome leaves both alone and advances the pointer.
    pub open spec fn evaluation_effect(pre: Game, post: Game) -> bool {
        match board_outcome(pre.board@) {
            Some(Sign::X) => {
                &&& post.state is Won
                &&& post.can_get_reward
                &&& post.current_index == pre.current_index
            },
            Some(Sign::O) => {
                &&& post.state is Lose
                &&& post.can_get_reward
                &&& post.current_index == pre.current_index
            },
            None => {
                &&& post.state == pre.state
                &&& post.can_get_reward == pre.can_get_reward
                &&& post.current_index == pre.current_index + 1
            },
        }
    }

    /// The rejection a move must receive, in the order the checks run;
    /// `None` when the move is accepted.
    pub open spec fn play_check(self, amount: u8) -> Option<TicTacToeError> {
        if !(self.state is Active) {
            Some(TicTacToeError::GameAlreadyOver)
        } else if amount > self.my_balance {
            Some(TicTacToeError::OverBalance)
        } else if self.board@[self.rest_grid@[self.current_index as int] as int].flag is Some {
            Some(TicTacToeError::TileAlreadySet)
        } else {
            None
        }
    }

    /// Whether the game is still accepting moves.
    pub fn is_active(&self) -> (r: bool)
        ensures
            r == (self.state is Active),
    {
        self.state == GameState::Active
    }

    /// Whether the three cells of `trio` are resolved with one same sign.
    fn is_winning_trio(&self, trio: [usize; 3]) -> (r: bool)
        requires
            trio@[0] < 9,
            trio@[1] < 9,
            trio@[2] < 9,
        ensures
            r == trio_complete(self.board@, trio@[0] as int, trio@[1] as int, trio@[2] as int),
    {
        let first = trio[0];
        let second = trio[1];
        let third = trio[2];
        match (self.board[first].flag, self.board[second].flag, self.board[third].flag) {
            (Some(a), Some(b), Some(c)) => a == b && a == c,
            _ => false,
        }
    }

    /// Counts the resolved cells of each sign over the whole board.
    fn is_winning_over_equal_5(&self) -> (counts: (u8, u8))
        ensures
            counts.0 as int == count_sign(self.board@, Sign::X),
            counts.1 as int == count_sign(self.board@, Sign::O),
    {
        let mut count_x: u8 = 0;
        let mut count_o: u8 = 0;
        let mut i: usize = 0;
        while i < 9
            invariant
                i <= 9,
                count_x as int == count_sign_upto(self.board@, Sign::X, i as int),
                count_o as int == count_sign_upto(self.board@, Sign::O, i as int),
            decreases 9 - i,
        {
            proof {
                lemma_count_sign_bound(self.board@, Sign::X, i as int);
                lemma_count_sign_bound(self.board@, Sign::O, i as int);
            }
            match self.board[i].flag {
                Some(Sign::X) => count_x = count_x + 1,
                Some(Sign::O) => count_o = count_o + 1,
                None => (),
            }
            i = i + 1;
        }
        (count_x, count_o)
    }

    /// Re-evaluates the board after a move: the first winning line (or,
    /// failing that, a sign count reaching five) ends the game and arms the
    /// reward latch with the turn pointer frozen; otherwise the pointer
    /// advances to the next cell in the resolution order.
    fn update_state(&mut self)
        requires
            old(self).current_index < 9,
        ensures
            final(self).player == old(self).player,
            final(self).board == old(self).board,
            final(self).my_balance == old(self).my_balance,
            final(self).op_balance == old(self).op_balance,
            final(self).rest_grid == old(self).rest_grid,
            Game::evaluation_effect(*old(self), *final(self)),
    {
        let mut k: usize = 0;
        while k < 8
            invariant
                k <= 8,
                *self == *old(self),
                line_winner_from(self.board@, 0) == line_winner_from(self.board@, k as int),
            decreases 8 - k,
        {
            let pattern = trio_cells(k);
            if self.is_winning_trio(pattern) {
                proof {
                    assert(line_winner_from(self.board@, k as int) == self.board@[pattern@[0] as int].flag);
                }
                match self.board[pattern[0]].flag {
                    Some(Sign::X) => self.state = GameState::Won,
                    _ => self.state = GameState::Lose,
                }
                self.can_get_reward = true;
                return ;
            }
            k = k + 1;
        }
        let (count_x, count_o) = self.is_winning_over_equal_5();
        if count_x == 5 {
            self.state = GameState::Won;
            self.can_get_reward = true;
            return ;
        } else if count_o == 5 {
            self.state = GameState::Lose;
            self.can_get_reward = true;
            return ;
        }
        self.current_index = self.current_index + 1;
    }

    /// Plays one move: wagers `amount` against an opponent bid derived from
    /// the entropy counter, resolves the next cell in the resolution order,
    /// pays both bids, and re-evaluates the board. A rejected move returns
    /// its error and leaves the game unchanged.
    pub fn play(&mut self, amount: u8, entropy: u64) -> (r: Result<(), TicTacToeError>)
        requires
            old(self).wf(),
        ensures
            final(self).wf(),
            match old(self).play_check(amount) {
                Some(e) => r == Err::<(), TicTacToeError>(e) && *final(self) == *old(self),
                None => r == Ok::<(), TicTacToeError>(()) && play_transition(
                    *old(self),
                    *final(self),
                    amount,
                    entropy,
                ),
            },
    {
        if !self.is_active() {
            return Err(TicTacToeError::GameAlreadyOver);
        }
        if amount > self.my_balance {
            return Err(TicTacToeError::OverBalance);
        }
        let idx = self.current_index as usize;
        let current_grid = self.rest_grid[idx];
        let target = current_grid as usize;
        assert(target < 9);
        match self.board[target].flag {
            Some(_) => Err(TicTacToeError::TileAlreadySet),
            None => {
                let ghost pre = *self;
                let random_number = get_random_number(entropy, self.op_balance as usize, 1);
                let sign = if amount > random_number {
                    Sign::X
                } else {
                    Sign::O
                };
                let cell = Grid { my_bid: amount, op_bid: random_number, flag: Some(sign) };
                self.board[target] = cell;
                self.my_balance = self.my_balance - amount;
                self.op_balance = self.op_balance - random_number;
                let ghost mid = *self;
                self.update_state();
                proof {
                    lemma_play_preserves_wf(pre, mid, *self, amount, random_number);
                }
                Ok(())
            },
        }
    }
}

/// The transformation an accepted move performs, relating the game before
/// (`pre`) to the game after (`post`): the targeted cell records the two
/// bids and the winner's sign (the player wins the cell only by bidding
/// strictly more; ties go to the bot), both balances pay their bids, and a
/// terminal outcome freezes the turn pointer and arms the reward latch
/// while anything else advances the pointer.
pub open spec fn play_transition(pre: Game, post: Game, amount: u8, entropy: u64) -> bool {
    let target = pre.rest_grid@[pre.current_index as int] as int;
    let bid = bid_from_counter(entropy, pre.op_balance as int + 1);
    let sign = if amount > bid {
        Sign::X
    } else {
        Sign::O
    };
    let cell = Grid { my_bid: amount, op_bid: bid as u8, flag: Some(sign) };
    &&& post.player == pre.player
    &&& post.board@ == pre.board@.update(target, cell)
    &&& post.my_balance == pre.my_balance - amount
    &&& post.op_balance == pre.op_balance - bid
    &&& post.rest_grid == pre.rest_grid
    &&& match board_outcome(post.board@) {
        Some(Sign::X) => {
            &&& post.state is Won
            &&& post.can_get_reward
            &&& post.current_index == pre.current_index
        },
        Some(Sign::O) => {
            &&& post.state is Lose
            &&& post.can_get_reward
            &&& post.current_index == pre.current_index
        },
        None => {
            &&& post.state == pre.state
            &&& post.can_get_reward == pre.can_get_reward
            &&& post.current_index == pre.current_index + 1
        },
    }
}

/// Resolving the contested cell and paying both bids carries a well-formed
/// active game to a well-formed game, whichever way the evaluation then
/// settles the phase fields.
proof fn lemma_play_preserves_wf(pre: Game, mid: Game, post: Game, amount: u8, bid: u8)
    requires
        pre.wf(),
        pre.state is Active,
        amount <= pre.my_balance,
        bid <= pre.op_balance,
        pre.board@[pre.rest_grid@[pre.current_index as int] as int].flag is None,
        mid.player == pre.player,
        mid.board@ == pre.board@.update(
            pre.rest_grid@[pre.current_index as int] as int,
            Grid {
                my_bid: amount,
                op_bid: bid,
                flag: Some(
                    if amount > bid {
                        Sign::X
                    } else {
                        Sign::O
                    },
                ),
            },
        ),
        mid.my_balance == pre.my_balance - amount,
        mid.op_balance == pre.op_balance - bid,
        mid.rest_grid == pre.rest_grid,
        mid.state == pre.state,
        mid.current_index == pre.current_index,
        mid.can_get_reward == pre.can_get_reward,
        post.player == mid.player,
        post.board == mid.board,
        post.my_balance == mid.my_balance,
        post.op_balance == mid.op_balance,
        post.rest_grid == mid.rest_grid,
        Game::evaluation_effect(mid, post),
    ensures
        post.wf(),
{
    let idx = pre.current_index as int;
    let target = pre.rest_grid@[idx] as int;
    let sign = if amount > bid {
        Sign::X
    } else {
        Sign::O
    };
    let cell = Grid { my_bid: amount, op_bid: bid, flag: Some(sign) };
    assert(0 <= target < 9);
    assert(pre.board@[target].my_bid == 0 && pre.board@[target].op_bid == 0);
    lemma_count_sign_update(pre.board@, Sign::X, target, cell, 9);
    lemma_count_sign_update(pre.board@, Sign::O, target, cell, 9);
    lemma_my_bid_sum_update(pre.board@, target, cell, 9);
    lemma_op_bid_sum_update(pre.board@, target, cell, 9);
    let n_post = idx + 1;
    assert(post.resolved_cells() == n_post);
    assert forall|i: int|
        #![trigger post.rest_grid@[i]]
        0 <= i < 9 implies (post.board@[post.rest_grid@[i] as int].flag is Some <==> i
        < n_post) by {
        if i == idx {
            assert(post.board@[target].flag is Some);
        } else {
            assert(pre.rest_grid@[i] != pre.rest_grid@[idx]);
            assert(post.board@[pre.rest_grid@[i] as int] == pre.board@[pre.rest_grid@[i] as int]);
        }
    }
}

/// Whether two player identities are the same 32 bytes.
fn pubkey_eq(a: &[u8; 32], b: &[u8; 32]) -> (r: bool)
    ensures
        r == (a@ == b@),
{
    let mut k: usize = 0;
    while k < 32
        invariant
            k <= 32,
            forall|m: int| 0 <= m < k ==> a@[m] == b@[m],
        decreases 32 - k,
    {
        if a[k] != b[k] {
            return false;
        }
        k = k + 1;
    }
    proof {
        assert(a@ =~= b@);
    }
    true
}

/// The rejection a play request must receive: the caller must be the
/// registered player before the move itself is checked.
pub open spec fn play_request_check(g: Game, caller: Seq<u8>, amount: u8) -> Option<
    TicTacToeError,
> {
    if caller != g.player@ {
        Some(TicTacToeError::InvalidPlayer)
    } else {
        g.play_check(amount)
    }
}

/// Plays one move on behalf of `caller`, who must be the game's registered
/// player. The entropy counter value drives the opponent's bid.
pub fn play(game: &mut Game, caller: &[u8; 32], amount: u8, entropy: u64) -> (r: Result<
    (),
    TicTacToeError,
>)
    requires
        old(game).wf(),
    ensures
        final(game).wf(),
        match play_request_check(*old(game), caller@, amount) {
            Some(e) => r == Err::<(), TicTacToeError>(e) && *final(game) == *old(game),
            None => r == Ok::<(), TicTacToeError>(()) && play_transition(
                *old(game),
                *final(game),
                amount,
                entropy,
            ),
        },
{
    if !pubkey_eq(caller, &game.player) {
        return Err(TicTacToeError::InvalidPlayer);
    }
    game.play(amount, entropy)
}

/// The rejection a reward claim must receive: the caller must be the
/// registered player, and the latch must still be armed.
pub open spec fn claim_check(g: Game, caller: Seq<u8>) -> Option<TicTacToeError> {
    if caller != g.player@ {
        Some(TicTacToeError::InvalidPlayer)
    } else if !g.can_get_reward {
        Some(TicTacToeError::RewardAlreadyTaken)
    } else {
        None
    }
}

/// The game after a successful claim: only the latch is spent.
pub open spec fn claimed(g: Game) -> Game {
    Game { can_get_reward: false, ..g }
}

/// Claims the reward: disarms the single-use latch. On success the caller
/// owes the player the fixed 100-unit transfer; this is the only mutation
/// a finished game ever sees, and it touches the latch alone.
pub fn get_reward(game: &mut Game, caller: &[u8; 32]) -> (r: Result<(), TicTacToeError>)
    ensures
        match claim_check(*old(game), caller@) {
            Some(e) => r == Err::<(), TicTacToeError>(e) && *final(game) == *old(game),
            None => r == Ok::<(), TicTacToeError>(()) && *final(game) == claimed(*old(game)),
        },
        old(game).wf() ==> final(game).wf(),
{
    if !pubkey_eq(caller, &game.player) {
        return Err(TicTacToeError::InvalidPlayer);
    }
    if !game.can_get_reward {
        return Err(TicTacToeError::RewardAlreadyTaken);
    }
    game.can_get_reward = false;
    Ok(())
}

/// Creates a fresh game owned by `player`: both balances at 100, an empty
/// board, a disarmed reward latch, and a cell resolution order shuffled
/// from the supplied entropy counter values.
pub fn setup_game(player: [u8; 32], entropy: [u64; 8]) -> (g: Game)
    ensures
        g.wf(),
        g.player == player,
        g.state is Active,
        g.my_balance == 100,
        g.op_balance == 100,
        g.current_index == 0,
        g.can_get_reward == false,
        forall|j: int|
            0 <= j < 9 ==> (#[trigger] g.board@[j]) == (Grid {
                my_bid: 0,
                op_bid: 0,
                flag: None::<Sign>,
            }),
        g.rest_grid@ == shuffle_steps(identity_order(), entropy@, 8),
        is_cell_permutation(g.rest_grid@),
{
    let blank = Grid { my_bid: 0, op_bid: 0, flag: None };
    let board = [blank; 9];
    let base: [u8; 9] = [0, 1, 2, 3, 4, 5, 6, 7, 8];
    proof {
        assert(base@ =~= identity_order());
        assert forall|v: u8| v < 9 implies identity_order().contains(v) by {
            assert(identity_order()[v as int] == v);
        }
    }
    let rest_grid = shuffle_array(base, entropy);
    let g = Game {
        player,
        board,
        state: GameState::Active,
        my_balance: 100,
        op_balance: 100,
        current_index: 0,
        rest_grid,
        can_get_reward: false,
    };
    proof {
        lemma_blank_board(g.board@, 9);
    }
    g
}

/// A well-formed game's cell resolution order is a permutation of the nine
/// cell indices — no duplicates, no omissions — whatever entropy shuffled it.
pub proof fn lemma_order_is_permutation(g: Game)
    requires
        g.wf(),
    ensures
        is_cell_permutation(g.rest_grid@),
{
}

/// A well-formed game never trips the defensive already-resolved guard: the
/// cell the resolution order points at next is still unresolved, so no cell
/// is ever resolved twice.
pub proof fn lemma_no_cell_resolved_twice(g: Game, amount: u8)
    requires
        g.wf(),
    ensures
        g.play_check(amount) != Some(TicTacToeError::TileAlreadySet),
{
    if g.state is Active {
        assert(g.rest_grid@[g.current_index as int] < 9);
        assert(g.board@[g.rest_grid@[g.current_index as int] as int].flag is None);
    }
}

/// An accepted move resolves exactly one cell — the one the resolution
/// order points at, unresolved until then — and leaves every other cell as
/// it was.
pub proof fn lemma_play_resolves_one_new_cell(pre: Game, post: Game, amount: u8, entropy: u64)
    requires
        pre.wf(),
        pre.play_check(amount) is None,
        play_transition(pre, post, amount, entropy),
    ensures
        pre.board@[pre.rest_grid@[pre.current_index as int] as int].flag is None,
        post.board@[pre.rest_grid@[pre.current_index as int] as int].flag is Some,
        forall|j: int|
            0 <= j < 9 && j != pre.rest_grid@[pre.current_index as int] as int
                ==> post.board@[j] == pre.board@[j],
{
}

/// The turn pointer advances exactly when the move leaves the game active,
/// and freezes at the move that ends it.
pub proof fn lemma_pointer_moves_only_while_active(pre: Game, post: Game, amount: u8, entropy: u64)
    requires
        pre.state is Active,
        play_transition(pre, post, amount, entropy),
    ensures
        post.state is Active ==> post.current_index == pre.current_index + 1,
        !(post.state is Active) ==> post.current_index == pre.current_index,
{
}

/// The two balances and all bids wagered so far always account for the
/// initial 200 units.
pub proof fn lemma_wealth_conserved(g: Game)
    requires
        g.wf(),
    ensures
        g.my_balance + g.op_balance + my_bid_sum(g.board@) + op_bid_sum(g.board@) == 200,
{
}

/// A finished game rejects every further move with `GameAlreadyOver`, from
/// its registered player as from anyone passing the identity check.
pub proof fn lemma_terminal_rejects_play(g: Game, amount: u8)
    requires
        !(g.state is Active),
    ensures
        g.play_check(amount) == Some(TicTacToeError::GameAlreadyOver),
        play_request_check(g, g.player@, amount) == Some(TicTacToeError::GameAlreadyOver),
{
}

/// The reward latch is single-use: after one successful claim, the player's
/// every further claim is rejected with `RewardAlreadyTaken`.
pub proof fn lemma_claim_single_use(g: Game, caller: Seq<u8>)
    requires
        claim_check(g, caller) is None,
    ensures
        claim_check(claimed(g), caller) == Some(TicTacToeError::RewardAlreadyTaken),
{
}

/// The cells of the `k`-th winning line, as board indices.
fn trio_cells(k: usize) -> (t: [usize; 3])
    requires
        k < 8,
    ensures
        (t@[0] as int, t@[1] as int, t@[2] as int) == win_pattern(k as int),
        t@[0] < 9,
        t@[1] < 9,
        t@[2] < 9,
{
    match k {
        0 => [0, 1, 2],
        1 => [3, 4, 5],
        2 => [6, 7, 8],
        3 => [0, 3, 6],
        4 => [1, 4, 7],
        5 => [2, 5, 8],
        6 => [0, 4, 8],
        _ => [2, 4, 6],
    }
}

} // verus!
