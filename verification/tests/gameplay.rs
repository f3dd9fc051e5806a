use tactoe::board::{Grid, Sign};
use tactoe::game::{play, setup_game, Game, GameState, TicTacToeError};

const PLAYER: [u8; 32] = [7; 32];
const STRANGER: [u8; 32] = [9; 32];

/// Entropy that makes every shuffle step draw its own position: the cell
/// resolution order stays 0..=8, so plays resolve cells left to right.
const IN_ORDER: [u64; 8] = [1, 2, 3, 4, 5, 6, 7, 8];

fn fresh_game() -> Game {
    setup_game(PLAYER, IN_ORDER)
}

/// A hand-built active game that resolves cells in the given order.
fn game_with_order(rest_grid: [u8; 9]) -> Game {
    Game {
        player: PLAYER,
        board: [Grid { my_bid: 0, op_bid: 0, flag: None }; 9],
        state: GameState::Active,
        my_balance: 100,
        op_balance: 100,
        current_index: 0,
        rest_grid,
        can_get_reward: false,
    }
}

fn wealth(g: &Game) -> u32 {
    let mut total = g.my_balance as u32 + g.op_balance as u32;
    for cell in g.board.iter() {
        total += cell.my_bid as u32 + cell.op_bid as u32;
    }
    total
}

#[test]
fn setup_initializes_the_game() {
    let g = fresh_game();
    assert_eq!(g.my_balance, 100);
    assert_eq!(g.op_balance, 100);
    assert_eq!(g.current_index, 0);
    assert!(g.is_active());
    assert!(!g.can_get_reward);
    assert_eq!(g.player, PLAYER);
    assert_eq!(g.rest_grid, [0, 1, 2, 3, 4, 5, 6, 7, 8]);
    for cell in g.board.iter() {
        assert_eq!(cell.flag, None);
        assert_eq!(cell.my_bid, 0);
        assert_eq!(cell.op_bid, 0);
    }
}

#[test]
fn setup_always_yields_a_permutation_order() {
    for entropy in [[0u64; 8], [u64::MAX; 8], [12, 3456, 7, 8, 90, 1, 23, 4]] {
        let g = setup_game(PLAYER, entropy);
        let mut sorted = g.rest_grid;
        sorted.sort();
        assert_eq!(sorted, [0, 1, 2, 3, 4, 5, 6, 7, 8]);
    }
}

#[test]
fn winning_bid_resolves_cell_for_player() {
    // Counter 5 against a full opponent balance gives an opponent bid of
    // 5 % 101 == 5; a wager of 10 beats it.
    let mut g = fresh_game();
    let r = play(&mut g, &PLAYER, 10, 5);
    assert_eq!(r, Ok(()));
    assert_eq!(g.board[0].flag, Some(Sign::X));
    assert_eq!(g.board[0].my_bid, 10);
    assert_eq!(g.board[0].op_bid, 5);
    assert_eq!(g.my_balance, 90);
    assert_eq!(g.op_balance, 95);
    assert_eq!(g.current_index, 1);
    assert!(g.is_active());
}

#[test]
fn tie_resolves_cell_for_bot() {
    // Equal bids go to the bot: 5 % 101 == 5 against a wager of 5.
    let mut g = fresh_game();
    assert_eq!(play(&mut g, &PLAYER, 5, 5), Ok(()));
    assert_eq!(g.board[0].flag, Some(Sign::O));
    assert_eq!(g.my_balance, 95);
    assert_eq!(g.op_balance, 95);
}

#[test]
fn stranger_cannot_play() {
    let mut g = fresh_game();
    let before = g;
    assert_eq!(play(&mut g, &STRANGER, 10, 5), Err(TicTacToeError::InvalidPlayer));
    assert_eq!(g, before);
}

#[test]
fn over_balance_wager_is_rejected() {
    let mut g = fresh_game();
    let before = g;
    assert_eq!(play(&mut g, &PLAYER, 101, 5), Err(TicTacToeError::OverBalance));
    assert_eq!(g, before);
}

#[test]
fn defensive_guard_rejects_a_pre_resolved_cell() {
    // No reachable game state has the next cell already resolved; the guard
    // is exercised on a hand-built value that breaks that invariant.
    let mut g = game_with_order([0, 1, 2, 3, 4, 5, 6, 7, 8]);
    g.board[0].flag = Some(Sign::O);
    let before = g;
    assert_eq!(play(&mut g, &PLAYER, 10, 5), Err(TicTacToeError::TileAlreadySet));
    assert_eq!(g, before);
}

#[test]
fn first_row_of_winning_bids_wins_the_game() {
    // Entropy 0 keeps the opponent bid at 0, so a wager of 1 takes each
    // cell; cells 0, 1, 2 complete the first row.
    let mut g = fresh_game();
    assert_eq!(play(&mut g, &PLAYER, 1, 0), Ok(()));
    assert!(g.is_active());
    assert_eq!(play(&mut g, &PLAYER, 1, 0), Ok(()));
    assert!(g.is_active());
    assert_eq!(g.current_index, 2);
    assert_eq!(play(&mut g, &PLAYER, 1, 0), Ok(()));
    assert_eq!(g.state, GameState::Won);
    assert!(g.can_get_reward);
    // The pointer is frozen at the move that completed the line.
    assert_eq!(g.current_index, 2);
    assert_eq!(g.my_balance, 97);
    assert_eq!(g.op_balance, 100);
}

#[test]
fn first_row_of_losing_bids_loses_the_game() {
    // A wager of 0 never beats the opponent, so the bot takes the row.
    let mut g = fresh_game();
    for _ in 0..2 {
        assert_eq!(play(&mut g, &PLAYER, 0, 0), Ok(()));
        assert!(g.is_active());
    }
    assert_eq!(play(&mut g, &PLAYER, 0, 0), Ok(()));
    assert_eq!(g.state, GameState::Lose);
    assert!(g.can_get_reward);
    assert_eq!(g.current_index, 2);
}

#[test]
fn five_scattered_cells_win_by_majority() {
    // Cells 0, 1, 5, 6, 7 share no line, so no triple ever completes; the
    // fifth resolved cell triggers the majority rule.
    let mut g = game_with_order([0, 1, 5, 6, 7, 2, 3, 4, 8]);
    for turn in 0..4 {
        assert_eq!(play(&mut g, &PLAYER, 1, 0), Ok(()));
        assert!(g.is_active(), "no line and no majority after {} moves", turn + 1);
    }
    assert_eq!(play(&mut g, &PLAYER, 1, 0), Ok(()));
    assert_eq!(g.state, GameState::Won);
    assert!(g.can_get_reward);
    assert_eq!(g.current_index, 4);
    for i in [0usize, 1, 5, 6, 7] {
        assert_eq!(g.board[i].flag, Some(Sign::X));
    }
}

#[test]
fn five_scattered_cells_lose_by_majority() {
    let mut g = game_with_order([0, 1, 5, 6, 7, 2, 3, 4, 8]);
    for _ in 0..4 {
        assert_eq!(play(&mut g, &PLAYER, 0, 0), Ok(()));
        assert!(g.is_active());
    }
    assert_eq!(play(&mut g, &PLAYER, 0, 0), Ok(()));
    assert_eq!(g.state, GameState::Lose);
    assert!(g.can_get_reward);
}

#[test]
fn finished_game_rejects_every_further_move() {
    let mut g = fresh_game();
    for _ in 0..3 {
        assert_eq!(play(&mut g, &PLAYER, 1, 0), Ok(()));
    }
    assert_eq!(g.state, GameState::Won);
    let frozen = g;
    for (amount, entropy) in [(1u8, 0u64), (0, 7), (50, 123)] {
        assert_eq!(play(&mut g, &PLAYER, amount, entropy), Err(TicTacToeError::GameAlreadyOver));
        assert_eq!(g, frozen);
    }
}

#[test]
fn wagering_the_whole_balance_is_allowed() {
    let mut g = fresh_game();
    assert_eq!(play(&mut g, &PLAYER, 100, 0), Ok(()));
    assert_eq!(g.my_balance, 0);
    assert_eq!(g.board[0].flag, Some(Sign::X));
    // With nothing left, any further positive wager is over balance.
    assert_eq!(play(&mut g, &PLAYER, 1, 0), Err(TicTacToeError::OverBalance));
}

#[test]
fn resolution_order_is_fixed_at_setup() {
    let mut g = setup_game(PLAYER, [12, 3456, 7, 8, 90, 1, 23, 4]);
    let order = g.rest_grid;
    while g.is_active() {
        assert_eq!(play(&mut g, &PLAYER, 3, 17), Ok(()));
        assert_eq!(g.rest_grid, order);
    }
    assert_eq!(g.rest_grid, order);
}

#[test]
fn wealth_is_conserved_through_a_whole_game() {
    let mut g = fresh_game();
    assert_eq!(wealth(&g), 200);
    let entropies = [13u64, 4096, 55, 7, 100, 2021, 9, 18, 31];
    let mut moves = 0;
    while g.is_active() {
        let wager = 9 - moves as u8;
        assert_eq!(play(&mut g, &PLAYER, wager, entropies[moves]), Ok(()));
        assert_eq!(wealth(&g), 200);
        moves += 1;
        assert!(moves <= 9);
    }
    assert_eq!(wealth(&g), 200);
}

#[test]
fn no_cell_is_resolved_twice_and_pointer_only_moves_while_active() {
    let mut g = fresh_game();
    let mut resolved: Vec<usize> = Vec::new();
    let mut last_index = 0u8;
    while g.is_active() {
        let before = g.board;
        assert_eq!(play(&mut g, &PLAYER, 2, 41), Ok(()));
        let mut newly = None;
        for i in 0..9 {
            if g.board[i].flag.is_some() && before[i].flag.is_none() {
                assert!(newly.is_none(), "more than one cell resolved by one move");
                newly = Some(i);
            }
            if before[i].flag.is_some() {
                assert_eq!(g.board[i].flag, before[i].flag, "a resolved cell was reassigned");
            }
        }
        let cell = newly.expect("a successful move must resolve one cell");
        assert!(!resolved.contains(&cell));
        resolved.push(cell);
        if g.is_active() {
            assert_eq!(g.current_index, last_index + 1);
            last_index = g.current_index;
        } else {
            assert_eq!(g.current_index, last_index);
        }
    }
}
