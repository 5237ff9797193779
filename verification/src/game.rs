//! One game from the first move to its end: whose turn it is, what a line of
//! input does to the board, and when the game is over.

use vstd::prelude::*;
use vstd::string::StringExecFns;

use crate::board::{
    cell_index, empty_cells, full, grid_text, in_range, lemma_marks_bounded, marks_placed,
    Board, BoardError, Cell, Mark,
};
use crate::input::{is_quit, parse_input, parse_move_spec, Coordinate, Input, ParseError};
use crate::player::Player;
use crate::win::{
    any_column_won, any_diagonal_won, any_row_won, check_win_columns, check_win_diagonal1,
    check_win_diagonal2, check_win_diagonals, check_win_rows, diagonal1_won, diagonal2_won,
    has_winner, winning,
};

verus! {

/// Where a game stands.
#[derive(Clone, Copy, Debug, PartialEq, Eq, Structural)]
pub enum Phase {
    /// The player whose turn it is has yet to move.
    AwaitingMove,
    /// The player whose turn it is has completed a line.
    Won,
    /// A player has left the game.
    Quit,
}

/// What a line of input led to, and so what to do next.
#[derive(Clone, Copy, Debug, PartialEq, Eq, Structural)]
pub enum Reply {
    /// The text names no cell: say why and ask the same player again.
    Rejected(ParseError),
    /// The cell is occupied: say so and ask the same player again.
    PlaceTaken,
    /// The mark is on the board and it is the other player's turn.
    Played,
    /// The mark is on the board and completes a line: the mover has won.
    Won,
    /// The player asked to quit: stop at once.
    Quit,
}

/// A game as a plain value.
pub struct GameView {
    /// The nine cells, row by row.
    pub cells: Seq<Cell>,
    /// Whose turn it is: 0 for the player of X, 1 for the player of O.
    pub turn: int,
    /// The number of the round being played: 1 in a new game, and the same
    /// for as long as the game lasts.
    pub round: nat,
    pub phase: Phase,
    /// The name of the player of X.
    pub x_name: Seq<char>,
    /// The name of the player of O.
    pub o_name: Seq<char>,
}

/// The mark of the player at place `turn` of the turn cycle.
pub open spec fn mark_of_turn(turn: int) -> Mark {
    if turn == 0 {
        Mark::X
    } else {
        Mark::O
    }
}

/// The start of a game between two players: an empty board, X to move.
pub open spec fn initial_view(x_name: Seq<char>, o_name: Seq<char>) -> GameView {
    GameView {
        cells: empty_cells(),
        turn: 0,
        round: 1,
        phase: Phase::AwaitingMove,
        x_name,
        o_name,
    }
}

/// The game after `mark` went onto the cell at `index`: that one cell has
/// changed, and nothing else.
pub open spec fn with_mark(pre: GameView, index: int, mark: Mark) -> GameView {
    GameView { cells: pre.cells.update(index, Cell::Taken(mark)), ..pre }
}

/// Whether the game can only end in a tie: the board is full and no line
/// is complete.
pub open spec fn drawn(cells: Seq<Cell>) -> bool {
    full(cells) && !winning(cells)
}

/// Whether a player is to be asked for a line of input: the game awaits a
/// move and there is still a way for it to go on.
pub open spec fn prompt_due(game: GameView) -> bool {
    game.phase == Phase::AwaitingMove && !drawn(game.cells)
}

/// What an attempt to play the cell at `row` and `col` does. On an
/// occupied cell nothing changes. On a free one the mover's mark is placed;
/// if that completes a line the mover has won, else the turn passes on.
pub open spec fn after_move(pre: GameView, row: int, col: int) -> (GameView, Reply) {
    let index = cell_index(row, col);
    if pre.cells[index] != Cell::Empty {
        (pre, Reply::PlaceTaken)
    } else {
        let marked = with_mark(pre, index, mark_of_turn(pre.turn));
        if winning(marked.cells) {
            (GameView { phase: Phase::Won, ..marked }, Reply::Won)
        } else {
            (GameView { turn: (pre.turn + 1) % 2, ..marked }, Reply::Played)
        }
    }
}

/// What a line of input does: `q` ends the game, text that names no cell
/// changes nothing, and a move is played as `after_move` says.
pub open spec fn after_input(pre: GameView, text: Seq<char>) -> (GameView, Reply) {
    if is_quit(text) {
        (GameView { phase: Phase::Quit, ..pre }, Reply::Quit)
    } else {
        match parse_move_spec(text) {
            Err(reason) => (pre, Reply::Rejected(reason)),
            Ok(cell) => after_move(pre, cell.0, cell.1),
        }
    }
}

/// A move onto an occupied cell changes nothing: the board, the turn and
/// the round stay, and the same player is asked again.
pub proof fn lemma_occupied_cell_changes_nothing(pre: GameView, row: int, col: int)
    requires
        pre.cells[cell_index(row, col)] != Cell::Empty,
    ensures
        after_move(pre, row, col) == (pre, Reply::PlaceTaken),
{
}

/// Text that names no cell and is not the request to quit changes nothing,
/// and the reply carries the parser's reason.
pub proof fn lemma_refused_text_changes_nothing(pre: GameView, text: Seq<char>)
    requires
        !is_quit(text),
        parse_move_spec(text) is Err,
    ensures
        after_input(pre, text).0 == pre,
        after_input(pre, text).1 == Reply::Rejected(parse_move_spec(text)->Err_0),
{
}

/// The request to quit ends the game whatever its state, and leaves the
/// board, the turn and the round as they were.
pub proof fn lemma_quit_ends_the_game(pre: GameView, text: Seq<char>)
    requires
        is_quit(text),
    ensures
        after_input(pre, text).1 == Reply::Quit,
        after_input(pre, text).0.phase == Phase::Quit,
        after_input(pre, text).0.cells == pre.cells,
        after_input(pre, text).0.turn == pre.turn,
        after_input(pre, text).0.round == pre.round,
{
}

/// A line of input changes at most one cell, from empty to the mark of the
/// player to move, and never changes the round or the players.
pub proof fn lemma_input_marks_at_most_one_cell(pre: GameView, text: Seq<char>)
    requires
        pre.cells.len() == 9,
    ensures
        after_input(pre, text).0.cells.len() == 9,
        after_input(pre, text).0.round == pre.round,
        after_input(pre, text).0.x_name == pre.x_name,
        after_input(pre, text).0.o_name == pre.o_name,
        after_input(pre, text).0.cells == pre.cells || exists|index: int|
            0 <= index < 9 && pre.cells[index] == Cell::Empty && after_input(pre, text).0.cells
                == #[trigger] pre.cells.update(index, Cell::Taken(mark_of_turn(pre.turn))),
{
    if !is_quit(text) {
        match parse_move_spec(text) {
            Ok(cell) => {
                let index = cell_index(cell.0, cell.1);
                if pre.cells[index] == Cell::Empty {
                    assert(0 <= index < 9);
                    assert(after_input(pre, text).0.cells == pre.cells.update(
                        index,
                        Cell::Taken(mark_of_turn(pre.turn)),
                    ));
                }
            },
            Err(_) => {},
        }
    }
}

/// In a game that awaits a move, the turn passes to the other player
/// exactly when a mark was placed without completing a line, and the game
/// is won exactly when the reply says so; the winner is the player who moved.
pub proof fn lemma_turn_passes_only_after_a_move(pre: GameView, text: Seq<char>)
    requires
        0 <= pre.turn < 2,
        pre.phase == Phase::AwaitingMove,
    ensures
        after_input(pre, text).1 == Reply::Played ==> after_input(pre, text).0.turn == 1
            - pre.turn,
        after_input(pre, text).1 != Reply::Played ==> after_input(pre, text).0.turn == pre.turn,
        after_input(pre, text).1 == Reply::Won <==> after_input(pre, text).0.phase == Phase::Won,
        after_input(pre, text).1 == Reply::Quit <==> after_input(pre, text).0.phase
            == Phase::Quit,
{
}

/// What the player to move is asked, after the greeting by name.
pub open spec fn prompt_tail() -> Seq<char> {
    ". Please type the row and column (<row><column>)\nfor the next play, or q to quit: "@
}

/// The question put to a player called `name`.
pub open spec fn prompt_text(name: Seq<char>) -> Seq<char> {
    "Hi "@ + name + prompt_tail()
}

/// The words for the winner called `name` who played `mark`.
pub open spec fn victory_text(name: Seq<char>, mark: Mark) -> Seq<char> {
    "Congratulations "@ + name + "("@ + seq![mark.symbol_spec()] + "), you won!!!"@
}

/// The board, the two players, whose turn it is, and the round.
#[derive(Debug)]
pub struct GameState {
    table: Board,
    round: u32,
    x_player: Player,
    o_player: Player,
    turn: usize,
    phase: Phase,
}

impl View for GameState {
    type V = GameView;

    closed spec fn view(&self) -> GameView {
        GameView {
            cells: self.table@,
            turn: self.turn as int,
            round: self.round as nat,
            phase: self.phase,
            x_name: self.x_player.name_spec(),
            o_name: self.o_player.name_spec(),
        }
    }
}

impl GameState {
    /// What holds of every game: the turn is 0 or 1, the first player has X
    /// and the second has O.
    pub closed spec fn wf(&self) -> bool {
        &&& self.turn < 2
        &&& self.x_player.mark_spec() == Mark::X
        &&& self.o_player.mark_spec() == Mark::O
    }

    /// What a well-formed game shows in its view.
    pub proof fn lemma_wf_view(&self)
        requires
            self.wf(),
        ensures
            self@.cells.len() == 9,
            0 <= self@.turn < 2,
            marks_placed(self@.cells) <= 9,
    {
        self.table.lemma_nine_cells();
        lemma_marks_bounded(self.table@);
    }

    /// A new game between the player of X, who moves first, and the player
    /// of O.
    pub fn new(x_name: String, o_name: String) -> (game: GameState)
        requires
            x_name@.len() > 0,
            o_name@.len() > 0,
        ensures
            game.wf(),
            game@ == initial_view(x_name@, o_name@),
    {
        let xplayer = Player::new(x_name, Mark::X);
        let oplayer = Player::new(o_name, Mark::O);
        GameState {
            table: Board::new(),
            round: 1,
            x_player: xplayer,
            o_player: oplayer,
            turn: 0,
            phase: Phase::AwaitingMove,
        }
    }

    pub fn board(&self) -> (board: &Board)
        ensures
            board@ == self@.cells,
    {
        &self.table
    }

    pub fn turn(&self) -> (turn: usize)
        ensures
            turn == self@.turn,
    {
        self.turn
    }

    pub fn round(&self) -> (round: u32)
        ensures
            round == self@.round,
    {
        self.round
    }

    pub fn phase(&self) -> (phase: Phase)
        ensures
            phase == self@.phase,
    {
        self.phase
    }

    /// The player at place `index` of the turn cycle: the player of X for
    /// 0, the player of O for 1.
    pub fn player(&self, index: usize) -> (player: &Player)
        requires
            self.wf(),
            index < 2,
        ensures
            player.mark_spec() == mark_of_turn(index as int),
            player.name_spec() == if index == 0 {
                self@.x_name
            } else {
                self@.o_name
            },
    {
        if index == 0 {
            &self.x_player
        } else {
            &self.o_player
        }
    }

    /// The player whose turn it is.
    pub fn current_player(&self) -> (player: &Player)
        requires
            self.wf(),
        ensures
            player.mark_spec() == mark_of_turn(self@.turn),
            player.name_spec() == if self@.turn == 0 {
                self@.x_name
            } else {
                self@.o_name
            },
    {
        self.player(self.turn)
    }

    /// Whether the cell at `row` and `col` is free to play. Off the board
    /// there is no cell to speak of, and the answer is `OutOfRange`.
    pub fn is_updatable(&self, row: u8, col: u8) -> (res: Result<bool, BoardError>)
        ensures
            in_range(row as int, col as int) ==> res == Ok::<bool, BoardError>(
                self@.cells[cell_index(row as int, col as int)] == Cell::Empty,
            ),
            !in_range(row as int, col as int) ==> res == Err::<bool, BoardError>(
                BoardError::OutOfRange,
            ),
    {
        self.table.is_empty(row, col)
    }

    /// Puts the mark of player `playeri` on the cell at `row` and `column`
    /// if that cell is on the board and free, and refuses if it is not.
    /// Only that cell changes: the other cells, the players, the turn, the
    /// round and the phase stay. After a refusal nothing has changed.
    pub fn update_table(&mut self, row: u8, column: u8, playeri: usize) -> (res: Result<
        (),
        BoardError,
    >)
        requires
            old(self).wf(),
            playeri < 2,
        ensures
            final(self).wf(),
            !in_range(row as int, column as int) ==> res == Err::<(), BoardError>(
                BoardError::OutOfRange,
            ) && final(self)@ == old(self)@,
            in_range(row as int, column as int) && old(self)@.cells[cell_index(
                row as int,
                column as int,
            )] != Cell::Empty ==> res == Err::<(), BoardError>(BoardError::CellOccupied)
                && final(self)@ == old(self)@,
            in_range(row as int, column as int) && old(self)@.cells[cell_index(
                row as int,
                column as int,
            )] == Cell::Empty ==> res == Ok::<(), BoardError>(()) && final(self)@ == with_mark(
                old(self)@,
                cell_index(row as int, column as int),
                mark_of_turn(playeri as int),
            ),
    {
        let mark = self.player(playeri).get_mark();
        self.table.place(row, column, mark)
    }

    pub fn check_win_rows(&self) -> (won: bool)
        ensures
            won == any_row_won(self@.cells),
    {
        check_win_rows(&self.table)
    }

    pub fn check_win_columns(&self) -> (won: bool)
        ensures
            won == any_column_won(self@.cells),
    {
        check_win_columns(&self.table)
    }

    pub fn check_win_diagonal1(&self) -> (won: bool)
        ensures
            won == diagonal1_won(self@.cells),
    {
        check_win_diagonal1(&self.table)
    }

    pub fn check_win_diagonal2(&self) -> (won: bool)
        ensures
            won == diagonal2_won(self@.cells),
    {
        check_win_diagonal2(&self.table)
    }

    pub fn check_win_diagonals(&self) -> (won: bool)
        ensures
            won == any_diagonal_won(self@.cells),
    {
        check_win_diagonals(&self.table)
    }

    /// Whether a line is complete.
    pub fn is_win(&self) -> (won: bool)
        ensures
            won == winning(self@.cells),
    {
        has_winner(&self.table)
    }

    /// Whether the game can only end in a tie: the board is full and no
    /// line is complete.
    pub fn is_draw(&self) -> (tie: bool)
        ensures
            tie == drawn(self@.cells),
    {
        self.table.is_full() && !has_winner(&self.table)
    }

    /// Whether a player is to be asked for a line of input. Once this is
    /// false the game is over: won, left, or drawn.
    pub fn awaits_input(&self) -> (due: bool)
        ensures
            due == prompt_due(self@),
    {
        self.phase == Phase::AwaitingMove && !self.is_draw()
    }

    /// The player to move tries the cell `cell`.
    pub fn play(&mut self, cell: Coordinate) -> (reply: Reply)
        requires
            old(self).wf(),
            old(self)@.phase == Phase::AwaitingMove,
        ensures
            final(self).wf(),
            final(self)@ == after_move(old(self)@, cell.row_index(), cell.col_index()).0,
            reply == after_move(old(self)@, cell.row_index(), cell.col_index()).1,
    {
        let row = cell.row();
        let col = cell.col();
        // A coordinate is always on the board and the cell is looked at
        // before it is marked, so neither call below is ever refused.
        let free = match self.is_updatable(row, col) {
            Ok(free) => free,
            Err(_) => {
                assert(false);
                false
            },
        };
        if !free {
            return Reply::PlaceTaken;
        }
        let mover = self.turn;
        match self.update_table(row, col, mover) {
            Ok(()) => {
                if self.is_win() {
                    self.phase = Phase::Won;
                    Reply::Won
                } else {
                    self.turn = (self.turn + 1) % 2;
                    Reply::Played
                }
            },
            Err(_) => {
                assert(false);
                Reply::PlaceTaken
            },
        }
    }

    /// The player to move has typed `raw_text`.
    pub fn handle_input(&mut self, raw_text: &str) -> (reply: Reply)
        requires
            old(self).wf(),
            old(self)@.phase == Phase::AwaitingMove,
        ensures
            final(self).wf(),
            final(self)@ == after_input(old(self)@, raw_text@).0,
            reply == after_input(old(self)@, raw_text@).1,
    {
        match parse_input(raw_text) {
            Ok(Input::Quit) => {
                self.phase = Phase::Quit;
                Reply::Quit
            },
            Ok(Input::Move(cell)) => self.play(cell),
            Err(reason) => Reply::Rejected(reason),
        }
    }

    /// The board as text, ready to print.
    pub fn render(&self) -> (text: String)
        ensures
            text@ == grid_text(self@.cells),
    {
        self.table.render()
    }

    /// The question to put to the player whose turn it is.
    pub fn prompt(&self) -> (text: String)
        requires
            self.wf(),
        ensures
            text@ == prompt_text(
                if self@.turn == 0 {
                    self@.x_name
                } else {
                    self@.o_name
                },
            ),
    {
        let mut text = String::from_str("Hi ");
        text.append(self.current_player().get_name());
        text.append(
            ". Please type the row and column (<row><column>)\nfor the next play, or q to quit: ",
        );
        text
    }

    /// The words for the player whose turn it is, once that player has won.
    pub fn victory_message(&self) -> (text: String)
        requires
            self.wf(),
        ensures
            text@ == victory_text(
                if self@.turn == 0 {
                    self@.x_name
                } else {
                    self@.o_name
                },
                mark_of_turn(self@.turn),
            ),
    {
        let winner = self.current_player();
        let mut text = String::from_str("Congratulations ");
        text.append(winner.get_name());
        text.append("(");
        text.append(winner.get_mark().symbol_str());
        text.append("), you won!!!");
        text
    }
}

} // verus!
