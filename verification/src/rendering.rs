//! Screen geometry for drawing the board: where cells, overlays and menu
//! lines land on the terminal, and which highlights a frame shows.

use unicode_width::UnicodeWidthStr;
use vstd::prelude::*;

use crate::constants::CELL_WIDTH;
use crate::game::{level_for, Game, GameState};
use crate::text::{chars_of, decimal_digits, decimal_text};
use crate::theme::Color;

verus! {

/// Converts a logical game cell to a terminal cursor column and row.
pub fn cell_to_terminal(x: u16, y: u16) -> (pos: (u16, u16))
    requires
        x * CELL_WIDTH <= u16::MAX,
    ensures
        pos == (((x * CELL_WIDTH) as u16, y)),
{
    (x * CELL_WIDTH, y)
}

/// Returns the total terminal columns spanned by the board.
pub fn terminal_width(board_width: u16) -> (w: u16)
    requires
        board_width * CELL_WIDTH <= u16::MAX,
    ensures
        w == board_width * CELL_WIDTH,
{
    board_width * CELL_WIDTH
}

/// The number of terminal columns that
/// `unicode_width::UnicodeWidthStr::width` gives the text.
pub uninterp spec fn display_width(text: Seq<char>) -> usize;

/// The displayed width of `text` in terminal columns, by
/// `UnicodeWidthStr::width`; the contract names the result
/// `display_width(text@)` and says nothing more of it.
#[verifier::external_body]
fn text_width(text: &str) -> (w: usize)
    ensures
        w == display_width(text@),
{
    text.width()
}

/// The column at which a text `width` columns wide starts when centered on
/// `center_x`: half the width (as a `u16`) to the left, but not past column 0.
pub open spec fn column_for(center_x: u16, width: usize) -> u16 {
    let half = ((width as u16) / 2) as u16;
    if half <= center_x {
        (center_x - half) as u16
    } else {
        0
    }
}

/// The start column of a text `width` columns wide centered on `center_x`.
pub fn centered_column_for_width(center_x: u16, width: usize) -> (col: u16)
    ensures
        col == column_for(center_x, width),
{
    center_x.saturating_sub(#[verifier::truncate] (width as u16) / 2)
}

/// The start column of `text` centered on `center_x`.
pub fn centered_column(center_x: u16, text: &str) -> (col: u16)
    ensures
        col == column_for(center_x, display_width(text@)),
{
    centered_column_for_width(center_x, text_width(text))
}

/// Where an overlay of `line_count` lines goes: the center column of the
/// board and the row of its first line, so that the lines straddle the
/// middle row.
pub fn overlay_origin(board_width: u16, board_height: u16, line_count: usize) -> (origin: (u16, u16))
    requires
        board_width * CELL_WIDTH <= u16::MAX,
        (line_count as u16) / 2 <= board_height / 2,
    ensures
        origin.0 == board_width * CELL_WIDTH / 2,
        origin.1 == board_height / 2 - (line_count as u16) / 2,
{
    let center_x = terminal_width(board_width) / 2;
    let start_y = board_height / 2 - (#[verifier::truncate] (line_count as u16)) / 2;
    (center_x, start_y)
}

/// Rows of the title screen for a board `board_height` rows high: the title
/// art starts a fifth of the way down, the instructions three rows below its
/// `title_lines` lines, and the high score one row below the
/// `info_lines` lines of instructions.
pub fn menu_rows(board_height: u16, title_lines: u16, info_lines: u16) -> (rows: (u16, u16, u16))
    requires
        board_height / 5 + title_lines + 3 + info_lines + 1 <= u16::MAX,
    ensures
        rows.0 == board_height / 5,
        rows.1 == rows.0 + title_lines + 3,
        rows.2 == rows.1 + info_lines + 1,
{
    let title_y = board_height / 5;
    let info_y = title_y + title_lines + 3;
    (title_y, info_y, info_y + info_lines + 1)
}

/// The end screens announce a new high score when there is a score and it
/// reaches the record.
pub fn shows_new_high_score(score: usize, high_score: usize) -> (shown: bool)
    ensures
        shown == (score > 0 && score >= high_score),
{
    score > 0 && score >= high_score
}

/// The death flash shows the bright red on even frames and the dark red on
/// odd ones.
pub fn death_flash_is_bright(frame: u8) -> (bright: bool)
    ensures
        bright == (frame % 2 == 0),
{
    frame % 2 == 0
}

/// The characters and color of each overlay line, in order.
pub open spec fn line_views(lines: Seq<(Vec<char>, Color)>) -> Seq<(Seq<char>, Color)> {
    lines.map_values(|line: (Vec<char>, Color)| (line.0@, line.1))
}

/// The end-screen summary: score, snake length and speed level.
pub open spec fn summary_text(score: nat, length: nat, level: nat) -> Seq<char> {
    "Score: "@ + decimal_digits(score) + "  Length: "@ + decimal_digits(length) + "  Level: "@
        + decimal_digits(level)
}

/// The text drawn over the board in each state: a pause banner while paused,
/// and on the end screens the title, a new-high-score notice when one was
/// set, the summary and the two choices. Other states draw none.
pub open spec fn overlay_text(game: Game) -> Seq<(Seq<char>, Color)> {
    let blank = (Seq::<char>::empty(), Color::White);
    let notice = if game.score > 0 && game.score >= game.high_score {
        seq![("NEW HIGH SCORE!"@, Color::Yellow), blank]
    } else {
        Seq::empty()
    };
    let closing = seq![
        (summary_text(game.score as nat, game.body().len(), level_for(game.score as int) as nat), Color::Yellow),
        blank,
        ("[R] Play Again"@, Color::White),
        ("[Q] Quit"@, Color::DarkGrey),
    ];
    match game.state {
        GameState::Paused => seq![("--- PAUSED ---"@, Color::Yellow)],
        GameState::GameOver => seq![("GAME OVER"@, Color::Red), blank] + notice + closing,
        GameState::Win => seq![("YOU WIN!"@, Color::Green), blank] + notice + closing,
        _ => Seq::empty(),
    }
}

/// The end screens: the game-over screen opens with a red "GAME OVER" and
/// the win screen with a green "YOU WIN!"; after that title the two are the
/// same, and they show the "NEW HIGH SCORE!" notice exactly when there is a
/// score and it reaches the record.
pub proof fn lemma_end_screens(game: Game)
    requires
        game.state is GameOver || game.state is Win,
    ensures
        game.state is GameOver ==> overlay_text(game)[0] == ("GAME OVER"@, Color::Red),
        game.state is Win ==> overlay_text(game)[0] == ("YOU WIN!"@, Color::Green),
        overlay_text(Game { state: GameState::GameOver, ..game }).drop_first() == overlay_text(
            Game { state: GameState::Win, ..game },
        ).drop_first(),
        overlay_text(game).contains(("NEW HIGH SCORE!"@, Color::Yellow)) <==> (game.score > 0
            && game.score >= game.high_score),
{
    let lines = overlay_text(game);
    let notice = ("NEW HIGH SCORE!"@, Color::Yellow);
    reveal_strlit("NEW HIGH SCORE!");
    reveal_strlit("Score: ");
    if game.score > 0 && game.score >= game.high_score {
        assert(lines[2] == notice);
    } else {
        if lines.contains(notice) {
            let k = choose|k: int| 0 <= k < lines.len() && lines[k] == notice;
            assert(lines[k].1 == Color::Yellow);
            assert(k == 2);
            assert(lines[2].0[0] == 'S');
            assert(notice.0[0] == 'N');
        }
    }
    assert(overlay_text(Game { state: GameState::GameOver, ..game }).drop_first() =~= overlay_text(
        Game { state: GameState::Win, ..game },
    ).drop_first());
}

/// The end-screen summary line of a game.
fn summary_line(game: &Game) -> (line: Vec<char>)
    ensures
        line@ == summary_text(
            game.score as nat,
            game.body().len(),
            level_for(game.score as int) as nat,
        ),
{
    let mut line = chars_of("Score: ");
    let mut part = decimal_text(game.score);
    line.append(&mut part);
    let mut part = chars_of("  Length: ");
    line.append(&mut part);
    let mut part = decimal_text(game.snake.body.len());
    line.append(&mut part);
    let mut part = chars_of("  Level: ");
    line.append(&mut part);
    let level = game.level();
    let mut part = decimal_text(level as usize);
    line.append(&mut part);
    line
}

/// The lines to draw over the board, with their colors.
pub fn overlay_lines(game: &Game) -> (lines: Vec<(Vec<char>, Color)>)
    ensures
        line_views(lines@) == overlay_text(*game),
{
    let mut lines: Vec<(Vec<char>, Color)> = Vec::new();
    let ended = match game.state {
        GameState::Paused => {
            lines.push((chars_of("--- PAUSED ---"), Color::Yellow));
            assert(line_views(lines@) =~= overlay_text(*game));
            return lines;
        },
        GameState::GameOver => {
            lines.push((chars_of("GAME OVER"), Color::Red));
            true
        },
        GameState::Win => {
            lines.push((chars_of("YOU WIN!"), Color::Green));
            true
        },
        _ => false,
    };
    if !ended {
        assert(line_views(lines@) =~= overlay_text(*game));
        return lines;
    }
    lines.push((Vec::new(), Color::White));
    if shows_new_high_score(game.score, game.high_score) {
        lines.push((chars_of("NEW HIGH SCORE!"), Color::Yellow));
        lines.push((Vec::new(), Color::White));
    }
    lines.push((summary_line(game), Color::Yellow));
    lines.push((Vec::new(), Color::White));
    lines.push((chars_of("[R] Play Again"), Color::White));
    lines.push((chars_of("[Q] Quit"), Color::DarkGrey));
    assert(line_views(lines@) =~= overlay_text(*game));
    lines
}

/// The three fields of the status bar: the score, the best score and the
/// speed level.
pub fn status_fields(game: &Game) -> (fields: (Vec<char>, Vec<char>, Vec<char>))
    ensures
        fields.0@ == " Score: "@ + decimal_digits(game.score as nat) + " "@,
        fields.1@ == " Best: "@ + decimal_digits(game.high_score as nat) + " "@,
        fields.2@ == " Lv."@ + decimal_digits(level_for(game.score as int) as nat) + " "@,
{
    let mut score = chars_of(" Score: ");
    let mut part = decimal_text(game.score);
    score.append(&mut part);
    let mut part = chars_of(" ");
    score.append(&mut part);
    let mut best = chars_of(" Best: ");
    let mut part = decimal_text(game.high_score);
    best.append(&mut part);
    let mut part = chars_of(" ");
    best.append(&mut part);
    let mut level = chars_of(" Lv.");
    let mut part = decimal_text(game.level() as usize);
    level.append(&mut part);
    let mut part = chars_of(" ");
    level.append(&mut part);
    (score, best, level)
}

/// The title screen shows the high score once there is one.
pub fn menu_high_score_line(high_score: usize) -> (line: Option<Vec<char>>)
    ensures
        line is Some <==> high_score > 0,
        line matches Some(l) ==> l@ == "High Score: "@ + decimal_digits(high_score as nat),
{
    if high_score > 0 {
        let mut line = chars_of("High Score: ");
        let mut part = decimal_text(high_score);
        line.append(&mut part);
        Some(line)
    } else {
        None
    }
}

} // verus!
