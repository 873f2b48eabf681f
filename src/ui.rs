//! What the interface keeps between frames: the console's input and log, the
//! dialogue so far and the choices on offer.
use vstd::prelude::*;

use crate::commands::{
    command_word, get_command_by_name, joined, listed, names_of, resolved, runnable, GameCommand,
    COMMANDS_NAME, FIREBALL_NAME, HELP_NAME, MAN_NAME,
};
use crate::npcs::{NpcResponse, PlayerAction};
use crate::state::GameProgress;
use crate::text::{lowercase, lowercase_of, split_words, starts_with, trim, trimmed, views};

verus! {

/// The most lines the console log keeps; older ones are dropped first.
pub const MAX_LOG_LINES: usize = 256;

pub const BANNER: &'static str = "The Inferno Interactive Console v666";

pub const BANNER_HINT: &'static str =
    "Type `commands` for a list of commands or try `help <command>`.";

pub const ECHO: &'static str = ">>> ";

pub const PLAYER_LABEL: &'static str = "You";

pub const LOG_BREAK: &'static str = "\n";

/// The tab shown in the info window.
#[derive(Clone, Copy, Debug, PartialEq, Eq, Structural)]
pub enum InfoTab {
    Dialogue,
    Details,
}

/// Which windows the story has unlocked: the info window, then the terminal.
pub open spec fn shown_windows(p: GameProgress) -> (bool, bool) {
    match p {
        GameProgress::HasTerminal => (true, true),
        GameProgress::HasPanel => (true, false),
        _ => (false, false),
    }
}

/// Which windows the story has unlocked: the info window, then the terminal.
pub fn windows_for(p: GameProgress) -> (r: (bool, bool))
    ensures
        r == shown_windows(p),
{
    match p {
        GameProgress::HasTerminal => (true, true),
        GameProgress::HasPanel => (true, false),
        GameProgress::Tutorial | GameProgress::Intro => (false, false),
    }
}

/// The texts of some lines.
pub open spec fn texts(v: Seq<String>) -> Seq<Seq<char>> {
    v.map_values(|s: String| s@)
}

/// The last `MAX_LOG_LINES` of `lines`, or all of them if fewer.
pub open spec fn kept_lines(lines: Seq<Seq<char>>) -> Seq<Seq<char>> {
    if lines.len() > MAX_LOG_LINES {
        lines.subrange(lines.len() - MAX_LOG_LINES, lines.len() as int)
    } else {
        lines
    }
}

/// One line of the dialogue as plain values: who spoke, and what.
pub open spec fn said(entry: (Option<String>, String)) -> (Option<Seq<char>>, Seq<char>) {
    (
        match entry.0 {
            Some(n) => Some(n@),
            None => None,
        },
        entry.1@,
    )
}

/// The dialogue as plain values.
pub open spec fn dialogue_view(d: Seq<(Option<String>, String)>) -> Seq<(Option<Seq<char>>, Seq<char>)> {
    d.map_values(|e: (Option<String>, String)| said(e))
}

/// The interface's own state.
pub struct UiState {
    pub terminal_input: String,
    pub terminal_log: Vec<String>,
    /// Each line said so far, with its speaker.
    pub dialogue: Vec<(Option<String>, String)>,
    /// The choices on offer; empty where the player can only go on.
    pub choices: Vec<String>,
    pub selected_tab: InfoTab,
    pub is_terminal_open: bool,
    pub is_textbox_focused: bool,
}

impl Default for UiState {
    fn default() -> (r: UiState)
        ensures
            texts(r.terminal_log@) == seq![BANNER@, BANNER_HINT@],
            r.terminal_input@ == Seq::<char>::empty(),
            r.dialogue@.len() == 0,
            r.choices@.len() == 0,
            r.selected_tab == InfoTab::Dialogue,
            !r.is_terminal_open,
            !r.is_textbox_focused,
    {
        let log = vec![String::from_str(BANNER), String::from_str(BANNER_HINT)];
        assert(texts(log@) =~= seq![BANNER@, BANNER_HINT@]);
        UiState {
            terminal_input: String::new(),
            terminal_log: log,
            dialogue: Vec::new(),
            choices: Vec::new(),
            selected_tab: InfoTab::Dialogue,
            is_terminal_open: false,
            is_textbox_focused: false,
        }
    }
}

impl UiState {
    /// Adds a line to the console log, dropping the oldest beyond the limit.
    pub fn log_message(&mut self, message: String)
        ensures
            texts(final(self).terminal_log@) == kept_lines(
                texts(old(self).terminal_log@).push(message@),
            ),
            final(self).terminal_input == old(self).terminal_input,
            final(self).dialogue == old(self).dialogue,
            final(self).choices == old(self).choices,
    {
        let ghost before = texts(self.terminal_log@);
        self.terminal_log.push(message);
        assert(texts(self.terminal_log@) =~= before.push(message@));
        let n = self.terminal_log.len();
        if n > MAX_LOG_LINES {
            let mut rest = self.terminal_log.split_off(n - MAX_LOG_LINES);
            std::mem::swap(&mut rest, &mut self.terminal_log);
            assert(texts(self.terminal_log@) =~= before.push(message@).subrange(
                n - MAX_LOG_LINES,
                n as int,
            ));
        }
    }

    /// The console log, one line after another.
    pub fn get_log_string(&self) -> (r: String)
        ensures
            r@ == joined(texts(self.terminal_log@), LOG_BREAK@),
    {
        let mut out = String::new();
        let mut i: usize = 0;
        while i < self.terminal_log.len()
            invariant
                i <= self.terminal_log.len(),
                out@ == joined(texts(self.terminal_log@.take(i as int)), LOG_BREAK@),
            decreases self.terminal_log.len() - i,
        {
            let ghost before = texts(self.terminal_log@.take(i as int));
            let ghost after = texts(self.terminal_log@.take(i + 1));
            assert(after =~= before.push(self.terminal_log@[i as int]@));
            assert(after.drop_last() =~= before);
            if i > 0 {
                out.append(LOG_BREAK);
            } else {
                assert(out@ =~= seq![]);
            }
            out.append(self.terminal_log[i].as_str());
            assert(out@ =~= joined(after, LOG_BREAK@));
            i = i + 1;
        }
        assert(self.terminal_log@.take(self.terminal_log.len() as int) =~= self.terminal_log@);
        out
    }

    /// Takes the console input as a command line: nothing for blank input;
    /// else the trimmed line, which is echoed to the log, and the input is
    /// cleared.
    pub fn submit_input(&mut self) -> (r: Option<String>)
        ensures
            trimmed(old(self).terminal_input@).len() == 0 ==> (r is None) && final(self).terminal_log
                == old(self).terminal_log && final(self).terminal_input == old(
                self,
            ).terminal_input,
            trimmed(old(self).terminal_input@).len() > 0 ==> (r is Some) && r->0@ == trimmed(
                old(self).terminal_input@,
            ) && final(self).terminal_input@ == Seq::<char>::empty() && texts(
                final(self).terminal_log@,
            ) == kept_lines(
                texts(old(self).terminal_log@).push(ECHO@ + trimmed(old(self).terminal_input@)),
            ),
            final(self).dialogue == old(self).dialogue,
            final(self).choices == old(self).choices,
    {
        let command = String::from_str(trim(self.terminal_input.as_str()));
        if command.as_str().unicode_len() == 0 {
            return None;
        }
        let mut echo = String::from_str(ECHO);
        echo.append(command.as_str());
        self.log_message(echo);
        self.terminal_input = String::new();
        Some(command)
    }

    /// Logs what a command gave, with a blank line after it.
    pub fn log_result(&mut self, result: String)
        ensures
            texts(final(self).terminal_log@) == kept_lines(
                texts(old(self).terminal_log@).push(result@ + LOG_BREAK@),
            ),
            final(self).dialogue == old(self).dialogue,
            final(self).choices == old(self).choices,
    {
        let mut line = result;
        line.append(LOG_BREAK);
        self.log_message(line);
    }

    /// Shows a character's response: its line joins the dialogue and its
    /// choices replace those on offer.
    pub fn receive_response(&mut self, response: NpcResponse)
        ensures
            dialogue_view(final(self).dialogue@) == dialogue_view(old(self).dialogue@).push(
                (response@.name, response@.message),
            ),
            texts(final(self).choices@) == response@.choices,
            final(self).terminal_log == old(self).terminal_log,
    {
        let NpcResponse { message, name, choices } = response;
        let ghost before = dialogue_view(self.dialogue@);
        let entry = (name, message);
        self.dialogue.push(entry);
        assert(dialogue_view(self.dialogue@) =~= before.push(said(entry)));
        self.choices = choices;
    }

    /// What the dialogue's "Next" button sends: a ping, offered only while no
    /// choice is on offer.
    pub fn next(&self) -> (r: Option<PlayerAction>)
        ensures
            r == if self.choices@.len() == 0 {
                Some(PlayerAction::Ping)
            } else {
                None::<PlayerAction>
            },
    {
        if self.choices.len() == 0 {
            Some(PlayerAction::Ping)
        } else {
            None
        }
    }

    /// Picks the choice at `index`: the player's line joins the dialogue, the
    /// choices are withdrawn and the answer is sent. Nothing happens for an
    /// index with no choice.
    pub fn pick_choice(&mut self, index: usize) -> (r: Option<PlayerAction>)
        ensures
            index >= old(self).choices@.len() ==> (r is None) && final(self).dialogue == old(
                self,
            ).dialogue && final(self).choices == old(self).choices,
            index < old(self).choices@.len() ==> r == Some(PlayerAction::Respond(index))
                && dialogue_view(final(self).dialogue@) == dialogue_view(old(self).dialogue@).push(
                (Some(PLAYER_LABEL@), old(self).choices@[index as int]@),
            ) && final(self).choices@.len() == 0,
            final(self).terminal_log == old(self).terminal_log,
    {
        if index >= self.choices.len() {
            return None;
        }
        let ghost before = dialogue_view(self.dialogue@);
        let line = self.choices[index].clone();
        let entry = (Some(String::from_str(PLAYER_LABEL)), line);
        self.dialogue.push(entry);
        assert(dialogue_view(self.dialogue@) =~= before.push(said(entry)));
        self.choices = Vec::new();
        Some(PlayerAction::Respond(index))
    }
}

/// Whether `a` comes no later than `b` in the order of `str`'s `Ord`: by
/// code point, character after character, a prefix first.
pub open spec fn text_le(a: Seq<char>, b: Seq<char>) -> bool
    decreases a.len(),
{
    if a.len() == 0 {
        true
    } else if b.len() == 0 {
        false
    } else if a[0] != b[0] {
        (a[0] as u32) < (b[0] as u32)
    } else {
        text_le(a.drop_first(), b.drop_first())
    }
}

/// Whether `s` is in the order of `text_le`.
pub open spec fn is_sorted(s: Seq<Seq<char>>) -> bool {
    forall|i: int, j: int| 0 <= i < j < s.len() ==> text_le(#[trigger] s[i], #[trigger] s[j])
}

/// The registered commands in the order of their names.
pub open spec fn by_name() -> Seq<GameCommand> {
    seq![GameCommand::Commands, GameCommand::Fireball, GameCommand::Help, GameCommand::Man]
}

/// The commands that complete `prefix` at `level`, in the order of their names.
pub open spec fn completions(prefix: Seq<char>, level: int) -> Seq<GameCommand> {
    by_name().filter(|c: GameCommand| runnable(c, prefix, level))
}

/// What the console suggests for a line being typed, as plain values.
pub enum HintView {
    Synopsis(Seq<char>),
    Completions(Seq<Seq<char>>),
}

/// What the console suggests while `input` is typed at `level`: the synopsis
/// of the command its first word names, or else the names it could complete
/// to.
pub open spec fn hint_for(input: Seq<char>, level: int) -> HintView {
    let word = lowercase_of(command_word(input));
    match resolved(word) {
        Some(c) => HintView::Synopsis(c.synopsis_text()),
        None => HintView::Completions(names_of(completions(word, level))),
    }
}

/// What the console suggests while a line is typed.
pub enum CommandHint {
    Synopsis(&'static str),
    Completions(Vec<&'static str>),
}

impl CommandHint {
    pub open spec fn view(self) -> HintView {
        match self {
            CommandHint::Synopsis(s) => HintView::Synopsis(s@),
            CommandHint::Completions(v) => HintView::Completions(views(v@)),
        }
    }
}

proof fn lemma_filter_keeps_order(s: Seq<GameCommand>, pred: spec_fn(GameCommand) -> bool)
    requires
        is_sorted(names_of(s)),
    ensures
        is_sorted(names_of(s.filter(pred))),
    decreases s.len(),
{
    reveal(Seq::filter);
    if s.len() > 0 {
        let rest = s.drop_last();
        assert forall|i: int, j: int| 0 <= i < j < rest.len() implies text_le(
            #[trigger] names_of(rest)[i],
            #[trigger] names_of(rest)[j],
        ) by {
            assert(names_of(rest)[i] == names_of(s)[i]);
            assert(names_of(rest)[j] == names_of(s)[j]);
        }
        lemma_filter_keeps_order(rest, pred);
        let f = rest.filter(pred);
        if pred(s.last()) {
            let g = f.push(s.last());
            assert forall|i: int, j: int| 0 <= i < j < g.len() implies text_le(
                #[trigger] names_of(g)[i],
                #[trigger] names_of(g)[j],
            ) by {
                if j == g.len() - 1 {
                    assert(f.contains(g[i]));
                    rest.lemma_filter_contains_rev(pred, g[i]);
                    let k = choose|k: int| 0 <= k < rest.len() && rest[k] == g[i];
                    assert(names_of(s)[k] == names_of(g)[i]);
                    assert(names_of(s)[s.len() - 1] == names_of(g)[j]);
                } else {
                    assert(names_of(g)[i] == names_of(f)[i]);
                    assert(names_of(g)[j] == names_of(f)[j]);
                }
            }
        }
    }
}

/// The completions come in the order of `str`, and hold exactly the commands
/// that the listing for the same prefix and level holds.
pub proof fn completions_sorted_and_exact(prefix: Seq<char>, level: int)
    ensures
        is_sorted(names_of(completions(prefix, level))),
        forall|c: GameCommand| #[trigger]
            completions(prefix, level).contains(c) <==> listed(prefix, level).contains(c),
{
    reveal_strlit("commands");
    reveal_strlit("fireball");
    reveal_strlit("help");
    reveal_strlit("man");
    let names = names_of(by_name());
    assert(names[0][0] == 'c' && names[1][0] == 'f' && names[2][0] == 'h' && names[3][0] == 'm');
    assert(is_sorted(names));
    lemma_filter_keeps_order(by_name(), |c: GameCommand| runnable(c, prefix, level));
    crate::lemmas::listed_exactly(prefix, level);
    let pred = |c: GameCommand| runnable(c, prefix, level);
    assert forall|c: GameCommand| #[trigger]
        completions(prefix, level).contains(c) <==> runnable(c, prefix, level) by {
        let i: int = match c {
            GameCommand::Commands => 0,
            GameCommand::Fireball => 1,
            GameCommand::Help => 2,
            GameCommand::Man => 3,
        };
        assert(by_name()[i] == c);
        if runnable(c, prefix, level) {
            by_name().lemma_filter_contains(pred, i);
        }
        if completions(prefix, level).contains(c) {
            let j = choose|j: int|
                0 <= j < completions(prefix, level).len() && completions(prefix, level)[j] == c;
            by_name().lemma_filter_pred(pred, j);
        }
    }
}

fn by_name_at(i: usize) -> (r: GameCommand)
    requires
        i < 4,
    ensures
        r == by_name()[i as int],
{
    match i {
        0 => GameCommand::Commands,
        1 => GameCommand::Fireball,
        2 => GameCommand::Help,
        _ => GameCommand::Man,
    }
}

/// What the console suggests while `input` is typed at `level`.
pub fn command_hint(input: &str, level: i32) -> (r: CommandHint)
    ensures
        r.view() == hint_for(input@, level as int),
{
    let words = split_words(input);
    proof {
        reveal_strlit("");
        assert(""@ =~= seq![]);
    }
    let first: &str = if words.len() > 0 {
        words[0]
    } else {
        ""
    };
    assert(first@ == command_word(input@));
    let word = lowercase(first);
    match get_command_by_name(word.as_str()) {
        Some(c) => CommandHint::Synopsis(c.synopsis()),
        None => {
            let mut names: Vec<&'static str> = Vec::new();
            let ghost pred = |c: GameCommand| runnable(c, word@, level as int);
            let mut i: usize = 0;
            while i < 4
                invariant
                    i <= 4,
                    pred == (|c: GameCommand| runnable(c, word@, level as int)),
                    views(names@) == names_of(by_name().take(i as int).filter(pred)),
                decreases 4 - i,
            {
                let c = by_name_at(i);
                proof {
                    assert(by_name().take(i + 1) =~= by_name().take(i as int).push(c));
                    by_name().take(i as int).lemma_filter_push(c, pred);
                }
                let ghost before = by_name().take(i as int).filter(pred);
                if starts_with(c.name(), word.as_str()) && c.required_level() <= level {
                    names.push(c.name());
                    assert(views(names@) =~= views(names@.drop_last()).push(c.name_text()));
                    assert(names_of(before.push(c)) =~= names_of(before).push(c.name_text()));
                }
                i = i + 1;
            }
            assert(by_name().take(4) =~= by_name());
            CommandHint::Completions(names)
        },
    }
}

} // verus!
