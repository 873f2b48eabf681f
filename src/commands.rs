//! The console: a closed set of commands, resolved by name, gated by access
//! level and run against the game state.
use vstd::prelude::*;

use crate::npcs::PlayerAction;
use crate::state::{GameState, StateView};
use crate::text::{
    append_decimal, decimal, has_prefix, lowercase, lowercase_of, parse_i32, parsed_i32,
    same_text, split_words, starts_with, trim, trimmed, views, words,
};

verus! {

pub const COMMANDS_NAME: &'static str = "commands";

pub const HELP_NAME: &'static str = "help";

pub const MAN_NAME: &'static str = "man";

pub const MANUAL_ALIAS: &'static str = "manual";

pub const FIREBALL_NAME: &'static str = "fireball";

pub const COMMANDS_SYNOPSIS: &'static str = "commands [-v]";

pub const HELP_SYNOPSIS: &'static str = "help <command_name>";

pub const MAN_SYNOPSIS: &'static str = "man <command_name>";

pub const FIREBALL_SYNOPSIS: &'static str = "fireball [damage]";

pub const COMMANDS_MAN_PAGE: &'static str = r#"commands - Show available commands

SYNOPSIS
    commands [-v]

DESCRIPTION
    Show a list of commands.

    -v
        Also show the synopses of commands.
"#;

pub const HELP_MAN_PAGE: &'static str = r#"help - Display help about a command

SYNOPSIS
    help <command_name>

DESCRIPTION
    Display a brief help about the command given.
    For a more detailed description, use the "man" command.

EXAMPLES
    help man
        Show help about the command "man".
"#;

pub const MAN_MAN_PAGE: &'static str = r#"man - Display a command's manual

SYNOPSIS
    man <command_name>
    manual <command_name>

DESCRIPTION
    Show detailed help about the command given.
    For a brief description, use the "help" command.

EXAMPLES
    man attack
        Show the manual of the command "attack".
"#;

pub const FIREBALL_MAN_PAGE: &'static str = r#"fireball - Summon a fireball

SYNOPSIS
    fireball [damage]

DESCRIPTION
    Throw a fireball at your enemy that deals the damage amount specified.
    The number must be an positive integer not larger than your ATK stat.
    If `damage' is omitted, deal damage equal to your ATK.

EXAMPLES
    fireball 10
        Summon a fireball that deals 10 damage to the enemy.
"#;

pub const ACCESS_DENIED: &'static str =
    "You do not have access to run that command.\nThis incident will be reported.";

pub const INVALID_COMMAND: &'static str = "Invalid command: ";

pub const NO_ACCESS: &'static str = "You don't have access to that command";

pub const NO_SUCH_COMMAND: &'static str = "No such command: ";

pub const USAGE: &'static str = "Usage: ";

pub const NOT_POSITIVE: &'static str = "Damage should be positive and not larger than your ATK";

pub const NUMBER_OPEN: &'static str = "`";

pub const NOT_A_NUMBER: &'static str = "' is not a valid number";

pub const NOT_IN_BATTLE: &'static str = "Not in battle";

pub const DEALT: &'static str = "Dealt ";

pub const DAMAGE: &'static str = " damage";

pub const VERBOSE_FLAG: &'static str = "-v";

pub const SPACE: &'static str = " ";

pub const NEWLINE: &'static str = "\n";

/// What a command run gives back, as text.
pub open spec fn result_text(r: Result<String, String>) -> Result<Seq<char>, Seq<char>> {
    match r {
        Ok(m) => Ok(m@),
        Err(e) => Err(e@),
    }
}

/// The parts joined, with `sep` between each two.
pub open spec fn joined(parts: Seq<Seq<char>>, sep: Seq<char>) -> Seq<char>
    decreases parts.len(),
{
    if parts.len() == 0 {
        seq![]
    } else if parts.len() == 1 {
        parts[0]
    } else {
        joined(parts.drop_last(), sep) + sep + parts.last()
    }
}

/// One of the built-in commands.
#[derive(Clone, Copy, Debug, PartialEq, Eq, Structural)]
pub enum GameCommand {
    Commands,
    Help,
    Man,
    Fireball,
}

/// The command that an already lowercased name denotes.
pub open spec fn command_named(name: Seq<char>) -> Option<GameCommand> {
    if name == COMMANDS_NAME@ {
        Some(GameCommand::Commands)
    } else if name == HELP_NAME@ {
        Some(GameCommand::Help)
    } else if name == MAN_NAME@ || name == MANUAL_ALIAS@ {
        Some(GameCommand::Man)
    } else if name == FIREBALL_NAME@ {
        Some(GameCommand::Fireball)
    } else {
        None
    }
}

/// The command that a typed name denotes: surrounding whitespace and case do
/// not matter.
pub open spec fn resolved(name: Seq<char>) -> Option<GameCommand> {
    command_named(lowercase_of(trimmed(name)))
}

/// The commands in the order they were registered.
pub open spec fn registered() -> Seq<GameCommand> {
    seq![GameCommand::Commands, GameCommand::Help, GameCommand::Man, GameCommand::Fireball]
}

/// Whether `c` is listed for this prefix and level.
pub open spec fn runnable(c: GameCommand, prefix: Seq<char>, level: int) -> bool {
    has_prefix(c.name_text(), prefix) && c.level() <= level
}

/// The registered commands whose name starts with `prefix` and that `level`
/// may run, in registration order.
pub open spec fn listed(prefix: Seq<char>, level: int) -> Seq<GameCommand> {
    registered().filter(|c: GameCommand| runnable(c, prefix, level))
}

/// The names of some commands.
pub open spec fn names_of(cs: Seq<GameCommand>) -> Seq<Seq<char>> {
    cs.map_values(|c: GameCommand| c.name_text())
}

/// The synopses of some commands.
pub open spec fn synopses_of(cs: Seq<GameCommand>) -> Seq<Seq<char>> {
    cs.map_values(|c: GameCommand| c.synopsis_text())
}

/// What `commands` prints: the names runnable at the player's level on one
/// line, or with `-v` their synopses one per line.
pub open spec fn commands_outcome(s: StateView, argv: Seq<Seq<char>>) -> Result<
    Seq<char>,
    Seq<char>,
> {
    let cs = listed(seq![], s.player_level as int);
    if argv.contains(VERBOSE_FLAG@) {
        Ok(joined(synopses_of(cs), NEWLINE@))
    } else {
        Ok(joined(names_of(cs), SPACE@))
    }
}

/// What `help` and `man` answer: the synopsis, or with `manual` the manual,
/// of the command named by the first argument.
pub open spec fn lookup_outcome(
    s: StateView,
    argv: Seq<Seq<char>>,
    own_synopsis: Seq<char>,
    manual: bool,
) -> Result<Seq<char>, Seq<char>> {
    if argv.len() < 2 {
        Err(USAGE@ + own_synopsis)
    } else {
        match resolved(argv[1]) {
            None => Err(NO_SUCH_COMMAND@ + argv[1]),
            Some(c) => if s.player_level < c.level() {
                Err(NO_ACCESS@)
            } else if manual {
                Ok(c.manual_text())
            } else {
                Ok(c.synopsis_text())
            },
        }
    }
}

/// The damage that `fireball` asks for, or the error about its argument.
pub open spec fn fireball_damage(s: StateView, argv: Seq<Seq<char>>) -> Result<int, Seq<char>> {
    if argv.len() < 2 {
        Ok(s.player_atk as int)
    } else {
        match parsed_i32(argv[1]) {
            None => Err(NUMBER_OPEN@ + argv[1] + NOT_A_NUMBER@),
            Some(d) => if d > 0 {
                Ok(d)
            } else {
                Err(NOT_POSITIVE@)
            },
        }
    }
}

/// What `fireball` does: in battle, queues an attack with the damage asked
/// for and reports it.
pub open spec fn fireball_outcome(s: StateView, argv: Seq<Seq<char>>) -> (
    StateView,
    Result<Seq<char>, Seq<char>>,
) {
    match fireball_damage(s, argv) {
        Err(e) => (s, Err(e)),
        Ok(d) => if s.in_battle {
            (
                StateView { action_queue: s.action_queue.push(PlayerAction::Attack(d as i32)), ..s },
                Ok(DEALT@ + decimal(d) + DAMAGE@),
            )
        } else {
            (s, Err(NOT_IN_BATTLE@))
        },
    }
}

/// The error for a name that denotes no command.
pub open spec fn invalid_outcome(argv: Seq<Seq<char>>) -> Result<Seq<char>, Seq<char>> {
    Err(
        INVALID_COMMAND@ + if argv.len() > 0 {
            argv[0]
        } else {
            seq![]
        },
    )
}

impl GameCommand {
    /// The least access level that may run the command.
    pub open spec fn level(self) -> int {
        match self {
            GameCommand::Fireball => 2,
            _ => i32::MIN as int,
        }
    }

    /// The name the command is registered under.
    pub open spec fn name_text(self) -> Seq<char> {
        match self {
            GameCommand::Commands => COMMANDS_NAME@,
            GameCommand::Help => HELP_NAME@,
            GameCommand::Man => MAN_NAME@,
            GameCommand::Fireball => FIREBALL_NAME@,
        }
    }

    pub open spec fn synopsis_text(self) -> Seq<char> {
        match self {
            GameCommand::Commands => COMMANDS_SYNOPSIS@,
            GameCommand::Help => HELP_SYNOPSIS@,
            GameCommand::Man => MAN_SYNOPSIS@,
            GameCommand::Fireball => FIREBALL_SYNOPSIS@,
        }
    }

    pub open spec fn manual_text(self) -> Seq<char> {
        match self {
            GameCommand::Commands => COMMANDS_MAN_PAGE@,
            GameCommand::Help => HELP_MAN_PAGE@,
            GameCommand::Man => MAN_MAN_PAGE@,
            GameCommand::Fireball => FIREBALL_MAN_PAGE@,
        }
    }

    /// The new state and the result of running the command with `argv`.
    pub open spec fn outcome(self, s: StateView, argv: Seq<Seq<char>>) -> (
        StateView,
        Result<Seq<char>, Seq<char>>,
    ) {
        match self {
            GameCommand::Commands => (s, commands_outcome(s, argv)),
            GameCommand::Help => (s, lookup_outcome(s, argv, HELP_SYNOPSIS@, false)),
            GameCommand::Man => (s, lookup_outcome(s, argv, MAN_SYNOPSIS@, true)),
            GameCommand::Fireball => fireball_outcome(s, argv),
        }
    }

    pub fn name(&self) -> (r: &'static str)
        ensures
            r@ == self.name_text(),
    {
        match self {
            GameCommand::Commands => COMMANDS_NAME,
            GameCommand::Help => HELP_NAME,
            GameCommand::Man => MAN_NAME,
            GameCommand::Fireball => FIREBALL_NAME,
        }
    }

    pub fn required_level(&self) -> (r: i32)
        ensures
            r as int == self.level(),
    {
        match self {
            GameCommand::Commands => CommandsCommand.required_level(),
            GameCommand::Help => HelpCommand.required_level(),
            GameCommand::Man => ManCommand.required_level(),
            GameCommand::Fireball => FireballCommand.required_level(),
        }
    }

    pub fn synopsis(&self) -> (r: &'static str)
        ensures
            r@ == self.synopsis_text(),
    {
        match self {
            GameCommand::Commands => CommandsCommand.synopsis(),
            GameCommand::Help => HelpCommand.synopsis(),
            GameCommand::Man => ManCommand.synopsis(),
            GameCommand::Fireball => FireballCommand.synopsis(),
        }
    }

    pub fn man_page(&self) -> (r: &'static str)
        ensures
            r@ == self.manual_text(),
    {
        match self {
            GameCommand::Commands => CommandsCommand.man_page(),
            GameCommand::Help => HelpCommand.man_page(),
            GameCommand::Man => ManCommand.man_page(),
            GameCommand::Fireball => FireballCommand.man_page(),
        }
    }

    /// Runs the command with the arguments `argv`, the command's own name first.
    pub fn execute(&self, game_state: &mut GameState, argv: &[&str]) -> (r: Result<
        String,
        String,
    >)
        ensures
            (final(game_state)@, result_text(r)) == self.outcome(old(game_state)@, views(argv@)),
    {
        match self {
            GameCommand::Commands => CommandsCommand.execute(game_state, argv),
            GameCommand::Help => HelpCommand.execute(game_state, argv),
            GameCommand::Man => ManCommand.execute(game_state, argv),
            GameCommand::Fireball => FireballCommand.execute(game_state, argv),
        }
    }
}

/// The word a console line starts with, or nothing for a blank line.
pub open spec fn command_word(line: Seq<char>) -> Seq<char> {
    let argv = words(line);
    if argv.len() > 0 {
        argv[0]
    } else {
        seq![]
    }
}

/// The new state and the result of a console line: an unknown name is an
/// error at any level; a known command above the player's level is refused
/// without running it; any other runs with the line's words as arguments.
pub open spec fn dispatch(s: StateView, line: Seq<char>) -> (StateView, Result<Seq<char>, Seq<char>>) {
    match resolved(command_word(line)) {
        None => (s, invalid_outcome(words(line))),
        Some(c) => if (s.player_level as int) < c.level() {
            (s, Err(ACCESS_DENIED@))
        } else {
            c.outcome(s, words(line))
        },
    }
}

/// `commands [-v]`: lists what the player may run.
pub struct CommandsCommand;

/// `help <command_name>`: the synopsis of a command.
pub struct HelpCommand;

/// `man <command_name>`, also `manual`: the manual of a command.
pub struct ManCommand;

/// `fireball [damage]`: attacks the character met.
pub struct FireballCommand;

/// Stands for a name that denotes no command; running it always fails.
pub struct InvalidCommand;

impl CommandsCommand {
    pub fn synopsis(&self) -> (r: &'static str)
        ensures
            r@ == GameCommand::Commands.synopsis_text(),
    {
        COMMANDS_SYNOPSIS
    }

    pub fn man_page(&self) -> (r: &'static str)
        ensures
            r@ == GameCommand::Commands.manual_text(),
    {
        COMMANDS_MAN_PAGE
    }

    pub fn required_level(&self) -> (r: i32)
        ensures
            r as int == GameCommand::Commands.level(),
    {
        i32::MIN
    }

    pub fn execute(&self, game_state: &mut GameState, argv: &[&str]) -> (r: Result<
        String,
        String,
    >)
        ensures
            (final(game_state)@, result_text(r)) == GameCommand::Commands.outcome(
                old(game_state)@,
                views(argv@),
            ),
    {
        let cs = runnable_commands("", game_state.player_level);
        proof {
            reveal_strlit("");
            assert(""@ =~= seq![]);
        }
        let verbose = contains_word(argv, VERBOSE_FLAG);
        let mut parts: Vec<&str> = Vec::new();
        let mut i: usize = 0;
        while i < cs.len()
            invariant
                i <= cs.len(),
                views(parts@) == if verbose {
                    synopses_of(cs@.take(i as int))
                } else {
                    names_of(cs@.take(i as int))
                },
            decreases cs.len() - i,
        {
            let c = cs[i];
            let part = if verbose {
                c.synopsis()
            } else {
                c.name()
            };
            parts.push(part);
            proof {
                assert(cs@.take(i + 1) =~= cs@.take(i as int).push(c));
                assert(views(parts@) =~= views(parts@.drop_last()).push(part@));
                assert(synopses_of(cs@.take(i + 1)) =~= synopses_of(cs@.take(i as int)).push(
                    c.synopsis_text(),
                ));
                assert(names_of(cs@.take(i + 1)) =~= names_of(cs@.take(i as int)).push(
                    c.name_text(),
                ));
            }
            i = i + 1;
        }
        assert(cs@.take(cs.len() as int) =~= cs@);
        if verbose {
            Ok(join_texts(&parts, NEWLINE))
        } else {
            Ok(join_texts(&parts, SPACE))
        }
    }
}

/// Answers `help` and `man`: resolves the first argument and gives its
/// synopsis, or with `manual` its manual.
fn describe_command(game_state: &GameState, argv: &[&str], own_synopsis: &str, manual: bool) -> (r:
    Result<String, String>)
    ensures
        result_text(r) == lookup_outcome(game_state@, views(argv@), own_synopsis@, manual),
{
    if argv.len() < 2 {
        let mut e = String::from_str(USAGE);
        e.append(own_synopsis);
        return Err(e);
    }
    let name = argv[1];
    assert(views(argv@)[1] == name@);
    match get_command_by_name(name) {
        None => {
            let mut e = String::from_str(NO_SUCH_COMMAND);
            e.append(name);
            Err(e)
        },
        Some(c) => {
            if game_state.player_level < c.required_level() {
                Err(String::from_str(NO_ACCESS))
            } else if manual {
                Ok(String::from_str(c.man_page()))
            } else {
                Ok(String::from_str(c.synopsis()))
            }
        },
    }
}

impl HelpCommand {
    pub fn synopsis(&self) -> (r: &'static str)
        ensures
            r@ == GameCommand::Help.synopsis_text(),
    {
        HELP_SYNOPSIS
    }

    pub fn man_page(&self) -> (r: &'static str)
        ensures
            r@ == GameCommand::Help.manual_text(),
    {
        HELP_MAN_PAGE
    }

    pub fn required_level(&self) -> (r: i32)
        ensures
            r as int == GameCommand::Help.level(),
    {
        i32::MIN
    }

    pub fn execute(&self, game_state: &mut GameState, argv: &[&str]) -> (r: Result<
        String,
        String,
    >)
        ensures
            (final(game_state)@, result_text(r)) == GameCommand::Help.outcome(
                old(game_state)@,
                views(argv@),
            ),
    {
        describe_command(game_state, argv, self.synopsis(), false)
    }
}

impl ManCommand {
    pub fn synopsis(&self) -> (r: &'static str)
        ensures
            r@ == GameCommand::Man.synopsis_text(),
    {
        MAN_SYNOPSIS
    }

    pub fn man_page(&self) -> (r: &'static str)
        ensures
            r@ == GameCommand::Man.manual_text(),
    {
        MAN_MAN_PAGE
    }

    pub fn required_level(&self) -> (r: i32)
        ensures
            r as int == GameCommand::Man.level(),
    {
        i32::MIN
    }

    pub fn execute(&self, game_state: &mut GameState, argv: &[&str]) -> (r: Result<
        String,
        String,
    >)
        ensures
            (final(game_state)@, result_text(r)) == GameCommand::Man.outcome(
                old(game_state)@,
                views(argv@),
            ),
    {
        describe_command(game_state, argv, self.synopsis(), true)
    }
}

impl FireballCommand {
    pub fn synopsis(&self) -> (r: &'static str)
        ensures
            r@ == GameCommand::Fireball.synopsis_text(),
    {
        FIREBALL_SYNOPSIS
    }

    pub fn man_page(&self) -> (r: &'static str)
        ensures
            r@ == GameCommand::Fireball.manual_text(),
    {
        FIREBALL_MAN_PAGE
    }

    pub fn required_level(&self) -> (r: i32)
        ensures
            r as int == GameCommand::Fireball.level(),
    {
        2
    }

    pub fn execute(&self, game_state: &mut GameState, argv: &[&str]) -> (r: Result<
        String,
        String,
    >)
        ensures
            (final(game_state)@, result_text(r)) == GameCommand::Fireball.outcome(
                old(game_state)@,
                views(argv@),
            ),
    {
        let damage: i32;
        if argv.len() >= 2 {
            let arg = argv[1];
            assert(views(argv@)[1] == arg@);
            match parse_i32(arg) {
                Some(d) => {
                    if 0 < d {
                        damage = d;
                    } else {
                        return Err(String::from_str(NOT_POSITIVE));
                    }
                },
                None => {
                    let mut e = String::from_str(NUMBER_OPEN);
                    e.append(arg);
                    e.append(NOT_A_NUMBER);
                    return Err(e);
                },
            }
        } else {
            damage = game_state.player_atk;
        }
        if game_state.in_battle {
            game_state.action_queue.push(PlayerAction::Attack(damage));
            let mut m = String::from_str(DEALT);
            append_decimal(&mut m, damage);
            m.append(DAMAGE);
            Ok(m)
        } else {
            Err(String::from_str(NOT_IN_BATTLE))
        }
    }
}

impl InvalidCommand {
    pub fn required_level(&self) -> (r: i32)
        ensures
            r == i32::MIN,
    {
        i32::MIN
    }

    /// Fails with the name that could not be resolved, the first of `argv`.
    pub fn execute(&self, game_state: &mut GameState, argv: &[&str]) -> (r: Result<
        String,
        String,
    >)
        ensures
            final(game_state)@ == old(game_state)@,
            result_text(r) == invalid_outcome(views(argv@)),
    {
        let mut e = String::from_str(INVALID_COMMAND);
        if argv.len() > 0 {
            e.append(argv[0]);
        }
        assert(e@ =~= invalid_outcome(views(argv@))->Err_0);
        Err(e)
    }
}

/// The parts joined, with `sep` between each two.
fn join_texts(parts: &Vec<&str>, sep: &str) -> (r: String)
    ensures
        r@ == joined(views(parts@), sep@),
{
    let mut out = String::new();
    let mut i: usize = 0;
    while i < parts.len()
        invariant
            i <= parts.len(),
            out@ == joined(views(parts@.take(i as int)), sep@),
        decreases parts.len() - i,
    {
        let ghost before = views(parts@.take(i as int));
        let ghost after = views(parts@.take(i + 1));
        assert(after =~= before.push(parts@[i as int]@));
        assert(after.drop_last() =~= before);
        if i > 0 {
            out.append(sep);
        } else {
            assert(out@ =~= seq![]);
        }
        out.append(parts[i]);
        assert(out@ =~= joined(after, sep@));
        i = i + 1;
    }
    assert(parts@.take(parts.len() as int) =~= parts@);
    out
}

/// Whether one of `argv` is exactly `word`.
fn contains_word(argv: &[&str], word: &str) -> (r: bool)
    ensures
        r == views(argv@).contains(word@),
{
    let mut i: usize = 0;
    while i < argv.len()
        invariant
            i <= argv.len(),
            forall|k: int| 0 <= k < i ==> views(argv@)[k] != word@,
        decreases argv.len() - i,
    {
        if same_text(argv[i], word) {
            assert(views(argv@)[i as int] == word@);
            return true;
        }
        i = i + 1;
    }
    false
}

/// The registered command at `i`.
fn registered_at(i: usize) -> (r: GameCommand)
    requires
        i < 4,
    ensures
        r == registered()[i as int],
{
    match i {
        0 => GameCommand::Commands,
        1 => GameCommand::Help,
        2 => GameCommand::Man,
        _ => GameCommand::Fireball,
    }
}

/// The registered commands whose name starts with `prefix` and that `level`
/// may run, in registration order.
pub fn runnable_commands(prefix: &str, level: i32) -> (r: Vec<GameCommand>)
    ensures
        r@ == listed(prefix@, level as int),
{
    let mut r: Vec<GameCommand> = Vec::new();
    let mut i: usize = 0;
    while i < 4
        invariant
            i <= 4,
            r@ == registered().take(i as int).filter(
                |c: GameCommand| runnable(c, prefix@, level as int),
            ),
        decreases 4 - i,
    {
        let c = registered_at(i);
        proof {
            assert(registered().take(i + 1) =~= registered().take(i as int).push(c));
            registered().take(i as int).lemma_filter_push(
                c,
                |c: GameCommand| runnable(c, prefix@, level as int),
            );
        }
        if starts_with(c.name(), prefix) && c.required_level() <= level {
            r.push(c);
        }
        i = i + 1;
    }
    assert(registered().take(4) =~= registered());
    r
}

/// The names of the registered commands that start with `prefix` and that
/// `level` may run, in registration order.
pub fn list_commands(prefix: &str, level: i32) -> (r: Vec<&'static str>)
    ensures
        views(r@) == names_of(listed(prefix@, level as int)),
{
    let cs = runnable_commands(prefix, level);
    let mut r: Vec<&'static str> = Vec::new();
    let mut i: usize = 0;
    while i < cs.len()
        invariant
            i <= cs.len(),
            views(r@) == names_of(cs@.take(i as int)),
        decreases cs.len() - i,
    {
        let name = cs[i].name();
        r.push(name);
        proof {
            assert(cs@.take(i + 1) =~= cs@.take(i as int).push(cs@[i as int]));
            assert(views(r@) =~= views(r@.drop_last()).push(name@));
            assert(names_of(cs@.take(i + 1)) =~= names_of(cs@.take(i as int)).push(name@));
        }
        i = i + 1;
    }
    assert(cs@.take(cs.len() as int) =~= cs@);
    r
}

/// The command that an already lowercased name denotes.
pub fn command_by_lowercase_name(name: &str) -> (r: Option<GameCommand>)
    ensures
        r == command_named(name@),
{
    if same_text(name, COMMANDS_NAME) {
        Some(GameCommand::Commands)
    } else if same_text(name, HELP_NAME) {
        Some(GameCommand::Help)
    } else if same_text(name, MAN_NAME) || same_text(name, MANUAL_ALIAS) {
        Some(GameCommand::Man)
    } else if same_text(name, FIREBALL_NAME) {
        Some(GameCommand::Fireball)
    } else {
        None
    }
}

/// The command that `name` denotes, ignoring surrounding whitespace and case.
pub fn get_command_by_name(name: &str) -> (r: Option<GameCommand>)
    ensures
        r == resolved(name@),
        trimmed(name@).len() == 0 ==> r is None,
{
    let lowered = lowercase(trim(name));
    proof {
        reveal_strlit("commands");
        reveal_strlit("help");
        reveal_strlit("man");
        reveal_strlit("manual");
        reveal_strlit("fireball");
    }
    command_by_lowercase_name(lowered.as_str())
}

/// Runs one console line against the game state.
pub fn execute_command(game_state: &mut GameState, command: &str) -> (r: Result<String, String>)
    ensures
        (final(game_state)@, result_text(r)) == dispatch(old(game_state)@, command@),
        resolved(command_word(command@)) is None ==> final(game_state)@ == old(game_state)@
            && result_text(r) == Err::<Seq<char>, Seq<char>>(INVALID_COMMAND@ + command_word(command@)),
        match resolved(command_word(command@)) {
            Some(c) => (old(game_state).player_level as int) < c.level() ==> final(game_state)@
                == old(game_state)@ && result_text(r) == Err::<Seq<char>, Seq<char>>(ACCESS_DENIED@),
            None => true,
        },
        words(command@).len() == 0 ==> final(game_state)@ == old(game_state)@ && result_text(r)
            == Err::<Seq<char>, Seq<char>>(INVALID_COMMAND@),
{
    let argv = split_words(command);
    proof {
        reveal_strlit("");
        assert(""@ =~= seq![]);
    }
    let name: &str = if argv.len() > 0 {
        argv[0]
    } else {
        ""
    };
    assert(name@ == command_word(command@));
    assert(words(command@).len() == 0 ==> trimmed(name@).len() == 0);
    match get_command_by_name(name) {
        Some(c) => {
            if game_state.player_level < c.required_level() {
                Err(String::from_str(ACCESS_DENIED))
            } else {
                c.execute(game_state, argv.as_slice())
            }
        },
        None => {
            let sentinel = InvalidCommand;
            if game_state.player_level < sentinel.required_level() {
                Err(String::from_str(ACCESS_DENIED))
            } else {
                let r = sentinel.execute(game_state, argv.as_slice());
                proof {
                    if words(command@).len() == 0 {
                        assert(INVALID_COMMAND@ + seq![] =~= INVALID_COMMAND@);
                    }
                }
                r
            }
        },
    }
}

} // verus!
