//! The first character the player meets: a scripted dialogue that unlocks the
//! info panel and then the terminal.
use std::collections::VecDeque;

use vstd::prelude::*;

use crate::npcs::{NpcResponse, PlayerAction, ResponseView, response_views};
use crate::state::{raised, rank, GameProgress, GameState, StateView};
use crate::text::views;

verus! {

/// The number of script steps; the encounter is over once all have run.
pub const TERMINAL_STEP: usize = 25;

/// The step from which the character's name is known to the player.
pub const NAME_KNOWN_STEP: usize = 17;

/// The step that unlocks the info panel.
pub const PANEL_STEP: usize = 0;

/// The step that unlocks the terminal.
pub const TERMINAL_UNLOCK_STEP: usize = 20;

pub const ALICE_ID: &'static str = "alice";

pub const TRUE_NAME: &'static str = "BreeDFS";

pub const UNKNOWN_NAME: &'static str = "???";

pub const INFO_TITLE: &'static str = "BreeDFS";

pub const INFO_LOOKS: &'static str = "A floating sphere resembling the BreeDFS logo.";

pub const INFO_ROLE: &'static str = "The ultimate form of evil, overlord of hell.";

pub const INFO_BREAK: &'static str = "\n";

// The script's lines and the answers it offers, in the order they come.

pub const OH_HI_HUMAN_BEING: &'static str = "oh hi human being! welcome to hell!";

pub const YOU_RE_NEW_HERE: &'static str = "you're new here, right?";

pub const YEAH: &'static str = "Yeah";

pub const I_GUESS: &'static str = "I guess...?";

pub const OH_COOL_DO_YOU: &'static str = "oh cool! do you remember what happened?";

pub const NO: &'static str = "No";

pub const HMM_I_SUPPOSE_THERE: &'static str = "hmm. i suppose there's this possibility -";

pub const THAT_YOU_HAVE_JUST: &'static str = "that you have just died.";

pub const WHAT: &'static str = "What?";

pub const WAIT_I_REMEMBER_THERE: &'static str = "Wait I remember! There was a truck...";

pub const THIS_IS_THE_INFERNO: &'static str = "this is the inferno. a place where decease souls and other creatures belong.";

pub const SO_IT_SEEMS_LIKE: &'static str = "so it seems like you do remember...";

pub const I_M_SORRY_HUMAN: &'static str = "i'm sorry, human. but i have some bad news. you have just died.";

pub const THE_TRUCK_WAS_IT: &'static str = "yes, human. that truck was the last thing you saw.";

pub const ELLIPSIS: &'static str = "....";

pub const ANYWAYS_THE_HELL_IS: &'static str = "anyways, the hell is currently undergoing some system upgrades.";

pub const THINGS_HAVE_BEEN_GOING: &'static str = "things have been going really, *really* bad lately.";

pub const BUGS_ARE_EVERYWHERE_AND: &'static str = "bugs are everywhere, and even the most overworked workers couldn't fix them.";

pub const EVEN_WORSE_AT_LEAST: &'static str = "even worse, at least half of them quit their jobs last month.";

pub const I_VE_HEARD_ABOUT: &'static str = "i've heard about you before. you were an engineer, right?";

pub const YES_SURE: &'static str = "Yes.";

pub const NO_DOUBT: &'static str = "No?";

pub const COOL: &'static str = "cool!!!";

pub const LIARS_WILL_BE_BURNING: &'static str = "liars will be burning in hell!";

pub const SO_AS_I_SAID: &'static str = "so as i said, we kind of need a new maintainer of our technology systems, stat.";

pub const ARE_YOU_INTERESTED_IN: &'static str = "are you interested in helping us?";

pub const YES_QUIET: &'static str = "yes";

pub const YES_PLAIN: &'static str = "Yes";

pub const YES_LOUD: &'static str = "YES";

pub const OMG_THANKS_I_KNEW: &'static str = "OMG THANKS!!1!1! i knew you would help me, kind human!!";

pub const BEWILDERED: &'static str = "??????";

pub const FROM_NOW_ON_YOU: &'static str = "from now on, you are our new system administrator!";

pub const DO_YOU_THINK_YOU: &'static str = "do you think you are qualified for this job?";

pub const YEAH_EAGER: &'static str = "yeah!";

pub const OF_COURSE: &'static str = "Of course!";

pub const DEFINITELY: &'static str = "Definitely!";

pub const OK_I_LL_INTRODUCE: &'static str = "ok! i'll introduce your job to you soon.";

pub const WAIT_YOU_RE_CHEATING: &'static str = "Wait you're cheating!";

pub const I_DIDN_T_HAVE: &'static str = "I didn't have a choice...";

pub const OH_OF_COURSE_YOU: &'static str = "oh of course you don't have a choice.";

pub const I_AM_A_LITERAL: &'static str = "i am a literal god. i control this place.";

pub const ANYWAYS_MY_NAME_IS: &'static str = "anyways, my name is BreeDFS. nice to meet you!";

pub const OH_THAT_S_WHY: &'static str = "Oh, that's why you looked very familiar...";

pub const WHAT_NOW: &'static str = "...what??";

pub const LET_S_JUST_GET: &'static str = "let's just get to the point.";

pub const TO_HELP_YOU_DO: &'static str = "to help you do your job, i have unlocked a new feature for you.";

pub const SEE_THE_SHOW_TERMINAL: &'static str = "see the \"show terminal\" checkbox? click on it and see what happens.";

pub const ISN_T_IT_COOL: &'static str = "isn't it cool?";

pub const THE_TERMINAL_IS_WHAT: &'static str = "the Terminal is what we use to do our jobs efficiently.";

pub const WE_USUALLY_USE_COMMANDS: &'static str = "we usually use \"commands\" to complete our tasks.";

pub const FOR_EXAMPLE_RIGHT_NOW: &'static str = "for example, right now you can try some simple commands like `help`.";

pub const NICE: &'static str = "Nice.";

pub const AS_YOUR_ACCESS_LEVEL: &'static str = "as your \"access level\" increases, you will unlock more powerful commands.";

pub const YOU_CAN_CLICK_ON: &'static str = "you can click on the \"details\" button to see your access level as well as some other stats.";

pub const ALTHOUGH_YOU_ONLY_HAVE: &'static str = "although you only have a few commands available now, you should really take your time to familiarize yourself with the terminal!";

pub const AFTER_YOU_VE_MESS: &'static str = "after you've mess around enough, press the \"OK\" button below.";

pub const OK: &'static str = "OK";

pub const THAT_S_ABOUT_IT: &'static str = "that's about it! i gotta leave now though... the rest is up to you!";

/// The name the character goes by at step `p`.
pub open spec fn speaker_name(p: int) -> Seq<char> {
    if p >= NAME_KNOWN_STEP {
        TRUE_NAME@
    } else {
        UNKNOWN_NAME@
    }
}

/// The speaker label of the character's own lines at step `p`.
pub open spec fn speaker(p: int) -> Option<Seq<char>> {
    Some(speaker_name(p))
}

/// One response as plain values.
pub open spec fn line(message: Seq<char>, name: Option<Seq<char>>, choices: Seq<Seq<char>>) -> ResponseView {
    ResponseView { message, name, choices }
}

/// What the character says at script step `p`, given the last choice. Each
/// step is one interaction; a step that asked a question is answered by the
/// next one through the choice remembered. Every step says something.
pub open spec fn script(p: int, choice: int) -> Seq<ResponseView> {
    if p == 0 {
        seq![line(OH_HI_HUMAN_BEING@, speaker(0), seq![])]
    } else if p == 1 {
        seq![line(YOU_RE_NEW_HERE@, None, seq![YEAH@, I_GUESS@])]
    } else if p == 2 {
        seq![line(OH_COOL_DO_YOU@, speaker(2), seq![NO@])]
    } else if p == 3 {
        seq![line(HMM_I_SUPPOSE_THERE@, speaker(3), seq![])]
    } else if p == 4 {
        seq![line(THAT_YOU_HAVE_JUST@, None, seq![WHAT@, WAIT_I_REMEMBER_THERE@])]
    } else if p == 5 {
        if choice == 0 {
            seq![line(THIS_IS_THE_INFERNO@, speaker(5), seq![])]
        } else {
            seq![line(SO_IT_SEEMS_LIKE@, speaker(5), seq![])]
        }
    } else if p == 6 {
        if choice == 0 {
            seq![line(I_M_SORRY_HUMAN@, None, seq![])]
        } else {
            seq![line(THE_TRUCK_WAS_IT@, None, seq![])]
        }
    } else if p == 7 {
        seq![line(ELLIPSIS@, None, seq![])]
    } else if p == 8 {
        seq![line(ANYWAYS_THE_HELL_IS@, None, seq![])]
    } else if p == 9 {
        seq![line(THINGS_HAVE_BEEN_GOING@, None, seq![]), line(BUGS_ARE_EVERYWHERE_AND@, None, seq![]), line(EVEN_WORSE_AT_LEAST@, None, seq![])]
    } else if p == 10 {
        seq![line(I_VE_HEARD_ABOUT@, None, seq![YES_SURE@, NO_DOUBT@])]
    } else if p == 11 {
        if choice == 0 {
            seq![line(COOL@, speaker(11), seq![])]
        } else {
            seq![line(LIARS_WILL_BE_BURNING@, speaker(11), seq![])]
        }
    } else if p == 12 {
        seq![line(SO_AS_I_SAID@, None, seq![]), line(ARE_YOU_INTERESTED_IN@, None, seq![YES_QUIET@, YES_PLAIN@, YES_LOUD@, YES_LOUD@, YES_LOUD@])]
    } else if p == 13 {
        seq![line(OMG_THANKS_I_KNEW@, speaker(13), seq![BEWILDERED@])]
    } else if p == 14 {
        seq![line(FROM_NOW_ON_YOU@, speaker(14), seq![]), line(DO_YOU_THINK_YOU@, None, seq![YEAH_EAGER@, OF_COURSE@, DEFINITELY@])]
    } else if p == 15 {
        seq![line(OK_I_LL_INTRODUCE@, speaker(15), seq![WAIT_YOU_RE_CHEATING@, I_DIDN_T_HAVE@])]
    } else if p == 16 {
        seq![line(OH_OF_COURSE_YOU@, speaker(16), seq![]), line(I_AM_A_LITERAL@, None, seq![])]
    } else if p == 17 {
        seq![line(ANYWAYS_MY_NAME_IS@, speaker(17), seq![OH_THAT_S_WHY@])]
    } else if p == 18 {
        seq![line(WHAT_NOW@, speaker(18), seq![])]
    } else if p == 19 {
        seq![line(ELLIPSIS@, None, seq![]), line(LET_S_JUST_GET@, None, seq![])]
    } else if p == 20 {
        seq![line(TO_HELP_YOU_DO@, None, seq![]), line(SEE_THE_SHOW_TERMINAL@, None, seq![])]
    } else if p == 21 {
        seq![line(ISN_T_IT_COOL@, None, seq![]), line(THE_TERMINAL_IS_WHAT@, None, seq![]), line(WE_USUALLY_USE_COMMANDS@, None, seq![]), line(FOR_EXAMPLE_RIGHT_NOW@, None, seq![NICE@])]
    } else if p == 22 {
        seq![line(AS_YOUR_ACCESS_LEVEL@, speaker(22), seq![]), line(YOU_CAN_CLICK_ON@, None, seq![])]
    } else if p == 23 {
        seq![line(ALTHOUGH_YOU_ONLY_HAVE@, None, seq![]), line(AFTER_YOU_VE_MESS@, None, seq![OK@])]
    } else {
        seq![line(THAT_S_ABOUT_IT@, None, seq![])]
    }
}

/// Every script step queues at least one response, whatever the last choice.
pub proof fn script_says_something(p: int, choice: int)
    requires
        0 <= p < TERMINAL_STEP,
    ensures
        script(p, choice).len() > 0,
{
}

/// What script step `p` does to the game state: the first step unlocks the
/// info panel, a later one the terminal. Neither moves the story back.
pub open spec fn script_effect(p: int, s: StateView) -> StateView {
    if p == PANEL_STEP {
        raised(s, GameProgress::HasPanel)
    } else if p == TERMINAL_UNLOCK_STEP {
        raised(s, GameProgress::HasTerminal)
    } else {
        s
    }
}

/// The character as plain values.
pub struct AliceView {
    pub progress: nat,
    pub previous_choice: nat,
    pub hitpoints: int,
    pub queue: Seq<ResponseView>,
}

/// The character after running the step at its progress with `choice`.
pub open spec fn interaction(before: AliceView, choice: nat) -> AliceView {
    AliceView {
        progress: before.progress + 1,
        previous_choice: choice,
        hitpoints: before.hitpoints,
        queue: before.queue + script(before.progress as int, choice as int),
    }
}

/// The character as it starts an encounter.
pub open spec fn fresh_alice() -> AliceView {
    AliceView { progress: 0, previous_choice: 0, hitpoints: i32::MAX as int, queue: seq![] }
}

/// Builds one response.
fn respond(message: &str, name: Option<&str>, choices: Vec<&str>) -> (r: NpcResponse)
    ensures
        r@ == line(
            message@,
            match name {
                Some(n) => Some(n@),
                None => None,
            },
            views(choices@),
        ),
{
    let mut cs: Vec<String> = Vec::new();
    let mut i: usize = 0;
    while i < choices.len()
        invariant
            i <= choices.len(),
            cs@.map_values(|c: String| c@) == views(choices@.take(i as int)),
        decreases choices.len() - i,
    {
        let c = String::from_str(choices[i]);
        cs.push(c);
        assert(choices@.take(i + 1) =~= choices@.take(i as int).push(choices@[i as int]));
        assert(cs@.map_values(|c: String| c@) =~= cs@.drop_last().map_values(|c: String| c@).push(
            c@,
        ));
        assert(views(choices@.take(i + 1)) =~= views(choices@.take(i as int)).push(
            choices@[i as int]@,
        ));
        i = i + 1;
    }
    assert(choices@.take(choices.len() as int) =~= choices@);
    let name = match name {
        Some(n) => Some(String::from_str(n)),
        None => None,
    };
    NpcResponse { message: String::from_str(message), name, choices: cs }
}

/// A response that offers no choice.
fn say(message: &str, name: Option<&str>) -> (r: NpcResponse)
    ensures
        r@ == line(
            message@,
            match name {
                Some(n) => Some(n@),
                None => None,
            },
            seq![],
        ),
{
    let r = respond(message, name, Vec::new());
    assert(r@.choices =~= seq![]);
    r
}

/// A response that offers 1 choice.
fn offer1(message: &str, name: Option<&str>, a: &str) -> (r: NpcResponse)
    ensures
        r@ == line(
            message@,
            match name {
                Some(n) => Some(n@),
                None => None,
            },
            seq![a@],
        ),
{
    let r = respond(message, name, vec![a]);
    assert(r@.choices =~= seq![a@]);
    r
}

/// A response that offers 2 choices.
fn offer2(message: &str, name: Option<&str>, a: &str, b: &str) -> (r: NpcResponse)
    ensures
        r@ == line(
            message@,
            match name {
                Some(n) => Some(n@),
                None => None,
            },
            seq![a@, b@],
        ),
{
    let r = respond(message, name, vec![a, b]);
    assert(r@.choices =~= seq![a@, b@]);
    r
}

/// A response that offers 3 choices.
fn offer3(message: &str, name: Option<&str>, a: &str, b: &str, c: &str) -> (r: NpcResponse)
    ensures
        r@ == line(
            message@,
            match name {
                Some(n) => Some(n@),
                None => None,
            },
            seq![a@, b@, c@],
        ),
{
    let r = respond(message, name, vec![a, b, c]);
    assert(r@.choices =~= seq![a@, b@, c@]);
    r
}

/// A response that offers 5 choices.
fn offer5(message: &str, name: Option<&str>, a: &str, b: &str, c: &str, d: &str, e: &str) -> (r: NpcResponse)
    ensures
        r@ == line(
            message@,
            match name {
                Some(n) => Some(n@),
                None => None,
            },
            seq![a@, b@, c@, d@, e@],
        ),
{
    let r = respond(message, name, vec![a, b, c, d, e]);
    assert(r@.choices =~= seq![a@, b@, c@, d@, e@]);
    r
}

/// What the character says at script step `p`, given the last choice.
fn script_step(p: usize, choice: usize, speaker: &str) -> (r: Vec<NpcResponse>)
    requires
        p < TERMINAL_STEP,
        speaker@ == speaker_name(p as int),
    ensures
        response_views(r@) == script(p as int, choice as int),
{
    match p {
        0 => {
            let r = vec![say(OH_HI_HUMAN_BEING, Some(speaker))];
            assert(response_views(r@) =~= script(0, choice as int));
            r
        },
        1 => {
            let r = vec![offer2(YOU_RE_NEW_HERE, None, YEAH, I_GUESS)];
            assert(response_views(r@) =~= script(1, choice as int));
            r
        },
        2 => {
            let r = vec![offer1(OH_COOL_DO_YOU, Some(speaker), NO)];
            assert(response_views(r@) =~= script(2, choice as int));
            r
        },
        3 => {
            let r = vec![say(HMM_I_SUPPOSE_THERE, Some(speaker))];
            assert(response_views(r@) =~= script(3, choice as int));
            r
        },
        4 => {
            let r = vec![offer2(THAT_YOU_HAVE_JUST, None, WHAT, WAIT_I_REMEMBER_THERE)];
            assert(response_views(r@) =~= script(4, choice as int));
            r
        },
        5 => {
            let r = if choice == 0 {
                vec![say(THIS_IS_THE_INFERNO, Some(speaker))]
            } else {
                vec![say(SO_IT_SEEMS_LIKE, Some(speaker))]
            };
            assert(response_views(r@) =~= script(5, choice as int));
            r
        },
        6 => {
            let r = if choice == 0 {
                vec![say(I_M_SORRY_HUMAN, None)]
            } else {
                vec![say(THE_TRUCK_WAS_IT, None)]
            };
            assert(response_views(r@) =~= script(6, choice as int));
            r
        },
        7 => {
            let r = vec![say(ELLIPSIS, None)];
            assert(response_views(r@) =~= script(7, choice as int));
            r
        },
        8 => {
            let r = vec![say(ANYWAYS_THE_HELL_IS, None)];
            assert(response_views(r@) =~= script(8, choice as int));
            r
        },
        9 => {
            let r = vec![say(THINGS_HAVE_BEEN_GOING, None), say(BUGS_ARE_EVERYWHERE_AND, None), say(EVEN_WORSE_AT_LEAST, None)];
            assert(response_views(r@) =~= script(9, choice as int));
            r
        },
        10 => {
            let r = vec![offer2(I_VE_HEARD_ABOUT, None, YES_SURE, NO_DOUBT)];
            assert(response_views(r@) =~= script(10, choice as int));
            r
        },
        11 => {
            let r = if choice == 0 {
                vec![say(COOL, Some(speaker))]
            } else {
                vec![say(LIARS_WILL_BE_BURNING, Some(speaker))]
            };
            assert(response_views(r@) =~= script(11, choice as int));
            r
        },
        12 => {
            let r = vec![say(SO_AS_I_SAID, None), offer5(ARE_YOU_INTERESTED_IN, None, YES_QUIET, YES_PLAIN, YES_LOUD, YES_LOUD, YES_LOUD)];
            assert(response_views(r@) =~= script(12, choice as int));
            r
        },
        13 => {
            let r = vec![offer1(OMG_THANKS_I_KNEW, Some(speaker), BEWILDERED)];
            assert(response_views(r@) =~= script(13, choice as int));
            r
        },
        14 => {
            let r = vec![say(FROM_NOW_ON_YOU, Some(speaker)), offer3(DO_YOU_THINK_YOU, None, YEAH_EAGER, OF_COURSE, DEFINITELY)];
            assert(response_views(r@) =~= script(14, choice as int));
            r
        },
        15 => {
            let r = vec![offer2(OK_I_LL_INTRODUCE, Some(speaker), WAIT_YOU_RE_CHEATING, I_DIDN_T_HAVE)];
            assert(response_views(r@) =~= script(15, choice as int));
            r
        },
        16 => {
            let r = vec![say(OH_OF_COURSE_YOU, Some(speaker)), say(I_AM_A_LITERAL, None)];
            assert(response_views(r@) =~= script(16, choice as int));
            r
        },
        17 => {
            let r = vec![offer1(ANYWAYS_MY_NAME_IS, Some(speaker), OH_THAT_S_WHY)];
            assert(response_views(r@) =~= script(17, choice as int));
            r
        },
        18 => {
            let r = vec![say(WHAT_NOW, Some(speaker))];
            assert(response_views(r@) =~= script(18, choice as int));
            r
        },
        19 => {
            let r = vec![say(ELLIPSIS, None), say(LET_S_JUST_GET, None)];
            assert(response_views(r@) =~= script(19, choice as int));
            r
        },
        20 => {
            let r = vec![say(TO_HELP_YOU_DO, None), say(SEE_THE_SHOW_TERMINAL, None)];
            assert(response_views(r@) =~= script(20, choice as int));
            r
        },
        21 => {
            let r = vec![say(ISN_T_IT_COOL, None), say(THE_TERMINAL_IS_WHAT, None), say(WE_USUALLY_USE_COMMANDS, None), offer1(FOR_EXAMPLE_RIGHT_NOW, None, NICE)];
            assert(response_views(r@) =~= script(21, choice as int));
            r
        },
        22 => {
            let r = vec![say(AS_YOUR_ACCESS_LEVEL, Some(speaker)), say(YOU_CAN_CLICK_ON, None)];
            assert(response_views(r@) =~= script(22, choice as int));
            r
        },
        23 => {
            let r = vec![say(ALTHOUGH_YOU_ONLY_HAVE, None), offer1(AFTER_YOU_VE_MESS, None, OK)];
            assert(response_views(r@) =~= script(23, choice as int));
            r
        },
        _ => {
            let r = vec![say(THAT_S_ABOUT_IT, None)];
            assert(response_views(r@) =~= script(24, choice as int));
            r
        },
    }
}

/// The guide who greets the player: a dialogue of a fixed number of steps.
pub struct AliceNpc {
    /// The next script step to run.
    pub progress: usize,
    /// The last choice the player made.
    pub previous_choice: usize,
    pub hitpoints: i32,
    /// Responses not yet handed out, oldest first.
    pub message_queue: VecDeque<NpcResponse>,
}

impl View for AliceNpc {
    type V = AliceView;

    open spec fn view(&self) -> AliceView {
        AliceView {
            progress: self.progress as nat,
            previous_choice: self.previous_choice as nat,
            hitpoints: self.hitpoints as int,
            queue: response_views(self.message_queue@),
        }
    }
}

impl Default for AliceNpc {
    fn default() -> (r: AliceNpc)
        ensures
            r@ == fresh_alice(),
    {
        let r = AliceNpc {
            progress: 0,
            previous_choice: 0,
            hitpoints: i32::MAX,
            message_queue: VecDeque::new(),
        };
        assert(r@.queue =~= seq![]);
        r
    }
}

impl AliceNpc {
    pub fn id(&self) -> (r: &'static str)
        ensures
            r@ == ALICE_ID@,
    {
        ALICE_ID
    }

    /// The name the player knows the character by so far.
    pub fn name(&self) -> (r: &'static str)
        ensures
            r@ == speaker_name(self.progress as int),
    {
        if self.progress >= NAME_KNOWN_STEP {
            TRUE_NAME
        } else {
            UNKNOWN_NAME
        }
    }

    /// What the details panel tells of the character.
    pub fn info(&self) -> (r: String)
        ensures
            r@ == if self.progress >= NAME_KNOWN_STEP {
                INFO_TITLE@ + INFO_BREAK@ + INFO_LOOKS@ + INFO_BREAK@ + INFO_ROLE@
            } else {
                UNKNOWN_NAME@
            },
    {
        if self.progress >= NAME_KNOWN_STEP {
            let mut r = String::from_str(INFO_TITLE);
            r.append(INFO_BREAK);
            r.append(INFO_LOOKS);
            r.append(INFO_BREAK);
            r.append(INFO_ROLE);
            r
        } else {
            String::from_str(UNKNOWN_NAME)
        }
    }

    /// Whether the script has run to its end.
    pub fn job_completed(&self) -> (r: bool)
        ensures
            r == (self.progress >= TERMINAL_STEP),
    {
        self.progress >= TERMINAL_STEP
    }

    /// Hands out the oldest response not yet handed out.
    pub fn get_response(&mut self) -> (r: Option<NpcResponse>)
        ensures
            old(self)@.queue.len() == 0 ==> (r is None) && final(self)@ == old(self)@,
            old(self)@.queue.len() > 0 ==> (r is Some) && r->0@ == old(self)@.queue[0]
                && final(self)@ == (AliceView { queue: old(self)@.queue.drop_first(), ..old(self)@ }),
    {
        let r = self.message_queue.pop_front();
        proof {
            if r is Some {
                assert(response_views(self.message_queue@) =~= old(self)@.queue.drop_first());
            }
        }
        r
    }

    /// Runs the script step at the current progress and moves on by one. A
    /// given choice is remembered first; without one the last is used again.
    pub fn interact(&mut self, game_state: &mut GameState, choice: Option<usize>)
        requires
            old(self).progress < TERMINAL_STEP,
        ensures
            final(self)@ == interaction(
                old(self)@,
                match choice {
                    Some(n) => n as nat,
                    None => old(self).previous_choice as nat,
                },
            ),
            final(game_state)@ == script_effect(old(self).progress as int, old(game_state)@),
            final(self)@.queue.len() > old(self)@.queue.len(),
            rank(final(game_state).game_progress) >= rank(old(game_state).game_progress),
    {
        proof {
            script_says_something(
                old(self).progress as int,
                match choice {
                    Some(n) => n as int,
                    None => old(self).previous_choice as int,
                },
            );
        }
        if let Some(num) = choice {
            self.previous_choice = num;
        }
        let choice = self.previous_choice;
        let p = self.progress;
        let mut step = script_step(p, choice, self.name());
        let ghost base = response_views(self.message_queue@);
        let ghost added = response_views(step@);
        assert(base + added.subrange(0, 0) =~= base);
        while step.len() > 0
            invariant
                self.progress == p,
                self.previous_choice == choice,
                self.hitpoints == old(self).hitpoints,
                step@.len() <= added.len(),
                response_views(self.message_queue@) == base + added.subrange(
                    0,
                    added.len() - step@.len(),
                ),
                response_views(step@) == added.subrange(added.len() - step@.len(), added.len() as int),
            decreases step.len(),
        {
            let ghost k = added.len() - step@.len();
            let ghost rest = step@;
            let ghost queued = self.message_queue@;
            let r = step.remove(0);
            assert(step@ =~= rest.subrange(1, rest.len() as int));
            assert(response_views(rest)[0] == added[k]);
            self.message_queue.push_back(r);
            assert(self.message_queue@ == queued.push(r));
            assert(response_views(self.message_queue@) =~= response_views(queued).push(r@));
            assert(response_views(self.message_queue@) =~= base + added.subrange(0, k + 1));
            assert forall|j: int| 0 <= j < step@.len() implies response_views(step@)[j] == added[k
                + 1 + j] by {
                assert(step@[j] == rest[j + 1]);
                assert(response_views(rest)[j + 1] == added.subrange(k, added.len() as int)[j + 1]);
            }
            assert(response_views(step@) =~= added.subrange(k + 1, added.len() as int));
        }
        assert(added.subrange(0, added.len() as int) =~= added);
        if p == PANEL_STEP {
            game_state.raise_progress(GameProgress::HasPanel);
        } else if p == TERMINAL_UNLOCK_STEP {
            game_state.raise_progress(GameProgress::HasTerminal);
        }
        self.progress = p + 1;
    }

    /// Reacts to one action of the player: an attack takes hit points and
    /// nothing else; any other action runs the next script step.
    pub fn handle_action(&mut self, action: &PlayerAction, game_state: &mut GameState)
        requires
            match *action {
                PlayerAction::Attack(d) => i32::MIN <= old(self).hitpoints - d <= i32::MAX,
                _ => old(self).progress < TERMINAL_STEP,
            },
        ensures
            final(self)@ == match *action {
                PlayerAction::Ping => interaction(old(self)@, old(self).previous_choice as nat),
                PlayerAction::Respond(n) => interaction(old(self)@, n as nat),
                PlayerAction::Attack(d) => (AliceView { hitpoints: old(self).hitpoints - d, ..old(self)@ }),
            },
            final(game_state)@ == match *action {
                PlayerAction::Attack(_) => old(game_state)@,
                _ => script_effect(old(self).progress as int, old(game_state)@),
            },
            !(*action is Attack) ==> final(self)@.queue.len() > old(self)@.queue.len(),
            final(self).progress >= old(self).progress,
            rank(final(game_state).game_progress) >= rank(old(game_state).game_progress),
    {
        match action {
            PlayerAction::Ping => self.interact(game_state, None),
            PlayerAction::Attack(damage) => {
                self.hitpoints = self.hitpoints - *damage;
            },
            PlayerAction::Respond(choice) => self.interact(game_state, Some(*choice)),
        }
    }
}

} // verus!
