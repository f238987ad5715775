//! Defining a word, as a state machine: ask for the word, then define it.
use vstd::prelude::*;
use crate::effects::StepError;
use crate::state::State;
use crate::text::text;

verus! {

/// Where defining a word stands.
#[derive(Debug)]
pub enum DefineWordState {
    PromptingForWordToDefine,
    DefiningWord { word: String },
    Done,
}

/// Work for the outside world while defining a word.
#[derive(Debug)]
pub enum DefineWordCommand {
    /// Ask the user for a word: `WordEntered`.
    PromptForWord,
    /// Define `word`: `WordDefined`.
    DefineWord { word: String },
}

/// The outside world's answer to a `DefineWordCommand`.
#[derive(Debug)]
pub enum DefineWordEvent {
    WordEntered { word: String },
    WordDefined,
}

/// A `DefineWordState`, as values.
pub enum DefineWordStateView {
    PromptingForWordToDefine,
    DefiningWord { word: Seq<char> },
    Done,
}

/// A `DefineWordCommand`, as values.
pub enum DefineWordCommandView {
    PromptForWord,
    DefineWord { word: Seq<char> },
}

impl View for DefineWordState {
    type V = DefineWordStateView;

    open spec fn view(&self) -> DefineWordStateView {
        match self {
            DefineWordState::PromptingForWordToDefine => DefineWordStateView::PromptingForWordToDefine,
            DefineWordState::DefiningWord { word } => DefineWordStateView::DefiningWord { word: word@ },
            DefineWordState::Done => DefineWordStateView::Done,
        }
    }
}

impl View for DefineWordCommand {
    type V = DefineWordCommandView;

    open spec fn view(&self) -> DefineWordCommandView {
        match self {
            DefineWordCommand::PromptForWord => DefineWordCommandView::PromptForWord,
            DefineWordCommand::DefineWord { word } => DefineWordCommandView::DefineWord {
                word: word@,
            },
        }
    }
}

/// The view of an optional command.
pub open spec fn opt_define_word_command_view(c: Option<DefineWordCommand>) -> Option<
    DefineWordCommandView,
> {
    match c {
        Some(k) => Some(k@),
        None => None,
    }
}

/// What each state describes itself as.
pub open spec fn define_word_description(s: DefineWordStateView) -> Seq<char> {
    match s {
        DefineWordStateView::PromptingForWordToDefine => "Prompt me for a word to define"@,
        DefineWordStateView::DefiningWord { .. } => "Define a word"@,
        DefineWordStateView::Done => "Done"@,
    }
}

/// The command that starts the work of a state.
pub open spec fn define_word_entry_command(s: DefineWordStateView) -> Option<DefineWordCommandView> {
    match s {
        DefineWordStateView::PromptingForWordToDefine => Some(DefineWordCommandView::PromptForWord),
        DefineWordStateView::DefiningWord { word } => Some(
            DefineWordCommandView::DefineWord { word },
        ),
        DefineWordStateView::Done => None,
    }
}

/// One step of defining a word.
pub open spec fn define_word_step(s: DefineWordStateView, event: DefineWordEvent) -> Result<
    (DefineWordStateView, Option<DefineWordCommandView>),
    StepError,
> {
    match (s, event) {
        (DefineWordStateView::PromptingForWordToDefine, DefineWordEvent::WordEntered { word }) => Ok(
            (
                DefineWordStateView::DefiningWord { word: word@ },
                Some(DefineWordCommandView::DefineWord { word: word@ }),
            ),
        ),
        (DefineWordStateView::DefiningWord { .. }, DefineWordEvent::WordDefined) => Ok(
            (DefineWordStateView::Done, None),
        ),
        (DefineWordStateView::Done, _) => Ok((DefineWordStateView::Done, None)),
        _ => Err(StepError::UnexpectedEvent),
    }
}

/// Defining a word never goes back: a word, once entered, is the one
/// defined; once done it stays done; there is a next command exactly while
/// it is not done.
pub proof fn lemma_define_word_step(s: DefineWordStateView, event: DefineWordEvent)
    requires
        define_word_step(s, event) is Ok,
    ensures
        (define_word_step(s, event)->Ok_0.1 is None) <==> (define_word_step(s, event)->Ok_0.0 is Done),
        s is Done ==> define_word_step(s, event)->Ok_0.0 is Done,
        s is DefiningWord ==> define_word_step(s, event)->Ok_0.0 is Done,
        define_word_step(s, event)->Ok_0.0 matches DefineWordStateView::DefiningWord { word } ==> (
        event matches DefineWordEvent::WordEntered { word: w } && w@ == word),
{
}

/// Every state announces work to do exactly until it is done.
pub proof fn lemma_define_word_entry_command_until_done(s: DefineWordStateView)
    ensures
        define_word_entry_command(s) is None <==> s is Done,
{
}

/// The view of a step's result.
pub open spec fn define_word_step_view(
    r: Result<(DefineWordState, Option<DefineWordCommand>), StepError>,
) -> Result<(DefineWordStateView, Option<DefineWordCommandView>), StepError> {
    match r {
        Ok((s, c)) => Ok((s@, opt_define_word_command_view(c))),
        Err(e) => Err(e),
    }
}

impl DefineWordState {
    /// The command that starts the work of this state (none once done).
    pub fn first_command(&self) -> (c: Option<DefineWordCommand>)
        ensures
            opt_define_word_command_view(c) == define_word_entry_command(self@),
    {
        match self {
            DefineWordState::PromptingForWordToDefine => Some(DefineWordCommand::PromptForWord),
            DefineWordState::DefiningWord { word } => Some(
                DefineWordCommand::DefineWord { word: text(word.as_str()) },
            ),
            DefineWordState::Done => None,
        }
    }

    /// One step: the state after `event` answered the last command, and the
    /// next command (none once done).
    pub fn step(self, event: DefineWordEvent) -> (r: Result<
        (DefineWordState, Option<DefineWordCommand>),
        StepError,
    >)
        ensures
            define_word_step_view(r) == define_word_step(self@, event),
    {
        match self {
            DefineWordState::PromptingForWordToDefine => match event {
                DefineWordEvent::WordEntered { word } => {
                    let command = DefineWordCommand::DefineWord { word: text(word.as_str()) };
                    Ok((DefineWordState::DefiningWord { word }, Some(command)))
                },
                _ => Err(StepError::UnexpectedEvent),
            },
            DefineWordState::DefiningWord { .. } => match event {
                DefineWordEvent::WordDefined => Ok((DefineWordState::Done, None)),
                _ => Err(StepError::UnexpectedEvent),
            },
            DefineWordState::Done => Ok((DefineWordState::Done, None)),
        }
    }
}

impl State for DefineWordState {
    open spec fn description(&self) -> Seq<char> {
        define_word_description(self@)
    }

    open spec fn terminal(&self) -> bool {
        self@ is Done
    }

    fn describe(&self) -> (r: String) {
        match self {
            DefineWordState::PromptingForWordToDefine => text("Prompt me for a word to define"),
            DefineWordState::DefiningWord { .. } => text("Define a word"),
            DefineWordState::Done => text("Done"),
        }
    }

    fn is_terminal(&self) -> (r: bool) {
        match self {
            DefineWordState::Done => true,
            _ => false,
        }
    }
}

impl Default for DefineWordState {
    fn default() -> (s: Self)
        ensures
            s@ == DefineWordStateView::PromptingForWordToDefine,
    {
        DefineWordState::PromptingForWordToDefine
    }
}

} // verus!
