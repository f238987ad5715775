//! The application's top-level state machine, and what every state machine
//! of the application offers.
use vstd::prelude::*;
use crate::create_new_version_state::{
    create_new_version_description, create_new_version_entry_command, create_new_version_step,
    CreateNewVersionState, CreateNewVersionStateView,
};
use crate::define_word_state::{
    define_word_description, define_word_entry_command, define_word_step, DefineWordCommand,
    DefineWordCommandView, DefineWordEvent, DefineWordState, DefineWordStateView,
};
use crate::effects::{Command, CommandView, Event, StepError};
use crate::paths::string_seqs;
use crate::text::text;

verus! {

/// A state of one of the application's state machines.
pub trait State: Sized {
    /// What the state describes itself as.
    spec fn description(&self) -> Seq<char>;

    /// Whether the machine has finished.
    spec fn terminal(&self) -> bool;

    /// A short description of the state.
    fn describe(&self) -> (r: String)
        ensures
            r@ == self.description(),
    ;

    /// Whether the machine has finished.
    fn is_terminal(&self) -> (r: bool)
        ensures
            r == self.terminal(),
    ;
}

/// Where the application stands.
#[derive(Debug)]
pub enum DictionaryApplicationState {
    JustLaunchedNoArgs,
    DefineWord(DefineWordState),
    CreateNewVersion(CreateNewVersionState),
    Done,
}

/// Work for the outside world while the application runs.
#[derive(Debug)]
pub enum AppCommand {
    /// Let the user pick one of `choices` under the header "Choose an
    /// action": `InitialActionPicked` with the index picked.
    PickInitialAction { choices: Vec<String> },
    DefineWord(DefineWordCommand),
    CreateNewVersion(Command),
}

/// The outside world's answer to an `AppCommand`.
#[derive(Debug)]
pub enum AppEvent {
    InitialActionPicked { index: usize },
    DefineWord(DefineWordEvent),
    CreateNewVersion(Event),
}

/// A `DictionaryApplicationState`, as values.
pub enum DictionaryApplicationStateView {
    JustLaunchedNoArgs,
    DefineWord(DefineWordStateView),
    CreateNewVersion(CreateNewVersionStateView),
    Done,
}

/// An `AppCommand`, as values.
pub enum AppCommandView {
    PickInitialAction { choices: Seq<Seq<char>> },
    DefineWord(DefineWordCommandView),
    CreateNewVersion(CommandView),
}

impl View for DictionaryApplicationState {
    type V = DictionaryApplicationStateView;

    open spec fn view(&self) -> DictionaryApplicationStateView {
        match self {
            DictionaryApplicationState::JustLaunchedNoArgs =>
                DictionaryApplicationStateView::JustLaunchedNoArgs,
            DictionaryApplicationState::DefineWord(s) => DictionaryApplicationStateView::DefineWord(
                s@,
            ),
            DictionaryApplicationState::CreateNewVersion(s) =>
                DictionaryApplicationStateView::CreateNewVersion(s@),
            DictionaryApplicationState::Done => DictionaryApplicationStateView::Done,
        }
    }
}

impl View for AppCommand {
    type V = AppCommandView;

    open spec fn view(&self) -> AppCommandView {
        match self {
            AppCommand::PickInitialAction { choices } => AppCommandView::PickInitialAction {
                choices: string_seqs(choices@),
            },
            AppCommand::DefineWord(c) => AppCommandView::DefineWord(c@),
            AppCommand::CreateNewVersion(c) => AppCommandView::CreateNewVersion(c@),
        }
    }
}

/// The view of an optional command.
pub open spec fn opt_app_command_view(c: Option<AppCommand>) -> Option<AppCommandView> {
    match c {
        Some(k) => Some(k@),
        None => None,
    }
}

/// The states the user can start from.
pub open spec fn initial_action_views() -> Seq<DictionaryApplicationStateView> {
    seq![
        DictionaryApplicationStateView::DefineWord(DefineWordStateView::PromptingForWordToDefine),
        DictionaryApplicationStateView::CreateNewVersion(
            CreateNewVersionStateView::DetermineWorkspaceCargoTomlPath,
        ),
    ]
}

/// What each state describes itself as.
pub open spec fn app_description(s: DictionaryApplicationStateView) -> Seq<char> {
    match s {
        DictionaryApplicationStateView::JustLaunchedNoArgs => "Start the application"@,
        DictionaryApplicationStateView::DefineWord(d) => define_word_description(d),
        DictionaryApplicationStateView::CreateNewVersion(c) => create_new_version_description(c),
        DictionaryApplicationStateView::Done => "Done"@,
    }
}

/// A defining-word machine in state `d` with its next command `c`, as part
/// of the application: once it is done, so is the application.
pub open spec fn wrap_define_word(d: DefineWordStateView, c: Option<DefineWordCommandView>) -> (
    DictionaryApplicationStateView,
    Option<AppCommandView>,
) {
    match c {
        None => (DictionaryApplicationStateView::Done, None),
        Some(k) => (DictionaryApplicationStateView::DefineWord(d), Some(AppCommandView::DefineWord(k))),
    }
}

/// A version-creating machine in state `v` with its next command `c`, as
/// part of the application: once it is done, so is the application.
pub open spec fn wrap_create_new_version(v: CreateNewVersionStateView, c: Option<CommandView>) -> (
    DictionaryApplicationStateView,
    Option<AppCommandView>,
) {
    match c {
        None => (DictionaryApplicationStateView::Done, None),
        Some(k) => (
            DictionaryApplicationStateView::CreateNewVersion(v),
            Some(AppCommandView::CreateNewVersion(k)),
        ),
    }
}

/// Starting the work of state `s`: the state it settles in and the first
/// command (none once done).
pub open spec fn app_begin(s: DictionaryApplicationStateView) -> (
    DictionaryApplicationStateView,
    Option<AppCommandView>,
) {
    match s {
        DictionaryApplicationStateView::JustLaunchedNoArgs => (
            s,
            Some(
                AppCommandView::PickInitialAction {
                    choices: initial_action_views().map_values(
                        |a: DictionaryApplicationStateView| app_description(a),
                    ),
                },
            ),
        ),
        DictionaryApplicationStateView::DefineWord(d) => wrap_define_word(
            d,
            define_word_entry_command(d),
        ),
        DictionaryApplicationStateView::CreateNewVersion(v) => wrap_create_new_version(
            v,
            create_new_version_entry_command(v),
        ),
        DictionaryApplicationStateView::Done => (s, None),
    }
}

/// One step of the application.
pub open spec fn app_step(s: DictionaryApplicationStateView, event: AppEvent) -> Result<
    (DictionaryApplicationStateView, Option<AppCommandView>),
    StepError,
> {
    match s {
        DictionaryApplicationStateView::JustLaunchedNoArgs => match event {
            AppEvent::InitialActionPicked { index } => if index < initial_action_views().len() {
                Ok(app_begin(initial_action_views()[index as int]))
            } else {
                Err(StepError::UnexpectedEvent)
            },
            _ => Err(StepError::UnexpectedEvent),
        },
        DictionaryApplicationStateView::DefineWord(d) => match event {
            AppEvent::DefineWord(e) => match define_word_step(d, e) {
                Err(x) => Err(x),
                Ok((d2, c)) => Ok(wrap_define_word(d2, c)),
            },
            _ => Err(StepError::UnexpectedEvent),
        },
        DictionaryApplicationStateView::CreateNewVersion(v) => match event {
            AppEvent::CreateNewVersion(e) => match create_new_version_step(v, e) {
                Err(x) => Err(x),
                Ok((v2, c)) => Ok(wrap_create_new_version(v2, c)),
            },
            _ => Err(StepError::UnexpectedEvent),
        },
        DictionaryApplicationStateView::Done => Ok((DictionaryApplicationStateView::Done, None)),
    }
}

/// The application hands an event of the version-creating machine on to
/// that machine and follows it: where the machine fails, the application
/// fails with the same error; where the machine moves on with a command,
/// the application moves on with it; where the machine is done, so is the
/// application.
pub proof fn lemma_app_follows_create_new_version(
    v: CreateNewVersionStateView,
    e: Event,
    x: StepError,
    next: CreateNewVersionStateView,
    k: CommandView,
)
    ensures
        create_new_version_step(v, e) == Err::<(CreateNewVersionStateView, Option<CommandView>), StepError>(x)
            ==> app_step(DictionaryApplicationStateView::CreateNewVersion(v), AppEvent::CreateNewVersion(e))
            == Err::<(DictionaryApplicationStateView, Option<AppCommandView>), StepError>(x),
        create_new_version_step(v, e) == Ok::<(CreateNewVersionStateView, Option<CommandView>), StepError>(
            (next, Some(k)),
        ) ==> app_step(DictionaryApplicationStateView::CreateNewVersion(v), AppEvent::CreateNewVersion(e))
            == Ok::<(DictionaryApplicationStateView, Option<AppCommandView>), StepError>(
            (
                DictionaryApplicationStateView::CreateNewVersion(next),
                Some(AppCommandView::CreateNewVersion(k)),
            ),
        ),
        create_new_version_step(v, e) == Ok::<(CreateNewVersionStateView, Option<CommandView>), StepError>(
            (next, None),
        ) ==> app_step(DictionaryApplicationStateView::CreateNewVersion(v), AppEvent::CreateNewVersion(e))
            == Ok::<(DictionaryApplicationStateView, Option<AppCommandView>), StepError>(
            (DictionaryApplicationStateView::Done, None),
        ),
        (app_step(DictionaryApplicationStateView::CreateNewVersion(v), AppEvent::CreateNewVersion(e))
            is Err) <==> (create_new_version_step(v, e) is Err),
{
}

/// The application hands an event of the word-defining machine on to that
/// machine and follows it: where the machine fails, the application fails
/// with the same error; where the machine moves on with a command, the
/// application moves on with it; where the machine is done, so is the
/// application.
pub proof fn lemma_app_follows_define_word(
    d: DefineWordStateView,
    e: DefineWordEvent,
    x: StepError,
    next: DefineWordStateView,
    k: DefineWordCommandView,
)
    ensures
        define_word_step(d, e) == Err::<(DefineWordStateView, Option<DefineWordCommandView>), StepError>(x)
            ==> app_step(DictionaryApplicationStateView::DefineWord(d), AppEvent::DefineWord(e))
            == Err::<(DictionaryApplicationStateView, Option<AppCommandView>), StepError>(x),
        define_word_step(d, e) == Ok::<(DefineWordStateView, Option<DefineWordCommandView>), StepError>(
            (next, Some(k)),
        ) ==> app_step(DictionaryApplicationStateView::DefineWord(d), AppEvent::DefineWord(e))
            == Ok::<(DictionaryApplicationStateView, Option<AppCommandView>), StepError>(
            (DictionaryApplicationStateView::DefineWord(next), Some(AppCommandView::DefineWord(k))),
        ),
        define_word_step(d, e) == Ok::<(DefineWordStateView, Option<DefineWordCommandView>), StepError>(
            (next, None),
        ) ==> app_step(DictionaryApplicationStateView::DefineWord(d), AppEvent::DefineWord(e))
            == Ok::<(DictionaryApplicationStateView, Option<AppCommandView>), StepError>(
            (DictionaryApplicationStateView::Done, None),
        ),
        (app_step(DictionaryApplicationStateView::DefineWord(d), AppEvent::DefineWord(e)) is Err)
            <==> (define_word_step(d, e) is Err),
{
}

/// Picking an action from the choices offered at launch starts the action
/// described at that position of the choices: the first defines a word,
/// prompting for it; the second creates a new version, locating the
/// dictionary's root first; any other position is refused.
pub proof fn lemma_app_pick_initial_action(index: usize)
    ensures
        ({
            let offered = app_begin(DictionaryApplicationStateView::JustLaunchedNoArgs).1;
            let r = app_step(
                DictionaryApplicationStateView::JustLaunchedNoArgs,
                AppEvent::InitialActionPicked { index },
            );
            &&& offered == Some(
                AppCommandView::PickInitialAction {
                    choices: seq!["Prompt me for a word to define"@, "Determine workspace Cargo.toml path"@],
                },
            )
            &&& index == 0 ==> r == Ok::<(DictionaryApplicationStateView, Option<AppCommandView>), StepError>(
                (
                    DictionaryApplicationStateView::DefineWord(
                        DefineWordStateView::PromptingForWordToDefine,
                    ),
                    Some(AppCommandView::DefineWord(DefineWordCommandView::PromptForWord)),
                ),
            )
            &&& index == 1 ==> r == Ok::<(DictionaryApplicationStateView, Option<AppCommandView>), StepError>(
                (
                    DictionaryApplicationStateView::CreateNewVersion(
                        CreateNewVersionStateView::DetermineWorkspaceCargoTomlPath,
                    ),
                    Some(AppCommandView::CreateNewVersion(CommandView::LocateDictionaryRoot)),
                ),
            )
            &&& index >= 2 ==> r == Err::<(DictionaryApplicationStateView, Option<AppCommandView>), StepError>(
                StepError::UnexpectedEvent,
            )
        }),
{
    let choices = initial_action_views().map_values(
        |a: DictionaryApplicationStateView| app_description(a),
    );
    assert(choices =~= seq!["Prompt me for a word to define"@, "Determine workspace Cargo.toml path"@]);
}

/// Starting the work of a state gives a command exactly when the
/// application is not done.
pub proof fn lemma_app_begin_command_until_done(s: DictionaryApplicationStateView)
    ensures
        (app_begin(s).1 is None) <==> (app_begin(s).0 is Done),
{
    match s {
        DictionaryApplicationStateView::DefineWord(d) => {
            crate::define_word_state::lemma_define_word_entry_command_until_done(d);
        },
        DictionaryApplicationStateView::CreateNewVersion(v) => {
            crate::create_new_version_state::lemma_create_entry_command_until_done(v);
        },
        _ => {},
    }
}

/// After a step of the application there is a next command exactly when
/// the application is not done; once done, it stays done.
pub proof fn lemma_app_step_command_until_done(s: DictionaryApplicationStateView, event: AppEvent)
    requires
        app_step(s, event) is Ok,
    ensures
        (app_step(s, event)->Ok_0.1 is None) <==> (app_step(s, event)->Ok_0.0 is Done),
        s is Done ==> app_step(s, event)->Ok_0.0 is Done,
{
    match s {
        DictionaryApplicationStateView::JustLaunchedNoArgs => {
            if let AppEvent::InitialActionPicked { index } = event {
                lemma_app_begin_command_until_done(initial_action_views()[index as int]);
            }
        },
        _ => {},
    }
}

/// How far along the application a state is: started, running a chosen
/// machine, or done.
pub open spec fn app_stage(s: DictionaryApplicationStateView) -> nat {
    match s {
        DictionaryApplicationStateView::JustLaunchedNoArgs => 0,
        DictionaryApplicationStateView::DefineWord(_) => 1,
        DictionaryApplicationStateView::CreateNewVersion(_) => 1,
        DictionaryApplicationStateView::Done => 2,
    }
}

/// A step of the application keeps its stage or moves it on by one.
pub proof fn lemma_app_step_progress(s: DictionaryApplicationStateView, event: AppEvent)
    requires
        app_step(s, event) is Ok,
    ensures
        app_stage(s) <= app_stage(app_step(s, event)->Ok_0.0) <= app_stage(s) + 1,
{
}

/// One step of the application as a partial function of states.
pub open spec fn app_step_fn() -> spec_fn(DictionaryApplicationStateView, AppEvent) -> Option<
    DictionaryApplicationStateView,
> {
    |s: DictionaryApplicationStateView, e: AppEvent|
        match app_step(s, e) {
            Ok(p) => Some(p.0),
            Err(_) => None,
        }
}

/// The stage of a state, as a function.
pub open spec fn app_stage_fn() -> spec_fn(DictionaryApplicationStateView) -> nat {
    |s: DictionaryApplicationStateView| app_stage(s)
}

/// A run of the application from its start never comes back to the start
/// once it has left it, and a run that ends done has changed stage exactly
/// twice: from the start to the chosen machine, and from that machine to
/// done.
pub proof fn lemma_app_run_from_start(events: Seq<AppEvent>)
    ensures
        ({
            let states = crate::runs::run(
                app_step_fn(),
                DictionaryApplicationStateView::JustLaunchedNoArgs,
                events,
            );
            &&& forall|i: int, j: int|
                0 <= i <= j < states.len() ==> app_stage(#[trigger] states[i]) <= app_stage(
                    #[trigger] states[j],
                )
            &&& forall|i: int|
                0 < i < states.len() && !(states[i - 1] is JustLaunchedNoArgs) ==> !(
                #[trigger] states[i] is JustLaunchedNoArgs)
            &&& states.last() is Done ==> crate::runs::stage_changes(app_stage_fn(), states) == 2
        }),
{
    let step = app_step_fn();
    let stage = app_stage_fn();
    assert forall|s: DictionaryApplicationStateView, e: AppEvent| #[trigger] step(s, e) is Some implies stage(s)
        <= stage(step(s, e)->0) <= stage(s) + 1 by {
        lemma_app_step_progress(s, e);
    }
    crate::runs::lemma_run_stages(step, stage, DictionaryApplicationStateView::JustLaunchedNoArgs, events);
    let states = crate::runs::run(step, DictionaryApplicationStateView::JustLaunchedNoArgs, events);
    assert forall|i: int, j: int| 0 <= i <= j < states.len() implies app_stage(#[trigger] states[i])
        <= app_stage(#[trigger] states[j]) by {
        assert(stage(states[i]) <= stage(states[j]));
    }
    assert forall|i: int|
        0 < i < states.len() && !(states[i - 1] is JustLaunchedNoArgs) implies !(
        #[trigger] states[i] is JustLaunchedNoArgs) by {
        assert(stage(states[i - 1]) <= stage(states[i]));
    }
    assert(stage(states.last()) == app_stage(states.last()));
}

/// The view of a begin or step result.
pub open spec fn app_pair_view(p: (DictionaryApplicationState, Option<AppCommand>)) -> (
    DictionaryApplicationStateView,
    Option<AppCommandView>,
) {
    (p.0@, opt_app_command_view(p.1))
}

/// The view of a step's result.
pub open spec fn app_step_view(r: Result<(DictionaryApplicationState, Option<AppCommand>), StepError>) -> Result<
    (DictionaryApplicationStateView, Option<AppCommandView>),
    StepError,
> {
    match r {
        Ok(p) => Ok(app_pair_view(p)),
        Err(e) => Err(e),
    }
}

/// The states the user can start from: defining a word, or creating a new
/// version.
pub fn initial_actions() -> (r: Vec<DictionaryApplicationState>)
    ensures
        r@.map_values(|s: DictionaryApplicationState| s@) == initial_action_views(),
{
    let mut r: Vec<DictionaryApplicationState> = Vec::new();
    r.push(DictionaryApplicationState::DefineWord(DefineWordState::PromptingForWordToDefine));
    r.push(
        DictionaryApplicationState::CreateNewVersion(
            CreateNewVersionState::DetermineWorkspaceCargoTomlPath,
        ),
    );
    assert(r@.map_values(|s: DictionaryApplicationState| s@) =~= initial_action_views());
    r
}

impl DictionaryApplicationState {
    /// Starts the work of this state: the state it settles in (a machine
    /// that is already done finishes the application) and the first command
    /// (none once done).
    pub fn begin(self) -> (r: (DictionaryApplicationState, Option<AppCommand>))
        ensures
            app_pair_view(r) == app_begin(self@),
    {
        match self {
            DictionaryApplicationState::JustLaunchedNoArgs => {
                let actions = initial_actions();
                let mut choices: Vec<String> = Vec::new();
                let mut i: usize = 0;
                while i < actions.len()
                    invariant
                        i <= actions.len(),
                        actions@.map_values(|s: DictionaryApplicationState| s@)
                            == initial_action_views(),
                        string_seqs(choices@) == initial_action_views().map_values(
                            |a: DictionaryApplicationStateView| app_description(a),
                        ).take(i as int),
                    decreases actions.len() - i,
                {
                    let key = actions[i].describe();
                    assert(actions@.map_values(|s: DictionaryApplicationState| s@)[i as int]
                        == actions@[i as int]@);
                    assert(key@ == app_description(initial_action_views()[i as int]));
                    let ghost before = choices@;
                    choices.push(key);
                    assert(string_seqs(choices@) =~= string_seqs(before).push(key@));
                    i = i + 1;
                    assert(string_seqs(choices@) =~= initial_action_views().map_values(
                        |a: DictionaryApplicationStateView| app_description(a),
                    ).take(i as int));
                }
                assert(initial_action_views().map_values(
                    |a: DictionaryApplicationStateView| app_description(a),
                ).take(i as int) =~= initial_action_views().map_values(
                    |a: DictionaryApplicationStateView| app_description(a),
                ));
                (
                    DictionaryApplicationState::JustLaunchedNoArgs,
                    Some(AppCommand::PickInitialAction { choices }),
                )
            },
            DictionaryApplicationState::DefineWord(d) => {
                let c = d.first_command();
                match c {
                    None => (DictionaryApplicationState::Done, None),
                    Some(k) => (DictionaryApplicationState::DefineWord(d), Some(AppCommand::DefineWord(k))),
                }
            },
            DictionaryApplicationState::CreateNewVersion(v) => {
                let c = v.first_command();
                match c {
                    None => (DictionaryApplicationState::Done, None),
                    Some(k) => (
                        DictionaryApplicationState::CreateNewVersion(v),
                        Some(AppCommand::CreateNewVersion(k)),
                    ),
                }
            },
            DictionaryApplicationState::Done => (DictionaryApplicationState::Done, None),
        }
    }

    /// One step: the state after `event` answered the last command, and the
    /// next command (none once done).
    pub fn step(self, event: AppEvent) -> (r: Result<
        (DictionaryApplicationState, Option<AppCommand>),
        StepError,
    >)
        ensures
            app_step_view(r) == app_step(self@, event),
    {
        match self {
            DictionaryApplicationState::JustLaunchedNoArgs => match event {
                AppEvent::InitialActionPicked { index } => {
                    let mut actions = initial_actions();
                    if index < actions.len() {
                        let chosen = actions.remove(index);
                        proof {
                            assert(chosen@ == initial_action_views()[index as int]);
                        }
                        Ok(chosen.begin())
                    } else {
                        Err(StepError::UnexpectedEvent)
                    }
                },
                _ => Err(StepError::UnexpectedEvent),
            },
            DictionaryApplicationState::DefineWord(d) => match event {
                AppEvent::DefineWord(e) => match d.step(e) {
                    Err(x) => Err(x),
                    Ok((d2, c)) => match c {
                        None => Ok((DictionaryApplicationState::Done, None)),
                        Some(k) => Ok(
                            (DictionaryApplicationState::DefineWord(d2), Some(AppCommand::DefineWord(k))),
                        ),
                    },
                },
                _ => Err(StepError::UnexpectedEvent),
            },
            DictionaryApplicationState::CreateNewVersion(v) => match event {
                AppEvent::CreateNewVersion(e) => match v.step(e) {
                    Err(x) => Err(x),
                    Ok((v2, c)) => match c {
                        None => Ok((DictionaryApplicationState::Done, None)),
                        Some(k) => Ok(
                            (
                                DictionaryApplicationState::CreateNewVersion(v2),
                                Some(AppCommand::CreateNewVersion(k)),
                            ),
                        ),
                    },
                },
                _ => Err(StepError::UnexpectedEvent),
            },
            DictionaryApplicationState::Done => Ok((DictionaryApplicationState::Done, None)),
        }
    }
}

impl State for DictionaryApplicationState {
    open spec fn description(&self) -> Seq<char> {
        app_description(self@)
    }

    open spec fn terminal(&self) -> bool {
        self@ is Done
    }

    fn describe(&self) -> (r: String) {
        match self {
            DictionaryApplicationState::JustLaunchedNoArgs => text("Start the application"),
            DictionaryApplicationState::DefineWord(d) => d.describe(),
            DictionaryApplicationState::CreateNewVersion(v) => v.describe(),
            DictionaryApplicationState::Done => text("Done"),
        }
    }

    fn is_terminal(&self) -> (r: bool) {
        match self {
            DictionaryApplicationState::Done => true,
            _ => false,
        }
    }
}

impl Default for DictionaryApplicationState {
    fn default() -> (s: Self)
        ensures
            s@ == DictionaryApplicationStateView::JustLaunchedNoArgs,
    {
        DictionaryApplicationState::JustLaunchedNoArgs
    }
}

} // verus!
