//! The playback controller: which requests a command makes of the media
//! engine, in which order, and what the command's outcome is.
//!
//! The engine itself is the caller's. A command is a [`PlayerRun`]: the caller
//! asks it for the next step, hands each request to the engine and reports
//! whether the engine accepted it.

use vstd::prelude::*;
use vstd::string::StringExecFns;

verus! {

/// A state of the media engine.
#[derive(Debug, Clone, Copy, PartialEq, Eq, Structural)]
pub enum PlayState {
    /// No state change is pending.
    VoidPending,
    /// Stopped: the engine holds no resources.
    Null,
    /// Ready to go to paused.
    Ready,
    /// Paused.
    Paused,
    /// Playing.
    Playing,
}

/// Why the controller failed.
#[derive(Debug)]
pub enum PlayerError {
    /// The engine could not create the playback element; the text says why.
    CreateElement(String),
    /// The element the engine created is not a pipeline.
    NotAPipeline,
    /// The engine refused a change of state.
    StateChange,
}

/// A controller error as plain text.
pub enum PlayerErrorView {
    CreateElement(Seq<char>),
    NotAPipeline,
    StateChange,
}

impl PlayerErrorView {
    /// The text shown for the error.
    pub open spec fn message(self) -> Seq<char> {
        match self {
            PlayerErrorView::CreateElement(detail) => "Failed to create element: "@ + detail,
            PlayerErrorView::NotAPipeline => "Element is not a pipeline"@,
            PlayerErrorView::StateChange => "State change failed"@,
        }
    }
}

impl View for PlayerError {
    type V = PlayerErrorView;

    open spec fn view(&self) -> PlayerErrorView {
        match self {
            PlayerError::CreateElement(detail) => PlayerErrorView::CreateElement(detail@),
            PlayerError::NotAPipeline => PlayerErrorView::NotAPipeline,
            PlayerError::StateChange => PlayerErrorView::StateChange,
        }
    }
}

impl PlayerError {
    /// The text shown for the error.
    pub fn message(&self) -> (text: String)
        ensures
            text@ == self@.message(),
    {
        match self {
            PlayerError::CreateElement(detail) => String::from_str(
                "Failed to create element: ",
            ).concat(detail.as_str()),
            PlayerError::NotAPipeline => String::from_str("Element is not a pipeline"),
            PlayerError::StateChange => String::from_str("State change failed"),
        }
    }
}

/// One request to the media engine.
#[derive(Debug)]
pub enum EngineRequest {
    /// Go to the given state.
    SetState(PlayState),
    /// Take the given address as the stream to play.
    SetUri(String),
}

/// A request as plain text.
pub enum EngineRequestView {
    SetState(PlayState),
    SetUri(Seq<char>),
}

impl View for EngineRequest {
    type V = EngineRequestView;

    open spec fn view(&self) -> EngineRequestView {
        match self {
            EngineRequest::SetState(state) => EngineRequestView::SetState(*state),
            EngineRequest::SetUri(uri) => EngineRequestView::SetUri(uri@),
        }
    }
}

impl Clone for EngineRequest {
    fn clone(&self) -> (copy: Self)
        ensures
            copy == *self,
    {
        match self {
            EngineRequest::SetState(state) => EngineRequest::SetState(*state),
            EngineRequest::SetUri(uri) => EngineRequest::SetUri(uri.clone()),
        }
    }
}

/// What the engine put on its bus.
#[derive(Debug, Clone, Copy, PartialEq, Eq, Structural)]
pub enum BusNotice {
    /// Some element changed its state to `current`; `from_pipeline` says
    /// whether that element is the controller's own pipeline.
    StateChanged { from_pipeline: bool, current: PlayState },
    /// Stream metadata arrived.
    Tag,
    /// The engine reported an error.
    Error,
    /// Anything else.
    Other,
}

/// The requests of `play`: stop whatever plays, take the address, play.
pub open spec fn play_requests(uri: Seq<char>) -> Seq<EngineRequestView> {
    seq![
        EngineRequestView::SetState(PlayState::Null),
        EngineRequestView::SetUri(uri),
        EngineRequestView::SetState(PlayState::Playing),
    ]
}

/// The single request of `stop`.
pub open spec fn stop_requests() -> Seq<EngineRequestView> {
    seq![EngineRequestView::SetState(PlayState::Null)]
}

/// The single request of `pause`.
pub open spec fn pause_requests() -> Seq<EngineRequestView> {
    seq![EngineRequestView::SetState(PlayState::Paused)]
}

/// What the engine reported when it was asked for the playback element.
#[derive(Debug)]
pub enum EngineCreation {
    /// No element could be made; the text says why.
    Failed(String),
    /// An element was made, but it is no pipeline.
    NotAPipeline,
    /// A pipeline was made.
    Pipeline,
}

/// The controller. Holding one means that the engine made its pipeline.
#[derive(Debug, Clone, Copy)]
pub struct Player {
    made: (),
}

impl Player {
    /// The name of the element that the engine is asked to make.
    pub fn element_name() -> (name: &'static str)
        ensures
            name@ == "playbin3"@,
    {
        "playbin3"
    }

    /// Makes the controller from what the engine reported at start-up.
    pub fn new(creation: EngineCreation) -> (made: Result<Player, PlayerError>)
        ensures
            match creation {
                EngineCreation::Failed(detail) => made matches Err(PlayerError::CreateElement(text))
                    && text@ == detail@,
                EngineCreation::NotAPipeline => made matches Err(PlayerError::NotAPipeline),
                EngineCreation::Pipeline => made is Ok,
            },
    {
        match creation {
            EngineCreation::Failed(detail) => Err(PlayerError::CreateElement(detail)),
            EngineCreation::NotAPipeline => Err(PlayerError::NotAPipeline),
            EngineCreation::Pipeline => Ok(Player { made: () }),
        }
    }

    /// Begins playback of `uri`.
    pub fn play(&self, uri: &str) -> (run: PlayerRun)
        ensures
            run@ == (RunView { requests: play_requests(uri@), position: 0, refused: false }),
    {
        let mut requests: Vec<EngineRequest> = Vec::new();
        requests.push(EngineRequest::SetState(PlayState::Null));
        requests.push(EngineRequest::SetUri(String::from_str(uri)));
        requests.push(EngineRequest::SetState(PlayState::Playing));
        let run = PlayerRun { requests, position: 0, refused: false };
        assert(run@.requests =~= play_requests(uri@));
        run
    }

    /// Begins stopping playback.
    pub fn stop(&self) -> (run: PlayerRun)
        ensures
            run@ == (RunView { requests: stop_requests(), position: 0, refused: false }),
    {
        let mut requests: Vec<EngineRequest> = Vec::new();
        requests.push(EngineRequest::SetState(PlayState::Null));
        let run = PlayerRun { requests, position: 0, refused: false };
        assert(run@.requests =~= stop_requests());
        run
    }

    /// Begins pausing playback.
    pub fn pause(&self) -> (run: PlayerRun)
        ensures
            run@ == (RunView { requests: pause_requests(), position: 0, refused: false }),
    {
        let mut requests: Vec<EngineRequest> = Vec::new();
        requests.push(EngineRequest::SetState(PlayState::Paused));
        let run = PlayerRun { requests, position: 0, refused: false };
        assert(run@.requests =~= pause_requests());
        run
    }
}

/// A command in progress: its requests, how many of them the engine has
/// accepted, and whether it refused one.
#[derive(Debug)]
pub struct PlayerRun {
    requests: Vec<EngineRequest>,
    position: usize,
    refused: bool,
}

/// A command in progress, as plain values.
#[verifier::ext_equal]
pub struct RunView {
    pub requests: Seq<EngineRequestView>,
    pub position: nat,
    pub refused: bool,
}

/// What a command in progress does next.
#[derive(Debug)]
pub enum PlayerStep {
    /// Hand this request to the engine and report its answer.
    Ask(EngineRequest),
    /// The command is over, with this outcome.
    Done(Result<(), PlayerError>),
}

/// A step as plain values.
pub enum StepView {
    Ask(EngineRequestView),
    Done(Result<(), PlayerErrorView>),
}

impl View for PlayerStep {
    type V = StepView;

    open spec fn view(&self) -> StepView {
        match self {
            PlayerStep::Ask(request) => StepView::Ask(request@),
            PlayerStep::Done(Ok(())) => StepView::Done(Ok(())),
            PlayerStep::Done(Err(reason)) => StepView::Done(Err(reason@)),
        }
    }
}

impl RunView {
    /// The next step: after a refusal the command has failed; otherwise the
    /// next request is due, or the command has succeeded when none is left.
    pub open spec fn step(self) -> StepView {
        if self.refused {
            StepView::Done(Err(PlayerErrorView::StateChange))
        } else if self.position < self.requests.len() {
            StepView::Ask(self.requests[self.position as int])
        } else {
            StepView::Done(Ok(()))
        }
    }

    /// The command after the engine's answer to the request that was due.
    /// Once the command is over an answer changes nothing.
    pub open spec fn answered(self, accepted: bool) -> RunView {
        if self.step() is Done {
            self
        } else if accepted {
            RunView { position: self.position + 1, ..self }
        } else {
            RunView { refused: true, ..self }
        }
    }
}

impl View for PlayerRun {
    type V = RunView;

    closed spec fn view(&self) -> RunView {
        RunView {
            requests: Seq::new(self.requests@.len(), |i: int| self.requests@[i]@),
            position: self.position as nat,
            refused: self.refused,
        }
    }
}

impl PlayerRun {
    /// The next step of the command.
    pub fn step(&self) -> (next: PlayerStep)
        ensures
            next@ == self@.step(),
    {
        if self.refused {
            PlayerStep::Done(Err(PlayerError::StateChange))
        } else if self.position < self.requests.len() {
            PlayerStep::Ask(self.requests[self.position].clone())
        } else {
            PlayerStep::Done(Ok(()))
        }
    }

    /// Records the engine's answer to the request that was due.
    pub fn answer(&mut self, accepted: bool)
        ensures
            final(self)@ == old(self)@.answered(accepted),
    {
        if !self.refused && self.position < self.requests.len() {
            if accepted {
                self.position = self.position + 1;
            } else {
                self.refused = true;
            }
        }
    }
}

/// `play` stops the engine first. Where the engine refuses that, the command
/// fails and asks nothing more; where it accepts, the address comes next, and
/// then the change to playing, whose refusal fails the command and whose
/// acceptance completes it.
pub proof fn lemma_play_order(uri: Seq<char>)
    ensures
        ({
            let start = RunView { requests: play_requests(uri), position: 0, refused: false };
            &&& start.step() == StepView::Ask(EngineRequestView::SetState(PlayState::Null))
            &&& start.answered(false).step() == StepView::Done(Err(PlayerErrorView::StateChange))
            &&& start.answered(true).step() == StepView::Ask(EngineRequestView::SetUri(uri))
            &&& start.answered(true).answered(true).step() == StepView::Ask(
                EngineRequestView::SetState(PlayState::Playing),
            )
            &&& start.answered(true).answered(true).answered(false).step() == StepView::Done(
                Err(PlayerErrorView::StateChange),
            )
            &&& start.answered(true).answered(true).answered(true).step() == StepView::Done(Ok(()))
        }),
{
}

/// `stop` and `pause` each ask for one change of state and succeed exactly
/// when the engine accepts it.
pub proof fn lemma_stop_and_pause(accepted: bool)
    ensures
        ({
            let stop = RunView { requests: stop_requests(), position: 0, refused: false };
            let pause = RunView { requests: pause_requests(), position: 0, refused: false };
            let outcome: Result<(), PlayerErrorView> = if accepted {
                Ok(())
            } else {
                Err(PlayerErrorView::StateChange)
            };
            &&& stop.step() == StepView::Ask(EngineRequestView::SetState(PlayState::Null))
            &&& stop.answered(accepted).step() == StepView::Done(outcome)
            &&& pause.step() == StepView::Ask(EngineRequestView::SetState(PlayState::Paused))
            &&& pause.answered(accepted).step() == StepView::Done(outcome)
        }),
{
}

} // verus!
