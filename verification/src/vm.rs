//! The view model: the two editable fields, a generation token for the
//! latest issued fetch, and the latest adopted fetch outcome.
//!
//! The concurrency rule is last-requested-wins: every edit advances the
//! generation and issues a new fetch request; a completing fetch is adopted
//! only when its generation token still matches the latest issued request,
//! so a superseded fetch's outcome is discarded even when it arrives late.

use vstd::prelude::*;
use crate::client::{error_message, spec_error_message};
use crate::model::{
    CheckpointModel, FetchError, FetchErrorModel, TrackingQuery, TrackingResult,
};
use crate::render::{display_label, spec_display_label};

verus! {

/// The view model's record of the latest fetch outcome for the current
/// query.
pub enum FetchState {
    /// No fetch for the current query has completed yet.
    Pending,
    Success(TrackingResult),
    Failure(FetchError),
}

/// Mathematical model of a fetch state.
pub enum FetchStateModel {
    Pending,
    Success(Seq<CheckpointModel>),
    Failure(FetchErrorModel),
}

impl View for FetchState {
    type V = FetchStateModel;

    open spec fn view(&self) -> FetchStateModel {
        match self {
            FetchState::Pending => FetchStateModel::Pending,
            FetchState::Success(tr) => FetchStateModel::Success(tr@),
            FetchState::Failure(e) => FetchStateModel::Failure(e@),
        }
    }
}

/// Mathematical model of the view model.
pub struct VmModel {
    pub track_number: Seq<char>,
    pub track_provider: Seq<char>,
    pub generation: nat,
    pub state: FetchStateModel,
}

/// One fetch the surrounding program is asked to perform: look the query up
/// and hand the outcome back together with the generation token.
pub struct FetchRequest {
    pub generation: u64,
    pub query: TrackingQuery,
}

/// The view model.
pub struct ViewModel {
    pub track_number: String,
    pub track_provider: String,
    pub generation: u64,
    pub state: FetchState,
}

impl View for ViewModel {
    type V = VmModel;

    open spec fn view(&self) -> VmModel {
        VmModel {
            track_number: self.track_number@,
            track_provider: self.track_provider@,
            generation: self.generation as nat,
            state: self.state@,
        }
    }
}

/// One observable event of the view model's life: a user edit of either
/// field, or the completion of a fetch under a generation token.
pub enum VmEvent {
    EditNumber(Seq<char>),
    EditProvider(Seq<char>),
    Complete { generation: nat, outcome: Result<Seq<CheckpointModel>, FetchErrorModel> },
}

/// The state a completed outcome resolves to.
pub open spec fn outcome_state(outcome: Result<Seq<CheckpointModel>, FetchErrorModel>) -> FetchStateModel {
    match outcome {
        Ok(cps) => FetchStateModel::Success(cps),
        Err(e) => FetchStateModel::Failure(e),
    }
}

/// The transition function of the view model. An edit stores the field and
/// supersedes all outstanding fetches by advancing the generation; a
/// completion is adopted only under the latest generation token.
pub open spec fn vm_step(m: VmModel, e: VmEvent) -> VmModel {
    match e {
        VmEvent::EditNumber(s) => VmModel { track_number: s, generation: m.generation + 1, ..m },
        VmEvent::EditProvider(s) => VmModel {
            track_provider: s,
            generation: m.generation + 1,
            ..m
        },
        VmEvent::Complete { generation, outcome } => if generation == m.generation {
            VmModel { state: outcome_state(outcome), ..m }
        } else {
            m
        },
    }
}

/// The model of an exec-level fetch outcome.
pub open spec fn outcome_model(o: Result<TrackingResult, FetchError>) -> Result<
    Seq<CheckpointModel>,
    FetchErrorModel,
> {
    match o {
        Ok(tr) => Ok(tr@),
        Err(e) => Err(e@),
    }
}

/// The sample tracking number used when the store holds no value.
pub open spec fn spec_default_track_number() -> Seq<char> {
    "AER008741799"@
}

/// The sample carrier used when the store holds no value.
pub open spec fn spec_default_provider() -> Seq<char> {
    "cainiao"@
}

/// The store key under which the tracking-number field is persisted.
pub fn track_number_key() -> (r: String)
    ensures
        r@ == "track_number"@,
{
    "track_number".to_owned()
}

/// The store key under which the carrier field is persisted.
pub fn track_provider_key() -> (r: String)
    ensures
        r@ == "track_provider"@,
{
    "track_provider".to_owned()
}

pub fn default_track_number() -> (r: String)
    ensures
        r@ == spec_default_track_number(),
{
    "AER008741799".to_owned()
}

pub fn default_provider() -> (r: String)
    ensures
        r@ == spec_default_provider(),
{
    "cainiao".to_owned()
}

impl ViewModel {
    /// Creates the view model from the two stored field values, falling
    /// back to the fixed sample query where the store holds nothing, and
    /// issues the initial fetch request.
    pub fn init(stored_number: Option<String>, stored_provider: Option<String>) -> (r: (
        ViewModel,
        FetchRequest,
    ))
        ensures
            r.0@.track_number == (match stored_number {
                Some(s) => s@,
                None => spec_default_track_number(),
            }),
            r.0@.track_provider == (match stored_provider {
                Some(s) => s@,
                None => spec_default_provider(),
            }),
            r.0@.generation == 0,
            r.0@.state is Pending,
            r.1.generation == 0,
            r.1.query@.tracking_number == r.0@.track_number,
            r.1.query@.provider == r.0@.track_provider,
    {
        let number = match stored_number {
            Some(s) => s,
            None => default_track_number(),
        };
        let provider = match stored_provider {
            Some(s) => s,
            None => default_provider(),
        };
        let vm = ViewModel {
            track_number: number.clone(),
            track_provider: provider.clone(),
            generation: 0,
            state: FetchState::Pending,
        };
        let req = FetchRequest {
            generation: 0,
            query: TrackingQuery { tracking_number: number, provider },
        };
        (vm, req)
    }

    /// Applies a user edit of the tracking-number field and issues the
    /// fetch request for the new query. The previous outcome stays
    /// displayed until a fetch for the new query resolves.
    pub fn edit_track_number(&mut self, value: String) -> (req: FetchRequest)
        requires
            old(self)@.generation < u64::MAX,
        ensures
            final (self)@ == vm_step(old(self)@, VmEvent::EditNumber(value@)),
            req.generation as nat == final (self)@.generation,
            req.query@.tracking_number == final (self)@.track_number,
            req.query@.provider == final (self)@.track_provider,
    {
        self.track_number = value;
        self.generation = self.generation + 1;
        FetchRequest {
            generation: self.generation,
            query: TrackingQuery {
                tracking_number: self.track_number.clone(),
                provider: self.track_provider.clone(),
            },
        }
    }

    /// Applies a user edit of the carrier field and issues the fetch
    /// request for the new query.
    pub fn edit_track_provider(&mut self, value: String) -> (req: FetchRequest)
        requires
            old(self)@.generation < u64::MAX,
        ensures
            final (self)@ == vm_step(old(self)@, VmEvent::EditProvider(value@)),
            req.generation as nat == final (self)@.generation,
            req.query@.tracking_number == final (self)@.track_number,
            req.query@.provider == final (self)@.track_provider,
    {
        self.track_provider = value;
        self.generation = self.generation + 1;
        FetchRequest {
            generation: self.generation,
            query: TrackingQuery {
                tracking_number: self.track_number.clone(),
                provider: self.track_provider.clone(),
            },
        }
    }

    /// Applies the outcome of a completed fetch. The outcome is adopted
    /// exactly when its generation token matches the latest issued request;
    /// a superseded outcome is discarded.
    pub fn complete_fetch(&mut self, generation: u64, outcome: Result<TrackingResult, FetchError>)
        ensures
            final (self)@ == vm_step(
                old(self)@,
                VmEvent::Complete {
                    generation: generation as nat,
                    outcome: outcome_model(outcome),
                },
            ),
    {
        if generation == self.generation {
            self.state = match outcome {
                Ok(tr) => FetchState::Success(tr),
                Err(e) => FetchState::Failure(e),
            };
        }
    }

    /// The current tracking-number field.
    pub fn track_number(&self) -> (r: &String)
        ensures
            r@ == self@.track_number,
    {
        &self.track_number
    }

    /// The current carrier field.
    pub fn track_provider(&self) -> (r: &String)
        ensures
            r@ == self@.track_provider,
    {
        &self.track_provider
    }

    /// The generation token of the latest issued fetch request.
    pub fn current_generation(&self) -> (r: u64)
        ensures
            r as nat == self@.generation,
    {
        self.generation
    }
}

/// Law: an edit changes the query and the generation only — the previously
/// displayed outcome stays displayed until a fetch for the new query
/// resolves.
pub proof fn lemma_edit_keeps_displayed_state(m: VmModel, edit: VmEvent)
    requires
        edit is EditNumber || edit is EditProvider,
    ensures
        vm_step(m, edit).state == m.state,
        vm_step(m, edit).generation == m.generation + 1,
{
}

/// Law (last-requested-wins): when a field is edited while a fetch for an
/// earlier query is still outstanding, and that superseded fetch completes
/// only after the new query's fetch has already completed, the state
/// reflects the new query's outcome and the stale completion changes
/// nothing.
pub proof fn lemma_last_requested_wins(
    m: VmModel,
    edit: VmEvent,
    new_outcome: Result<Seq<CheckpointModel>, FetchErrorModel>,
    stale_generation: nat,
    stale_outcome: Result<Seq<CheckpointModel>, FetchErrorModel>,
)
    requires
        edit is EditNumber || edit is EditProvider,
        stale_generation <= m.generation,
    ensures
        ({
            let m1 = vm_step(m, edit);
            let m2 = vm_step(
                m1,
                VmEvent::Complete { generation: m1.generation, outcome: new_outcome },
            );
            let m3 = vm_step(
                m2,
                VmEvent::Complete { generation: stale_generation, outcome: stale_outcome },
            );
            m2.state == outcome_state(new_outcome) && m3 == m2
        }),
{
}

/// One entry of the displayed checkpoint list: the timestamp and the label
/// the rendering rule chose.
pub struct RenderedCheckpoint {
    pub time: String,
    pub label: String,
}

/// Mathematical model of a displayed checkpoint entry.
pub struct RenderedCheckpointModel {
    pub time: Seq<char>,
    pub label: Seq<char>,
}

impl View for RenderedCheckpoint {
    type V = RenderedCheckpointModel;

    open spec fn view(&self) -> RenderedCheckpointModel {
        RenderedCheckpointModel { time: self.time@, label: self.label@ }
    }
}

/// The one read value the presentation layer consumes.
pub enum RenderState {
    /// A fetch for the current query is still outstanding and nothing has
    /// been adopted yet.
    Loading,
    /// The labelled checkpoint list of the adopted success.
    List(Vec<RenderedCheckpoint>),
    /// The message of the adopted failure.
    Error(String),
}

/// Mathematical model of the displayed value.
pub enum RenderStateModel {
    Loading,
    List(Seq<RenderedCheckpointModel>),
    Error(Seq<char>),
}

impl View for RenderState {
    type V = RenderStateModel;

    open spec fn view(&self) -> RenderStateModel {
        match self {
            RenderState::Loading => RenderStateModel::Loading,
            RenderState::List(v) => RenderStateModel::List(
                Seq::new(v@.len(), |i: int| v@[i]@),
            ),
            RenderState::Error(s) => RenderStateModel::Error(s@),
        }
    }
}

/// What a fetch state displays as: a loading marker while pending, the
/// checkpoint list with each status code mapped through the rendering rule
/// on success, the error message on failure.
pub open spec fn spec_render(s: FetchStateModel) -> RenderStateModel {
    match s {
        FetchStateModel::Pending => RenderStateModel::Loading,
        FetchStateModel::Success(cps) => RenderStateModel::List(
            Seq::new(
                cps.len(),
                |i: int|
                    RenderedCheckpointModel {
                        time: cps[i].time,
                        label: spec_display_label(cps[i].status_raw),
                    },
            ),
        ),
        FetchStateModel::Failure(e) => RenderStateModel::Error(spec_error_message(e)),
    }
}

impl ViewModel {
    /// Projects the current state into what the presentation layer shows.
    pub fn render(&self) -> (r: RenderState)
        ensures
            r@ == spec_render(self@.state),
    {
        match &self.state {
            FetchState::Pending => RenderState::Loading,
            FetchState::Success(tr) => {
                let mut items: Vec<RenderedCheckpoint> = Vec::new();
                let n = tr.checkpoints.len();
                let mut i: usize = 0;
                while i < n
                    invariant
                        n == tr.checkpoints@.len(),
                        0 <= i <= n,
                        items@.len() == i,
                        forall|j: int|
                            0 <= j < i ==> #[trigger] items@[j]@
                                == (RenderedCheckpointModel {
                                time: tr@[j].time,
                                label: spec_display_label(tr@[j].status_raw),
                            }),
                    decreases n - i,
                {
                    let cp = &tr.checkpoints[i];
                    let label = display_label(cp.status_raw.as_str());
                    items.push(RenderedCheckpoint { time: cp.time.clone(), label });
                    i += 1;
                }
                let r = RenderState::List(items);
                proof {
                    assert(Seq::new(r->List_0@.len(), |i: int| r->List_0@[i]@) =~= Seq::new(
                        tr@.len(),
                        |i: int|
                            RenderedCheckpointModel {
                                time: tr@[i].time,
                                label: spec_display_label(tr@[i].status_raw),
                            },
                    ));
                }
                r
            },
            FetchState::Failure(e) => RenderState::Error(error_message(e)),
        }
    }
}

} // verus!
