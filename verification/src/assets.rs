//! Asset-load gating: the application waits in `Loading` until its assets
//! have settled, then goes on to `Loaded` or `Failed` and stays there.

use vstd::prelude::*;

verus! {

/// How far the loading of one asset has come, as the host reports it.
#[derive(Clone, Copy, Debug, PartialEq, Eq, Structural)]
pub enum LoadState {
    NotLoaded,
    Loading,
    Loaded,
    Failed,
}

/// The state of the application with respect to its assets.
#[derive(Clone, Copy, Debug, PartialEq, Eq, Hash, Structural)]
pub enum AssetState {
    Loading,
    Loaded,
    Failed,
}

impl Default for AssetState {
    fn default() -> (state: AssetState)
        ensures
            state == AssetState::Loading,
    {
        AssetState::Loading
    }
}

/// What a look at the load states of all assets found.
#[derive(Clone, Copy, Debug, PartialEq, Eq, Structural)]
pub struct LoadReport {
    /// The configuration file failed to load: worth a warning, the initial
    /// values stay in use.
    pub config_failed: bool,
    /// Some other asset failed to load: worth an error message.
    pub asset_failed: bool,
    /// The state to go on to, if any.
    pub next_state: Option<AssetState>,
}

impl LoadState {
    /// Whether loading has come to an end, well or badly.
    pub open spec fn settled(self) -> bool {
        self == LoadState::Loaded || self == LoadState::Failed
    }

    /// Executable form of [`LoadState::settled`].
    pub fn is_settled(&self) -> (settled: bool)
        ensures
            settled == self.settled(),
    {
        match self {
            LoadState::Loaded => true,
            LoadState::Failed => true,
            _ => false,
        }
    }
}

/// Whether every one of `states` is `Loaded`.
pub open spec fn all_loaded(states: Seq<LoadState>) -> bool {
    forall|i: int| 0 <= i < states.len() ==> #[trigger] states[i] == LoadState::Loaded
}

/// The state that the load states ask the application to go on to: `Failed`
/// as soon as an asset other than the configuration file has failed; `Loaded`
/// once every such asset is loaded and the configuration file has settled,
/// loaded or not; nothing before that.
pub open spec fn gate(config: LoadState, assets: Seq<LoadState>) -> Option<AssetState> {
    if assets.contains(LoadState::Failed) {
        Some(AssetState::Failed)
    } else if config.settled() && all_loaded(assets) {
        Some(AssetState::Loaded)
    } else {
        None
    }
}

impl AssetState {
    /// The state that follows `self` when `next` is asked for: only `Loading`
    /// can be left, for whatever is asked; `Loaded` and `Failed` are final.
    pub open spec fn after(self, next: Option<AssetState>) -> AssetState {
        match (self, next) {
            (AssetState::Loading, Some(state)) => state,
            _ => self,
        }
    }

    /// The state after a run of requests, first to last.
    pub open spec fn after_all(self, requests: Seq<Option<AssetState>>) -> AssetState
        decreases requests.len(),
    {
        if requests.len() == 0 {
            self
        } else {
            self.after_all(requests.drop_last()).after(requests.last())
        }
    }

    /// Whether the state is final.
    pub open spec fn terminal(self) -> bool {
        self != AssetState::Loading
    }

    /// Goes on to the state asked for, if the current state can be left.
    pub fn advance(self, next: Option<AssetState>) -> (state: AssetState)
        ensures
            state == self.after(next),
    {
        match self {
            AssetState::Loading => match next {
                Some(state) => state,
                None => self,
            },
            _ => self,
        }
    }
}

/// Transitions only go forward: a final state is never left, whatever is
/// asked for and however often. In particular nothing recovers from `Failed`.
pub proof fn lemma_terminal_is_final(state: AssetState, requests: Seq<Option<AssetState>>)
    requires
        state.terminal(),
    ensures
        state.after_all(requests) == state,
    decreases requests.len(),
{
    if requests.len() > 0 {
        lemma_terminal_is_final(state, requests.drop_last());
    }
}

/// A run of requests leaves `Loading` with the first request for another
/// state and ends in that state.
pub proof fn lemma_first_request_decides(
    requests: Seq<Option<AssetState>>,
    first: int,
    asked: AssetState,
)
    requires
        0 <= first < requests.len(),
        requests[first] == Some(asked),
        asked.terminal(),
        forall|i: int|
            0 <= i < first ==> requests[i] == None::<AssetState> || requests[i] == Some(
                AssetState::Loading,
            ),
    ensures
        AssetState::Loading.after_all(requests) == asked,
    decreases requests.len(),
{
    let earlier = requests.drop_last();
    if first == requests.len() - 1 {
        lemma_stays_loading(earlier);
    } else {
        lemma_first_request_decides(earlier, first, asked);
    }
}

/// As long as nothing but `Loading` is asked for, the state stays `Loading`.
pub proof fn lemma_stays_loading(requests: Seq<Option<AssetState>>)
    requires
        forall|i: int|
            0 <= i < requests.len() ==> requests[i] == None::<AssetState> || requests[i] == Some(
                AssetState::Loading,
            ),
    ensures
        AssetState::Loading.after_all(requests) == AssetState::Loading,
    decreases requests.len(),
{
    if requests.len() > 0 {
        lemma_stays_loading(requests.drop_last());
    }
}

/// Looks at the load states of the configuration file and of the other
/// assets. Failures are flagged for reporting. A failed configuration file
/// does no harm, the initial values stay in use; any other failed asset sends
/// the application to `Failed`, and never to `Loaded`.
pub fn check_load_state(config: LoadState, assets: &Vec<LoadState>) -> (report: LoadReport)
    ensures
        report.config_failed == (config == LoadState::Failed),
        report.asset_failed == assets@.contains(LoadState::Failed),
        report.next_state == gate(config, assets@),
{
    let mut asset_failed = false;
    let mut loaded = true;
    let mut index: usize = 0;
    while index < assets.len()
        invariant
            index <= assets.len(),
            asset_failed == assets@.take(index as int).contains(LoadState::Failed),
            loaded == all_loaded(assets@.take(index as int)),
        decreases assets.len() - index,
    {
        let state = assets[index];
        proof {
            let before = assets@.take(index as int);
            let now = assets@.take(index + 1);
            assert(now == before.push(state));
            assert(now.contains(LoadState::Failed) == (before.contains(LoadState::Failed) || state
                == LoadState::Failed)) by {
                if state == LoadState::Failed {
                    assert(now[index as int] == LoadState::Failed);
                }
                if before.contains(LoadState::Failed) {
                    let at = choose|i: int| 0 <= i < before.len() && before[i] == LoadState::Failed;
                    assert(now[at] == LoadState::Failed);
                }
            }
            assert(all_loaded(now) == (all_loaded(before) && state == LoadState::Loaded)) by {
                if all_loaded(now) {
                    assert(now[index as int] == LoadState::Loaded);
                    assert forall|i: int| 0 <= i < before.len() implies #[trigger] before[i]
                        == LoadState::Loaded by {
                        assert(now[i] == LoadState::Loaded);
                    }
                }
            }
        }
        if state == LoadState::Failed {
            asset_failed = true;
        }
        if state != LoadState::Loaded {
            loaded = false;
        }
        index += 1;
    }
    proof {
        assert(assets@.take(assets.len() as int) == assets@);
    }
    LoadReport {
        config_failed: config == LoadState::Failed,
        asset_failed,
        next_state: if asset_failed {
            Some(AssetState::Failed)
        } else if loaded && config.is_settled() {
            Some(AssetState::Loaded)
        } else {
            None
        },
    }
}

/// Looks at the load state of the assets that the application cannot do
/// without: once they are loaded the application is to go on to `Loaded`, once
/// they have failed to `Failed`.
pub fn check_if_vital_assets_loaded(vital: LoadState) -> (next_state: Option<AssetState>)
    ensures
        next_state == (match vital {
            LoadState::Loaded => Some(AssetState::Loaded),
            LoadState::Failed => Some(AssetState::Failed),
            _ => None,
        }),
{
    match vital {
        LoadState::Loaded => Some(AssetState::Loaded),
        LoadState::Failed => Some(AssetState::Failed),
        _ => None,
    }
}

} // verus!
