//! The loading screen: the assets of the match are asked for and waited
//! for.

use crate::game::events::Event;
use crate::game::input::{Input, LoadState};
use crate::game::resources::assets::Asset;
use crate::game::resources::AssetsLoading;
use crate::game::states::AppStates;
use crate::game::systems::Schedule;
use crate::game::Game;
use vstd::prelude::*;

verus! {

/// What the state of one asset means for a group that is loaded so far up
/// to `rest`, the state of the assets behind it.
///
/// An asset that failed makes the group fail, and one that is not loaded or
/// not known leaves the group not loaded, whatever comes behind. An asset
/// that is loading leaves the group loading unless something behind it
/// decides otherwise.
pub open spec fn joined(state: Option<LoadState>, rest: LoadState) -> LoadState {
    match state {
        Some(LoadState::Loaded) => rest,
        Some(LoadState::Loading) => if rest == LoadState::Loaded {
            LoadState::Loading
        } else {
            rest
        },
        Some(LoadState::Failed) => LoadState::Failed,
        Some(LoadState::NotLoaded) => LoadState::NotLoaded,
        None => LoadState::NotLoaded,
    }
}

/// The state of a group of assets, from the state of each.
///
/// The first asset that failed, is not loaded or is not known decides. With
/// none of these the group is loading while one asset is, and loaded
/// otherwise.
pub open spec fn group_load_state(states: Seq<Option<LoadState>>) -> LoadState
    decreases states.len(),
{
    if states.len() == 0 {
        LoadState::Loaded
    } else {
        joined(states.first(), group_load_state(states.drop_first()))
    }
}

/// A group is loaded where each of its assets is, and only there.
pub proof fn lemma_loaded_group(states: Seq<Option<LoadState>>)
    ensures
        group_load_state(states) == LoadState::Loaded <==> forall|i: int|
            0 <= i < states.len() ==> states[i] == Some(LoadState::Loaded),
    decreases states.len(),
{
    if states.len() > 0 {
        let rest = states.drop_first();
        lemma_loaded_group(rest);
        if group_load_state(states) == LoadState::Loaded {
            assert forall|i: int| 0 <= i < states.len() implies states[i] == Some(
                LoadState::Loaded,
            ) by {
                if i > 0 {
                    assert(states[i] == rest[i - 1]);
                }
            }
        }
        if forall|i: int| 0 <= i < states.len() ==> states[i] == Some(LoadState::Loaded) {
            assert(states.first() == states[0]);
            assert forall|i: int| 0 <= i < rest.len() implies rest[i] == Some(
                LoadState::Loaded,
            ) by {
                assert(rest[i] == states[i + 1]);
            }
        }
    }
}

/// Works out the state of a group of assets from the state of each.
pub fn get_group_load_state(states: &Vec<Option<LoadState>>) -> (state: LoadState)
    ensures
        state == group_load_state(states@),
{
    let mut load_state = LoadState::Loaded;
    let mut i: usize = states.len();
    assert(states@.skip(i as int) =~= Seq::<Option<LoadState>>::empty());
    while i > 0
        invariant
            i <= states.len(),
            load_state == group_load_state(states@.skip(i as int)),
        decreases i,
    {
        i = i - 1;
        proof {
            assert(states@.skip(i as int).drop_first() =~= states@.skip(i + 1));
            assert(states@.skip(i as int).first() == states@[i as int]);
        }
        match states[i] {
            Some(LoadState::Loaded) => {},
            Some(LoadState::Loading) => {
                if load_state == LoadState::Loaded {
                    load_state = LoadState::Loading;
                }
            },
            Some(LoadState::Failed) => {
                load_state = LoadState::Failed;
            },
            Some(LoadState::NotLoaded) => {
                load_state = LoadState::NotLoaded;
            },
            None => {
                load_state = LoadState::NotLoaded;
            },
        }
    }
    assert(states@.skip(0) =~= states@);
    load_state
}

/// How far the front end is with `asset`, by the first of `reports` that
/// tells of it; nothing where none does.
pub open spec fn reported(reports: Seq<(Asset, LoadState)>, asset: Asset) -> Option<LoadState>
    decreases reports.len(),
{
    if reports.len() == 0 {
        None
    } else if reports.first().0 == asset {
        Some(reports.first().1)
    } else {
        reported(reports.drop_first(), asset)
    }
}

/// Looks up how far the front end is with `asset`.
pub fn get_load_state(reports: &Vec<(Asset, LoadState)>, asset: Asset) -> (state: Option<
    LoadState,
>)
    ensures
        state == reported(reports@, asset),
{
    let mut i: usize = 0;
    assert(reports@.skip(0) =~= reports@);
    while i < reports.len()
        invariant
            i <= reports.len(),
            reported(reports@, asset) == reported(reports@.skip(i as int), asset),
        decreases reports.len() - i,
    {
        proof {
            assert(reports@.skip(i as int).drop_first() =~= reports@.skip(i + 1));
            assert(reports@.skip(i as int).first() == reports@[i as int]);
        }
        if reports[i].0 == asset {
            return Some(reports[i].1);
        }
        i = i + 1;
    }
    None
}

/// How far the front end is with each of `assets`, in their order.
pub open spec fn states_of(assets: Seq<Asset>, reports: Seq<(Asset, LoadState)>) -> Seq<
    Option<LoadState>,
> {
    Seq::new(assets.len(), |i: int| reported(reports, assets[i]))
}

/// The state of the assets that are being loaded, as a group.
pub open spec fn loading_state(assets: Seq<Asset>, reports: Seq<(Asset, LoadState)>) -> LoadState {
    group_load_state(states_of(assets, reports))
}

/// Looks up how far the front end is with each of `assets`.
pub fn get_load_states(assets: &Vec<Asset>, reports: &Vec<(Asset, LoadState)>) -> (states: Vec<
    Option<LoadState>,
>)
    ensures
        states@ == states_of(assets@, reports@),
{
    let mut states: Vec<Option<LoadState>> = Vec::new();
    let mut i: usize = 0;
    while i < assets.len()
        invariant
            i <= assets.len(),
            states@.len() == i,
            forall|j: int| 0 <= j < i ==> states@[j] == reported(reports@, assets@[j]),
        decreases assets.len() - i,
    {
        states.push(get_load_state(reports, assets[i]));
        i = i + 1;
    }
    assert(states@ =~= states_of(assets@, reports@));
    states
}

/// Whether none of `reports` tells of an asset that failed to load.
pub open spec fn spec_none_failed(reports: Seq<(Asset, LoadState)>) -> bool {
    forall|i: int| 0 <= i < reports.len() ==> (#[trigger] reports[i]).1 != LoadState::Failed
}

/// Whether none of `reports` tells of an asset that failed to load.
pub fn none_failed(reports: &Vec<(Asset, LoadState)>) -> (none: bool)
    ensures
        none == spec_none_failed(reports@),
{
    let mut i: usize = 0;
    while i < reports.len()
        invariant
            i <= reports.len(),
            forall|j: int| 0 <= j < i ==> (#[trigger] reports@[j]).1 != LoadState::Failed,
        decreases reports.len() - i,
    {
        if reports[i].1 == LoadState::Failed {
            return false;
        }
        i = i + 1;
    }
    true
}

/// A group fails only where one of its assets did.
pub proof fn lemma_failed_group(states: Seq<Option<LoadState>>)
    requires
        group_load_state(states) == LoadState::Failed,
    ensures
        exists|i: int| 0 <= i < states.len() && #[trigger] states[i] == Some(LoadState::Failed),
    decreases states.len(),
{
    if states.first() == Some(LoadState::Failed) {
        assert(states[0] == Some(LoadState::Failed));
    } else {
        let rest = states.drop_first();
        lemma_failed_group(rest);
        let i = choose|i: int| 0 <= i < rest.len() && #[trigger] rest[i] == Some(LoadState::Failed);
        assert(states[i + 1] == rest[i]);
    }
}

/// What is reported of an asset is one of the reports.
pub proof fn lemma_reported(reports: Seq<(Asset, LoadState)>, asset: Asset)
    requires
        reported(reports, asset) is Some,
    ensures
        exists|i: int|
            0 <= i < reports.len() && #[trigger] reports[i] == (
                asset,
                reported(reports, asset)->0,
            ),
    decreases reports.len(),
{
    if reports.first().0 == asset {
        assert(reports[0] == (asset, reported(reports, asset)->0));
    } else {
        let rest = reports.drop_first();
        lemma_reported(rest, asset);
        let i = choose|i: int|
            0 <= i < rest.len() && #[trigger] rest[i] == (asset, reported(rest, asset)->0);
        assert(reports[i + 1] == rest[i]);
    }
}

/// Where no report tells of a failure, no group of assets has failed.
pub proof fn lemma_none_failed(assets: Seq<Asset>, reports: Seq<(Asset, LoadState)>)
    requires
        spec_none_failed(reports),
    ensures
        loading_state(assets, reports) != LoadState::Failed,
{
    let states = states_of(assets, reports);
    if group_load_state(states) == LoadState::Failed {
        lemma_failed_group(states);
        let i = choose|i: int|
            0 <= i < states.len() && #[trigger] states[i] == Some(LoadState::Failed);
        lemma_reported(reports, assets[i]);
    }
}

/// Every asset of the match, in the order in which they are asked for.
pub open spec fn every_asset() -> Seq<Asset> {
    seq![
        Asset::MainThemeAudio,
        Asset::MenuAudio,
        Asset::ClickAudio,
        Asset::MenuTransitionAudio,
        Asset::ShootAudio,
        Asset::DodgeAudio,
        Asset::BuffAudio,
        Asset::DamageAudio,
        Asset::StateChangeAudio,
        Asset::HandSpritesheet,
        Asset::BgSprite,
        Asset::HealthSpritesheet,
        Asset::ManaSpritesheet,
        Asset::StaminaSpritesheet,
    ]
}

/// Asks for `asset`: the asset joins those that are being loaded.
pub fn load(asset: Asset, loading: &mut AssetsLoading)
    ensures
        final(loading).0@ == old(loading).0@.push(asset),
{
    loading.0.push(asset);
}

/// Asks for every asset of the match.
pub fn load_assets(loading: &mut AssetsLoading)
    ensures
        final(loading).0@ == old(loading).0@ + every_asset(),
{
    load(Asset::MainThemeAudio, loading);
    load(Asset::MenuAudio, loading);
    load(Asset::ClickAudio, loading);
    load(Asset::MenuTransitionAudio, loading);
    load(Asset::ShootAudio, loading);
    load(Asset::DodgeAudio, loading);
    load(Asset::BuffAudio, loading);
    load(Asset::DamageAudio, loading);
    load(Asset::StateChangeAudio, loading);
    load(Asset::HandSpritesheet, loading);
    load(Asset::BgSprite, loading);
    load(Asset::HealthSpritesheet, loading);
    load(Asset::ManaSpritesheet, loading);
    load(Asset::StaminaSpritesheet, loading);
    assert(loading.0@ =~= old(loading).0@ + every_asset());
}

/// Once every asset that is being loaded is loaded, forgets them and asks
/// for the menu. A group that failed cannot be waited for.
pub fn check_assets_loaded(
    reports: &Vec<(Asset, LoadState)>,
    loading: &mut AssetsLoading,
    next_app_state: &mut Option<AppStates>,
)
    requires
        loading_state(old(loading).0@, reports@) != LoadState::Failed,
    ensures
        final(loading).0@ == (if loading_state(old(loading).0@, reports@) == LoadState::Loaded {
            Seq::<Asset>::empty()
        } else {
            old(loading).0@
        }),
        *final(next_app_state) == (if loading_state(old(loading).0@, reports@)
            == LoadState::Loaded {
            Some(AppStates::Menu)
        } else {
            *old(next_app_state)
        }),
{
    match get_loading_state(&loading.0, reports) {
        LoadState::Loaded => {
            loading.0 = Vec::new();
            *next_app_state = Some(AppStates::Menu);
        },
        _ => {},
    }
}

/// Whether the systems of the loading screen that are due on `schedule` can
/// run: no frame can wait for assets that failed to load.
pub open spec fn ready(schedule: Schedule, loading: Seq<Asset>, input: Input) -> bool {
    schedule == Schedule::Update ==> loading_state(loading, input.load_states@)
        != LoadState::Failed
}

/// Works out the state of the assets that are being loaded, as a group.
pub fn get_loading_state(assets: &Vec<Asset>, reports: &Vec<(Asset, LoadState)>) -> (state:
    LoadState)
    ensures
        state == loading_state(assets@, reports@),
{
    let states = get_load_states(assets, reports);
    get_group_load_state(&states)
}

/// The match after the systems of the loading screen ran: once every asset
/// is loaded, the menu is asked for.
pub open spec fn after(schedule: Schedule, game: Game, loading: Seq<Asset>, input: Input) -> Game {
    if schedule == Schedule::Update && loading_state(loading, input.load_states@)
        == LoadState::Loaded {
        Game { next_app_state: Some(AppStates::Menu), ..game }
    } else {
        game
    }
}

/// The assets that are being loaded after the systems of the loading screen
/// ran: every asset as the screen comes up, and none once all are loaded.
pub open spec fn loading_after(schedule: Schedule, loading: Seq<Asset>, input: Input) -> Seq<
    Asset,
> {
    match schedule {
        Schedule::OnEnter => loading + every_asset(),
        Schedule::Update => if loading_state(loading, input.load_states@) == LoadState::Loaded {
            Seq::<Asset>::empty()
        } else {
            loading
        },
        Schedule::OnExit => loading,
    }
}

/// Runs the systems of the loading screen that are due on `schedule`.
pub fn plugin(
    schedule: Schedule,
    game: &mut Game,
    loading: &mut AssetsLoading,
    input: &Input,
    events: &mut Vec<Event>,
)
    requires
        ready(schedule, old(loading).0@, *input),
    ensures
        *final(game) == after(schedule, *old(game), old(loading).0@, *input),
        final(loading).0@ == loading_after(schedule, old(loading).0@, *input),
        final(events).deep_view() == old(events).deep_view(),
{
    match schedule {
        Schedule::OnEnter => {
            load_assets(loading);
        },
        Schedule::Update => {
            check_assets_loaded(&input.load_states, loading, &mut game.next_app_state);
        },
        Schedule::OnExit => {},
    }
}

} // verus!
