//! The cubemap state machine: a load is requested, polled until it completes,
//! and superseded when the swap timer asks for another encoding.

use crate::formats::{supported_by, CompressedFormat, FormatSet};
use crate::image::{CubemapImage, ImageHandle, MalformedAsset};
use crate::scene::{attached, backdrop_count, BackdropScene};
use vstd::prelude::*;

verus! {

/// The path of the cubemap asset.
pub const CUBEMAP_PATH: &'static str = "textures/Ryfjallet_cubemap_etc2.ktx2";

/// The time between two swaps, in the unit in which the caller counts time.
pub const CUBEMAP_SWAP_DELAY: u64 = 3;

/// The encoding of the cubemap asset.
pub open spec fn cubemap_format() -> CompressedFormat {
    CompressedFormat::Etc2
}

/// What the asset subsystem reports of a load request.
#[derive(Clone, Copy, Debug, PartialEq, Eq, Structural)]
pub enum LoadState {
    NotLoaded,
    Loading,
    Loaded,
    Failed,
}

/// Where the state machine stands.
#[derive(Clone, Copy, Debug, PartialEq, Eq, Structural)]
pub enum Phase {
    Unloaded,
    Loading,
    Loaded,
}

/// The cubemap that is shown or being loaded.
#[derive(Clone, Copy, Debug, PartialEq, Eq, Structural)]
pub struct Cubemap {
    pub is_loaded: bool,
    pub index: usize,
    pub image_handle: ImageHandle,
}

/// The device cannot decode the encoding that a swap asks for. The subsystem
/// cannot go on: the caller stops with a diagnostic that names the encoding.
#[derive(Clone, Copy, Debug, PartialEq, Eq, Structural)]
pub struct UnsupportedFormat {
    pub format: CompressedFormat,
}

/// What a swap comes to.
#[derive(Clone, Copy, Debug, PartialEq, Eq, Structural)]
pub enum SwapDecision {
    /// The candidate is what is shown already: nothing is requested.
    Unchanged,
    /// The caller requests the load of the asset with this index and reports
    /// the handle with `Cubemap::begin_load`.
    Reload { index: usize },
}

/// What a poll of the load state comes to.
#[derive(Clone, Copy, Debug, PartialEq, Eq, Structural)]
pub enum LoadOutcome {
    /// Nothing to do in this tick.
    Pending,
    /// The load completed and the texture is attached to the scene.
    Attached { reinterpreted: bool, spawned: bool },
}

/// The deadline that follows `time`, capped at the last instant that can be
/// counted.
pub open spec fn deadline_after(time: u64) -> u64 {
    if time + CUBEMAP_SWAP_DELAY > u64::MAX {
        u64::MAX
    } else {
        (time + CUBEMAP_SWAP_DELAY) as u64
    }
}

/// The timer that paces the swaps. A deadline of zero means that the timer
/// has not been started.
#[derive(Clone, Copy, Debug, PartialEq, Eq, Structural)]
pub struct SwapTimer {
    pub next_swap: u64,
}

impl SwapTimer {
    /// Whether the timer fires at `now`: it has been started and its deadline
    /// is reached.
    pub open spec fn fires(self, now: u64) -> bool {
        self.next_swap != 0 && now >= self.next_swap
    }

    /// The timer after a tick at `now`: started where it was not, moved on by
    /// one delay where it fires, else as it was.
    pub open spec fn ticked(self, now: u64) -> SwapTimer {
        if self.next_swap == 0 {
            SwapTimer { next_swap: deadline_after(now) }
        } else if now < self.next_swap {
            self
        } else {
            SwapTimer { next_swap: deadline_after(self.next_swap) }
        }
    }

    /// A timer that has not been started.
    pub fn new() -> (timer: SwapTimer)
        ensures
            timer.next_swap == 0,
    {
        SwapTimer { next_swap: 0 }
    }

    /// One tick at `now`. Returns whether the timer fired.
    pub fn tick(&mut self, now: u64) -> (fired: bool)
        ensures
            *final(self) == old(self).ticked(now),
            fired == old(self).fires(now),
    {
        if self.next_swap == 0 {
            self.next_swap = now.saturating_add(CUBEMAP_SWAP_DELAY);
            false
        } else if now < self.next_swap {
            false
        } else {
            self.next_swap = self.next_swap.saturating_add(CUBEMAP_SWAP_DELAY);
            true
        }
    }
}

/// The index that a swap proposes after `index`: the same one, so that a swap
/// never leaves the asset that is shown.
pub open spec fn next_index(index: usize) -> usize {
    index
}

/// The decision on a swap from the asset `current` to the asset `candidate`,
/// which is encoded in `format`, on a device that decodes `supported`.
pub open spec fn swap_decision(
    current: usize,
    candidate: usize,
    format: CompressedFormat,
    supported: Set<CompressedFormat>,
) -> Result<SwapDecision, UnsupportedFormat> {
    if !supported.contains(format) {
        Err(UnsupportedFormat { format })
    } else if candidate == current {
        Ok(SwapDecision::Unchanged)
    } else {
        Ok(SwapDecision::Reload { index: candidate })
    }
}

/// What the format cycler comes to at `now`: nothing while the timer does not
/// fire, else the decision on the swap to the next index.
pub open spec fn cycle(timer: SwapTimer, cubemap: Cubemap, now: u64, features: u64) -> Result<
    Option<SwapDecision>,
    UnsupportedFormat,
> {
    if !timer.fires(now) {
        Ok(None)
    } else {
        match swap_decision(
            cubemap.index,
            next_index(cubemap.index),
            cubemap_format(),
            supported_by(features),
        ) {
            Ok(decision) => Ok(Some(decision)),
            Err(error) => Err(error),
        }
    }
}

/// The state after the first load request.
pub open spec fn started(image_handle: ImageHandle) -> Cubemap {
    Cubemap { is_loaded: false, index: 0, image_handle }
}

/// The state after a load request for another asset.
pub open spec fn swapped(index: usize, image_handle: ImageHandle) -> Cubemap {
    Cubemap { is_loaded: false, index, image_handle }
}

/// The state after the load that `cubemap` tracks has completed.
pub open spec fn completed(cubemap: Cubemap) -> Cubemap {
    Cubemap { is_loaded: true, index: cubemap.index, image_handle: cubemap.image_handle }
}

/// The state in which the request of `cubemap` was still being loaded.
pub open spec fn loading(cubemap: Cubemap) -> Cubemap {
    Cubemap { is_loaded: false, index: cubemap.index, image_handle: cubemap.image_handle }
}

/// The phase of a machine that holds `state`: nothing before the first
/// request.
pub open spec fn phase_of(state: Option<Cubemap>) -> Phase {
    match state {
        None => Phase::Unloaded,
        Some(cubemap) => if cubemap.is_loaded {
            Phase::Loaded
        } else {
            Phase::Loading
        },
    }
}

/// Whether a poll advances the machine: it is loading and the asset
/// subsystem reports the load as complete.
pub open spec fn load_completes(cubemap: Cubemap, load_state: LoadState) -> bool {
    !cubemap.is_loaded && load_state == LoadState::Loaded
}

impl Cubemap {
    /// The phase of the state machine.
    pub fn phase(&self) -> (phase: Phase)
        ensures
            phase == phase_of(Some(*self)),
    {
        if self.is_loaded {
            Phase::Loaded
        } else {
            Phase::Loading
        }
    }

    /// Records that the load of the asset `index` was requested under
    /// `image_handle`: whatever was in flight is superseded.
    pub fn begin_load(&mut self, index: usize, image_handle: ImageHandle)
        ensures
            *final(self) == swapped(index, image_handle),
    {
        self.index = index;
        self.image_handle = image_handle;
        self.is_loaded = false;
    }
}

/// The encoding of the cubemap asset.
pub fn configured_format() -> (format: CompressedFormat)
    ensures
        format == cubemap_format(),
{
    CompressedFormat::Etc2
}

/// Decides on a swap from the asset `current` to the asset `candidate`, which
/// is encoded in `format`.
pub fn decide_swap(
    current: usize,
    candidate: usize,
    format: CompressedFormat,
    supported: &FormatSet,
) -> (decision: Result<SwapDecision, UnsupportedFormat>)
    ensures
        decision == swap_decision(current, candidate, format, supported@),
{
    if !supported.contains(format) {
        Err(UnsupportedFormat { format })
    } else if candidate == current {
        Ok(SwapDecision::Unchanged)
    } else {
        Ok(SwapDecision::Reload { index: candidate })
    }
}

/// Starts the state machine once the load of the cubemap asset has been
/// requested under `image_handle`.
pub fn setup(image_handle: ImageHandle) -> (cubemap: Cubemap)
    ensures
        cubemap == started(image_handle),
        phase_of(Some(cubemap)) == Phase::Loading,
{
    Cubemap { is_loaded: false, index: 0, image_handle }
}

/// The format cycler, run once per tick at the time `now` on a device with
/// the feature bits `features`. The timer is ticked in any case. Where it
/// fires, the swap is decided: an encoding that the device does not decode is
/// an error, and the state is never touched here.
pub fn cycle_cubemap_asset(
    now: u64,
    next_swap: &mut SwapTimer,
    cubemap: &Cubemap,
    features: u64,
) -> (action: Result<Option<SwapDecision>, UnsupportedFormat>)
    ensures
        *final(next_swap) == old(next_swap).ticked(now),
        action == cycle(*old(next_swap), *cubemap, now, features),
{
    if !next_swap.tick(now) {
        return Ok(None);
    }
    let supported = FormatSet::from_features(features);
    let new_index: usize = cubemap.index;
    match decide_swap(cubemap.index, new_index, configured_format(), &supported) {
        Ok(decision) => Ok(Some(decision)),
        Err(error) => Err(error),
    }
}

/// The poll of the load state, run once per tick after the format cycler.
/// `image` is the image that the tracked handle resolves to, if any. Where
/// the load has completed, the image is reinterpreted as a cube texture, the
/// scene is pointed at it, and the state becomes loaded. A malformed image is
/// an error that leaves everything as it was, the state still loading.
pub fn asset_loaded(
    cubemap: &mut Cubemap,
    load_state: LoadState,
    image: &mut Option<CubemapImage>,
    scene: &mut BackdropScene,
) -> (outcome: Result<LoadOutcome, MalformedAsset>)
    requires
        load_completes(*old(cubemap), load_state) ==> *old(image) is Some && old(image)->0.wf(),
    ensures
        !load_completes(*old(cubemap), load_state) ==> {
            &&& outcome == Ok::<LoadOutcome, MalformedAsset>(LoadOutcome::Pending)
            &&& *final(cubemap) == *old(cubemap)
            &&& *final(image) == *old(image)
            &&& final(scene)@ == old(scene)@
        },
        load_completes(*old(cubemap), load_state) ==> match old(image)->0.reinterpreted() {
            Ok(reinterpreted) => {
                &&& outcome == Ok::<LoadOutcome, MalformedAsset>(
                    LoadOutcome::Attached {
                        reinterpreted: old(image)->0.layers == 1,
                        spawned: backdrop_count(old(scene)@) == 0,
                    },
                )
                &&& *final(cubemap) == completed(*old(cubemap))
                &&& *final(image) == Some(reinterpreted)
                &&& final(scene)@ == attached(old(scene)@, old(cubemap).image_handle)
            },
            Err(error) => {
                &&& outcome == Err::<LoadOutcome, MalformedAsset>(error)
                &&& *final(cubemap) == *old(cubemap)
                &&& *final(image) == *old(image)
                &&& final(scene)@ == old(scene)@
            },
        },
{
    if cubemap.is_loaded || load_state != LoadState::Loaded {
        return Ok(LoadOutcome::Pending);
    }
    let mut loaded: CubemapImage = image.unwrap();
    let reinterpreted = match loaded.reinterpret_as_cube() {
        Ok(changed) => changed,
        Err(error) => {
            return Err(error);
        },
    };
    *image = Some(loaded);
    let spawned = scene.attach(cubemap.image_handle);
    cubemap.is_loaded = true;
    Ok(LoadOutcome::Attached { reinterpreted, spawned })
}

/// What moves the state machine.
pub ghost enum Step {
    /// The first load is requested.
    Start(ImageHandle),
    /// A swap requests the load of another asset.
    Swap(usize, ImageHandle),
    /// The load that is tracked completes.
    Complete,
    /// A tick in which nothing happens.
    Idle,
}

/// The state after one step. Before the first request only that request
/// moves the machine.
pub open spec fn step(state: Option<Cubemap>, event: Step) -> Option<Cubemap> {
    match event {
        Step::Start(image_handle) => Some(started(image_handle)),
        Step::Swap(index, image_handle) => match state {
            Some(_) => Some(swapped(index, image_handle)),
            None => None,
        },
        Step::Complete => match state {
            Some(cubemap) => Some(completed(cubemap)),
            None => None,
        },
        Step::Idle => state,
    }
}

/// The state after the first `n` steps of `trace`, from a machine that has
/// requested nothing.
pub open spec fn state_at(trace: Seq<Step>, n: int) -> Option<Cubemap>
    decreases n,
{
    if n <= 0 {
        None
    } else {
        step(state_at(trace, n - 1), trace[n - 1])
    }
}

/// Whether, in `trace`, the machine was loading the request of `cubemap`
/// after `from` steps and has shown it loaded ever since, up to `to` steps.
pub open spec fn loaded_since(trace: Seq<Step>, from: int, to: int, cubemap: Cubemap) -> bool {
    &&& 0 <= from < to
    &&& state_at(trace, from) == Some(loading(cubemap))
    &&& forall|k: int| from < k <= to ==> #[trigger] state_at(trace, k) == Some(cubemap)
}

/// The machine is never loaded without having been loading that very request
/// before: whenever a run shows a request as loaded, it went through the
/// loading state of the same index and handle, and has been loaded without a
/// break since.
pub proof fn lemma_loaded_after_loading(trace: Seq<Step>, n: int)
    requires
        0 <= n <= trace.len(),
        phase_of(state_at(trace, n)) == Phase::Loaded,
    ensures
        exists|from: int| #[trigger] loaded_since(trace, from, n, state_at(trace, n)->0),
    decreases n,
{
    let cubemap = state_at(trace, n)->0;
    let last = n - 1;
    let before = state_at(trace, last);
    if phase_of(before) == Phase::Loaded && before == Some(cubemap) {
        lemma_loaded_after_loading(trace, last);
        let from = choose|from: int| #[trigger] loaded_since(trace, from, last, cubemap);
        assert(loaded_since(trace, from, n, cubemap));
    } else {
        assert(before == Some(loading(cubemap)));
        assert(loaded_since(trace, last, n, cubemap));
    }
}

/// Each operation of the machine is a step: starting yields the loading
/// state, so does a swap, and only a completing poll yields the loaded state,
/// for the request that was being loaded.
pub proof fn lemma_operations_are_steps(cubemap: Cubemap, index: usize, image_handle: ImageHandle)
    ensures
        step(None, Step::Start(image_handle)) == Some(started(image_handle)),
        phase_of(Some(started(image_handle))) == Phase::Loading,
        phase_of(Some(swapped(index, image_handle))) == Phase::Loading,
        step(Some(cubemap), Step::Complete) == Some(completed(cubemap)),
        phase_of(Some(completed(cubemap))) == Phase::Loaded,
        loading(completed(cubemap)) == loading(cubemap),
{
}

} // verus!
