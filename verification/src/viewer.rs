//! The decision half of the render loop. The viewer composes rotations onto
//! the scene node in front of its current orientation: the fixed up-axis
//! correction once at initialization, then one small spin increment per
//! display refresh tick until the window is closed. This module decides which
//! rotation to compose when; performing the rotations and pumping frames is
//! the window's business, outside the library.

use vstd::prelude::*;

verus! {

/// A rotation the viewer composes onto the scene node, in front of the
/// orientation the node already has.
#[derive(Clone, Copy, PartialEq, Eq, Structural, Debug)]
pub enum SpinRotation {
    /// The fixed up-axis correction: a quarter turn backwards about the X
    /// axis, composed once at initialization.
    UpAxisCorrection,
    /// The small per-frame spin increment about the Z axis.
    SpinTick,
}

/// What the viewer does after one display refresh tick.
#[derive(Clone, Copy, PartialEq, Eq, Structural, Debug)]
pub enum ViewerAction {
    /// Compose this rotation before the node's current orientation.
    Prepend(SpinRotation),
    /// The window was closed: leave the loop.
    Stop,
}

/// The viewer's two live states; the closed state is the loop having exited.
#[derive(Clone, Copy, PartialEq, Eq, Structural, Debug)]
pub enum ViewerPhase {
    Initializing,
    Spinning,
}

/// The rotations a viewer has composed after its initialization and `n`
/// refresh ticks: the up-axis correction exactly once, first, then one spin
/// increment per tick.
pub open spec fn composed_history(n: nat) -> Seq<SpinRotation> {
    seq![SpinRotation::UpAxisCorrection] + Seq::new(n, |i: int| SpinRotation::SpinTick)
}

/// Tracks which rotations the render loop has composed so far. Its view is
/// that sequence of rotations, oldest first.
pub struct ViewerLoop {
    /// Which state the viewer is in.
    pub phase: ViewerPhase,
    /// How many refresh ticks have been handed a spin increment.
    pub ticks: Ghost<nat>,
}

impl View for ViewerLoop {
    type V = Seq<SpinRotation>;

    open spec fn view(&self) -> Seq<SpinRotation> {
        match self.phase {
            ViewerPhase::Initializing => Seq::empty(),
            ViewerPhase::Spinning => composed_history(self.ticks@),
        }
    }
}

impl ViewerLoop {
    /// A viewer that has composed nothing yet.
    pub fn new() -> (r: ViewerLoop)
        ensures
            r.phase == ViewerPhase::Initializing,
            r@ == Seq::<SpinRotation>::empty(),
    {
        ViewerLoop { phase: ViewerPhase::Initializing, ticks: Ghost(0) }
    }

    /// Initialization: hand out the one-time up-axis correction and enter
    /// the spinning state.
    pub fn setup(&mut self) -> (r: SpinRotation)
        requires
            old(self).phase == ViewerPhase::Initializing,
        ensures
            r == SpinRotation::UpAxisCorrection,
            final(self).phase == ViewerPhase::Spinning,
            final(self)@ == old(self)@.push(SpinRotation::UpAxisCorrection),
    {
        self.phase = ViewerPhase::Spinning;
        self.ticks = Ghost(0);
        proof {
            assert(composed_history(0) =~= Seq::empty().push(SpinRotation::UpAxisCorrection));
        }
        SpinRotation::UpAxisCorrection
    }

    /// One display refresh tick: while the window stays open, hand out one
    /// more spin increment; once it is closed, stop. The up-axis correction
    /// is never handed out again.
    pub fn frame(&mut self, window_open: bool) -> (r: ViewerAction)
        requires
            old(self).phase == ViewerPhase::Spinning,
        ensures
            final(self).phase == ViewerPhase::Spinning,
            window_open ==> r == ViewerAction::Prepend(SpinRotation::SpinTick) && final(self)@
                == old(self)@.push(SpinRotation::SpinTick),
            !window_open ==> r == ViewerAction::Stop && final(self)@ == old(self)@,
    {
        if window_open {
            self.ticks = Ghost(self.ticks@ + 1);
            proof {
                assert(composed_history(old(self).ticks@ + 1) =~= composed_history(
                    old(self).ticks@,
                ).push(SpinRotation::SpinTick));
            }
            ViewerAction::Prepend(SpinRotation::SpinTick)
        } else {
            ViewerAction::Stop
        }
    }
}

/// Law: however many refresh ticks the viewer runs, the rotations it has
/// composed are the one-time up-axis correction followed by one spin
/// increment per tick — the correction is composed exactly once, first, and
/// never re-applied by a later tick.
pub proof fn lemma_spin_composition(n: nat)
    ensures
        composed_history(n).len() == n + 1,
        composed_history(n)[0] == SpinRotation::UpAxisCorrection,
        forall|i: int| 1 <= i <= n ==> #[trigger] composed_history(n)[i] == SpinRotation::SpinTick,
        forall|i: int|
            0 <= i <= n && #[trigger] composed_history(n)[i] == SpinRotation::UpAxisCorrection
                ==> i == 0,
{
    assert forall|i: int| 1 <= i <= n implies #[trigger] composed_history(n)[i]
        == SpinRotation::SpinTick by {
        assert(composed_history(n)[i] == Seq::new(n, |k: int| SpinRotation::SpinTick)[i - 1]);
    }
}

} // verus!
