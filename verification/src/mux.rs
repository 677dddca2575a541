//! Model of a two-stage glitch-free clock multiplexer.
//!
//! Clocks with a glitch-free path have two selectors: an auxiliary selector
//! that may pick any candidate source, and a primary glitch-free selector
//! that steers the output either to a fixed bypass input or to the auxiliary
//! path.  The auxiliary selector is only ever retargeted while the primary
//! selector is parked on the bypass input, so the output never sees an
//! undefined or momentarily-wrong edge during a switch; that discipline is a
//! precondition of `select_aux` and is therefore machine-checked at every
//! call site.

use vstd::prelude::*;
use crate::source::SourceId;

verus! {

/// The selector pair of one glitch-free clock generator.
pub struct GlitchFreeMux {
    bypass: SourceId,
    aux: SourceId,
    on_aux: bool,
}

impl GlitchFreeMux {
    /// The fixed bypass input the primary selector parks on during a switch.
    pub closed spec fn spec_bypass(self) -> SourceId {
        self.bypass
    }

    /// The source currently picked by the auxiliary selector.
    pub closed spec fn spec_aux(self) -> SourceId {
        self.aux
    }

    /// Whether the primary selector steers the auxiliary path.
    pub closed spec fn spec_on_aux(self) -> bool {
        self.on_aux
    }

    /// The source the output is running from right now.
    pub open spec fn spec_selected(self) -> SourceId {
        if self.spec_on_aux() {
            self.spec_aux()
        } else {
            self.spec_bypass()
        }
    }

    /// A mux at its reset state: parked on the bypass input.
    pub fn new(bypass: SourceId) -> (r: GlitchFreeMux)
        ensures
            r.spec_bypass() == bypass,
            !r.spec_on_aux(),
            r.spec_selected() == bypass,
    {
        GlitchFreeMux { bypass, aux: bypass, on_aux: false }
    }

    /// Park the primary selector on the bypass input.  The output keeps
    /// running, fed by the bypass source, while the auxiliary path is
    /// retargeted.
    pub fn steer_to_bypass(&mut self)
        ensures
            !final(self).spec_on_aux(),
            final(self).spec_bypass() == old(self).spec_bypass(),
            final(self).spec_aux() == old(self).spec_aux(),
            final(self).spec_selected() == old(self).spec_bypass(),
    {
        self.on_aux = false;
    }

    /// Retarget the auxiliary selector.  Legal only while the primary
    /// selector is parked on the bypass input — retargeting a selector whose
    /// output is in use can glitch downstream logic.
    pub fn select_aux(&mut self, source: SourceId)
        requires
            !old(self).spec_on_aux(),
        ensures
            !final(self).spec_on_aux(),
            final(self).spec_bypass() == old(self).spec_bypass(),
            final(self).spec_aux() == source,
            final(self).spec_selected() == old(self).spec_bypass(),
    {
        self.aux = source;
    }

    /// Steer the primary glitch-free selector to the auxiliary path.  The
    /// primary selector is a glitch-free design, so this transition is safe
    /// while both inputs are running.
    pub fn engage_aux(&mut self)
        ensures
            final(self).spec_on_aux(),
            final(self).spec_bypass() == old(self).spec_bypass(),
            final(self).spec_aux() == old(self).spec_aux(),
            final(self).spec_selected() == old(self).spec_aux(),
    {
        self.on_aux = true;
    }
}

} // verus!
