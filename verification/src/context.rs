//! What the host hands over once, when it loads the plugin.

use vstd::prelude::*;

verus! {

/// The rendering context and the swap chain of the host. They are set
/// once, when the host loads the plugin, and only read after that.
pub struct HostContext<U> {
    ui: Option<U>,
    swapchain: Option<usize>,
    set: bool,
}

impl<U> HostContext<U> {
    /// Whether the host has handed its context over.
    pub closed spec fn is_set(&self) -> bool {
        self.set
    }

    /// The rendering context.
    pub closed spec fn spec_ui(&self) -> Option<U> {
        self.ui
    }

    /// The address of the swap chain.
    pub closed spec fn spec_swapchain(&self) -> Option<usize> {
        self.swapchain
    }

    #[verifier::type_invariant]
    closed spec fn inv(self) -> bool {
        !self.set ==> self.ui is None && self.swapchain is None
    }

    /// The context before the host has handed anything over.
    pub fn new() -> (context: HostContext<U>)
        ensures
            !context.is_set(),
            context.spec_ui() is None,
            context.spec_swapchain() is None,
    {
        HostContext { ui: None, swapchain: None, set: false }
    }

    /// Takes what the host hands over: the rendering context, where the
    /// plugin draws, and the address of the swap chain, which is absent
    /// where the host passes a null pointer. What was handed over once
    /// stays: a second call changes nothing and answers `false`.
    pub fn init(&mut self, ui: Option<U>, id3dptr: usize) -> (first: bool)
        ensures
            first == !old(self).is_set(),
            final(self).is_set(),
            first ==> final(self).spec_ui() == ui && final(self).spec_swapchain() == (if id3dptr
                != 0 {
                Some(id3dptr)
            } else {
                None
            }),
            !first ==> final(self).spec_ui() == old(self).spec_ui() && final(self).spec_swapchain()
                == old(self).spec_swapchain(),
    {
        if self.set {
            return false;
        }
        let swapchain = if id3dptr != 0 {
            Some(id3dptr)
        } else {
            None
        };
        *self = HostContext { ui, swapchain, set: true };
        true
    }

    /// The rendering context, if the host has handed one over.
    pub fn ui(&self) -> (ui: Option<&U>)
        ensures
            ui is Some <==> self.spec_ui() is Some,
            ui is Some ==> *ui->0 == self.spec_ui()->0,
    {
        self.ui.as_ref()
    }

    /// The address of the swap chain, if the host has handed one over.
    pub fn swapchain(&self) -> (swapchain: Option<usize>)
        ensures
            swapchain == self.spec_swapchain(),
    {
        self.swapchain
    }
}

} // verus!
