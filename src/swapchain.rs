//! The presentable images of a swapchain together with the view and the
//! framebuffer made for each, kept and released as one unit.
use vstd::prelude::*;
use crate::extent::Extent2D;
use crate::negotiation::SwapchainConfig;

verus! {

/// One release the device must perform; a teardown lists them in order.
#[derive(Clone, Copy, Debug, PartialEq, Eq, Structural)]
pub enum Release {
    Framebuffer(u64),
    ImageView(u64),
    Swapchain(u64),
}

/// Why a set of images, views and framebuffers was not accepted.
#[derive(Clone, Copy, Debug, PartialEq, Eq, Structural)]
pub enum AssembleError {
    /// The three lists differ in length.
    CountMismatch,
    /// Fewer images than the surface's minimum.
    TooFewImages,
}

/// A swapchain, its images, and one view and one framebuffer per image.
#[derive(Debug)]
pub struct SwapchainResources {
    handle: u64,
    config: SwapchainConfig,
    images: Vec<u64>,
    views: Vec<u64>,
    framebuffers: Vec<u64>,
}

/// What a `SwapchainResources` holds.
pub struct SwapchainView {
    pub handle: u64,
    pub config: SwapchainConfig,
    pub images: Seq<u64>,
    pub views: Seq<u64>,
    pub framebuffers: Seq<u64>,
}

impl SwapchainView {
    /// As many views and framebuffers as images, and at least as many images
    /// as the configuration asked for.
    pub open spec fn is_consistent(&self) -> bool {
        &&& self.views.len() == self.images.len()
        &&& self.framebuffers.len() == self.images.len()
        &&& self.images.len() >= self.config.min_image_count
    }
}

/// The releases of a unit in the order the device requires: the
/// framebuffers, then the views, then the swapchain itself.
pub open spec fn teardown_order(v: SwapchainView) -> Seq<Release> {
    v.framebuffers.map_values(|h: u64| Release::Framebuffer(h)) + v.views.map_values(
        |h: u64| Release::ImageView(h),
    ) + seq![Release::Swapchain(v.handle)]
}

impl View for SwapchainResources {
    type V = SwapchainView;

    closed spec fn view(&self) -> SwapchainView {
        SwapchainView {
            handle: self.handle,
            config: self.config,
            images: self.images@,
            views: self.views@,
            framebuffers: self.framebuffers@,
        }
    }
}

impl SwapchainResources {
    #[verifier::type_invariant]
    pub(crate) open spec fn consistent(self) -> bool {
        self@.is_consistent()
    }

    /// Takes a new swapchain and what was made from it as one unit, if the
    /// three lists agree in length and the images are enough.
    pub fn assemble(
        handle: u64,
        config: SwapchainConfig,
        images: Vec<u64>,
        views: Vec<u64>,
        framebuffers: Vec<u64>,
    ) -> (r: Result<SwapchainResources, AssembleError>)
        ensures
            views@.len() != images@.len() || framebuffers@.len() != images@.len() ==> r == Err::<
                SwapchainResources,
                AssembleError,
            >(AssembleError::CountMismatch),
            views@.len() == images@.len() && framebuffers@.len() == images@.len() && images@.len()
                < config.min_image_count ==> r == Err::<SwapchainResources, AssembleError>(
                AssembleError::TooFewImages,
            ),
            r is Ok <==> (views@.len() == images@.len() && framebuffers@.len() == images@.len()
                && images@.len() >= config.min_image_count),
            r matches Ok(s) ==> s@ == (SwapchainView { handle, config, images: images@, views: views@, framebuffers: framebuffers@ }),
            r matches Ok(s) ==> s@.is_consistent(),
    {
        if views.len() != images.len() || framebuffers.len() != images.len() {
            return Err(AssembleError::CountMismatch);
        }
        if images.len() < config.min_image_count as usize {
            return Err(AssembleError::TooFewImages);
        }
        Ok(SwapchainResources { handle, config, images, views, framebuffers })
    }

    pub fn handle(&self) -> (r: u64)
        ensures
            r == self@.handle,
    {
        self.handle
    }

    pub fn config(&self) -> (r: SwapchainConfig)
        ensures
            r == self@.config,
    {
        self.config
    }

    pub fn extent(&self) -> (r: Extent2D)
        ensures
            r == self@.config.extent,
    {
        self.config.extent
    }

    /// The number of images; every instance also holds as many views and
    /// framebuffers.
    pub fn image_count(&self) -> (r: usize)
        ensures
            r == self@.images.len(),
            self@.is_consistent(),
    {
        proof {
            use_type_invariant(self);
        }
        self.images.len()
    }

    /// The framebuffer made for image `index`, if there is such an image.
    pub fn framebuffer_for(&self, index: u32) -> (r: Option<u64>)
        ensures
            self@.is_consistent(),
            r == if (index as int) < self@.images.len() {
                Some(self@.framebuffers[index as int])
            } else {
                None::<u64>
            },
    {
        proof {
            use_type_invariant(self);
        }
        if (index as usize) < self.images.len() {
            Some(self.framebuffers[index as usize])
        } else {
            None
        }
    }

    /// Gives the unit up, and lists what the device must release, in order.
    pub fn teardown(self) -> (r: Vec<Release>)
        ensures
            r@ == teardown_order(self@),
    {
        let mut out: Vec<Release> = Vec::new();
        let mut i: usize = 0;
        while i < self.framebuffers.len()
            invariant
                0 <= i <= self.framebuffers@.len(),
                out@ =~= self.framebuffers@.subrange(0, i as int).map_values(
                    |h: u64| Release::Framebuffer(h),
                ),
            decreases self.framebuffers@.len() - i,
        {
            out.push(Release::Framebuffer(self.framebuffers[i]));
            i = i + 1;
            assert(out@ =~= self.framebuffers@.subrange(0, i as int).map_values(
                |h: u64| Release::Framebuffer(h),
            ));
        }
        assert(self.framebuffers@.subrange(0, self.framebuffers@.len() as int)
            =~= self.framebuffers@);
        let ghost head = out@;
        let mut k: usize = 0;
        while k < self.views.len()
            invariant
                0 <= k <= self.views@.len(),
                head =~= self.framebuffers@.map_values(|h: u64| Release::Framebuffer(h)),
                out@ =~= head + self.views@.subrange(0, k as int).map_values(
                    |h: u64| Release::ImageView(h),
                ),
            decreases self.views@.len() - k,
        {
            out.push(Release::ImageView(self.views[k]));
            k = k + 1;
            assert(out@ =~= head + self.views@.subrange(0, k as int).map_values(
                |h: u64| Release::ImageView(h),
            ));
        }
        assert(self.views@.subrange(0, self.views@.len() as int) =~= self.views@);
        out.push(Release::Swapchain(self.handle));
        assert(out@ =~= teardown_order(self@));
        out
    }
}

} // verus!
