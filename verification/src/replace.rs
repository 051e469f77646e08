//! The steps of replacing a swapchain.
//!
//! Replacing a swapchain takes one call after the other, each of which can fail. A replacement says
//! which call comes next and holds what was made so far, so that it can be put in place or
//! destroyed.

use crate::error::{failure_of, Error, Failure};
use crate::format::Uint32x2;
use crate::present::MAX_SWAPCHAIN_IMAGES;
use crate::swapchain::{SurfaceCapabilities, SwapchainPlan};
use vstd::prelude::*;

verus! {

/// What replacing a swapchain takes next, or how it ended.
#[derive(Debug, PartialEq, Eq)]
pub enum Replacement {
    /// Ask for the formats of the surface.
    Formats { capabilities: SurfaceCapabilities, extent: Uint32x2 },
    /// Create the swapchain.
    Create { plan: SwapchainPlan },
    /// Ask for the images of the swapchain.
    Images { plan: SwapchainPlan, handle: u64 },
    /// Create a view of the first image that has none.
    View { plan: SwapchainPlan, handle: u64, images: Vec<u64>, views: Vec<u64> },
    /// Look at the fences of the presents, and put the swapchain in place.
    Install { plan: SwapchainPlan, handle: u64, images: Vec<u64>, views: Vec<u64> },
    /// Look at the fences of the presents, and give up what was made and the old swapchain.
    Abandon { made: Option<u64>, views: Vec<u64>, failure: Failure },
    /// The window has no area: the swapchain stays, and is replaced later.
    Hidden,
    /// The swapchain stays.
    Failed(Failure),
}

impl Replacement {
    /// The swapchain that was made and is not in place yet.
    pub open spec fn held_swapchain(&self) -> Option<u64> {
        match *self {
            Replacement::Images { handle, .. } => Some(handle),
            Replacement::View { handle, .. } => Some(handle),
            Replacement::Install { handle, .. } => Some(handle),
            Replacement::Abandon { made, .. } => made,
            _ => None,
        }
    }

    /// The views that were made and are not in place yet.
    pub open spec fn held_views(&self) -> Seq<u64> {
        match *self {
            Replacement::View { views, .. } => views@,
            Replacement::Install { views, .. } => views@,
            Replacement::Abandon { views, .. } => views@,
            _ => seq![],
        }
    }

    /// The new swapchain has an area. The views fit the images: one for each of the first ones, and
    /// none is null.
    pub open spec fn wf(&self) -> bool {
        match *self {
            Replacement::Formats { extent, .. } => has_area(extent),
            Replacement::Create { plan } => has_area(plan.extent),
            Replacement::Images { plan, .. } => has_area(plan.extent),
            Replacement::View { plan, images, views, .. } => {
                &&& has_area(plan.extent)
                &&& is_image_count(images@.len())
                &&& views@.len() < images@.len()
                &&& forall|i: int| 0 <= i < views@.len() ==> #[trigger] views@[i] != 0
            },
            Replacement::Install { plan, images, views, .. } => {
                &&& has_area(plan.extent)
                &&& is_image_count(images@.len())
                &&& views@.len() == images@.len()
                &&& forall|i: int| 0 <= i < views@.len() ==> #[trigger] views@[i] != 0
            },
            _ => true,
        }
    }
}

/// Neither edge is zero.
pub open spec fn has_area(extent: Uint32x2) -> bool {
    extent.x != 0 && extent.y != 0
}

/// The number of images can be used.
pub open spec fn is_image_count(count: nat) -> bool {
    0 < count <= MAX_SWAPCHAIN_IMAGES
}

/// Takes the swapchain that was created, or the code with which the creation failed.
pub fn on_swapchain(plan: SwapchainPlan, result: Result<u64, i32>) -> (r: Replacement)
    requires
        has_area(plan.extent),
    ensures
        r.wf(),
        match result {
            Ok(handle) => r == (Replacement::Images { plan, handle }),
            Err(code) => {
                &&& r matches Replacement::Abandon { made, views, failure }
                &&& made is None
                &&& views@.len() == 0
                &&& failure == failure_of(code)
            },
        },
{
    match result {
        Ok(handle) => Replacement::Images { plan, handle },
        Err(code) => Replacement::Abandon {
            made: None,
            views: Vec::new(),
            failure: Failure::from_code(code),
        },
    }
}

/// Takes the images of the swapchain that was made.
pub fn on_images(
    plan: SwapchainPlan,
    handle: u64,
    result: Result<Vec<u64>, i32>,
) -> (r: Replacement)
    requires
        has_area(plan.extent),
    ensures
        r.wf(),
        r.held_swapchain() == Some(handle),
        r.held_views().len() == 0,
        match result {
            Ok(list) => if is_image_count(list@.len()) {
                &&& r matches Replacement::View { plan: p, images, .. }
                &&& p == plan
                &&& images == list
            } else {
                &&& r matches Replacement::Abandon { failure, .. }
                &&& failure == Failure::Reported(Error::Unsupported)
            },
            Err(code) => {
                &&& r matches Replacement::Abandon { failure, .. }
                &&& failure == failure_of(code)
            },
        },
{
    let failure = match result {
        Ok(images) => {
            if images.len() > 0 && images.len() <= MAX_SWAPCHAIN_IMAGES {
                return Replacement::View { plan, handle, images, views: Vec::new() };
            }
            Failure::Reported(Error::Unsupported)
        },
        Err(code) => Failure::from_code(code),
    };
    Replacement::Abandon { made: Some(handle), views: Vec::new(), failure }
}

/// Takes the view of the first image that had none, or the code with which its creation failed.
pub fn on_view(
    plan: SwapchainPlan,
    handle: u64,
    images: Vec<u64>,
    views: Vec<u64>,
    result: Result<u64, i32>,
) -> (r: Replacement)
    requires
        (Replacement::View { plan, handle, images, views }).wf(),
        result matches Ok(view) ==> view != 0,
    ensures
        r.wf(),
        r.held_swapchain() == Some(handle),
        match result {
            Ok(view) => {
                &&& r.held_views() == views@.push(view)
                &&& if views@.len() + 1 == images@.len() {
                    &&& r matches Replacement::Install { plan: p, images: shown, .. }
                    &&& p == plan
                    &&& shown == images
                } else {
                    &&& r matches Replacement::View { plan: p, images: shown, .. }
                    &&& p == plan
                    &&& shown == images
                }
            },
            Err(code) => {
                &&& r.held_views() == views@
                &&& r matches Replacement::Abandon { failure, .. }
                &&& failure == failure_of(code)
            },
        },
{
    match result {
        Ok(view) => {
            let mut views = views;
            views.push(view);
            if views.len() == images.len() {
                Replacement::Install { plan, handle, images, views }
            } else {
                Replacement::View { plan, handle, images, views }
            }
        },
        Err(code) => Replacement::Abandon {
            made: Some(handle),
            views,
            failure: Failure::from_code(code),
        },
    }
}

/// The first image from `from` on whose view could not be created, or the number of images.
pub open spec fn first_without_view(
    images: Seq<u64>,
    from: nat,
    view_of: spec_fn(u64) -> Result<u64, i32>,
) -> nat
    decreases images.len() - from,
{
    if from >= images.len() {
        images.len()
    } else if view_of(images[from as int]) is Err {
        from
    } else {
        first_without_view(images, from + 1, view_of)
    }
}

/// The views of the images from `from` up to `to`.
pub open spec fn views_between(
    images: Seq<u64>,
    from: nat,
    to: nat,
    view_of: spec_fn(u64) -> Result<u64, i32>,
) -> Seq<u64> {
    Seq::new((to - from) as nat, |i: int| view_of(images[from + i])->Ok_0)
}

/// How replacing a swapchain ends, by the driver's answers about views: the views that are held in
/// the end, and the failure if there is one.
pub open spec fn views_outcome(
    images: Seq<u64>,
    views: Seq<u64>,
    view_of: spec_fn(u64) -> Result<u64, i32>,
) -> (Seq<u64>, Option<Failure>) {
    let end = first_without_view(images, views.len(), view_of);
    (
        views + views_between(images, views.len(), end, view_of),
        if end == images.len() {
            None
        } else {
            Some(failure_of(view_of(images[end as int])->Err_0))
        },
    )
}

/// Creating the views one after the other leads to the outcome that the driver's answers determine:
/// a view that was created changes nothing about it.
pub proof fn view_keeps_outcome(
    images: Seq<u64>,
    views: Seq<u64>,
    view_of: spec_fn(u64) -> Result<u64, i32>,
)
    requires
        views.len() < images.len(),
        view_of(images[views.len() as int]) is Ok,
    ensures
        views_outcome(images, views.push(view_of(images[views.len() as int])->Ok_0), view_of)
            == views_outcome(images, views, view_of),
{
    let view = view_of(images[views.len() as int])->Ok_0;
    let end = first_without_view(images, views.len(), view_of);
    first_without_view_is_after(images, views.len() + 1, view_of);
    assert(end == first_without_view(images, views.len() + 1, view_of));
    assert(views.push(view) + views_between(images, views.len() + 1, end, view_of) =~= views
        + views_between(images, views.len(), end, view_of));
}

/// Every image up to the first one without a view has one, and the next view belongs to the next
/// image.
pub proof fn first_without_view_is_after(
    images: Seq<u64>,
    from: nat,
    view_of: spec_fn(u64) -> Result<u64, i32>,
)
    requires
        from <= images.len(),
    ensures
        from <= first_without_view(images, from, view_of) <= images.len(),
        forall|i: int|
            from <= i < first_without_view(images, from, view_of) ==> view_of(
                #[trigger] images[i],
            ) is Ok,
        first_without_view(images, from, view_of) < images.len() ==> view_of(
            images[first_without_view(images, from, view_of) as int],
        ) is Err,
    decreases images.len() - from,
{
    if from < images.len() && view_of(images[from as int]) is Ok {
        first_without_view_is_after(images, from + 1, view_of);
    }
}

/// An extent has an area exactly if both edges are positive.
pub proof fn areas_have_two_edges(extent: Uint32x2)
    ensures
        has_area(extent) <==> extent.x > 0 && extent.y > 0,
{
}

/// A swapchain can have from 1 to 8 images.
pub proof fn image_counts_are_small(count: nat)
    ensures
        is_image_count(count) <==> 1 <= count <= 8,
{
}

/// Whatever was made on the way to a new swapchain is held until it is put in place or given up: a
/// swapchain once it was created, and each view once it was. A failure is told with its reason.
pub proof fn what_was_made_is_held(
    plan: SwapchainPlan,
    handle: u64,
    made: Result<u64, i32>,
    listed: Result<Vec<u64>, i32>,
    images: Vec<u64>,
    views: Vec<u64>,
    view: Result<u64, i32>,
    first: Replacement,
    second: Replacement,
    third: Replacement,
)
    requires
        call_ensures(on_swapchain, (plan, made), first),
        call_ensures(on_images, (plan, handle, listed), second),
        call_ensures(on_view, (plan, handle, images, views, view), third),
    ensures
        made is Ok <==> first is Images,
        made is Err <==> first is Abandon,
        made matches Ok(swapchain) ==> first.held_swapchain() == Some(swapchain),
        made is Err ==> first.held_swapchain() is None && first.held_views().len() == 0,
        first matches Replacement::Abandon { failure, .. } ==> failure == failure_of(made->Err_0),
        second.held_swapchain() == Some(handle),
        second.held_views().len() == 0,
        second is View <==> listed is Ok && 1 <= listed->Ok_0@.len() <= 8,
        second is View || second is Abandon,
        third.held_swapchain() == Some(handle),
        view matches Ok(new) ==> third.held_views() == views@.push(new),
        view is Err ==> third.held_views() == views@ && third is Abandon,
        third is Install <==> view is Ok && views@.len() + 1 == images@.len(),
        third matches Replacement::Install { plan: p, images: shown, .. } ==> p == plan && shown
            == images,
        third matches Replacement::View { plan: p, images: shown, .. } ==> p == plan && shown
            == images,
{
}

} // verus!
