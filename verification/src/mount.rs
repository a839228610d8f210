//! The single-instance guard and the plan a fresh mount follows.

use vstd::prelude::*;
use crate::config::DEFAULT_HEIGHT;
use crate::config::DEFAULT_WIDTH;
use crate::config::WindowConfig;
use crate::config::spec_dimension;
use crate::config::spec_title;

verus! {

/// The element id reserved for the widget's canvas. A mounted widget gives its
/// canvas this id, so a later mount attempt can detect it in the document.
pub open spec fn spec_canvas_id() -> Seq<char> {
    "Winit"@
}

/// The reserved canvas id, for the host to query the document with.
pub fn canvas_id() -> (s: &'static str)
    ensures
        s@ == spec_canvas_id(),
{
    "Winit"
}

/// Why a mount is refused.
#[derive(Clone, Copy, Debug, PartialEq, Eq, Structural)]
pub enum MountError {
    /// An element with the reserved canvas id already exists: a widget is
    /// already on the page, and the windowing backend cannot build a second
    /// event loop.
    AlreadyMounted,
}

/// Everything the host needs to build the widget: the id to give the canvas
/// element and the configuration to build the window with.
#[derive(Clone, Debug)]
pub struct MountPlan {
    pub canvas_id: String,
    pub config: WindowConfig,
}

/// Decides whether the widget may mount, and with what.
///
/// `id_taken` reports whether the document already holds an element with the
/// reserved canvas id. If it does, the mount is refused; otherwise the plan
/// carries the reserved id and the initial window configuration resolved from
/// the props.
pub fn plan_mount(
    id_taken: bool,
    width: Option<u32>,
    height: Option<u32>,
    title: Option<String>,
) -> (r: Result<MountPlan, MountError>)
    ensures
        r is Err <==> id_taken,
        r is Err ==> r->Err_0 == MountError::AlreadyMounted,
        r is Ok ==> r->Ok_0.canvas_id@ == spec_canvas_id(),
        r is Ok ==> r->Ok_0.config.width == spec_dimension(width, DEFAULT_WIDTH),
        r is Ok ==> r->Ok_0.config.height == spec_dimension(height, DEFAULT_HEIGHT),
        r is Ok ==> r->Ok_0.config.title@ == spec_title(title),
{
    if id_taken {
        Err(MountError::AlreadyMounted)
    } else {
        Ok(MountPlan {
            canvas_id: String::from_str(canvas_id()),
            config: WindowConfig::initial(width, height, title),
        })
    }
}

} // verus!
