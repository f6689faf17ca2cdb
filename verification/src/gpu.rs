use vstd::prelude::*;

use crate::geometry::Size;

verus! {

/// Bit in a configuration's API mask: the driver offers desktop OpenGL.
pub const API_OPENGL: u32 = 1;

/// Bit in a configuration's API mask: the driver offers OpenGL ES 2.
pub const API_GLES2: u32 = 2;

/// Bit in a configuration's API mask: the driver offers OpenGL ES 3.
pub const API_GLES3: u32 = 4;

/// One candidate GPU configuration, as enumerated by the context library for
/// a native window handle.
#[derive(Clone, Copy, PartialEq, Eq, Structural, Debug)]
pub struct GpuConfig {
    /// The configuration can present to a window surface.
    pub window_surface: bool,
    /// Mask of `API_*` bits naming the rendering APIs the configuration
    /// supports.
    pub api_mask: u32,
    /// Multisampling sample count of render targets made from this
    /// configuration.
    pub sample_count: u32,
    /// Stencil-buffer depth of render targets made from this configuration.
    pub stencil_bits: u32,
}

impl GpuConfig {
    /// A usable configuration: it presents to a window surface and offers at
    /// least one of desktop OpenGL, OpenGL ES 2 or OpenGL ES 3.
    pub open spec fn is_compatible(self) -> bool {
        self.window_surface && (self.api_mask & (API_OPENGL | API_GLES2 | API_GLES3)) != 0
    }

    /// Runtime check for [`GpuConfig::is_compatible`].
    pub fn compatible(&self) -> (b: bool)
        ensures
            b == self.is_compatible(),
    {
        self.window_surface && (self.api_mask & (API_OPENGL | API_GLES2 | API_GLES3)) != 0
    }
}

/// Holds at the first compatible entry of a candidate list: entry `i` is
/// compatible and no earlier entry is.
pub open spec fn first_compatible_at(configs: Seq<GpuConfig>, i: int) -> bool {
    &&& 0 <= i < configs.len()
    &&& configs[i].is_compatible()
    &&& forall|j: int| 0 <= j < i ==> !(#[trigger] configs[j]).is_compatible()
}

/// Picks the configuration the binder will use: the first candidate that can
/// present to a window surface under one of the supported APIs, in the order
/// the context library enumerated them.
pub fn select_config(configs: &Vec<GpuConfig>) -> (r: Option<usize>)
    ensures
        match r {
            Some(i) => first_compatible_at(configs@, i as int),
            None => forall|j: int| 0 <= j < configs@.len()
                ==> !(#[trigger] configs@[j]).is_compatible(),
        },
{
    let mut i: usize = 0;
    while i < configs.len()
        invariant
            i <= configs@.len(),
            forall|j: int| 0 <= j < i ==> !(#[trigger] configs@[j]).is_compatible(),
        decreases configs@.len() - i,
    {
        if configs[i].compatible() {
            return Some(i);
        }
        i = i + 1;
    }
    None
}

/// The rendering API profile a context request asks the driver for.
#[derive(Clone, Copy, PartialEq, Eq, Structural, Debug)]
pub enum ApiProfile {
    /// Desktop OpenGL, requested first.
    Desktop,
    /// OpenGL ES, the single fallback.
    Es,
}

/// The profile to request after the driver rejected `rejected`: a desktop
/// rejection falls back to ES, an ES rejection is fatal.
pub open spec fn fallback_of(rejected: ApiProfile) -> Option<ApiProfile> {
    match rejected {
        ApiProfile::Desktop => Some(ApiProfile::Es),
        ApiProfile::Es => None,
    }
}

/// The profile of the first context request.
pub fn first_attempt() -> (p: ApiProfile)
    ensures
        p == ApiProfile::Desktop,
{
    ApiProfile::Desktop
}

/// The profile to try after a rejection, if any. See [`fallback_of`].
pub fn next_attempt(rejected: ApiProfile) -> (r: Option<ApiProfile>)
    ensures
        r == fallback_of(rejected),
{
    match rejected {
        ApiProfile::Desktop => Some(ApiProfile::Es),
        ApiProfile::Es => None,
    }
}

/// The fallback chain ends after one step: whatever profile a request asked
/// for, at most one further request follows it, and a request that follows a
/// fallback never exists. So the binder retries at most once.
pub proof fn lemma_at_most_one_fallback(p: ApiProfile)
    ensures
        fallback_of(p) matches Some(q) ==> fallback_of(q) is None,
        fallback_of(ApiProfile::Desktop) == Some(ApiProfile::Es),
        fallback_of(ApiProfile::Es) is None,
{
}

/// Which context requests a driver grants. The binder never sees this value
/// up front — it learns it one rejection at a time — but the negotiation's
/// outcome is a function of it.
#[derive(Clone, Copy, PartialEq, Eq, Structural, Debug)]
pub struct DriverCaps {
    /// The driver grants a desktop-OpenGL context request.
    pub accepts_desktop: bool,
    /// The driver grants an OpenGL ES context request.
    pub accepts_es: bool,
}

impl DriverCaps {
    pub open spec fn accepts(self, p: ApiProfile) -> bool {
        match p {
            ApiProfile::Desktop => self.accepts_desktop,
            ApiProfile::Es => self.accepts_es,
        }
    }

    /// Runtime check for [`DriverCaps::accepts`].
    pub fn grants(&self, p: ApiProfile) -> (b: bool)
        ensures
            b == self.accepts(p),
    {
        match p {
            ApiProfile::Desktop => self.accepts_desktop,
            ApiProfile::Es => self.accepts_es,
        }
    }
}

/// What a finished negotiation looked like: the granted profile, if any, and
/// how many context requests were issued.
#[derive(Clone, Copy, PartialEq, Eq, Structural, Debug)]
pub struct Negotiation {
    /// The profile the driver granted, or `None` when every request was
    /// rejected.
    pub granted: Option<ApiProfile>,
    /// How many context requests the binder issued.
    pub attempts: u32,
}

/// Runs the context negotiation against a driver: request desktop OpenGL
/// first and, on rejection, fall back to OpenGL ES exactly once.
///
/// A desktop grant costs one request; everything else costs exactly two —
/// the binder never issues a third.
pub fn negotiate_context(driver: &DriverCaps) -> (n: Negotiation)
    ensures
        1 <= n.attempts <= 2,
        n.attempts == 1 <==> driver.accepts_desktop,
        driver.accepts_desktop ==> n.granted == Some(ApiProfile::Desktop),
        !driver.accepts_desktop && driver.accepts_es ==> n.granted == Some(ApiProfile::Es),
        !driver.accepts_desktop && !driver.accepts_es ==> n.granted is None,
        n.granted matches Some(p) ==> driver.accepts(p),
{
    let first = first_attempt();
    if driver.grants(first) {
        return Negotiation { granted: Some(first), attempts: 1 };
    }
    match next_attempt(first) {
        Some(second) => {
            if driver.grants(second) {
                Negotiation { granted: Some(second), attempts: 2 }
            } else {
                Negotiation { granted: None, attempts: 2 }
            }
        }
        None => Negotiation { granted: None, attempts: 1 },
    }
}

/// Reasons a context bind fails. Every one is fatal: a bind happens once per
/// window at creation time, and there is no degraded mode to continue in.
#[derive(Clone, Copy, PartialEq, Eq, Structural, Debug)]
pub enum ContextError {
    /// The surface's underlying connection is no longer live. Deriving
    /// native handles from such a surface would be undefined behaviour, so
    /// the liveness check runs first and turns it into an error.
    ConnectionClosed,
    /// No enumerated configuration can present to a window surface under a
    /// supported API.
    NoCompatibleConfig,
    /// The driver rejected both the desktop-OpenGL request and the single
    /// ES fallback.
    ContextRejected,
}

/// The render-target description a canvas is built from. It is baked in at
/// canvas creation: a canvas whose description no longer matches its backing
/// target is invalid and must be recreated.
#[derive(Clone, Copy, PartialEq, Eq, Structural, Debug)]
pub struct CanvasDesc {
    /// Pixel size, queried from the presentation target at creation.
    pub size: Size,
    /// Sample count, queried from the negotiated configuration.
    pub sample_count: u32,
    /// Stencil-buffer depth, queried from the negotiated configuration.
    pub stencil_bits: u32,
}

/// Whether a resize kept the existing canvas or had to recreate it.
#[derive(Clone, Copy, PartialEq, Eq, Structural, Debug)]
pub enum CanvasFate {
    /// The target's pixel size did not change, so the canvas stayed valid.
    Kept,
    /// The pixel size changed; the caller must rebuild the canvas wrapper
    /// over the resized target.
    Recreated,
}

/// The negotiated rendering context for one window: the granted API profile,
/// the properties of the chosen configuration, the presentation target's
/// size, and the canvas description derived from them.
#[derive(Clone, Copy, PartialEq, Eq, Structural, Debug)]
pub struct GraphicsContext {
    /// The API profile the driver granted.
    pub profile: ApiProfile,
    /// Sample count of the chosen configuration.
    pub sample_count: u32,
    /// Stencil depth of the chosen configuration.
    pub stencil_bits: u32,
    /// Pixel size of the window-surface presentation target.
    pub target: Size,
    /// The canvas currently wrapping the target.
    pub canvas: CanvasDesc,
}

impl GraphicsContext {
    /// The canvas is valid: its baked-in description matches the live target
    /// and configuration, and the target has drawable dimensions.
    pub open spec fn wf(self) -> bool {
        &&& self.canvas.size == self.target
        &&& self.canvas.sample_count == self.sample_count
        &&& self.canvas.stencil_bits == self.stencil_bits
        &&& self.target.is_drawable()
    }

    /// Resizes the presentation target in place. The canvas's render-target
    /// description is immutable once constructed, so the canvas is recreated
    /// exactly when the pixel size actually changed — resizing a target to
    /// its current size leaves the canvas untouched.
    pub fn resize(&mut self, new_size: Size) -> (fate: CanvasFate)
        requires
            old(self).wf(),
            new_size.is_drawable(),
        ensures
            final(self).wf(),
            final(self).target == new_size,
            final(self).profile == old(self).profile,
            final(self).sample_count == old(self).sample_count,
            final(self).stencil_bits == old(self).stencil_bits,
            fate == CanvasFate::Kept <==> new_size == old(self).target,
            fate == CanvasFate::Kept ==> *final(self) == *old(self),
            fate == CanvasFate::Recreated ==> final(self).canvas == (CanvasDesc {
                size: new_size,
                sample_count: old(self).sample_count,
                stencil_bits: old(self).stencil_bits,
            }),
    {
        if new_size == self.target {
            CanvasFate::Kept
        } else {
            self.target = new_size;
            self.canvas = CanvasDesc {
                size: new_size,
                sample_count: self.sample_count,
                stencil_bits: self.stencil_bits,
            };
            CanvasFate::Recreated
        }
    }
}

/// Binds a rendering context and canvas to a surface, from the outcomes of
/// the steps the driver decides: the liveness of the surface's connection,
/// the enumerated configurations, and which API profiles the driver grants.
///
/// The bind succeeds exactly when the connection is live, some configuration
/// is compatible, and the driver grants one of the two profiles tried. On
/// success the context carries the first compatible configuration's
/// properties, the granted profile, and a canvas matching the target.
pub fn bind_context(
    connection_live: bool,
    configs: &Vec<GpuConfig>,
    driver: &DriverCaps,
    size: Size,
) -> (r: Result<GraphicsContext, ContextError>)
    requires
        size.is_drawable(),
    ensures
        r is Ok <==> connection_live && (exists|i: int|
            first_compatible_at(configs@, i)) && (driver.accepts_desktop || driver.accepts_es),
        !connection_live ==> r == Err::<GraphicsContext, ContextError>(
            ContextError::ConnectionClosed,
        ),
        connection_live && (forall|j: int|
            0 <= j < configs@.len() ==> !(#[trigger] configs@[j]).is_compatible()) ==> r == Err::<
            GraphicsContext,
            ContextError,
        >(ContextError::NoCompatibleConfig),
        connection_live && (exists|i: int| first_compatible_at(configs@, i))
            && !driver.accepts_desktop && !driver.accepts_es ==> r == Err::<
            GraphicsContext,
            ContextError,
        >(ContextError::ContextRejected),
        r matches Ok(ctx) ==> {
            &&& ctx.wf()
            &&& ctx.target == size
            &&& ctx.profile == (if driver.accepts_desktop {
                ApiProfile::Desktop
            } else {
                ApiProfile::Es
            })
            &&& forall|i: int|
                first_compatible_at(configs@, i) ==> ctx.sample_count == configs@[i].sample_count
                    && ctx.stencil_bits == configs@[i].stencil_bits
        },
{
    if !connection_live {
        return Err(ContextError::ConnectionClosed);
    }
    let chosen: usize = match select_config(configs) {
        Some(i) => i,
        None => {
            return Err(ContextError::NoCompatibleConfig);
        }
    };
    let config = configs[chosen];
    let negotiation = negotiate_context(driver);
    let profile = match negotiation.granted {
        Some(p) => p,
        None => {
            return Err(ContextError::ContextRejected);
        }
    };
    Ok(
        GraphicsContext {
            profile,
            sample_count: config.sample_count,
            stencil_bits: config.stencil_bits,
            target: size,
            canvas: CanvasDesc {
                size,
                sample_count: config.sample_count,
                stencil_bits: config.stencil_bits,
            },
        },
    )
}

} // verus!
