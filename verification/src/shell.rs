use vstd::prelude::*;

use crate::capabilities::SeatDevices;
use crate::geometry::effective_size;
use crate::geometry::effective_spec;
use crate::geometry::Size;
use crate::geometry::FALLBACK_HEIGHT;
use crate::geometry::FALLBACK_WIDTH;
use crate::gpu::CanvasFate;
use crate::gpu::GraphicsContext;
use crate::render::build_frame;
use crate::render::frame_steps;
use crate::render::DrawPlan;
use crate::render::RenderParams;

verus! {

/// Keysym of the designated exit key (Escape). Pressing it sets the
/// dispatch loop's exit flag.
pub const EXIT_KEYSYM: u32 = 0xff1b;

/// Input-event code of the left pointer button.
pub const BTN_LEFT: u32 = 0x110;

/// Input-event code of the right pointer button.
pub const BTN_RIGHT: u32 = 0x111;

/// Anchor bit: the layer surface is anchored to the top edge.
pub const ANCHOR_TOP: u32 = 1;

/// Anchor bit: the layer surface is anchored to the bottom edge.
pub const ANCHOR_BOTTOM: u32 = 2;

/// Anchor bit: the layer surface is anchored to the left edge.
pub const ANCHOR_LEFT: u32 = 4;

/// Anchor bit: the layer surface is anchored to the right edge.
pub const ANCHOR_RIGHT: u32 = 8;

/// How a layer surface takes keyboard focus.
#[derive(Clone, Copy, PartialEq, Eq, Structural, Debug)]
pub enum KeyboardInteractivity {
    /// The surface never takes keyboard focus.
    NotInteractive,
    /// The compositor hands focus over on demand.
    OnDemand,
    /// The surface takes focus exclusively while mapped.
    Exclusive,
}

/// One rectangle of an input region, in surface-local coordinates.
#[derive(Clone, Copy, PartialEq, Eq, Structural, Debug)]
pub struct RegionRect {
    pub x: i32,
    pub y: i32,
    pub width: i32,
    pub height: i32,
}

/// The positioning attributes of an overlay layer surface.
#[derive(Clone, Copy, PartialEq, Eq, Structural, Debug)]
pub struct LayerAttrs {
    /// Mask of `ANCHOR_*` bits.
    pub anchor: u32,
    /// Screen-edge distance the surface reserves for itself.
    pub exclusive_zone: i32,
    pub keyboard_interactivity: KeyboardInteractivity,
    /// The size the client asked the compositor for.
    pub requested_size: Size,
}

/// What a window presents as: a decorated top-level or an overlay layer.
#[derive(Debug)]
pub enum WindowKind {
    Toplevel { title: String, app_id: String },
    /// An overlay layer surface. An omitted input region means the whole
    /// surface receives pointer input.
    Layer { attrs: LayerAttrs, input_region: Option<Vec<RegionRect>> },
}

/// One presented window: a top-level or layer wrapper over exactly one
/// surface, with its working size and at most one live rendering context.
#[derive(Debug)]
pub struct Window {
    /// The window's identity: its index in the coordinator's window list.
    /// Configure and close events are routed back by this identity.
    pub id: usize,
    pub kind: WindowKind,
    /// The working size: a placeholder until the first configure event.
    pub size: Size,
    /// Whether a configure event has arrived yet.
    pub configured: bool,
    /// The window's rendering context, once bound.
    pub context: Option<GraphicsContext>,
}

impl Window {
    /// The window's size is drawable and its context, if bound, is valid
    /// and backs a target of exactly that size.
    pub open spec fn wf(self) -> bool {
        &&& self.size.is_drawable()
        &&& match self.context {
            Some(c) => c.wf() && c.target == self.size,
            None => true,
        }
    }

    pub open spec fn is_layer(self) -> bool {
        self.kind matches WindowKind::Layer { .. }
    }

    /// The keyboard-interactivity state; a top-level never takes it.
    pub open spec fn interactivity_of(self) -> KeyboardInteractivity {
        match self.kind {
            WindowKind::Layer { attrs, .. } => attrs.keyboard_interactivity,
            WindowKind::Toplevel { .. } => KeyboardInteractivity::NotInteractive,
        }
    }

    /// The same window with its keyboard interactivity replaced; the
    /// identity on a top-level.
    pub open spec fn with_interactivity(self, v: KeyboardInteractivity) -> Window {
        match self.kind {
            WindowKind::Layer { attrs, input_region } => Window {
                kind: WindowKind::Layer {
                    attrs: LayerAttrs { keyboard_interactivity: v, ..attrs },
                    input_region,
                },
                ..self
            },
            WindowKind::Toplevel { .. } => self,
        }
    }
}

/// What a pointer did, as delivered in one pointer frame.
#[derive(Clone, Copy, PartialEq, Eq, Structural, Debug)]
pub enum PointerEventKind {
    Enter,
    Leave,
    Motion,
    Press { button: u32 },
    Release { button: u32 },
    Axis { horizontal: i32, vertical: i32 },
}

/// One pointer event, already resolved to the window whose surface it
/// addresses; an out-of-range index stands for a foreign surface, which
/// the handler ignores.
#[derive(Clone, Copy, PartialEq, Eq, Structural, Debug)]
pub struct PointerEvent {
    pub window: usize,
    pub kind: PointerEventKind,
    /// Surface-local position, in whole pixels.
    pub x: i32,
    pub y: i32,
}

/// What the caller must apply to a live layer surface after a pointer
/// press: set the new keyboard interactivity and commit the surface.
#[derive(Clone, Copy, PartialEq, Eq, Structural, Debug)]
pub struct LayerCommand {
    pub window: usize,
    pub interactivity: KeyboardInteractivity,
}

/// The interactivity a pointer press sets: the left button withdraws the
/// layer from keyboard input, the right button takes it exclusively, any
/// other button changes nothing.
pub open spec fn press_interactivity(button: u32) -> Option<KeyboardInteractivity> {
    if button == BTN_LEFT {
        Some(KeyboardInteractivity::NotInteractive)
    } else if button == BTN_RIGHT {
        Some(KeyboardInteractivity::Exclusive)
    } else {
        None
    }
}

pub open spec fn is_press(k: PointerEventKind) -> bool {
    k matches PointerEventKind::Press { .. }
}

pub open spec fn press_button(k: PointerEventKind) -> u32 {
    match k {
        PointerEventKind::Press { button } => button,
        _ => 0,
    }
}

/// The press-toggled shift marker flips between `None` and `Some(0)`.
pub open spec fn toggled_shift(s: Option<u32>) -> Option<u32> {
    match s {
        Some(_) => None,
        None => Some(0u32),
    }
}

/// The shift marker after a pointer frame: every press on one of this
/// client's windows toggles it, front to back.
pub open spec fn shift_after(
    events: Seq<PointerEvent>,
    window_count: int,
    init: Option<u32>,
) -> Option<u32>
    decreases events.len(),
{
    if events.len() == 0 {
        init
    } else {
        let next = if (events[0].window as int) < window_count && is_press(events[0].kind) {
            toggled_shift(init)
        } else {
            init
        };
        shift_after(events.drop_first(), window_count, next)
    }
}

/// The keyboard interactivity of window `j` after a pointer frame: the
/// last press on `j` whose button sets one wins.
pub open spec fn interactivity_after(
    events: Seq<PointerEvent>,
    j: int,
    init: KeyboardInteractivity,
) -> KeyboardInteractivity
    decreases events.len(),
{
    if events.len() == 0 {
        init
    } else {
        let e = events[0];
        let next = if e.window as int == j && is_press(e.kind) {
            match press_interactivity(press_button(e.kind)) {
                Some(v) => v,
                None => init,
            }
        } else {
            init
        };
        interactivity_after(events.drop_first(), j, next)
    }
}

/// The surface commands a pointer frame obliges: one per press on a layer
/// window whose button sets an interactivity, in event order.
pub open spec fn layer_commands(events: Seq<PointerEvent>, windows: Seq<Window>) -> Seq<
    LayerCommand,
>
    decreases events.len(),
{
    if events.len() == 0 {
        Seq::empty()
    } else {
        let e = events[0];
        let rest = layer_commands(events.drop_first(), windows);
        if (e.window as int) < windows.len() && windows[e.window as int].is_layer() && is_press(
            e.kind,
        ) {
            match press_interactivity(press_button(e.kind)) {
                Some(v) => seq![LayerCommand { window: e.window, interactivity: v }] + rest,
                None => rest,
            }
        } else {
            rest
        }
    }
}

/// Replacing a window's interactivity touches nothing else of it.
proof fn lemma_with_interactivity_props(w: Window, v: KeyboardInteractivity)
    ensures
        w.with_interactivity(v).is_layer() == w.is_layer(),
        w.with_interactivity(v).id == w.id,
        w.with_interactivity(v).size == w.size,
        w.with_interactivity(v).configured == w.configured,
        w.with_interactivity(v).context == w.context,
        w.with_interactivity(v).wf() == w.wf(),
        w.is_layer() ==> w.with_interactivity(v).interactivity_of() == v,
        !w.is_layer() ==> w.with_interactivity(v) == w,
{
    match w.kind {
        WindowKind::Layer { .. } => {}
        WindowKind::Toplevel { .. } => {}
    }
}

/// Replacing a window's interactivity twice is replacing it once.
proof fn lemma_with_interactivity_twice(
    w: Window,
    a: KeyboardInteractivity,
    b: KeyboardInteractivity,
)
    ensures
        w.with_interactivity(a).with_interactivity(b) == w.with_interactivity(b),
{
    match w.kind {
        WindowKind::Layer { .. } => {}
        WindowKind::Toplevel { .. } => {}
    }
}

/// Putting a window's own interactivity back leaves it as it was.
proof fn lemma_with_interactivity_self(w: Window)
    ensures
        w.with_interactivity(w.interactivity_of()) == w,
{
    match w.kind {
        WindowKind::Layer { .. } => {}
        WindowKind::Toplevel { .. } => {}
    }
}

/// What a configure event obliges the caller to do next.
#[derive(Debug)]
pub enum ConfigureAction {
    /// The window has no rendering context yet: bind one at the given
    /// (already substituted, drawable) size and attach it.
    BindContext { size: Size },
    /// Redraw the window: apply the plan's steps to its canvas, which
    /// `canvas` says survived the resize or must be rebuilt first.
    Draw { plan: DrawPlan, canvas: CanvasFate },
}

/// The owner of all client state, held by the single dispatch-loop thread:
/// the window list, the thread's current rendering context, the exit flag,
/// keyboard focus, the pointer-toggled shift marker, the held input
/// devices, and the drawing payload's parameters.
#[derive(Debug)]
pub struct Shell {
    pub windows: Vec<Window>,
    /// The window whose context was made current last on the dispatch
    /// thread; at most one context is ever current at a time.
    pub current: Option<usize>,
    /// Checked once per dispatch-loop iteration boundary.
    pub exit: bool,
    pub keyboard_focus: bool,
    /// Toggled by pointer presses; `Some(0)` or `None`, as the press
    /// handler flips it.
    pub shift: Option<u32>,
    pub seat: SeatDevices,
    /// The drawing payload configuration every frame uses.
    pub params: RenderParams,
}

impl Shell {
    /// Every window is well formed and sits at the index matching its
    /// identity, and the current context, if any, belongs to a window that
    /// actually has one.
    pub open spec fn wf(self) -> bool {
        &&& forall|i: int|
            0 <= i < self.windows@.len() ==> (#[trigger] self.windows@[i]).wf()
                && self.windows@[i].id == i
        &&& match self.current {
            Some(w) => w < self.windows@.len() && self.windows@[w as int].context is Some,
            None => true,
        }
    }

    /// A fresh coordinator: no windows, no current context, not exiting,
    /// no focus, no devices.
    pub fn new(params: RenderParams) -> (s: Shell)
        ensures
            s.wf(),
            s.windows@.len() == 0,
            s.current is None,
            !s.exit,
            !s.keyboard_focus,
            s.shift is None,
            !s.seat.keyboard,
            !s.seat.pointer,
            s.params == params,
    {
        Shell {
            windows: Vec::new(),
            current: None,
            exit: false,
            keyboard_focus: false,
            shift: None,
            seat: SeatDevices::new(),
            params,
        }
    }

    /// Creates a decorated top-level window over a fresh surface. Its real
    /// size arrives with the first configure event; until then it carries
    /// the placeholder size, and its context is bound separately right
    /// after creation.
    pub fn create_toplevel(&mut self, title: String, app_id: String) -> (id: usize)
        requires
            old(self).wf(),
        ensures
            final(self).wf(),
            id == old(self).windows@.len(),
            final(self).windows@.len() == old(self).windows@.len() + 1,
            forall|j: int|
                0 <= j < old(self).windows@.len() ==> final(self).windows@[j] == old(
                    self,
                ).windows@[j],
            ({
                let w = final(self).windows@[id as int];
                &&& w.id == id
                &&& w.kind matches WindowKind::Toplevel { title: t, app_id: a } && t == title && a
                    == app_id
                &&& w.size == Size::fallback()
                &&& !w.configured
                &&& w.context is None
            }),
            final(self).current == old(self).current,
            final(self).exit == old(self).exit,
            final(self).keyboard_focus == old(self).keyboard_focus,
            final(self).shift == old(self).shift,
            final(self).seat == old(self).seat,
            final(self).params == old(self).params,
    {
        let id = self.windows.len();
        let w = Window {
            id,
            kind: WindowKind::Toplevel { title, app_id },
            size: Size::new(FALLBACK_WIDTH, FALLBACK_HEIGHT),
            configured: false,
            context: None,
        };
        self.windows.push(w);
        id
    }

    /// Creates an overlay layer surface with the given positioning
    /// attributes and optional input region. Its context is bound after the
    /// first configure event delivers a target size.
    pub fn create_layer(&mut self, attrs: LayerAttrs, input_region: Option<Vec<RegionRect>>) -> (id:
        usize)
        requires
            old(self).wf(),
        ensures
            final(self).wf(),
            id == old(self).windows@.len(),
            final(self).windows@.len() == old(self).windows@.len() + 1,
            forall|j: int|
                0 <= j < old(self).windows@.len() ==> final(self).windows@[j] == old(
                    self,
                ).windows@[j],
            ({
                let w = final(self).windows@[id as int];
                &&& w.id == id
                &&& w.kind matches WindowKind::Layer { attrs: a, input_region: r } && a == attrs
                    && r == input_region
                &&& w.size == Size::fallback()
                &&& !w.configured
                &&& w.context is None
            }),
            final(self).current == old(self).current,
            final(self).exit == old(self).exit,
            final(self).keyboard_focus == old(self).keyboard_focus,
            final(self).shift == old(self).shift,
            final(self).seat == old(self).seat,
            final(self).params == old(self).params,
    {
        let id = self.windows.len();
        let w = Window {
            id,
            kind: WindowKind::Layer { attrs, input_region },
            size: Size::new(FALLBACK_WIDTH, FALLBACK_HEIGHT),
            configured: false,
            context: None,
        };
        self.windows.push(w);
        id
    }

    /// Hands a freshly bound context to the window it was bound for. The
    /// window must not hold one already — exactly one context exists per
    /// window — and the context's target must match the window's working
    /// size.
    pub fn attach_context(&mut self, id: usize, ctx: GraphicsContext)
        requires
            old(self).wf(),
            id < old(self).windows@.len(),
            old(self).windows@[id as int].context is None,
            ctx.wf(),
            ctx.target == old(self).windows@[id as int].size,
        ensures
            final(self).wf(),
            final(self).windows@.len() == old(self).windows@.len(),
            forall|j: int|
                0 <= j < old(self).windows@.len() && j != id ==> final(self).windows@[j] == old(
                    self,
                ).windows@[j],
            final(self).windows@[id as int].context == Some(ctx),
            final(self).windows@[id as int].id == old(self).windows@[id as int].id,
            final(self).windows@[id as int].kind == old(self).windows@[id as int].kind,
            final(self).windows@[id as int].size == old(self).windows@[id as int].size,
            final(self).windows@[id as int].configured == old(self).windows@[id as int].configured,
            final(self).current == old(self).current,
            final(self).exit == old(self).exit,
            final(self).keyboard_focus == old(self).keyboard_focus,
            final(self).shift == old(self).shift,
            final(self).seat == old(self).seat,
            final(self).params == old(self).params,
    {
        let w = &mut self.windows[id];
        w.context = Some(ctx);
    }

    /// A close request for a top-level, or a layer-surface close: sets the
    /// exit flag, which the dispatch loop observes at its next iteration
    /// boundary. Nothing else changes and nothing is drawn.
    pub fn handle_close(&mut self)
        requires
            old(self).wf(),
        ensures
            final(self).wf(),
            final(self).exit,
            final(self).windows == old(self).windows,
            final(self).current == old(self).current,
            final(self).keyboard_focus == old(self).keyboard_focus,
            final(self).shift == old(self).shift,
            final(self).seat == old(self).seat,
            final(self).params == old(self).params,
    {
        self.exit = true;
    }

    /// A key press. The designated exit key sets the exit flag; every
    /// other key changes nothing. No draw is ever triggered from here.
    pub fn handle_key_press(&mut self, keysym: u32)
        requires
            old(self).wf(),
        ensures
            final(self).wf(),
            final(self).exit == (old(self).exit || keysym == EXIT_KEYSYM),
            final(self).windows == old(self).windows,
            final(self).current == old(self).current,
            final(self).keyboard_focus == old(self).keyboard_focus,
            final(self).shift == old(self).shift,
            final(self).seat == old(self).seat,
            final(self).params == old(self).params,
    {
        if keysym == EXIT_KEYSYM {
            self.exit = true;
        }
    }

    /// The keyboard entered one of this client's surfaces (an index into
    /// the window list); entering a foreign surface changes nothing.
    pub fn handle_keyboard_enter(&mut self, id: usize)
        requires
            old(self).wf(),
        ensures
            final(self).wf(),
            final(self).keyboard_focus == (if id < old(self).windows@.len() {
                true
            } else {
                old(self).keyboard_focus
            }),
            final(self).windows == old(self).windows,
            final(self).current == old(self).current,
            final(self).exit == old(self).exit,
            final(self).shift == old(self).shift,
            final(self).seat == old(self).seat,
            final(self).params == old(self).params,
    {
        if id < self.windows.len() {
            self.keyboard_focus = true;
        }
    }

    /// The keyboard left one of this client's surfaces.
    pub fn handle_keyboard_leave(&mut self, id: usize)
        requires
            old(self).wf(),
        ensures
            final(self).wf(),
            final(self).keyboard_focus == (if id < old(self).windows@.len() {
                false
            } else {
                old(self).keyboard_focus
            }),
            final(self).windows == old(self).windows,
            final(self).current == old(self).current,
            final(self).exit == old(self).exit,
            final(self).shift == old(self).shift,
            final(self).seat == old(self).seat,
            final(self).params == old(self).params,
    {
        if id < self.windows.len() {
            self.keyboard_focus = false;
        }
    }

    /// One pointer frame, delivered as a batch of events and handled in
    /// order. Presses on this client's windows toggle the shift marker;
    /// a left or right press on a layer window sets its keyboard
    /// interactivity and obliges a surface command. Nothing else of any
    /// window changes, nothing is drawn, and events for foreign surfaces
    /// are ignored.
    pub fn handle_pointer_frame(&mut self, events: &Vec<PointerEvent>) -> (actions: Vec<
        LayerCommand,
    >)
        requires
            old(self).wf(),
        ensures
            final(self).wf(),
            final(self).windows@.len() == old(self).windows@.len(),
            forall|j: int|
                0 <= j < old(self).windows@.len() ==> final(self).windows@[j] == old(
                    self,
                ).windows@[j].with_interactivity(
                    interactivity_after(events@, j, old(self).windows@[j].interactivity_of()),
                ),
            final(self).shift == shift_after(
                events@,
                old(self).windows@.len() as int,
                old(self).shift,
            ),
            actions@ == layer_commands(events@, old(self).windows@),
            final(self).current == old(self).current,
            final(self).exit == old(self).exit,
            final(self).keyboard_focus == old(self).keyboard_focus,
            final(self).seat == old(self).seat,
            final(self).params == old(self).params,
    {
        let mut actions: Vec<LayerCommand> = Vec::new();
        let mut i: usize = 0;
        proof {
            assert(events@.skip(0) =~= events@);
        }
        while i < events.len()
            invariant
                i <= events@.len(),
                self.windows@.len() == old(self).windows@.len(),
                self.current == old(self).current,
                self.exit == old(self).exit,
                self.keyboard_focus == old(self).keyboard_focus,
                self.seat == old(self).seat,
                self.params == old(self).params,
                self.wf(),
                forall|j: int|
                    0 <= j < self.windows@.len() ==> (#[trigger] self.windows@[j]) == old(
                        self,
                    ).windows@[j].with_interactivity(self.windows@[j].interactivity_of()),
                forall|j: int|
                    0 <= j < self.windows@.len() && (#[trigger] self.windows@[j]).is_layer()
                        ==> interactivity_after(
                        events@.skip(i as int),
                        j,
                        self.windows@[j].interactivity_of(),
                    ) == interactivity_after(
                        events@,
                        j,
                        old(self).windows@[j].interactivity_of(),
                    ),
                shift_after(events@.skip(i as int), self.windows@.len() as int, self.shift)
                    == shift_after(events@, old(self).windows@.len() as int, old(self).shift),
                actions@ + layer_commands(events@.skip(i as int), old(self).windows@)
                    == layer_commands(events@, old(self).windows@),
            decreases events@.len() - i,
        {
            let e = events[i];
            proof {
                assert(events@.skip(i as int).drop_first() =~= events@.skip(i as int + 1));
                assert(events@.skip(i as int)[0] == events@[i as int]);
            }
            if e.window < self.windows.len() {
                match e.kind {
                    PointerEventKind::Press { button } => {
                        self.shift = match self.shift {
                            Some(_) => None,
                            None => Some(0u32),
                        };
                        let newv: Option<KeyboardInteractivity> = if button == BTN_LEFT {
                            Some(KeyboardInteractivity::NotInteractive)
                        } else if button == BTN_RIGHT {
                            Some(KeyboardInteractivity::Exclusive)
                        } else {
                            None
                        };
                        match newv {
                            Some(v) => {
                                let ghost pre = self.windows@[e.window as int];
                                let ghost acts_pre = actions@;
                                let w = &mut self.windows[e.window];
                                match &mut w.kind {
                                    WindowKind::Layer { attrs, .. } => {
                                        attrs.keyboard_interactivity = v;
                                        actions.push(
                                            LayerCommand { window: e.window, interactivity: v },
                                        );
                                    }
                                    WindowKind::Toplevel { .. } => {}
                                }
                                proof {
                                    let j0 = e.window as int;
                                    lemma_with_interactivity_props(pre, v);
                                    lemma_with_interactivity_props(old(self).windows@[j0], v);
                                    lemma_with_interactivity_twice(
                                        old(self).windows@[j0],
                                        pre.interactivity_of(),
                                        v,
                                    );
                                    if pre.is_layer() {
                                        assert(self.windows@[j0] == pre.with_interactivity(v));
                                        assert(acts_pre.push(
                                            LayerCommand { window: e.window, interactivity: v },
                                        ) =~= acts_pre + seq![
                                            LayerCommand { window: e.window, interactivity: v },
                                        ]);
                                        assert((acts_pre + seq![
                                            LayerCommand { window: e.window, interactivity: v },
                                        ]) + layer_commands(
                                            events@.skip(i as int + 1),
                                            old(self).windows@,
                                        ) =~= acts_pre + (seq![
                                            LayerCommand { window: e.window, interactivity: v },
                                        ] + layer_commands(
                                            events@.skip(i as int + 1),
                                            old(self).windows@,
                                        )));
                                    } else {
                                        assert(self.windows@[j0] == pre);
                                    }
                                    assert forall|j: int|
                                        0 <= j < self.windows@.len() implies (#[trigger] self
                                        .windows@[j]) == old(self).windows@[j].with_interactivity(
                                        self.windows@[j].interactivity_of(),
                                    ) && self.windows@[j].wf() && self.windows@[j].id == j by {
                                        lemma_with_interactivity_props(pre, v);
                                        lemma_with_interactivity_twice(
                                            old(self).windows@[j0],
                                            pre.interactivity_of(),
                                            v,
                                        );
                                        lemma_with_interactivity_props(
                                            old(self).windows@[j],
                                            self.windows@[j].interactivity_of(),
                                        );
                                    }
                                }
                            }
                            None => {}
                        }
                    }
                    _ => {}
                }
            }
            i = i + 1;
        }
        proof {
            assert(events@.skip(events@.len() as int) =~= Seq::<PointerEvent>::empty());
            assert forall|j: int| 0 <= j < old(self).windows@.len() implies (#[trigger] self
                .windows@[j]) == old(self).windows@[j].with_interactivity(
                interactivity_after(events@, j, old(self).windows@[j].interactivity_of()),
            ) by {
                lemma_with_interactivity_self(old(self).windows@[j]);
                lemma_with_interactivity_props(
                    old(self).windows@[j],
                    interactivity_after(events@, j, old(self).windows@[j].interactivity_of()),
                );
                lemma_with_interactivity_props(
                    old(self).windows@[j],
                    self.windows@[j].interactivity_of(),
                );
            }
        }
        actions
    }

    /// A configure event, already routed by identity to window `id`,
    /// reporting a (possibly zero) size. The window's working size becomes
    /// the effective size; a zero-area report is never taken literally.
    ///
    /// With no context bound yet — a layer surface before its first
    /// configure — the caller is told to bind one at the effective size.
    /// With a context bound, the presentation target is resized (the canvas
    /// survives exactly when the pixel size did not change) and one draw
    /// for this window, and only this window, is produced; every other
    /// window is left untouched, and a layer's positioning attributes
    /// survive the resize.
    pub fn handle_configure(&mut self, id: usize, reported: Size) -> (r: Option<ConfigureAction>)
        requires
            old(self).wf(),
        ensures
            final(self).wf(),
            id >= old(self).windows@.len() ==> r is None && *final(self) == *old(self),
            id < old(self).windows@.len() ==> ({
                let esize = effective_spec(reported);
                let w_old = old(self).windows@[id as int];
                let w_new = final(self).windows@[id as int];
                &&& final(self).windows@.len() == old(self).windows@.len()
                &&& forall|j: int|
                    0 <= j < old(self).windows@.len() && j != id ==> final(self).windows@[j]
                        == old(self).windows@[j]
                &&& w_new.size == esize
                &&& w_new.configured
                &&& w_new.id == w_old.id
                &&& w_new.kind == w_old.kind
                &&& final(self).exit == old(self).exit
                &&& final(self).keyboard_focus == old(self).keyboard_focus
                &&& final(self).shift == old(self).shift
                &&& final(self).seat == old(self).seat
                &&& final(self).params == old(self).params
                &&& (w_old.context is None ==> {
                    &&& r == Some(ConfigureAction::BindContext { size: esize })
                    &&& w_new.context is None
                    &&& final(self).current == old(self).current
                })
                &&& (w_old.context matches Some(c_old) ==> {
                    &&& w_new.context matches Some(c_new) && {
                        &&& c_new.profile == c_old.profile
                        &&& c_new.sample_count == c_old.sample_count
                        &&& c_new.stencil_bits == c_old.stencil_bits
                        &&& c_new.target == esize
                        &&& r matches Some(ConfigureAction::Draw { plan, canvas }) && {
                            &&& plan.window == id
                            &&& plan.canvas == c_new.canvas
                            &&& plan.steps@ == frame_steps(old(self).params, esize)
                            &&& (canvas == CanvasFate::Kept <==> esize == w_old.size)
                            &&& (canvas == CanvasFate::Kept ==> c_new == c_old)
                        }
                    }
                    &&& final(self).current == Some(id)
                })
            }),
    {
        if id >= self.windows.len() {
            return None;
        }
        let esize = effective_size(reported);
        let w = &mut self.windows[id];
        w.size = esize;
        w.configured = true;
        match &mut w.context {
            None => Some(ConfigureAction::BindContext { size: esize }),
            Some(c) => {
                let fate = c.resize(esize);
                let canvas = c.canvas;
                let steps = build_frame(self.params, esize);
                self.current = Some(id);
                Some(
                    ConfigureAction::Draw {
                        plan: DrawPlan { window: id, canvas, steps },
                        canvas: fate,
                    },
                )
            }
        }
    }

    /// A frame callback (or the first draw right after a layer's context
    /// was attached): draws the window as it stands. No window state
    /// changes; the window's context becomes the thread's current one. A
    /// window without a context, or a foreign identity, draws nothing.
    pub fn handle_frame(&mut self, id: usize) -> (r: Option<DrawPlan>)
        requires
            old(self).wf(),
        ensures
            final(self).wf(),
            id >= old(self).windows@.len() || old(self).windows@[id as int].context is None ==> r
                is None && *final(self) == *old(self),
            id < old(self).windows@.len() && old(self).windows@[id as int].context is Some ==> {
                &&& final(self).windows == old(self).windows
                &&& final(self).current == Some(id)
                &&& final(self).exit == old(self).exit
                &&& final(self).keyboard_focus == old(self).keyboard_focus
                &&& final(self).shift == old(self).shift
                &&& final(self).seat == old(self).seat
                &&& final(self).params == old(self).params
                &&& r matches Some(plan) && {
                    &&& plan.window == id
                    &&& plan.canvas == old(self).windows@[id as int].context.unwrap().canvas
                    &&& plan.steps@ == frame_steps(
                        old(self).params,
                        old(self).windows@[id as int].size,
                    )
                }
            },
    {
        if id >= self.windows.len() {
            return None;
        }
        let size = self.windows[id].size;
        match &self.windows[id].context {
            None => None,
            Some(c) => {
                let canvas = c.canvas;
                let steps = build_frame(self.params, size);
                self.current = Some(id);
                Some(DrawPlan { window: id, canvas, steps })
            }
        }
    }

    /// Whether the dispatch loop should run another iteration; the loop
    /// checks this once per iteration boundary.
    pub fn should_continue(&self) -> (b: bool)
        ensures
            b == !self.exit,
    {
        !self.exit
    }
}

/// The single-thread context discipline, stated over the coordinator: at
/// most one window's context is current on the dispatch thread at any
/// instant, and only a window that actually holds a context can be the
/// current one.
pub proof fn lemma_single_current(s: Shell)
    requires
        s.wf(),
    ensures
        forall|i: usize, j: usize| s.current == Some(i) && s.current == Some(j) ==> i == j,
        s.current matches Some(w) ==> w < s.windows@.len() && s.windows@[w as int].context
            is Some,
{
}

} // verus!
