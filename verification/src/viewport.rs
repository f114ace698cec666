//! The viewport controller: from the host's events to what the graphics layer
//! has to do next.

use vstd::prelude::*;
use image::DynamicImage;
use image::ImageError;
use std::path::PathBuf;
use crate::camera::Camera;
use crate::decode::{decode_error_kind, rgba8_size, DecodeError};
use crate::picture::{image_scale_of, size_error, DecodedImage, PixelError, MAX_IMAGE_WIDTH};
use crate::ratio::Ratio;
use crate::renderer::{Frame, FramePlan, IrisRenderer, RendererView, TextureUpload};
use crate::target::{lemma_target_layout_fits, OutputTarget, MAX_TARGET_WIDTH};

verus! {

/// A path on the host's file system; carried, never read.
#[verifier::external_type_specification]
#[verifier::external_body]
pub struct ExPathBuf(std::path::PathBuf);

/// Where the controller stands.
#[derive(Clone, Copy, Debug, PartialEq, Eq, Structural)]
pub enum ViewportState {
    /// No graphics context yet.
    Uninitialized,
    /// The context is there, no picture is.
    Ready,
    /// A picture is installed and drawn at every tick.
    Displaying,
}

/// A decode to start off the rendering thread: the file, and the token to
/// hand back with its result.
#[derive(Debug, PartialEq, Eq)]
pub struct DecodeRequest {
    pub token: u64,
    pub path: PathBuf,
}

/// What became of a decode that came back.
#[derive(Debug, PartialEq, Eq)]
pub enum LoadOutcome {
    /// The picture is shown from now on; its texture is to be filled as told.
    Installed(TextureUpload),
    /// A later load was requested meanwhile: the result was dropped.
    Stale,
    /// The decoder failed: the picture shown before stays.
    Failed(DecodeError),
    /// The decoder's picture cannot fill a texture: the picture shown before stays.
    Rejected(PixelError),
    /// There is no graphics context to upload to: the result was dropped.
    NotReady,
}

/// What a tick asks of the graphics layer.
#[derive(Clone, Copy, Debug, PartialEq, Eq, Structural)]
pub enum TickAction {
    /// Nothing: there is no graphics context yet.
    Idle,
    /// Allocate the target anew where one is given, then draw, read back and
    /// present one frame.
    Render { allocation: Option<OutputTarget>, plan: FramePlan },
}

/// The size a tick reports, in pixels: none where the host reports less than none.
pub open spec fn tick_size(reported: i32) -> u32 {
    if reported < 0 {
        0
    } else {
        reported as u32
    }
}

/// A tick that reports `width` by `height` reports a size that has pixels.
pub open spec fn tick_has_pixels(width: i32, height: i32) -> bool {
    width > 0 && height > 0
}

/// What the controller keeps.
pub struct ViewportView {
    /// The camera's aspect ratio.
    pub aspect: Ratio,
    /// The renderer, once there is a graphics context.
    pub renderer: Option<RendererView>,
    /// A picture was installed.
    pub displaying: bool,
    /// Loads requested so far; the last one carries this number as its token.
    pub issued: u64,
}

impl ViewportView {
    /// The renderer is well formed, the camera looks through its target, and
    /// a picture is shown only by a renderer.
    pub open spec fn wf(self) -> bool {
        &&& self.aspect.wf()
        &&& match self.renderer {
            Some(r) => r.wf() && self.aspect == (Ratio { num: r.target.width, den: r.target.height }),
            None => !self.displaying && self.aspect == Ratio::spec_one(),
        }
    }

    /// Where the controller stands.
    pub open spec fn state(self) -> ViewportState {
        if self.renderer is None {
            ViewportState::Uninitialized
        } else if self.displaying {
            ViewportState::Displaying
        } else {
            ViewportState::Ready
        }
    }

    /// A controller that was just made.
    pub open spec fn initial() -> ViewportView {
        ViewportView { aspect: Ratio::spec_one(), renderer: None, displaying: false, issued: 0 }
    }

    /// The controller after the graphics context came up: a renderer with a
    /// target of one pixel, unless there was a renderer already.
    pub open spec fn with_context(self) -> ViewportView {
        if self.renderer is None {
            ViewportView { renderer: Some(RendererView::initial(1, 1)), ..self }
        } else {
            self
        }
    }

    /// The target that the graphics layer allocates when the context comes up.
    pub open spec fn context_allocation(self) -> Option<OutputTarget> {
        if self.renderer is None {
            Some(RendererView::initial(1, 1).target)
        } else {
            None
        }
    }

    /// The controller after one more load was requested.
    pub open spec fn requested(self) -> ViewportView {
        ViewportView { issued: (self.issued + 1) as u64, ..self }
    }

    /// `token` is that of the last load requested.
    pub open spec fn is_current(self, token: u64) -> bool {
        token != 0 && token == self.issued
    }

    /// A decode that comes back under `token` with a picture of size `dims`,
    /// or with none, is installed.
    pub open spec fn installs(self, token: u64, dims: Option<(u32, u32)>) -> bool {
        self.is_current(token) && dims is Some && self.renderer is Some
    }

    /// The controller after a decode came back under `token` with a picture of
    /// size `dims`, or with none.
    pub open spec fn loaded(self, token: u64, dims: Option<(u32, u32)>) -> ViewportView {
        if self.installs(token, dims) {
            ViewportView {
                renderer: Some(self.renderer.unwrap().with_image(dims.unwrap().0, dims.unwrap().1)),
                displaying: true,
                ..self
            }
        } else {
            self
        }
    }

    /// The controller after a tick that reports `width` by `height` pixels:
    /// target and camera follow a size that has pixels and is not the
    /// target's; any other size is ignored.
    pub open spec fn ticked(self, width: i32, height: i32) -> ViewportView {
        match self.renderer {
            Some(r) => {
                let w = tick_size(width);
                let h = tick_size(height);
                if r.accepts_resize(w, h) {
                    ViewportView {
                        renderer: Some(r.resized(w, h)),
                        aspect: Ratio { num: w, den: h },
                        ..self
                    }
                } else {
                    self
                }
            },
            None => self,
        }
    }

    /// What a tick that reports `width` by `height` pixels asks of the
    /// graphics layer: a frame, drawn into the target as the tick leaves it.
    pub open spec fn tick_action(self, width: i32, height: i32) -> TickAction {
        match self.renderer {
            Some(r) => {
                let after = self.ticked(width, height);
                TickAction::Render {
                    allocation: r.reallocation(tick_size(width), tick_size(height)),
                    plan: after.renderer.unwrap().frame_plan(after.aspect),
                }
            },
            None => TickAction::Idle,
        }
    }
}

impl ViewportView {
    /// The picture shown is one of `dims.0` by `dims.1` pixels.
    pub open spec fn shows(self, dims: (u32, u32)) -> bool {
        &&& self.displaying
        &&& self.renderer matches Some(r)
        &&& r.image_dims == dims
    }

    /// A tick draws a frame whose quad has the scale of a picture of `dims.0`
    /// by `dims.1` pixels.
    pub open spec fn draws(self, width: i32, height: i32, dims: (u32, u32)) -> bool {
        &&& self.tick_action(width, height) matches TickAction::Render { plan, .. }
        &&& plan.image_scale == image_scale_of(dims.0, dims.1)
    }
}

/// The controller starts without a context; the context makes it ready; a
/// picture installed makes it display; ticks and requests leave it where it
/// stands; and a tick before the context came up does nothing.
pub proof fn lemma_state_machine(
    v: ViewportView,
    token: u64,
    dims: Option<(u32, u32)>,
    width: i32,
    height: i32,
)
    requires
        v.wf(),
    ensures
        ViewportView::initial().state() == ViewportState::Uninitialized,
        v.state() == ViewportState::Uninitialized ==> v.with_context().state()
            == ViewportState::Ready,
        v.state() != ViewportState::Uninitialized ==> v.with_context() == v,
        v.installs(token, dims) ==> v.loaded(token, dims).state() == ViewportState::Displaying,
        !v.installs(token, dims) ==> v.loaded(token, dims) == v,
        v.requested().state() == v.state(),
        v.ticked(width, height).state() == v.state(),
        v.state() == ViewportState::Uninitialized ==> v.ticked(width, height) == v
            && v.tick_action(width, height) == TickAction::Idle,
        v.state() != ViewportState::Uninitialized ==> v.tick_action(width, height) is Render,
{
}

/// Every step keeps the controller well formed, as long as the picture is one
/// that a texture can hold and the tick's width, where the tick resizes the
/// target, is one that a target can have.
pub proof fn lemma_steps_keep_wf(
    v: ViewportView,
    token: u64,
    image_width: u32,
    image_height: u32,
    width: i32,
    height: i32,
)
    requires
        v.wf(),
    ensures
        ViewportView::initial().wf(),
        v.with_context().wf(),
        v.requested().wf(),
        v.loaded(token, None).wf(),
        0 < image_width <= MAX_IMAGE_WIDTH && 0 < image_height ==> v.loaded(
            token,
            Some((image_width, image_height)),
        ).wf(),
        (v.renderer is Some && tick_has_pixels(width, height) ==> width <= MAX_TARGET_WIDTH)
            ==> v.ticked(width, height).wf(),
{
    lemma_target_layout_fits(1, 1);
    if tick_has_pixels(width, height) && width <= MAX_TARGET_WIDTH {
        lemma_target_layout_fits(tick_size(width), tick_size(height));
    }
}

/// A tick that reports a size without pixels is ignored: target and camera
/// stay, nothing is allocated, and the frame is drawn into the target as it was.
pub proof fn lemma_tick_without_pixels_is_ignored(v: ViewportView, width: i32, height: i32)
    requires
        width <= 0 || height <= 0,
    ensures
        v.ticked(width, height) == v,
        v.renderer matches Some(r) ==> v.tick_action(width, height) == (TickAction::Render {
            allocation: None,
            plan: r.frame_plan(v.aspect),
        }),
        v.renderer is None ==> v.tick_action(width, height) == TickAction::Idle,
{
}

/// While a decode is under way the picture shown before is drawn: a request
/// changes nothing of what a tick asks for. And whatever size a tick
/// reports, the picture stays: only its target changes.
pub proof fn lemma_pending_load_draws_the_picture_shown(v: ViewportView, width: i32, height: i32)
    requires
        v.renderer is Some,
    ensures
        v.requested().renderer == v.renderer,
        v.requested().tick_action(width, height) == v.tick_action(width, height),
        v.ticked(width, height).renderer.unwrap().image_dims == v.renderer.unwrap().image_dims,
        v.draws(width, height, v.renderer.unwrap().image_dims),
{
}

/// Picture `a` is requested, then picture `b`, and their decodes come back in
/// that order, `a` before or after `b` was requested. Then `b` is the picture
/// shown, and every later tick draws with the scale of `b`.
pub proof fn lemma_latest_load_wins(
    v: ViewportView,
    a: (u32, u32),
    b: (u32, u32),
    width: i32,
    height: i32,
)
    requires
        v.renderer is Some,
        v.issued + 2 <= u64::MAX,
    ensures
        ({
            let first = (v.issued + 1) as u64;
            let second = (v.issued + 2) as u64;
            let one_by_one = v.requested().loaded(first, Some(a)).requested().loaded(
                second,
                Some(b),
            );
            let both_pending = v.requested().requested().loaded(first, Some(a)).loaded(
                second,
                Some(b),
            );
            &&& one_by_one.shows(b)
            &&& one_by_one.draws(width, height, b)
            &&& both_pending.shows(b)
            &&& both_pending.draws(width, height, b)
        }),
{
}

/// Picture `a` is requested, then picture `b`, and the decode of `a` comes
/// back last. It is dropped: `b` stays the picture shown.
pub proof fn lemma_stale_decode_is_dropped(
    v: ViewportView,
    a: (u32, u32),
    b: (u32, u32),
    width: i32,
    height: i32,
)
    requires
        v.renderer is Some,
        v.issued + 2 <= u64::MAX,
    ensures
        ({
            let first = (v.issued + 1) as u64;
            let second = (v.issued + 2) as u64;
            let after_b = v.requested().requested().loaded(second, Some(b));
            &&& after_b.shows(b)
            &&& after_b.loaded(first, Some(a)) == after_b
            &&& after_b.loaded(first, Some(a)).draws(width, height, b)
        }),
{
}

/// A decode that failed changes nothing: the picture shown before, if any,
/// is still shown, and a tick asks for the very frame it would have asked for.
pub proof fn lemma_failed_decode_changes_nothing(
    v: ViewportView,
    token: u64,
    width: i32,
    height: i32,
)
    ensures
        v.loaded(token, None) == v,
        v.loaded(token, None).tick_action(width, height) == v.tick_action(width, height),
        v.renderer is Some ==> v.loaded(token, None).tick_action(width, height) is Render,
{
}

/// The viewport controller.
#[derive(Debug)]
pub struct Viewport {
    camera: Camera,
    renderer: Option<IrisRenderer>,
    displaying: bool,
    issued: u64,
}

impl View for Viewport {
    type V = ViewportView;

    closed spec fn view(&self) -> ViewportView {
        ViewportView {
            aspect: self.camera.aspect(),
            renderer: match self.renderer {
                Some(r) => Some(r@),
                None => None,
            },
            displaying: self.displaying,
            issued: self.issued,
        }
    }
}

impl Viewport {
    #[verifier::type_invariant]
    spec fn inv(self) -> bool {
        self@.wf()
    }

    /// A controller without a graphics context.
    pub fn new() -> (viewport: Viewport)
        ensures
            viewport@ == ViewportView::initial(),
            viewport@.wf(),
    {
        Viewport { camera: Camera::new(), renderer: None, displaying: false, issued: 0 }
    }

    /// Where the controller stands.
    pub fn state(&self) -> (state: ViewportState)
        ensures
            state == self@.state(),
    {
        if self.renderer.is_none() {
            ViewportState::Uninitialized
        } else if self.displaying {
            ViewportState::Displaying
        } else {
            ViewportState::Ready
        }
    }

    /// The camera.
    pub fn camera(&self) -> (camera: Camera)
        ensures
            camera.aspect() == self@.aspect,
            self@.wf(),
    {
        proof {
            use_type_invariant(self);
        }
        self.camera
    }

    /// The renderer, once there is a graphics context.
    pub fn renderer(&self) -> (renderer: Option<IrisRenderer>)
        ensures
            renderer is Some <==> self@.renderer is Some,
            renderer matches Some(r) ==> self@.renderer == Some(r@),
            self@.wf(),
    {
        proof {
            use_type_invariant(self);
        }
        self.renderer
    }

    /// Loads requested so far.
    pub fn loads_issued(&self) -> (issued: u64)
        ensures
            issued == self@.issued,
    {
        self.issued
    }

    /// The graphics context came up. The first time a renderer is made, with a
    /// target of one pixel that is returned for allocation; later calls
    /// change nothing.
    pub fn context_ready(&mut self) -> (allocation: Option<OutputTarget>)
        ensures
            final(self)@ == old(self)@.with_context(),
            allocation == old(self)@.context_allocation(),
            final(self)@.wf(),
    {
        proof {
            use_type_invariant(&*self);
        }
        if self.renderer.is_none() {
            let renderer = IrisRenderer::new(1, 1);
            let target = renderer.target();
            *self = Viewport {
                camera: self.camera,
                renderer: Some(renderer),
                displaying: self.displaying,
                issued: self.issued,
            };
            Some(target)
        } else {
            None
        }
    }

    /// Requests the picture at `path`: its decode is to be started, and its
    /// result handed back under the token returned. Every earlier token is
    /// stale from now on.
    pub fn load_image(&mut self, path: PathBuf) -> (request: DecodeRequest)
        requires
            old(self)@.issued < u64::MAX,
        ensures
            final(self)@ == old(self)@.requested(),
            request.token == old(self)@.issued + 1,
            request.path == path,
            final(self)@.is_current(request.token),
            final(self)@.wf(),
    {
        proof {
            use_type_invariant(&*self);
        }
        let token: u64 = self.issued + 1;
        *self = Viewport {
            camera: self.camera,
            renderer: self.renderer,
            displaying: self.displaying,
            issued: token,
        };
        DecodeRequest { token, path }
    }

    /// A decode came back under `token`. The picture of the last load
    /// requested is installed, if there is a renderer; a failed decode and
    /// the result of an earlier request change nothing.
    pub fn complete_load(&mut self, token: u64, decoded: Result<DecodedImage, DecodeError>) -> (outcome:
        LoadOutcome)
        ensures
            final(self)@ == old(self)@.loaded(token, decoded_dims(decoded)),
            final(self)@.wf(),
            match outcome {
                LoadOutcome::Stale => !old(self)@.is_current(token),
                LoadOutcome::Failed(reason) => old(self)@.is_current(token) && decoded == Err::<
                    DecodedImage,
                    DecodeError,
                >(reason),
                LoadOutcome::NotReady => {
                    &&& old(self)@.is_current(token)
                    &&& decoded is Ok
                    &&& old(self)@.renderer is None
                },
                LoadOutcome::Installed(upload) => {
                    &&& old(self)@.is_current(token)
                    &&& old(self)@.renderer is Some
                    &&& decoded matches Ok(image)
                    &&& upload.carries(image@)
                    &&& upload.is_tight()
                },
                LoadOutcome::Rejected(_) => false,
            },
    {
        proof {
            use_type_invariant(&*self);
        }
        if token == 0 || token != self.issued {
            return LoadOutcome::Stale;
        }
        match decoded {
            Err(reason) => LoadOutcome::Failed(reason),
            Ok(image) => match self.renderer {
                None => LoadOutcome::NotReady,
                Some(mut renderer) => {
                    let upload = renderer.install_image(image);
                    *self = Viewport {
                        camera: self.camera,
                        renderer: Some(renderer),
                        displaying: true,
                        issued: self.issued,
                    };
                    LoadOutcome::Installed(upload)
                },
            },
        }
    }

    /// A decode came back under `token`, as the decoder gives it. What
    /// `complete_load` would drop is dropped without a look at the picture;
    /// else the picture is converted to RGBA8 and handed to `complete_load`,
    /// unless it has no pixels or is too wide: then it is rejected and nothing
    /// changes.
    pub fn finish_load(&mut self, token: u64, decoded: Result<DynamicImage, ImageError>) -> (outcome:
        LoadOutcome)
        ensures
            final(self)@ == old(self)@.loaded(token, accepted_size(decoded)),
            final(self)@.wf(),
            match outcome {
                LoadOutcome::Stale => !old(self)@.is_current(token),
                LoadOutcome::Failed(_) => old(self)@.is_current(token) && decoded is Err,
                LoadOutcome::NotReady => {
                    &&& old(self)@.is_current(token)
                    &&& decoded is Ok
                    &&& old(self)@.renderer is None
                },
                LoadOutcome::Rejected(reason) => {
                    &&& old(self)@.is_current(token)
                    &&& old(self)@.renderer is Some
                    &&& decoded matches Ok(img)
                    &&& size_error(rgba8_size(img).0, rgba8_size(img).1) == Some(reason)
                },
                LoadOutcome::Installed(upload) => {
                    &&& old(self)@.is_current(token)
                    &&& old(self)@.renderer is Some
                    &&& decoded matches Ok(img)
                    &&& size_error(rgba8_size(img).0, rgba8_size(img).1) is None
                    &&& upload.width == rgba8_size(img).0
                    &&& upload.height == rgba8_size(img).1
                    &&& upload.is_tight()
                },
            },
    {
        proof {
            use_type_invariant(&*self);
        }
        if token == 0 || token != self.issued {
            return LoadOutcome::Stale;
        }
        match decoded {
            Err(error) => self.complete_load(token, Err(decode_error_kind(&error))),
            Ok(img) => {
                if self.renderer.is_none() {
                    return LoadOutcome::NotReady;
                }
                match DecodedImage::from_image(&img) {
                    Ok(image) => self.complete_load(token, Ok(image)),
                    Err(reason) => LoadOutcome::Rejected(reason),
                }
            },
        }
    }

    /// The host's tick, with the size of the display surface. Without a
    /// graphics context nothing happens. With one, a size that has pixels and
    /// differs from the target's resizes the renderer and the camera, and any
    /// other size is ignored; then a frame is drawn.
    pub fn on_tick(&mut self, width: i32, height: i32) -> (action: TickAction)
        requires
            old(self)@.renderer is Some && tick_has_pixels(width, height) ==> width
                <= MAX_TARGET_WIDTH,
        ensures
            final(self)@ == old(self)@.ticked(width, height),
            action == old(self)@.tick_action(width, height),
            final(self)@.wf(),
    {
        proof {
            use_type_invariant(&*self);
        }
        match self.renderer {
            None => TickAction::Idle,
            Some(mut renderer) => {
                let current_width: u32 = if width < 0 { 0 } else { width as u32 };
                let current_height: u32 = if height < 0 { 0 } else { height as u32 };
                let mut camera = self.camera;
                let allocation = renderer.resize(current_width, current_height);
                if allocation.is_some() {
                    camera.set_viewport_size(current_width, current_height);
                }
                let plan = renderer.render(&camera);
                *self = Viewport {
                    camera,
                    renderer: Some(renderer),
                    displaying: self.displaying,
                    issued: self.issued,
                };
                TickAction::Render { allocation, plan }
            },
        }
    }

    /// The frame to present: `bytes` as read back from the target's buffer.
    /// `None` without a renderer, and where `bytes` are not the whole buffer.
    pub fn present(&self, bytes: Vec<u8>) -> (frame: Option<Frame>)
        ensures
            frame is Some <==> (self@.renderer matches Some(r) && bytes@.len()
                == r.target.buffer_size),
            frame matches Some(f) ==> self@.renderer matches Some(r) && f.shows(r.target, bytes@),
    {
        match self.renderer {
            Some(renderer) => renderer.frame(bytes),
            None => None,
        }
    }
}

/// The size of the decoder's picture, where the decoder gave one that a
/// texture can hold.
pub open spec fn accepted_size(decoded: Result<DynamicImage, ImageError>) -> Option<(u32, u32)> {
    match decoded {
        Ok(img) => if size_error(rgba8_size(img).0, rgba8_size(img).1) is None {
            Some(rgba8_size(img))
        } else {
            None
        },
        Err(_) => None,
    }
}

/// The size of the picture that a decode gave, if it gave one.
pub open spec fn decoded_dims(decoded: Result<DecodedImage, DecodeError>) -> Option<(u32, u32)> {
    match decoded {
        Ok(image) => Some((image@.width, image@.height)),
        Err(_) => None,
    }
}

} // verus!
