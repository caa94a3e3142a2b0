//! The top-level viewer session.
//!
//! The viewer owns the camera, the current cursor, the focus point of the
//! active gesture (if one is active), the current model, the draw
//! toggles and the screen size. It routes input to the camera, swaps the
//! model in wholesale, and derives the per-frame data for the renderer.
//!
//! The gating invariant of the session: camera motion never happens
//! outside an active gesture. An input event is forwarded only while a
//! focus point is stored.

use vstd::prelude::*;
use crate::camera::{Camera, CamV, FocusPoint, sinit_offset, snear_after, sfar_after};
use crate::geometry::st_translation;
use crate::focus::sfocus_point;
use crate::geometry::V3;
use crate::graphics::{
    DrawConfig, Frame, normal_transform, vertex_transform, snormal_transform,
    svertex_transform,
};
use crate::input::{InputEvent, InputHandler, shandle_event};
use crate::scene::{Aabb, AabbV, Model, ModelV};
use crate::screen::{NormalizedScreenPosition, ScreenSize};

verus! {

/// Ghost model of the viewer state.
pub ghost struct ViewerV {
    pub camera: CamV,
    pub cursor: Option<NormalizedScreenPosition>,
    pub draw_config: DrawConfig,
    pub focus_point: Option<V3>,
    pub model: Option<ModelV>,
    pub size: ScreenSize,
}

/// The model viewer session.
pub struct Viewer {
    /// The camera.
    pub camera: Camera,
    /// The cursor, while it is over the screen.
    pub cursor: Option<NormalizedScreenPosition>,
    /// Which geometry passes are drawn.
    pub draw_config: DrawConfig,
    /// The pivot of the active gesture, while one is active.
    pub focus_point: Option<FocusPoint>,
    /// The model being viewed, once one was supplied.
    pub model: Option<Model>,
    /// The current screen size.
    pub size: ScreenSize,
}

impl View for Viewer {
    type V = ViewerV;

    open spec fn view(&self) -> ViewerV {
        ViewerV {
            camera: self.camera@,
            cursor: self.cursor,
            draw_config: self.draw_config,
            focus_point: match self.focus_point {
                Some(f) => Some(f.0@),
                None => None,
            },
            model: match self.model {
                Some(m) => Some(m@),
                None => None,
            },
            size: self.size,
        }
    }
}

/// The state after a gesture start: if a model is present and no focus
/// point is stored yet, the cursor is resolved against the model and the
/// result stored; otherwise nothing changes.
pub open spec fn sadd_focus(v: ViewerV) -> ViewerV {
    match v.model {
        Some(m) => match v.focus_point {
            Some(f) => v,
            None => ViewerV {
                focus_point: Some(sfocus_point(v.camera, v.cursor, m.mesh, m.aabb)),
                ..v
            },
        },
        None => v,
    }
}

/// The state after an input event: the camera moves only while a focus
/// point is stored; otherwise the event is dropped and nothing changes.
pub open spec fn shandle_viewer_event(v: ViewerV, ev: InputEvent) -> ViewerV {
    match v.focus_point {
        Some(fp) => ViewerV { camera: shandle_event(v.camera, ev, fp), ..v },
        None => v,
    }
}

/// The state after a model update: the model is replaced wholesale, and
/// only the first model ever set frames the camera.
pub open spec fn smodel_update(v: ViewerV, m: ModelV) -> ViewerV {
    ViewerV {
        model: Some(m),
        camera: match v.model {
            Some(old_m) => v.camera,
            None => CamV {
                rotation: v.camera.rotation,
                translation: st_translation(sinit_offset(m.aabb)),
                near: v.camera.near,
                far: v.camera.far,
            },
        },
        ..v
    }
}

/// The bounding box a frame is fitted to: the model's, or a degenerate
/// box at the origin while no model is set.
pub open spec fn sdraw_aabb(v: ViewerV) -> AabbV {
    match v.model {
        Some(m) => m.aabb,
        None => AabbV { min: crate::geometry::sv_zero(), max: crate::geometry::sv_zero() },
    }
}

/// The camera after the per-frame plane refresh.
pub open spec fn sdraw_camera(v: ViewerV) -> CamV {
    CamV {
        rotation: v.camera.rotation,
        translation: v.camera.translation,
        near: snear_after(v.camera, sdraw_aabb(v)),
        far: sfar_after(v.camera, sdraw_aabb(v)),
    }
}

/// Starting a gesture is idempotent: a second gesture start without an
/// intervening gesture end finds a focus point already stored and leaves
/// the whole state, the stored focus point included, as it was.
pub proof fn lemma_add_focus_idempotent(v: ViewerV)
    ensures
        sadd_focus(sadd_focus(v)) == sadd_focus(v),
{
}

/// Without a stored focus point no input event moves the camera: the
/// event is dropped and the state is unchanged.
pub proof fn lemma_no_focus_no_motion(v: ViewerV, ev: InputEvent)
    requires
        v.focus_point is None,
    ensures
        shandle_viewer_event(v, ev) == v,
{
}

impl Viewer {
    pub open spec fn wf(&self) -> bool {
        &&& self.camera.wf()
        &&& match self.cursor {
            Some(c) => c.wf(),
            None => true,
        }
        &&& match self.focus_point {
            Some(f) => f.wf(),
            None => true,
        }
        &&& match &self.model {
            Some(m) => m.wf(),
            None => true,
        }
    }

    /// Construct a new viewer for a screen of the given size, with the
    /// default camera and draw toggles, no cursor, no focus point and no
    /// model.
    pub fn new(size: ScreenSize) -> (r: Viewer)
        ensures
            r@.camera == crate::camera::scam_default(),
            (r@.cursor is None),
            (r@.draw_config == DrawConfig { draw_model: true, draw_mesh: false }),
            (r@.focus_point is None),
            (r@.model is None),
            r@.size == size,
            r.wf(),
    {
        Viewer {
            camera: Camera::new(),
            cursor: None,
            draw_config: DrawConfig { draw_model: true, draw_mesh: false },
            focus_point: None,
            model: None,
            size,
        }
    }

    /// Access the cursor.
    pub fn cursor(&mut self) -> (r: &mut Option<NormalizedScreenPosition>)
        ensures
            *r == old(self).cursor,
            final(self).cursor == *final(r),
            final(self).camera == old(self).camera,
            final(self).draw_config == old(self).draw_config,
            final(self).focus_point == old(self).focus_point,
            final(self).model == old(self).model,
            final(self).size == old(self).size,
    {
        &mut self.cursor
    }

    /// Toggle the "draw model" setting.
    pub fn toggle_draw_model(&mut self)
        ensures
            final(self).draw_config.draw_model == !old(self).draw_config.draw_model,
            final(self).draw_config.draw_mesh == old(self).draw_config.draw_mesh,
            final(self).camera == old(self).camera,
            final(self).cursor == old(self).cursor,
            final(self).focus_point == old(self).focus_point,
            final(self).model == old(self).model,
            final(self).size == old(self).size,
            old(self).wf() ==> final(self).wf(),
    {
        self.draw_config.draw_model = !self.draw_config.draw_model;
    }

    /// Toggle the "draw mesh" setting.
    pub fn toggle_draw_mesh(&mut self)
        ensures
            final(self).draw_config.draw_mesh == !old(self).draw_config.draw_mesh,
            final(self).draw_config.draw_model == old(self).draw_config.draw_model,
            final(self).camera == old(self).camera,
            final(self).cursor == old(self).cursor,
            final(self).focus_point == old(self).focus_point,
            final(self).model == old(self).model,
            final(self).size == old(self).size,
            old(self).wf() ==> final(self).wf(),
    {
        self.draw_config.draw_mesh = !self.draw_config.draw_mesh;
    }

    /// Handle the model being updated: the model is replaced, and if it
    /// is the first model ever set the camera is framed to it once.
    pub fn handle_model_update(&mut self, model: Model)
        requires
            old(self).wf(),
            model.wf(),
        ensures
            final(self)@ == smodel_update(old(self)@, model@),
            final(self).wf(),
    {
        let first = self.model.is_none();
        if first {
            self.camera.init_planes(&model.aabb);
        }
        self.model = Some(model);
    }

    /// Handle an input event: forwarded to the input handler only while
    /// a focus point is stored, so camera motion never happens outside
    /// an active gesture.
    pub fn handle_input_event(&mut self, event: InputEvent)
        requires
            old(self).wf(),
            event.wf(),
        ensures
            final(self)@ == shandle_viewer_event(old(self)@, event),
            old(self).focus_point is None ==> *final(self) == *old(self),
            final(self).wf(),
    {
        match self.focus_point {
            Some(focus_point) => {
                InputHandler::handle_event(event, focus_point, &mut self.camera);
            },
            None => {},
        }
    }

    /// Handle the screen being resized.
    pub fn handle_screen_resize(&mut self, size: ScreenSize)
        ensures
            final(self).size == size,
            final(self).camera == old(self).camera,
            final(self).cursor == old(self).cursor,
            final(self).draw_config == old(self).draw_config,
            final(self).focus_point == old(self).focus_point,
            final(self).model == old(self).model,
            old(self).wf() ==> final(self).wf(),
    {
        self.size = size;
    }

    /// Compute and store a focus point, unless one is already stored.
    ///
    /// Models the start of a gesture. Calling it again while a focus
    /// point exists changes nothing, so a second press cannot move the
    /// pivot mid-gesture.
    pub fn add_focus_point(&mut self)
        requires
            old(self).wf(),
        ensures
            final(self)@ == sadd_focus(old(self)@),
            final(self).wf(),
    {
        match &self.model {
            Some(model) => {
                match self.focus_point {
                    Some(_) => {},
                    None => {
                        let fp = self.camera.focus_point(self.cursor, model);
                        self.focus_point = Some(fp);
                    },
                }
            },
            None => {},
        }
    }

    /// Remove the stored focus point. Models the end of a gesture.
    pub fn remove_focus_point(&mut self)
        ensures
            (final(self).focus_point is None),
            final(self).camera == old(self).camera,
            final(self).cursor == old(self).cursor,
            final(self).draw_config == old(self).draw_config,
            final(self).model == old(self).model,
            final(self).size == old(self).size,
            old(self).wf() ==> final(self).wf(),
    {
        self.focus_point = None;
    }

    /// Refresh the clip planes for this frame and derive the frame data
    /// for the renderer: the uniform transforms and the passes to
    /// submit. `None` means this frame is skipped (a degenerate screen
    /// or clip range); no viewer state is corrupted by a skipped frame.
    pub fn draw(&mut self) -> (r: Option<Frame>)
        requires
            old(self).wf(),
        ensures
            final(self)@.camera == sdraw_camera(old(self)@),
            final(self).cursor == old(self).cursor,
            final(self).draw_config == old(self).draw_config,
            final(self).focus_point == old(self).focus_point,
            final(self).model == old(self).model,
            final(self).size == old(self).size,
            final(self).wf(),
            match r {
                Some(f) => {
                    &&& svertex_transform(final(self)@.camera, old(self).size) == Some(
                        f.transform@,
                    )
                    &&& f.transform_normals@ == snormal_transform(final(self)@.camera)
                    &&& f.draw_model == old(self).draw_config.draw_model
                    &&& f.draw_mesh == old(self).draw_config.draw_mesh
                },
                None => svertex_transform(final(self)@.camera, old(self).size) is None,
            },
    {
        let aabb = match &self.model {
            Some(m) => m.aabb,
            None => Aabb::empty(),
        };
        self.camera.update_planes(&aabb);
        let transform_normals = normal_transform(&self.camera);
        match vertex_transform(&self.camera, self.size) {
            Some(transform) => Some(
                Frame {
                    transform,
                    transform_normals,
                    draw_model: self.draw_config.draw_model,
                    draw_mesh: self.draw_config.draw_mesh,
                },
            ),
            None => None,
        }
    }
}

} // verus!
