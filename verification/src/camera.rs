//! Virtual-screen camera scaling: each camera carries a fixed logical
//! resolution, and whenever its window is resized or created (or the
//! camera itself is new), the camera's scale is recomputed so the virtual
//! screen maps onto the window. Scale factors are exact rationals.

use crate::game::Transform;
use vstd::prelude::*;

verus! {

/// How a virtual screen maps onto a window of another aspect ratio:
/// `Fit` keeps the aspect ratio (and may letterbox), `Stretch` scales each
/// axis independently (and may distort).
#[derive(Clone, Copy, PartialEq, Eq, Structural, Debug)]
pub enum ScaleType {
    Fit,
    Stretch,
}

impl Default for ScaleType {
    fn default() -> (s: Self)
        ensures
            s == ScaleType::Fit,
    {
        ScaleType::Fit
    }
}

/// An exact non-negative rational, kept unreduced.
#[derive(Clone, Copy, PartialEq, Eq, Structural, Debug)]
pub struct Fraction {
    pub num: u32,
    pub den: u32,
}

impl Fraction {
    /// `self` is at least `other`, compared as rationals.
    pub open spec fn spec_ge(self, other: Fraction) -> bool {
        self.num * other.den >= other.num * self.den
    }

    pub fn ge(self, other: Fraction) -> (r: bool)
        ensures
            r == self.spec_ge(other),
    {
        proof {
            let a = self.num as int;
            let b = other.den as int;
            let c = other.num as int;
            let d = self.den as int;
            assert(a * b <= u32::MAX as int * u32::MAX as int
                && c * d <= u32::MAX as int * u32::MAX as int) by (nonlinear_arith)
                requires
                    0 <= a <= u32::MAX as int,
                    0 <= b <= u32::MAX as int,
                    0 <= c <= u32::MAX as int,
                    0 <= d <= u32::MAX as int,
            ;
        }
        (self.num as u64) * (other.den as u64) >= (other.num as u64) * (self.den as u64)
    }
}

/// The scale a camera applies on each axis.
#[derive(Clone, Copy, PartialEq, Eq, Structural, Debug)]
pub struct ScaleFactor {
    pub x: Fraction,
    pub y: Fraction,
}

impl ScaleFactor {
    /// No scaling at all.
    pub open spec fn spec_identity() -> ScaleFactor {
        ScaleFactor { x: Fraction { num: 1, den: 1 }, y: Fraction { num: 1, den: 1 } }
    }

    pub fn identity() -> (s: ScaleFactor)
        ensures
            s == ScaleFactor::spec_identity(),
    {
        ScaleFactor { x: Fraction { num: 1, den: 1 }, y: Fraction { num: 1, den: 1 } }
    }
}

/// A camera's fixed logical resolution, in arena units, and its policy for
/// mapping it onto the window.
#[derive(Clone, Copy, PartialEq, Eq, Structural, Debug)]
pub struct VirtualScreen {
    pub width: u32,
    pub height: u32,
    pub scale_type: ScaleType,
}

impl Default for VirtualScreen {
    fn default() -> (v: VirtualScreen)
        ensures
            v == (VirtualScreen { width: 0, height: 0, scale_type: ScaleType::Fit }),
    {
        VirtualScreen { width: 0, height: 0, scale_type: ScaleType::Fit }
    }
}

/// A window known to the host, with its current pixel size.
#[derive(Clone, Copy, PartialEq, Eq, Structural, Debug)]
pub struct Window {
    pub id: u32,
    pub width: u32,
    pub height: u32,
}

/// A window changed size; carries the new pixel size.
#[derive(Clone, Copy, PartialEq, Eq, Structural, Debug)]
pub struct WindowResized {
    pub id: u32,
    pub width: u32,
    pub height: u32,
}

/// A window came into existence.
#[derive(Clone, Copy, PartialEq, Eq, Structural, Debug)]
pub struct WindowCreated {
    pub id: u32,
}

/// A camera component: the window it renders to.
#[derive(Clone, Copy, PartialEq, Eq, Structural, Debug)]
pub struct Camera {
    pub window: u32,
}

/// The scaler's own persistent state: how far it has read each of the two
/// window event logs, as a count of events consumed.
#[derive(Clone, Copy, PartialEq, Eq, Structural, Debug)]
pub struct CameraSystemScreenState {
    pub window_resized_event_reader: usize,
    pub window_created_event_reader: usize,
}

impl Default for CameraSystemScreenState {
    fn default() -> (s: CameraSystemScreenState)
        ensures
            s == (CameraSystemScreenState {
                window_resized_event_reader: 0,
                window_created_event_reader: 0,
            }),
    {
        CameraSystemScreenState { window_resized_event_reader: 0, window_created_event_reader: 0 }
    }
}

/// The scale that maps `config`'s virtual screen onto `window`: per axis
/// the ratio of virtual extent to pixel extent; under `Fit` the larger of
/// the two ratios on both axes, so nothing of the virtual screen is ever
/// cropped.
pub open spec fn spec_scale_factor(config: VirtualScreen, window: Window) -> ScaleFactor {
    let x_scale = Fraction { num: config.width, den: window.width };
    let y_scale = Fraction { num: config.height, den: window.height };
    match config.scale_type {
        ScaleType::Stretch => ScaleFactor { x: x_scale, y: y_scale },
        ScaleType::Fit => {
            let m = if x_scale.spec_ge(y_scale) {
                x_scale
            } else {
                y_scale
            };
            ScaleFactor { x: m, y: m }
        },
    }
}

/// Some resize event not yet consumed at `cursor` names window `id`.
pub open spec fn resized_window_changed(events: Seq<WindowResized>, cursor: int, id: u32) -> bool {
    exists|i: int| cursor <= i < events.len() && (#[trigger] events[i]).id == id
}

/// Some creation event not yet consumed at `cursor` names window `id`.
pub open spec fn created_window_changed(events: Seq<WindowCreated>, cursor: int, id: u32) -> bool {
    exists|i: int| cursor <= i < events.len() && (#[trigger] events[i]).id == id
}

/// Window `id` changed this frame: it was resized or created since the
/// scaler last looked.
pub open spec fn window_changed(
    resized: Seq<WindowResized>,
    created: Seq<WindowCreated>,
    resized_cursor: int,
    created_cursor: int,
    id: u32,
) -> bool {
    resized_window_changed(resized, resized_cursor, id) || created_window_changed(
        created,
        created_cursor,
        id,
    )
}

/// The first window in the registry carrying `id`, if any.
pub open spec fn window_with_id(windows: Seq<Window>, id: u32) -> Option<Window>
    decreases windows.len(),
{
    if windows.len() == 0 {
        None
    } else if windows[0].id == id {
        Some(windows[0])
    } else {
        window_with_id(windows.drop_first(), id)
    }
}

/// Membership in a pushed sequence: the old members plus the new element.
proof fn lemma_push_contains(s: Seq<u32>, x: u32, id: u32)
    ensures
        s.push(x).contains(id) <==> (s.contains(id) || id == x),
{
    if s.contains(id) {
        let k = choose|k: int| 0 <= k < s.len() && s[k] == id;
        assert(s.push(x)[k] == id);
    }
    if id == x {
        assert(s.push(x)[s.len() as int] == id);
    }
    if s.push(x).contains(id) {
        let k = choose|k: int| 0 <= k < s.push(x).len() && s.push(x)[k] == id;
        if k < s.len() {
            assert(s[k] == id);
        }
    }
}

/// Does the id list already hold `id`?
fn ids_contain(ids: &Vec<u32>, id: u32) -> (r: bool)
    ensures
        r == ids@.contains(id),
{
    let mut j: usize = 0;
    while j < ids.len()
        invariant
            j <= ids@.len(),
            forall|k: int| 0 <= k < j ==> ids@[k] != id,
        decreases ids@.len() - j,
    {
        if ids[j] == id {
            return true;
        }
        j += 1;
    }
    false
}

/// Does the entity list hold `entity`?
fn entities_contain(entities: &Vec<u64>, entity: u64) -> (r: bool)
    ensures
        r == entities@.contains(entity),
{
    let mut j: usize = 0;
    while j < entities.len()
        invariant
            j <= entities@.len(),
            forall|k: int| 0 <= k < j ==> entities@[k] != entity,
        decreases entities@.len() - j,
    {
        if entities[j] == entity {
            return true;
        }
        j += 1;
    }
    false
}

/// The set of windows that changed this frame, each id recorded at most
/// once however many events named it. The most recent events are walked
/// first, so each window is taken up once with its latest state.
#[verifier::loop_isolation(false)]
pub fn collect_changed_window_ids(
    window_resized_events: &Vec<WindowResized>,
    window_created_events: &Vec<WindowCreated>,
    resized_cursor: usize,
    created_cursor: usize,
) -> (ids: Vec<u32>)
    requires
        resized_cursor <= window_resized_events@.len(),
        created_cursor <= window_created_events@.len(),
    ensures
        forall|id: u32|
            ids@.contains(id) <==> window_changed(
                window_resized_events@,
                window_created_events@,
                resized_cursor as int,
                created_cursor as int,
                id,
            ),
        forall|i: int, j: int| 0 <= i < j < ids@.len() ==> ids@[i] != ids@[j],
{
    let mut ids: Vec<u32> = Vec::new();
    let mut i: usize = window_resized_events.len();
    while i > resized_cursor
        invariant
            resized_cursor <= i <= window_resized_events@.len(),
            forall|id: u32|
                ids@.contains(id) <==> resized_window_changed(
                    window_resized_events@,
                    i as int,
                    id,
                ),
            forall|a: int, b: int| 0 <= a < b < ids@.len() ==> ids@[a] != ids@[b],
        decreases i,
    {
        i -= 1;
        let eid = window_resized_events[i].id;
        let ghost pre = ids@;
        if !ids_contain(&ids, eid) {
            ids.push(eid);
        }
        proof {
            assert forall|id: u32|
                ids@.contains(id) <==> resized_window_changed(
                    window_resized_events@,
                    i as int,
                    id,
                ) by {
                lemma_push_contains(pre, eid, id);
                if resized_window_changed(window_resized_events@, i as int, id) {
                    let k = choose|k: int|
                        i <= k < window_resized_events@.len() && window_resized_events@[k].id
                            == id;
                    if k > i {
                        assert(resized_window_changed(window_resized_events@, i + 1, id));
                    }
                }
                if resized_window_changed(window_resized_events@, i + 1, id) {
                    let k = choose|k: int|
                        i + 1 <= k < window_resized_events@.len() && window_resized_events@[k].id
                            == id;
                    assert(i <= k < window_resized_events@.len()
                        && window_resized_events@[k].id == id);
                }
            }
        }
    }
    let mut c: usize = window_created_events.len();
    while c > created_cursor
        invariant
            created_cursor <= c <= window_created_events@.len(),
            forall|id: u32|
                ids@.contains(id) <==> (resized_window_changed(
                    window_resized_events@,
                    resized_cursor as int,
                    id,
                ) || created_window_changed(window_created_events@, c as int, id)),
            forall|a: int, b: int| 0 <= a < b < ids@.len() ==> ids@[a] != ids@[b],
        decreases c,
    {
        c -= 1;
        let eid = window_created_events[c].id;
        let ghost pre = ids@;
        if !ids_contain(&ids, eid) {
            ids.push(eid);
        }
        proof {
            assert forall|id: u32|
                ids@.contains(id) <==> (resized_window_changed(
                    window_resized_events@,
                    resized_cursor as int,
                    id,
                ) || created_window_changed(window_created_events@, c as int, id)) by {
                lemma_push_contains(pre, eid, id);
                if created_window_changed(window_created_events@, c as int, id) {
                    let k = choose|k: int|
                        c <= k < window_created_events@.len() && window_created_events@[k].id
                            == id;
                    if k > c {
                        assert(created_window_changed(window_created_events@, c + 1, id));
                    }
                }
                if created_window_changed(window_created_events@, c + 1, id) {
                    let k = choose|k: int|
                        c + 1 <= k < window_created_events@.len() && window_created_events@[k].id
                            == id;
                    assert(c <= k < window_created_events@.len()
                        && window_created_events@[k].id == id);
                }
            }
        }
    }
    ids
}

/// Look a window up by id, as the registry does.
#[verifier::loop_isolation(false)]
pub fn find_window(windows: &Vec<Window>, id: u32) -> (w: Option<Window>)
    ensures
        w == window_with_id(windows@, id),
{
    let mut j: usize = 0;
    proof {
        assert(windows@.skip(0) =~= windows@);
    }
    while j < windows.len()
        invariant
            j <= windows@.len(),
            window_with_id(windows@, id) == window_with_id(windows@.skip(j as int), id),
        decreases windows@.len() - j,
    {
        proof {
            assert(windows@.skip(j as int)[0] == windows@[j as int]);
            assert(windows@.skip(j as int).drop_first() =~= windows@.skip(j as int + 1));
        }
        if windows[j].id == id {
            return Some(windows[j]);
        }
        j += 1;
    }
    proof {
        assert(windows@.skip(windows@.len() as int).len() == 0);
    }
    None
}

/// The camera row after this frame's pass: where the camera's window is
/// known and either changed this frame or the camera itself is new, the
/// transform's scale is recomputed from the virtual screen and the
/// window's current size; otherwise the row is untouched.
pub open spec fn updated_camera(
    cam: (u64, Camera, VirtualScreen, Transform),
    resized: Seq<WindowResized>,
    created: Seq<WindowCreated>,
    resized_cursor: int,
    created_cursor: int,
    windows: Seq<Window>,
    added: Seq<u64>,
) -> (u64, Camera, VirtualScreen, Transform) {
    match window_with_id(windows, cam.1.window) {
        Some(w) => if window_changed(resized, created, resized_cursor, created_cursor, cam.1.window)
            || added.contains(cam.0) {
            (
                cam.0,
                cam.1,
                cam.2,
                Transform { x: cam.3.x, y: cam.3.y, scale: spec_scale_factor(cam.2, w) },
            )
        } else {
            cam
        },
        None => cam,
    }
}

/// One frame of the camera scaler: consume both window event logs, then
/// rescale every camera whose window changed or which is newly added.
/// A camera whose window cannot be resolved is skipped this frame.
#[verifier::loop_isolation(false)]
pub fn camera_virtual_screen_system(
    state: &mut CameraSystemScreenState,
    window_resized_events: &Vec<WindowResized>,
    window_created_events: &Vec<WindowCreated>,
    windows: &Vec<Window>,
    added_cameras: &Vec<u64>,
    cameras: &mut Vec<(u64, Camera, VirtualScreen, Transform)>,
)
    requires
        old(state).window_resized_event_reader <= window_resized_events@.len(),
        old(state).window_created_event_reader <= window_created_events@.len(),
    ensures
        final(state).window_resized_event_reader == window_resized_events@.len(),
        final(state).window_created_event_reader == window_created_events@.len(),
        final(cameras)@.len() == old(cameras)@.len(),
        forall|i: int|
            0 <= i < old(cameras)@.len() ==> final(cameras)@[i] == updated_camera(
                #[trigger] old(cameras)@[i],
                window_resized_events@,
                window_created_events@,
                old(state).window_resized_event_reader as int,
                old(state).window_created_event_reader as int,
                windows@,
                added_cameras@,
            ),
{
    let changed_window_ids = collect_changed_window_ids(
        window_resized_events,
        window_created_events,
        state.window_resized_event_reader,
        state.window_created_event_reader,
    );
    let mut ci: usize = 0;
    while ci < cameras.len()
        invariant
            ci <= cameras@.len(),
            cameras@.len() == old(cameras)@.len(),
            forall|j: int|
                0 <= j < ci ==> cameras@[j] == updated_camera(
                    #[trigger] old(cameras)@[j],
                    window_resized_events@,
                    window_created_events@,
                    old(state).window_resized_event_reader as int,
                    old(state).window_created_event_reader as int,
                    windows@,
                    added_cameras@,
                ),
            forall|j: int| ci <= j < cameras@.len() ==> cameras@[j] == #[trigger] old(cameras)@[j],
        decreases cameras@.len() - ci,
    {
        let cam = cameras[ci];
        match find_window(windows, cam.1.window) {
            Some(window) => {
                let is_changed = ids_contain(&changed_window_ids, cam.1.window);
                let is_added = entities_contain(added_cameras, cam.0);
                if is_changed || is_added {
                    let scale = calculate_scale_factor(&cam.2, &window);
                    cameras[ci] = (
                        cam.0,
                        cam.1,
                        cam.2,
                        Transform { x: cam.3.x, y: cam.3.y, scale },
                    );
                }
            },
            None => {},
        }
        ci += 1;
    }
    state.window_resized_event_reader = window_resized_events.len();
    state.window_created_event_reader = window_created_events.len();
}

pub fn calculate_scale_factor(config: &VirtualScreen, window: &Window) -> (s: ScaleFactor)
    ensures
        s == spec_scale_factor(*config, *window),
{
    let x_scale = Fraction { num: config.width, den: window.width };
    let y_scale = Fraction { num: config.height, den: window.height };
    match config.scale_type {
        ScaleType::Stretch => ScaleFactor { x: x_scale, y: y_scale },
        ScaleType::Fit => {
            let m = if x_scale.ge(y_scale) {
                x_scale
            } else {
                y_scale
            };
            ScaleFactor { x: m, y: m }
        },
    }
}

} // verus!
