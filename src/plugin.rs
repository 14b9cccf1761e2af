use vstd::prelude::*;

use crate::bridge::{apply_change, apply_changes, ParamChange};
use crate::dsp::{process_buffers, shape};
use crate::params::{
    percent_text, set_model, Parameter, ParameterStore, MAX_VALUE,
    MIN_VALUE, UNIT,
};
use crate::render::{LoopState, RenderLoop};

verus! {

/// The slot of the clipping threshold.
pub const THRESHOLD: usize = 0;

/// The slot of the output gain.
pub const GAIN: usize = 1;

/// The number of parameters the plugin declares to the host.
pub const PARAMETER_COUNT: usize = 2;

/// The kind of plugin, as the host files it.
#[derive(Debug, Clone, Copy, PartialEq, Eq, Structural)]
pub enum PluginCategory {
    Effect,
}

/// The static description the host asks for when it loads the plugin.
pub struct PluginInfo {
    pub name: String,
    pub vendor: String,
    pub unique_id: i32,
    pub category: PluginCategory,
    pub inputs: i32,
    pub outputs: i32,
    pub parameters: i32,
}

/// Why the drawable surface could not be made inside the host's window.
#[derive(Debug, Clone, Copy, PartialEq, Eq, Structural)]
pub enum ConrodWindowError {
    /// The backend built no window against the handle.
    GetWindowFail,
    /// The window could not report its inner size (it may not be mapped yet).
    GetInnerSizeFail,
    /// The renderer could not be created on the surface.
    LoadRendererFail,
}

/// Why an editor did not open.
#[derive(Debug, Clone, Copy, PartialEq, Eq, Structural)]
pub enum OpenError {
    /// The host handed over a null window handle.
    NullHandle,
    /// An editor is open already; at most one exists at a time.
    AlreadyOpen,
    /// The surface could not be made.
    Window(ConrodWindowError),
}

/// The pixel size of a drawable surface.
#[derive(Debug, Clone, Copy, PartialEq, Eq, Structural)]
pub struct SurfaceSize {
    pub width: u32,
    pub height: u32,
}

/// The size of a new surface, from what the backend reported in order: whether
/// a window exists, then its inner size.
pub fn surface_size(window_found: bool, inner_size: Option<(u32, u32)>) -> (r: Result<
    SurfaceSize,
    ConrodWindowError,
>)
    ensures
        !window_found ==> r == Err::<SurfaceSize, ConrodWindowError>(
            ConrodWindowError::GetWindowFail,
        ),
        window_found && inner_size is None ==> r == Err::<SurfaceSize, ConrodWindowError>(
            ConrodWindowError::GetInnerSizeFail,
        ),
        window_found ==> (inner_size matches Some((w, h)) ==> r == Ok::<
            SurfaceSize,
            ConrodWindowError,
        >(SurfaceSize { width: w, height: h })),
{
    if !window_found {
        return Err(ConrodWindowError::GetWindowFail);
    }
    match inner_size {
        Some((width, height)) => Ok(SurfaceSize { width, height }),
        None => Err(ConrodWindowError::GetInnerSizeFail),
    }
}

/// One open editor: an id that differs from the previous opening's, its surface
/// and the decisions of its frame loop, all fresh for each opening.
pub struct EditorSession {
    pub id: u64,
    pub size: SurfaceSize,
    pub render: RenderLoop,
}

/// The plugin's record of its editor: the open session's id, if any, and the
/// id given out last.
#[derive(Debug, Clone, Copy, PartialEq, Eq, Structural)]
pub struct EditorState {
    pub open: Option<u64>,
    pub last_id: u64,
}

/// The id that follows `last`; it differs from `last`.
pub open spec fn next_id(last: u64) -> u64 {
    if last == u64::MAX {
        0
    } else {
        (last + 1) as u64
    }
}

/// The record after a successful opening.
pub open spec fn after_open(e: EditorState) -> EditorState {
    EditorState { open: Some(next_id(e.last_id)), last_id: next_id(e.last_id) }
}

/// The record after the editor is closed.
pub open spec fn after_close(e: EditorState) -> EditorState {
    EditorState { open: None, last_id: e.last_id }
}

/// Whether an opening with this handle and surface outcome succeeds.
pub open spec fn opens(e: EditorState, handle: usize, surface: Result<SurfaceSize, ConrodWindowError>) -> bool {
    handle != 0 && e.open is None && surface is Ok
}

/// The error of an opening that does not succeed.
pub open spec fn open_error(
    e: EditorState,
    handle: usize,
    surface: Result<SurfaceSize, ConrodWindowError>,
) -> OpenError {
    if handle == 0 {
        OpenError::NullHandle
    } else if e.open is Some {
        OpenError::AlreadyOpen
    } else {
        OpenError::Window(surface->Err_0)
    }
}

/// The host-facing plugin: its parameters and its editor.
pub struct VSTPlugin {
    pub params: ParameterStore,
    pub editor: EditorState,
}

/// An index from the host as a slot, if it is one.
pub open spec fn slot(index: i32, len: nat) -> Option<int> {
    if 0 <= index < len {
        Some(index as int)
    } else {
        None
    }
}

impl VSTPlugin {
    /// The store is sound and holds the plugin's two parameters.
    pub open spec fn wf(&self) -> bool {
        &&& self.params.wf()
        &&& self.params@.len() == PARAMETER_COUNT
    }

    /// A plugin with threshold and gain at 1.0 and no editor open.
    pub fn new() -> (r: VSTPlugin)
        ensures
            r.wf(),
            r.params@[THRESHOLD as int].value == UNIT,
            r.params@[GAIN as int].value == UNIT,
            r.params@[THRESHOLD as int].unit =~= seq!['%'],
            r.params@[GAIN as int].unit =~= seq!['%'],
            r.params@[THRESHOLD as int].name =~= seq!['T', 'h', 'r', 'e', 's', 'h', 'o', 'l', 'd'],
            r.params@[GAIN as int].name =~= seq!['G', 'a', 'i', 'n'],
            r.editor.open is None,
    {
        let mut decls: Vec<Parameter> = Vec::new();
        decls.push(Parameter { name: "Threshold".to_owned(), unit: "%".to_owned(), value: UNIT as i64 });
        decls.push(Parameter { name: "Gain".to_owned(), unit: "%".to_owned(), value: UNIT as i64 });
        proof {
            reveal_strlit("%");
            reveal_strlit("Threshold");
            reveal_strlit("Gain");
        }
        let params = ParameterStore::new(&decls);
        assert(params@[0] == params@[THRESHOLD as int]);
        VSTPlugin { params, editor: EditorState { open: None, last_id: 0 } }
    }

    /// What the host is told about the plugin.
    pub fn get_info(&self) -> (r: PluginInfo)
        ensures
            r.name@ =~= seq!['D', 'D', 'C', 'o', 'n', 'r', 'o', 'd'],
            r.vendor@ =~= seq!['D', 'e', 'a', 't', 'h', 'D', 'i', 's', 'c', 'o'],
            r.unique_id == 7790,
            r.category == PluginCategory::Effect,
            r.inputs == 2,
            r.outputs == 2,
            r.parameters == PARAMETER_COUNT,
    {
        proof {
            reveal_strlit("DDConrod");
            reveal_strlit("DeathDisco");
        }
        PluginInfo {
            name: "DDConrod".to_owned(),
            vendor: "DeathDisco".to_owned(),
            unique_id: 7790,
            category: PluginCategory::Effect,
            inputs: 2,
            outputs: 2,
            parameters: PARAMETER_COUNT as i32,
        }
    }

    /// Every parameter may be automated by the host.
    pub fn can_be_automated(&self, index: i32) -> (r: bool)
        ensures
            r,
    {
        true
    }

    /// The value of a parameter, in millionths; 0 for an index that names no parameter.
    pub fn get_parameter(&self, index: i32) -> (r: u32)
        requires
            self.wf(),
        ensures
            r == match slot(index, self.params@.len()) {
                Some(i) => self.params@[i].value,
                None => 0,
            },
    {
        proof {
            self.params.lemma_values_in_range();
        }
        if index < 0 {
            return 0;
        }
        match self.params.get(index as usize) {
            Ok(v) => v,
            Err(_) => 0,
        }
    }

    /// Stores a value from the host, in millionths, clamped into `[0.01, 1.0]`;
    /// an index that names no parameter changes nothing.
    pub fn set_parameter(&mut self, index: i32, value: i64)
        requires
            old(self).wf(),
        ensures
            final(self).wf(),
            final(self).editor == old(self).editor,
            final(self).params@ == match slot(index, old(self).params@.len()) {
                Some(i) => set_model(old(self).params@, i, value as int),
                None => old(self).params@,
            },
    {
        if index >= 0 {
            let _ = self.params.set(index as usize, value);
        }
    }

    /// The name of a parameter; empty for an index that names no parameter.
    pub fn get_parameter_name(&self, index: i32) -> (r: String)
        requires
            self.wf(),
        ensures
            r@ == match slot(index, self.params@.len()) {
                Some(i) => self.params@[i].name,
                None => Seq::<char>::empty(),
            },
    {
        let r = if index < 0 {
            Err(crate::params::ParamError::OutOfRange)
        } else {
            self.params.name_of(index as usize)
        };
        match r {
            Ok(s) => s,
            Err(_) => String::new(),
        }
    }

    /// A parameter's value as a percentage of 1.0 (`0.5` reads "50"); empty for
    /// an index that names no parameter.
    pub fn get_parameter_text(&self, index: i32) -> (r: String)
        requires
            self.wf(),
        ensures
            r@ == match slot(index, self.params@.len()) {
                Some(i) => percent_text(self.params@[i].value),
                None => Seq::<char>::empty(),
            },
    {
        let r = if index < 0 {
            Err(crate::params::ParamError::OutOfRange)
        } else {
            self.params.display_text_of(index as usize)
        };
        match r {
            Ok(s) => s,
            Err(_) => String::new(),
        }
    }

    /// The display unit of a parameter; empty for an index that names no parameter.
    pub fn get_parameter_label(&self, index: i32) -> (r: String)
        requires
            self.wf(),
        ensures
            r@ == match slot(index, self.params@.len()) {
                Some(i) => self.params@[i].unit,
                None => Seq::<char>::empty(),
            },
    {
        let r = if index < 0 {
            Err(crate::params::ParamError::OutOfRange)
        } else {
            self.params.unit_of(index as usize)
        };
        match r {
            Ok(s) => s,
            Err(_) => String::new(),
        }
    }

    /// Runs the clipping stage over the host's buffers, with the threshold and
    /// gain read once for the whole call. Samples are in millionths.
    pub fn process(&self, inputs: &Vec<Vec<i32>>, outputs: &mut Vec<Vec<i32>>)
        requires
            self.wf(),
        ensures
            final(outputs)@.len() == old(outputs)@.len(),
            forall|c: int|
                0 <= c < final(outputs)@.len() ==> (#[trigger] final(outputs)@[c])@.len() == old(outputs)@[c]@.len(),
            forall|c: int, i: int|
                0 <= c < final(outputs)@.len() && 0 <= i < old(outputs)@[c]@.len() ==> #[trigger] final(outputs)@[c]@[i] == if c < inputs@.len() && i < inputs@[c]@.len() {
                    shape(
                        inputs@[c]@[i] as int,
                        self.params@[THRESHOLD as int].value,
                        self.params@[GAIN as int].value,
                    )
                } else {
                    old(outputs)@[c]@[i] as int
                },
    {
        proof {
            self.params.lemma_values_in_range();
        }
        let threshold = match self.params.get(THRESHOLD) {
            Ok(v) => v,
            Err(_) => MAX_VALUE,
        };
        let gain = match self.params.get(GAIN) {
            Ok(v) => v,
            Err(_) => MIN_VALUE,
        };
        process_buffers(inputs, outputs, threshold, gain);
    }

    /// Writes back the parameter changes that one frame's widget interactions
    /// asked for, in order, each clamped as a host write is.
    pub fn apply_ui_changes(&mut self, changes: &Vec<ParamChange>)
        requires
            old(self).wf(),
        ensures
            final(self).wf(),
            final(self).editor == old(self).editor,
            final(self).params@ == apply_changes(old(self).params@, changes@),
    {
        let mut k: usize = 0;
        while k < changes.len()
            invariant
                k <= changes@.len(),
                self.wf(),
                self.editor == old(self).editor,
                self.params@ == apply_changes(old(self).params@, changes@.take(k as int)),
            decreases changes@.len() - k,
        {
            let c = changes[k];
            let ghost before = self.params@;
            let _ = self.params.set(c.index, c.value);
            proof {
                assert(changes@.take(k + 1).drop_last() =~= changes@.take(k as int));
                assert(self.params@ == apply_change(before, c));
            }
            k = k + 1;
        }
        assert(changes@.take(k as int) =~= changes@);
    }

    /// Decides whether an editor may be opened on `handle` before any surface
    /// is made: not on a null handle, and not while one is open.
    pub fn check_open(&self, handle: usize) -> (r: Result<(), OpenError>)
        ensures
            handle == 0 ==> r == Err::<(), OpenError>(OpenError::NullHandle),
            handle != 0 && self.editor.open is Some ==> r == Err::<(), OpenError>(
                OpenError::AlreadyOpen,
            ),
            handle != 0 && self.editor.open is None ==> r is Ok,
    {
        if handle == 0 {
            Err(OpenError::NullHandle)
        } else if self.editor.open.is_some() {
            Err(OpenError::AlreadyOpen)
        } else {
            Ok(())
        }
    }

    /// Opens an editor on `handle`, given the outcome of making its surface.
    /// On success a fresh session is returned, with a new id and a running loop;
    /// on failure nothing is recorded.
    pub fn open_editor(
        &mut self,
        handle: usize,
        surface: Result<SurfaceSize, ConrodWindowError>,
    ) -> (r: Result<EditorSession, OpenError>)
        ensures
            final(self).params == old(self).params,
            opens(old(self).editor, handle, surface) ==> {
                &&& r matches Ok(s)
                &&& final(self).editor == after_open(old(self).editor)
                &&& s.id == final(self).editor.last_id
                &&& s.size == surface->Ok_0
                &&& s.render.state == LoopState::Running
                &&& s.render.frames == 0
            },
            !opens(old(self).editor, handle, surface) ==> {
                &&& r matches Err(e)
                &&& e == open_error(old(self).editor, handle, surface)
                &&& final(self).editor == old(self).editor
            },
    {
        match self.check_open(handle) {
            Err(e) => Err(e),
            Ok(()) => match surface {
                Err(e) => Err(OpenError::Window(e)),
                Ok(size) => {
                    let id = if self.editor.last_id == u64::MAX {
                        0
                    } else {
                        self.editor.last_id + 1
                    };
                    self.editor = EditorState { open: Some(id), last_id: id };
                    Ok(EditorSession { id, size, render: RenderLoop::new() })
                },
            },
        }
    }

    /// Records that the editor was closed, once its loop has been cancelled and
    /// joined. Returns whether an editor was open; with none open it changes nothing.
    pub fn close_editor(&mut self) -> (r: bool)
        ensures
            final(self).params == old(self).params,
            r == old(self).editor.open is Some,
            final(self).editor == after_close(old(self).editor),
    {
        let was_open = self.editor.open.is_some();
        self.editor = EditorState { open: None, last_id: self.editor.last_id };
        was_open
    }
}

impl Default for VSTPlugin {
    fn default() -> (r: VSTPlugin)
        ensures
            r.wf(),
            r.params@[THRESHOLD as int].value == UNIT,
            r.params@[GAIN as int].value == UNIT,
            r.params@[THRESHOLD as int].unit =~= seq!['%'],
            r.params@[GAIN as int].unit =~= seq!['%'],
            r.params@[THRESHOLD as int].name =~= seq!['T', 'h', 'r', 'e', 's', 'h', 'o', 'l', 'd'],
            r.params@[GAIN as int].name =~= seq!['G', 'a', 'i', 'n'],
            r.editor.open is None,
    {
        VSTPlugin::new()
    }
}

/// Opening, closing and opening again gives a second session with an id of
/// its own, while the record shows exactly one editor open.
pub proof fn law_reopen_is_fresh(e: EditorState)
    requires
        e.open is None,
    ensures
        after_close(after_open(e)).open is None,
        after_open(after_close(after_open(e))).open is Some,
        after_open(after_close(after_open(e))).last_id != after_open(e).last_id,
{
}

/// A failed opening, such as one on a null handle, leaves no session, and a
/// close after it changes nothing.
pub proof fn law_failed_open_leaves_nothing(
    e: EditorState,
    handle: usize,
    surface: Result<SurfaceSize, ConrodWindowError>,
)
    requires
        e.open is None,
        !opens(e, handle, surface),
    ensures
        after_close(e) == e,
        handle == 0 ==> open_error(e, handle, surface) == OpenError::NullHandle,
{
}

} // verus!
