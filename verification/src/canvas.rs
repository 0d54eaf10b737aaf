//! The renderer itself, as a verified state machine.
//!
//! A `ShaderCanvas` models the state the renderer keeps between calls:
//! whether a program is installed and which of the three standard
//! uniforms that program declares.  The host acquires the context,
//! compiles the sources from [`crate::source`], and reports every
//! driver outcome back as a plain [`SetShaderOutcome`]; the canvas
//! decides what the outcome means, installs the program
//! transactionally, and emits the exact command list of each frame.

use vstd::prelude::*;

use crate::gl::GlCommand;
use crate::gl::QUAD_VERTEX_COUNT;

verus! {

/// Which shader stage an outcome or an error belongs to.
#[derive(Clone, Copy, PartialEq, Eq, Structural, Debug)]
pub enum ShaderStage {
    Vertex,
    Fragment,
}

/// What the driver said about compiling one stage.
#[derive(Debug)]
pub enum CompileOutcome {
    /// The driver could not even produce a shader object.
    ObjectUnavailable,
    /// Compilation ran and failed; the driver's log, if it gave one.
    Rejected { log: Option<String> },
    /// Compilation succeeded.
    Accepted,
}

/// What the driver said about linking the two compiled stages.
#[derive(Debug)]
pub enum LinkOutcome {
    /// The driver could not even produce a program object.
    ObjectUnavailable,
    /// Linking ran and failed; the driver's log, if it gave one.
    Rejected { log: Option<String> },
    /// Linking succeeded.
    Accepted,
}

/// Everything the host learned while carrying out one `set_shader`
/// request, in the order the calls are made.  A field past the first
/// failure is never examined: the host may stop at the failure and
/// fill the rest with anything.
#[derive(Debug)]
pub struct SetShaderOutcome {
    pub vertex: CompileOutcome,
    pub fragment: CompileOutcome,
    pub link: LinkOutcome,
    /// Whether the new program declares `iResolution`.
    pub iresolution_present: bool,
    /// Whether the new program declares `iMouse`.
    pub imouse_present: bool,
    /// Whether the new program declares `iTime`.
    pub itime_present: bool,
    /// Whether the driver produced the vertex buffer.
    pub buffer_created: bool,
    /// Whether the driver produced the vertex array object.
    pub vertex_array_created: bool,
}

/// What the host must do after a successful install.
#[derive(Clone, Copy, PartialEq, Eq, Structural, Debug)]
pub struct SetShaderEffect {
    /// True exactly when a program was installed before this call: the
    /// host must release that program and its buffer and vertex array,
    /// so no more than one generation of objects outlives each call.
    pub release_previous: bool,
}

/// Why `new` or `set_shader` failed.
#[derive(PartialEq, Eq, Debug)]
pub enum ShaderError {
    /// The surface could not produce a context of the required kind.
    ContextUnavailable,
    /// One stage failed to compile; the driver's diagnostic, verbatim.
    ShaderCompileError { stage: ShaderStage, log: String },
    /// The two stages failed to link; the driver's diagnostic, verbatim.
    ProgramLinkError { log: String },
    /// The driver could not produce the vertex buffer.
    BufferAllocationError,
    /// The driver could not produce the vertex array object.
    VertexArrayAllocationError,
}

/// The diagnostic a failed compile outcome turns into: the driver's
/// log where it gave one, a fixed text where it did not.
pub open spec fn spec_compile_error_log(o: CompileOutcome) -> Seq<char> {
    match o {
        CompileOutcome::ObjectUnavailable => "Unable to create shader object"@,
        CompileOutcome::Rejected { log: Some(l) } => l@,
        CompileOutcome::Rejected { log: None } => "Unknown error creating shader"@,
        CompileOutcome::Accepted => Seq::<char>::empty(),
    }
}

/// The diagnostic a failed link outcome turns into.
pub open spec fn spec_link_error_log(o: LinkOutcome) -> Seq<char> {
    match o {
        LinkOutcome::ObjectUnavailable => "Unable to create shader object"@,
        LinkOutcome::Rejected { log: Some(l) } => l@,
        LinkOutcome::Rejected { log: None } => "Unknown error creating program object"@,
        LinkOutcome::Accepted => Seq::<char>::empty(),
    }
}

/// The one error a `set_shader` request with this outcome surfaces:
/// the first failure wins, in the order the host makes the calls —
/// vertex compile, fragment compile, link, buffer, vertex array.
/// False of every error when the whole outcome succeeded.
pub open spec fn spec_set_shader_error_matches(o: SetShaderOutcome, e: ShaderError) -> bool {
    if o.vertex !is Accepted {
        e matches ShaderError::ShaderCompileError { stage, log } && stage is Vertex
            && log@ == spec_compile_error_log(o.vertex)
    } else if o.fragment !is Accepted {
        e matches ShaderError::ShaderCompileError { stage, log } && stage is Fragment
            && log@ == spec_compile_error_log(o.fragment)
    } else if o.link !is Accepted {
        e matches ShaderError::ProgramLinkError { log } && log@ == spec_link_error_log(o.link)
    } else if !o.buffer_created {
        e is BufferAllocationError
    } else if !o.vertex_array_created {
        e is VertexArrayAllocationError
    } else {
        false
    }
}

/// Turns the driver's word on one compile into the renderer's result:
/// success exactly when the stage was accepted, and otherwise a
/// `ShaderCompileError` for that stage carrying the diagnostic.
pub fn compile_shader(stage: ShaderStage, outcome: CompileOutcome) -> (r: Result<(), ShaderError>)
    ensures
        r is Ok <==> outcome is Accepted,
        (r matches Err(e) ==> e matches ShaderError::ShaderCompileError { stage: s, log }
            && s == stage && log@ == spec_compile_error_log(outcome)),
{
    match outcome {
        CompileOutcome::Accepted => Ok(()),
        CompileOutcome::ObjectUnavailable => Err(ShaderError::ShaderCompileError {
            stage,
            log: "Unable to create shader object".to_owned(),
        }),
        CompileOutcome::Rejected { log: Some(l) } => Err(ShaderError::ShaderCompileError {
            stage,
            log: l,
        }),
        CompileOutcome::Rejected { log: None } => Err(ShaderError::ShaderCompileError {
            stage,
            log: "Unknown error creating shader".to_owned(),
        }),
    }
}

/// Turns the driver's word on linking into the renderer's result:
/// success exactly when linking was accepted, and otherwise a
/// `ProgramLinkError` carrying the diagnostic.
pub fn link_program(outcome: LinkOutcome) -> (r: Result<(), ShaderError>)
    ensures
        r is Ok <==> outcome is Accepted,
        (r matches Err(e) ==> e matches ShaderError::ProgramLinkError { log }
            && log@ == spec_link_error_log(outcome)),
{
    match outcome {
        LinkOutcome::Accepted => Ok(()),
        LinkOutcome::ObjectUnavailable => Err(ShaderError::ProgramLinkError {
            log: "Unable to create shader object".to_owned(),
        }),
        LinkOutcome::Rejected { log: Some(l) } => Err(ShaderError::ProgramLinkError { log: l }),
        LinkOutcome::Rejected { log: None } => Err(ShaderError::ProgramLinkError {
            log: "Unknown error creating program object".to_owned(),
        }),
    }
}

/// The renderer's state between calls.
#[derive(Clone, Copy, PartialEq, Eq, Structural, Debug)]
pub struct ShaderCanvas {
    /// Whether a linked program is installed and drawable.
    pub has_program: bool,
    /// Whether the installed program declares `iResolution`.
    pub iresolution_present: bool,
    /// Whether the installed program declares `iMouse`.  The binding is
    /// resolved like the other two but never written by `draw`.
    pub imouse_present: bool,
    /// Whether the installed program declares `iTime`.
    pub itime_present: bool,
}

/// A well-formed canvas: uniform bindings exist only under a program.
pub open spec fn spec_canvas_wf(s: ShaderCanvas) -> bool {
    !s.has_program ==> !s.iresolution_present && !s.imouse_present && !s.itime_present
}

/// The state a canvas starts in: context acquired, nothing installed.
pub open spec fn spec_fresh_canvas() -> ShaderCanvas {
    ShaderCanvas {
        has_program: false,
        iresolution_present: false,
        imouse_present: false,
        itime_present: false,
    }
}

/// Whether every step of a `set_shader` request succeeded.
pub open spec fn spec_outcome_ok(o: SetShaderOutcome) -> bool {
    &&& o.vertex is Accepted
    &&& o.fragment is Accepted
    &&& o.link is Accepted
    &&& o.buffer_created
    &&& o.vertex_array_created
}

/// What `set_shader` does to the state: on a fully successful outcome
/// the new program and its bindings replace the old ones; on any
/// failure the state is exactly what it was (the replace is
/// transactional, the previous program stays installed and drawable).
pub open spec fn spec_apply_set_shader(s: ShaderCanvas, o: SetShaderOutcome) -> ShaderCanvas {
    if spec_outcome_ok(o) {
        ShaderCanvas {
            has_program: true,
            iresolution_present: o.iresolution_present,
            imouse_present: o.imouse_present,
            itime_present: o.itime_present,
        }
    } else {
        s
    }
}

/// How many linked programs a canvas holds alive: one under an
/// installed program, none otherwise.
pub open spec fn spec_live_programs(s: ShaderCanvas) -> nat {
    if s.has_program {
        1
    } else {
        0
    }
}

/// The exact command list of one frame: clear to opaque black, write
/// the surface size and the elapsed time into their uniforms, then one
/// draw call over the full-screen quad.  `iMouse` is never written.
pub open spec fn spec_draw_commands(
    s: ShaderCanvas,
    width: u32,
    height: u32,
    elapsed_millis: u64,
) -> Seq<GlCommand> {
    seq![
        GlCommand::ClearColor { red_milli: 0, green_milli: 0, blue_milli: 0, alpha_milli: 1000 },
        GlCommand::Clear,
        GlCommand::WriteResolution { present: s.iresolution_present, width, height },
        GlCommand::WriteTime { present: s.itime_present, millis: elapsed_millis },
        GlCommand::DrawTriangles { first_vertex: 0, vertex_count: QUAD_VERTEX_COUNT },
    ]
}

impl ShaderCanvas {
    /// Construction over an acquired surface.  The host reports whether
    /// the surface produced a context of the required capability, and
    /// the outcome of carrying out the install of the built-in default
    /// fill — the sources of
    /// `source::shader_sources(source::default_fragment_body())` —
    /// through the regular `set_shader` protocol.
    ///
    /// Succeeds exactly when the context came and that install went
    /// through; the renderer then holds the default program and is
    /// drawable at once, with no explicit `set_shader` call.  Without a
    /// context the error is `ContextUnavailable`; a failed install
    /// surfaces exactly the error `set_shader` gives its outcome, so
    /// initialization failure aborts construction.
    pub fn new(context_available: bool, default_install: SetShaderOutcome) -> (r: Result<
        ShaderCanvas,
        ShaderError,
    >)
        ensures
            r is Ok <==> context_available && spec_outcome_ok(default_install),
            (r matches Ok(c) ==> c == spec_apply_set_shader(spec_fresh_canvas(), default_install)
                && c.has_program && spec_canvas_wf(c)),
            (!context_available ==> (r matches Err(e) && e is ContextUnavailable)),
            (context_available && !spec_outcome_ok(default_install) ==> (r matches Err(e)
                && spec_set_shader_error_matches(default_install, e))),
    {
        if !context_available {
            return Err(ShaderError::ContextUnavailable);
        }
        let mut canvas = ShaderCanvas {
            has_program: false,
            iresolution_present: false,
            imouse_present: false,
            itime_present: false,
        };
        match canvas.set_shader(default_install) {
            Ok(_) => Ok(canvas),
            Err(e) => Err(e),
        }
    }

    /// Decides one `set_shader` request from the driver's outcomes.
    ///
    /// Succeeds exactly when every step did; the first failure wins, in
    /// the order the host makes the calls: vertex compile, fragment
    /// compile, link, buffer, vertex array.  On success the new program
    /// replaces the old one and the host must release the previous
    /// generation of objects as the returned effect says; on failure
    /// the canvas is left exactly as it was.
    pub fn set_shader(&mut self, outcome: SetShaderOutcome) -> (r: Result<
        SetShaderEffect,
        ShaderError,
    >)
        ensures
            *final(self) == spec_apply_set_shader(*old(self), outcome),
            r is Ok <==> spec_outcome_ok(outcome),
            (r matches Ok(eff) ==> eff.release_previous == old(self).has_program),
            (r matches Err(e) ==> spec_set_shader_error_matches(outcome, e)),
            spec_canvas_wf(*old(self)) ==> spec_canvas_wf(*final(self)),
    {
        let SetShaderOutcome {
            vertex,
            fragment,
            link,
            iresolution_present,
            imouse_present,
            itime_present,
            buffer_created,
            vertex_array_created,
        } = outcome;
        if let Err(e) = compile_shader(ShaderStage::Vertex, vertex) {
            return Err(e);
        }
        if let Err(e) = compile_shader(ShaderStage::Fragment, fragment) {
            return Err(e);
        }
        if let Err(e) = link_program(link) {
            return Err(e);
        }
        if !buffer_created {
            return Err(ShaderError::BufferAllocationError);
        }
        if !vertex_array_created {
            return Err(ShaderError::VertexArrayAllocationError);
        }
        let release_previous = self.has_program;
        self.has_program = true;
        self.iresolution_present = iresolution_present;
        self.imouse_present = imouse_present;
        self.itime_present = itime_present;
        Ok(SetShaderEffect { release_previous })
    }

    /// The one command that fills the `iMouse` uniform with a pixel
    /// position.  No frame writes `iMouse` by itself: a caller who
    /// wants it filled performs this command; by default the uniform
    /// keeps the zero vector the driver gave it.
    pub fn write_mouse(&self, x: u32, y: u32) -> (cmd: GlCommand)
        ensures
            cmd == (GlCommand::WriteMouse { present: self.imouse_present, x, y }),
    {
        GlCommand::WriteMouse { present: self.imouse_present, x, y }
    }

    /// One frame, as the exact list of commands the host must perform:
    /// never fails, whatever the state.  The surface size and the
    /// elapsed milliseconds are read by the host at call time, so the
    /// resolution written each frame follows a resize with no relink.
    pub fn draw(&self, width: u32, height: u32, elapsed_millis: u64) -> (cmds: Vec<GlCommand>)
        ensures
            cmds@ == spec_draw_commands(*self, width, height, elapsed_millis),
    {
        let mut cmds: Vec<GlCommand> = Vec::new();
        cmds.push(GlCommand::ClearColor {
            red_milli: 0,
            green_milli: 0,
            blue_milli: 0,
            alpha_milli: 1000,
        });
        cmds.push(GlCommand::Clear);
        cmds.push(GlCommand::WriteResolution {
            present: self.iresolution_present,
            width,
            height,
        });
        cmds.push(GlCommand::WriteTime { present: self.itime_present, millis: elapsed_millis });
        cmds.push(GlCommand::DrawTriangles { first_vertex: 0, vertex_count: QUAD_VERTEX_COUNT });
        proof {
            assert(cmds@ =~= spec_draw_commands(*self, width, height, elapsed_millis));
        }
        cmds
    }
}

/// A successful construction is immediately drawable: `new` returns
/// exactly the state below, which holds one program — the default
/// fill whose install `new` consumed — well-formed.  `draw` itself has
/// no precondition, so a renderer in this state renders without any
/// possibility of failure.
pub proof fn lemma_fresh_canvas_drawable(o: SetShaderOutcome)
    requires
        spec_outcome_ok(o),
    ensures
        spec_apply_set_shader(spec_fresh_canvas(), o).has_program,
        spec_live_programs(spec_apply_set_shader(spec_fresh_canvas(), o)) == 1,
        spec_canvas_wf(spec_apply_set_shader(spec_fresh_canvas(), o)),
{
}

/// Every frame performs exactly one clear and exactly one draw call:
/// in the command list of any `draw`, the clear stands at one position
/// and nowhere else, and so does the draw call.
pub proof fn lemma_draw_once_per_frame(s: ShaderCanvas, width: u32, height: u32, elapsed_millis: u64)
    ensures
        ({
            let cmds = spec_draw_commands(s, width, height, elapsed_millis);
            &&& forall|i: int| 0 <= i < cmds.len() ==> ((cmds[i] is Clear) <==> i == 1)
            &&& forall|i: int| 0 <= i < cmds.len() ==> ((cmds[i] is DrawTriangles) <==> i == 4)
        }),
{
}

/// A failed `set_shader` alters nothing: the canvas, and with it the
/// renderability of the currently active program, is exactly what it
/// was before the call.
pub proof fn lemma_set_shader_failure_transactional(s: ShaderCanvas, o: SetShaderOutcome)
    requires
        !spec_outcome_ok(o),
    ensures
        spec_apply_set_shader(s, o) == s,
{
}

/// The diagnostic of a failed compile is never empty, as long as the
/// driver did not itself hand back an empty log: the fixed texts that
/// stand in for a missing log are non-empty.
pub proof fn lemma_compile_error_log_nonempty(o: CompileOutcome)
    requires
        o !is Accepted,
        o matches CompileOutcome::Rejected { log: Some(l) } ==> l@.len() > 0,
    ensures
        spec_compile_error_log(o).len() > 0,
{
    reveal_strlit("Unable to create shader object");
    reveal_strlit("Unknown error creating shader");
}

/// The diagnostic of a failed link is never empty, under the same
/// condition on the driver's own log.
pub proof fn lemma_link_error_log_nonempty(o: LinkOutcome)
    requires
        o !is Accepted,
        o matches LinkOutcome::Rejected { log: Some(l) } ==> l@.len() > 0,
    ensures
        spec_link_error_log(o).len() > 0,
{
    reveal_strlit("Unable to create shader object");
    reveal_strlit("Unknown error creating program object");
}

/// Each frame writes the surface's pixel size of that very call into
/// `iResolution`: the command carries the width and height as given,
/// so a resize between frames takes effect with no relink.
pub proof fn lemma_draw_reports_surface_size(
    s: ShaderCanvas,
    width: u32,
    height: u32,
    elapsed_millis: u64,
)
    ensures
        spec_draw_commands(s, width, height, elapsed_millis)[2] == (GlCommand::WriteResolution {
            present: s.iresolution_present,
            width,
            height,
        }),
{
}

/// The time a frame writes into `iTime` is the elapsed time it was
/// given, so across frames of one instance it is non-decreasing as the
/// clock is, and never below zero.
pub proof fn lemma_draw_time_monotonic(
    s: ShaderCanvas,
    width1: u32,
    height1: u32,
    elapsed1: u64,
    width2: u32,
    height2: u32,
    elapsed2: u64,
)
    requires
        elapsed1 <= elapsed2,
    ensures
        spec_draw_commands(s, width1, height1, elapsed1)[3]->WriteTime_millis
            <= spec_draw_commands(s, width2, height2, elapsed2)[3]->WriteTime_millis,
        spec_draw_commands(s, width1, height1, elapsed1)[3]->WriteTime_millis >= 0,
{
}

/// The state after a whole series of `set_shader` requests, applied in
/// order.
pub open spec fn spec_apply_outcomes(s: ShaderCanvas, os: Seq<SetShaderOutcome>) -> ShaderCanvas
    decreases os.len(),
{
    if os.len() == 0 {
        s
    } else {
        spec_apply_outcomes(spec_apply_set_shader(s, os[0]), os.drop_first())
    }
}

/// However many `set_shader` requests run, in whatever mixture of
/// success and failure, the canvas never holds more than one program
/// alive; and after any series of successful requests, starting from a
/// fresh or any well-formed canvas, exactly one program is active.
pub proof fn lemma_set_shader_sequence_single_program(s: ShaderCanvas, os: Seq<SetShaderOutcome>)
    ensures
        spec_live_programs(spec_apply_outcomes(s, os)) <= 1,
        spec_canvas_wf(s) ==> spec_canvas_wf(spec_apply_outcomes(s, os)),
        (os.len() > 0 && (forall|i: int| 0 <= i < os.len() ==> spec_outcome_ok(os[i])))
            ==> spec_live_programs(spec_apply_outcomes(s, os)) == 1,
    decreases os.len(),
{
    if os.len() > 0 {
        let s1 = spec_apply_set_shader(s, os[0]);
        assert(forall|i: int| 0 <= i < os.drop_first().len() ==> os.drop_first()[i] == os[i + 1]);
        lemma_set_shader_sequence_single_program(s1, os.drop_first());
        if os.len() == 1 {
            assert(spec_apply_outcomes(s1, os.drop_first()) == s1);
        }
    }
}

} // verus!
