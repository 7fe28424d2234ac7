//! Sessions that capture the outputs of a program into a buffer.
use std::marker::PhantomData;

use crate::context::{Api, Context};
use crate::program::{Program, TransformFeedbackMode, TransformFeedbackVarying};
use crate::vertex::{AttributeType, VertexFormat};
use vstd::prelude::*;

verus! {

/// A buffer in video memory, by its native name.
#[derive(Clone, Copy, Debug, PartialEq, Eq, Structural)]
pub struct Buffer {
    pub id: u32,
}

/// A transform feedback session: the program writes its captured variables into the buffer,
/// which both stay borrowed for `'a`.
pub struct TransformFeedbackSession<'a> {
    buffer: u32,
    program: u32,
    marker1: PhantomData<&'a mut Buffer>,
    marker2: PhantomData<&'a Program>,
}

impl<'a> TransformFeedbackSession<'a> {
    /// The native name of the buffer written to.
    pub closed spec fn buffer_spec(&self) -> u32 {
        self.buffer
    }

    /// The native name of the program whose variables are captured.
    pub closed spec fn program_spec(&self) -> u32 {
        self.program
    }

    /// The native name of the buffer written to.
    pub fn get_buffer(&self) -> (r: u32)
        ensures
            r == self.buffer_spec(),
    {
        self.buffer
    }

    /// The native name of the program whose variables are captured.
    pub fn get_program(&self) -> (r: u32)
        ensures
            r == self.program_spec(),
    {
        self.program
    }
}

/// The offset in bytes at which the interleaved variable `k` is written: the sum of the sizes
/// of the variables before it.
pub open spec fn offset_before(vars: Seq<TransformFeedbackVarying>, k: int) -> int
    decreases k,
{
    if k <= 0 {
        0
    } else {
        offset_before(vars, k - 1) + vars[k - 1].size
    }
}

/// Whether the format has an attribute of that name, offset and type.
pub open spec fn has_attribute(
    format: Seq<(String, usize, AttributeType)>,
    name: Seq<char>,
    offset: int,
    ty: AttributeType,
) -> bool {
    exists|i: int|
        0 <= i < format.len() && (#[trigger] format[i]).0@ == name && format[i].1 == offset && format[i].2
            == ty
}

/// Whether a buffer of vertices of `format` can take what the program captures: the program
/// writes its variables interleaved, and each of them is an attribute of the format, with its
/// name and type, at the offset where it is written.
pub open spec fn feedback_matches(format: Seq<(String, usize, AttributeType)>, program: &Program) -> bool {
    &&& program.transform_feedback_mode == Some(TransformFeedbackMode::Interleaved)
    &&& forall|k: int|
        0 <= k < program.transform_feedback_varyings@.len() ==> has_attribute(
            format,
            (#[trigger] program.transform_feedback_varyings@[k]).name@,
            offset_before(program.transform_feedback_varyings@, k),
            program.transform_feedback_varyings@[k].ty,
        )
}

/// Whether the context can run transform feedback: OpenGL 3.0 or later, or the extension.
pub open spec fn transform_feedback_supported(context: Context) -> bool {
    (context.version.0 == Api::Gl && context.version.1 >= 3) || context.gl_ext_transform_feedback
}

proof fn lemma_offset_before_grows(vars: Seq<TransformFeedbackVarying>, j: int, k: int)
    requires
        0 <= j <= k,
    ensures
        offset_before(vars, j) <= offset_before(vars, k),
    decreases k - j,
{
    if j < k {
        lemma_offset_before_grows(vars, j, k - 1);
    }
}

fn format_contains(format: &VertexFormat, name: &String, offset: usize, ty: AttributeType) -> (r: bool)
    ensures
        r == has_attribute(format@, name@, offset as int, ty),
{
    let mut i: usize = 0;
    while i < format.len()
        invariant
            i <= format.len(),
            forall|j: int|
                0 <= j < i ==> !((#[trigger] format@[j]).0@ == name@ && format@[j].1 == offset
                    && format@[j].2 == ty),
        decreases format.len() - i,
    {
        if format[i].0 == *name && format[i].1 == offset && format[i].2 == ty {
            return true;
        }
        i += 1;
    }
    false
}

/// Whether a buffer of vertices of `format` can take what the program captures.
pub fn is_transform_feedback_matching(format: &VertexFormat, program: &Program) -> (r: bool)
    ensures
        r == feedback_matches(format@, program),
{
    match program.transform_feedback_mode {
        Some(TransformFeedbackMode::Interleaved) => {},
        _ => return false,
    }
    let ghost vars = program.transform_feedback_varyings@;
    let mut current_offset: Option<usize> = Some(0);
    let mut k: usize = 0;
    while k < program.transform_feedback_varyings.len()
        invariant
            vars == program.transform_feedback_varyings@,
            k <= vars.len(),
            current_offset == if offset_before(vars, k as int) <= usize::MAX {
                Some(offset_before(vars, k as int) as usize)
            } else {
                None::<usize>
            },
            forall|j: int|
                0 <= j < k ==> has_attribute(
                    format@,
                    (#[trigger] vars[j]).name@,
                    offset_before(vars, j),
                    vars[j].ty,
                ),
        decreases vars.len() - k,
    {
        let var = &program.transform_feedback_varyings[k];
        let offset = match current_offset {
            Some(o) => o,
            None => {
                assert(!has_attribute(format@, vars[k as int].name@, offset_before(vars, k as int), vars[k as int].ty));
                return false;
            },
        };
        if !format_contains(format, &var.name, offset, var.ty) {
            return false;
        }
        current_offset = offset.checked_add(var.size);
        proof {
            lemma_offset_before_grows(vars, k as int, k + 1);
        }
        k += 1;
    }
    true
}

/// Starts a transform feedback session that writes what `program` captures into `buffer`.
/// Returns `None` if the context cannot run transform feedback or if the buffer's vertex format
/// does not match what the program captures.
pub fn new_session<'a>(
    context: &Context,
    buffer: &'a mut Buffer,
    format: &VertexFormat,
    program: &'a Program,
) -> (r: Option<TransformFeedbackSession<'a>>)
    ensures
        *final(buffer) == *old(buffer),
        r is Some <==> transform_feedback_supported(*context) && feedback_matches(format@, program),
        r matches Some(s) ==> s.buffer_spec() == old(buffer).id && s.program_spec() == program.id,
{
    let version_ok = match context.version.0 {
        Api::Gl => context.version.1 >= 3,
        Api::GlEs => false,
    };
    if !version_ok && !context.gl_ext_transform_feedback {
        return None;
    }
    if !is_transform_feedback_matching(format, program) {
        return None;
    }
    Some(
        TransformFeedbackSession {
            buffer: buffer.id,
            program: program.id,
            marker1: PhantomData,
            marker2: PhantomData,
        },
    )
}

/// A captured variable that the format lacks at its offset, with its name and type, makes the
/// format unfit for the program.
pub proof fn lemma_missing_variable_fails(format: Seq<(String, usize, AttributeType)>, program: &Program, k: int)
    requires
        0 <= k < program.transform_feedback_varyings@.len(),
        !has_attribute(
            format,
            program.transform_feedback_varyings@[k].name@,
            offset_before(program.transform_feedback_varyings@, k),
            program.transform_feedback_varyings@[k].ty,
        ),
    ensures
        !feedback_matches(format, program),
{
}

} // verus!
