//! What render targets and transform feedback read of a linked program.
use crate::vertex::AttributeType;
use vstd::prelude::*;

verus! {

/// How a program writes the variables that transform feedback captures.
#[derive(Clone, Copy, Debug, PartialEq, Eq, Structural)]
pub enum TransformFeedbackMode {
    /// All the variables go, one after another, into a single buffer.
    Interleaved,
    /// Each variable goes into a buffer of its own.
    Separate,
}

/// A variable that transform feedback captures.
#[derive(Debug)]
pub struct TransformFeedbackVarying {
    pub name: String,
    /// The size of the variable, in bytes.
    pub size: usize,
    pub ty: AttributeType,
}

/// A linked program, as far as render targets and transform feedback use it.
#[derive(Debug)]
pub struct Program {
    /// The native name of the program.
    pub id: u32,
    /// Each fragment output with the slot that it is written to.
    pub outputs: Vec<(String, u32)>,
    pub transform_feedback_mode: Option<TransformFeedbackMode>,
    /// The captured variables, in the order in which they are written.
    pub transform_feedback_varyings: Vec<TransformFeedbackVarying>,
}

/// The slot of the first output of `outputs` named `name`.
pub open spec fn frag_data_location(outputs: Seq<(String, u32)>, name: Seq<char>) -> Option<u32>
    decreases outputs.len(),
{
    if outputs.len() == 0 {
        None
    } else if outputs[0].0@ == name {
        Some(outputs[0].1)
    } else {
        frag_data_location(outputs.drop_first(), name)
    }
}

impl Program {
    /// The slot that the fragment output `name` is written to, if the program has that output.
    pub fn get_frag_data_location(&self, name: &String) -> (r: Option<u32>)
        ensures
            r == frag_data_location(self.outputs@, name@),
    {
        let mut i: usize = 0;
        assert(self.outputs@.subrange(0, self.outputs@.len() as int) =~= self.outputs@);
        while i < self.outputs.len()
            invariant
                i <= self.outputs.len(),
                frag_data_location(self.outputs@, name@) == frag_data_location(
                    self.outputs@.subrange(i as int, self.outputs@.len() as int),
                    name@,
                ),
            decreases self.outputs.len() - i,
        {
            assert(self.outputs@.subrange(i as int, self.outputs@.len() as int).drop_first()
                =~= self.outputs@.subrange(i + 1, self.outputs@.len() as int));
            if self.outputs[i].0 == *name {
                return Some(self.outputs[i].1);
            }
            i += 1;
        }
        None
    }
}

} // verus!
