//! What the compiler hands over: the entry points that it found and the place
//! of the module that it wrote, looked over before anything is built from it.

use crate::artifact::{artifact_fault, is_loadable, spirv_words, words_of};
use crate::pipeline::{
    compute_entry, compute_entry_name, fragment_entry, fragment_entry_name, vertex_entry,
    vertex_entry_name, BuildError, PipelineSelector, PipelineSlot,
};
use vstd::prelude::*;

verus! {

/// A compiled program as it crosses from the worker to the frame loop: names
/// and a location, nothing that belongs to the graphics device.
pub struct CompiledProgram {
    /// The names of the entry points that the compiler found.
    pub entry_points: Vec<String>,
    /// Where the module lies, or `None` where the compiler wrote one module
    /// for each entry point.
    pub module: Option<String>,
}

impl CompiledProgram {
    /// Whether the program has an entry point called `name`.
    pub open spec fn has(self, name: Seq<char>) -> bool {
        exists|i: int| 0 <= i < self.entry_points@.len() && (#[trigger] self.entry_points@[i])@ == name
    }

    /// Whether the program has the entry points that the program for `slot` is
    /// built from.
    pub open spec fn serves(self, slot: PipelineSlot) -> bool {
        match slot {
            PipelineSlot::Primary => self.has(vertex_entry_name(PipelineSelector::Primary))
                && self.has(fragment_entry_name(PipelineSelector::Primary)),
            PipelineSlot::Alternate => self.has(vertex_entry_name(PipelineSelector::Alternate))
                && self.has(fragment_entry_name(PipelineSelector::Alternate)),
            PipelineSlot::Compute => self.has(compute_entry_name()),
        }
    }

    /// Why no pipeline set can be built from the program, if that is so: it is
    /// not a single module, or else it lacks an entry point, the slots taken
    /// in the order primary, alternate, compute.
    pub open spec fn fault(self) -> Option<BuildError> {
        if self.module is None {
            Some(BuildError::NoSingleModule)
        } else if !self.serves(PipelineSlot::Primary) {
            Some(BuildError::MissingEntryPoint(PipelineSlot::Primary))
        } else if !self.serves(PipelineSlot::Alternate) {
            Some(BuildError::MissingEntryPoint(PipelineSlot::Alternate))
        } else if !self.serves(PipelineSlot::Compute) {
            Some(BuildError::MissingEntryPoint(PipelineSlot::Compute))
        } else {
            None
        }
    }

    /// Whether the program has an entry point called `name`.
    pub fn has_entry(&self, name: &str) -> (found: bool)
        ensures
            found == self.has(name@),
    {
        let wanted: String = name.to_owned();
        let mut i: usize = 0;
        while i < self.entry_points.len()
            invariant
                i <= self.entry_points@.len(),
                wanted@ == name@,
                forall|j: int| 0 <= j < i ==> (#[trigger] self.entry_points@[j])@ != name@,
            decreases self.entry_points@.len() - i,
        {
            if self.entry_points[i] == wanted {
                return true;
            }
            i = i + 1;
        }
        false
    }

    /// Whether the program has the entry points that the program for `slot` is
    /// built from.
    pub fn can_build(&self, slot: PipelineSlot) -> (served: bool)
        ensures
            served == self.serves(slot),
    {
        match slot {
            PipelineSlot::Primary => self.has_entry(vertex_entry(PipelineSelector::Primary))
                && self.has_entry(fragment_entry(PipelineSelector::Primary)),
            PipelineSlot::Alternate => self.has_entry(vertex_entry(PipelineSelector::Alternate))
                && self.has_entry(fragment_entry(PipelineSelector::Alternate)),
            PipelineSlot::Compute => self.has_entry(compute_entry()),
        }
    }

    /// Looks the program over before anything is built from it. Where all
    /// three programs can be built, the location of the module comes back;
    /// else the reason why not, and nothing needs to be loaded.
    pub fn check(&self) -> (checked: Result<&String, BuildError>)
        ensures
            match checked {
                Ok(location) => self.fault() is None && self.module == Some(*location),
                Err(error) => self.fault() == Some(error),
            },
    {
        let location = match &self.module {
            Some(location) => location,
            None => {
                return Err(BuildError::NoSingleModule);
            },
        };
        if !self.can_build(PipelineSlot::Primary) {
            return Err(BuildError::MissingEntryPoint(PipelineSlot::Primary));
        }
        if !self.can_build(PipelineSlot::Alternate) {
            return Err(BuildError::MissingEntryPoint(PipelineSlot::Alternate));
        }
        if !self.can_build(PipelineSlot::Compute) {
            return Err(BuildError::MissingEntryPoint(PipelineSlot::Compute));
        }
        Ok(location)
    }
}

/// What comes of loading the module that lies in `bytes`: its words, or the
/// fault of the artifact as a build error.
pub open spec fn loaded_module(bytes: Seq<u8>) -> Result<Seq<u32>, BuildError> {
    match artifact_fault(bytes) {
        Some(fault) => Err(BuildError::Artifact(fault)),
        None => Ok(words_of(bytes)),
    }
}

/// Turns the bytes of the module into the words that the graphics backend
/// takes. An artifact that is no module is a failed build, not a crash.
pub fn load_module(bytes: &[u8]) -> (loaded: Result<Vec<u32>, BuildError>)
    ensures
        match loaded {
            Ok(words) => loaded_module(bytes@) == Ok::<Seq<u32>, BuildError>(words@),
            Err(error) => loaded_module(bytes@) == Err::<Seq<u32>, BuildError>(error),
        },
        loaded is Ok <==> is_loadable(bytes@),
{
    match spirv_words(bytes) {
        Ok(words) => Ok(words),
        Err(fault) => Err(BuildError::Artifact(fault)),
    }
}

/// A program that passes `check` serves every slot: whichever render program
/// is selected, and for the compute program too, the entry points are there.
pub proof fn lemma_checked_program_serves_all(program: CompiledProgram, slot: PipelineSlot)
    requires
        program.fault() is None,
    ensures
        program.serves(slot),
        program.module is Some,
{
}

} // verus!
