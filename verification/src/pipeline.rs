//! The set of GPU programs in use, and its replacement as a whole.
//!
//! The pipeline objects themselves belong to the graphics backend; here they
//! are values of any type, moved in and lent out, never looked into.

use crate::artifact::ArtifactError;
use vstd::prelude::*;

verus! {

/// Which of the two render programs draws the frame.
#[derive(Clone, Copy, Debug, PartialEq, Eq, Structural)]
pub enum PipelineSelector {
    Primary,
    Alternate,
}

/// One of the three programs that are built from a compiled artifact.
#[derive(Clone, Copy, Debug, PartialEq, Eq, Structural)]
pub enum PipelineSlot {
    Primary,
    Alternate,
    Compute,
}

/// Why a new pipeline set could not be had.
#[derive(Clone, Copy, Debug, PartialEq, Eq, Structural)]
pub enum BuildError {
    /// The compiler wrote one module for each entry point, not a single one
    /// for all.
    NoSingleModule,
    /// The compiled program lacks an entry point that the program for this
    /// slot is built from.
    MissingEntryPoint(PipelineSlot),
    /// The artifact is not a loadable module.
    Artifact(ArtifactError),
    /// The backend could not construct the program for this slot, for
    /// instance because the module lacks its entry point.
    Rejected(PipelineSlot),
}

impl PipelineSelector {
    /// The other render program.
    pub open spec fn toggled(self) -> PipelineSelector {
        match self {
            PipelineSelector::Primary => PipelineSelector::Alternate,
            PipelineSelector::Alternate => PipelineSelector::Primary,
        }
    }

    /// The other render program.
    pub fn toggle(self) -> (other: PipelineSelector)
        ensures
            other == self.toggled(),
    {
        match self {
            PipelineSelector::Primary => PipelineSelector::Alternate,
            PipelineSelector::Alternate => PipelineSelector::Primary,
        }
    }

    /// The slot that holds the render program which `self` selects.
    pub open spec fn slot(self) -> PipelineSlot {
        match self {
            PipelineSelector::Primary => PipelineSlot::Primary,
            PipelineSelector::Alternate => PipelineSlot::Alternate,
        }
    }
}

/// The name of the vertex entry point of a render program.
pub open spec fn vertex_entry_name(selector: PipelineSelector) -> Seq<char> {
    match selector {
        PipelineSelector::Primary => "main_vs"@,
        PipelineSelector::Alternate => "main_vs_colour"@,
    }
}

/// The name of the fragment entry point of a render program.
pub open spec fn fragment_entry_name(selector: PipelineSelector) -> Seq<char> {
    match selector {
        PipelineSelector::Primary => "main_fs"@,
        PipelineSelector::Alternate => "main_fs_colour"@,
    }
}

/// The vertex entry point from which the render program for `selector` is
/// built.
pub fn vertex_entry(selector: PipelineSelector) -> (name: &'static str)
    ensures
        name@ == vertex_entry_name(selector),
{
    match selector {
        PipelineSelector::Primary => "main_vs",
        PipelineSelector::Alternate => "main_vs_colour",
    }
}

/// The fragment entry point from which the render program for `selector` is
/// built.
pub fn fragment_entry(selector: PipelineSelector) -> (name: &'static str)
    ensures
        name@ == fragment_entry_name(selector),
{
    match selector {
        PipelineSelector::Primary => "main_fs",
        PipelineSelector::Alternate => "main_fs_colour",
    }
}

/// The name of the entry point of the compute program.
pub open spec fn compute_entry_name() -> Seq<char> {
    "life_step"@
}

/// The entry point from which the compute program is built.
pub fn compute_entry() -> (name: &'static str)
    ensures
        name@ == compute_entry_name(),
{
    "life_step"
}

/// The three programs built from one compiled artifact: two render programs
/// and the compute program that steps the automaton.
pub struct PipelineSet<R, C> {
    pub primary: R,
    pub alternate: R,
    pub compute: C,
}

/// The first slot, in the order primary, alternate, compute, whose program
/// the backend did not construct.
pub open spec fn first_missing<R, C>(
    primary: Option<R>,
    alternate: Option<R>,
    compute: Option<C>,
) -> Option<PipelineSlot> {
    if primary is None {
        Some(PipelineSlot::Primary)
    } else if alternate is None {
        Some(PipelineSlot::Alternate)
    } else if compute is None {
        Some(PipelineSlot::Compute)
    } else {
        None
    }
}

/// What comes of the three programs that the backend was asked for: a whole
/// set, or the first slot that it could not fill.
pub open spec fn assembled<R, C>(
    primary: Option<R>,
    alternate: Option<R>,
    compute: Option<C>,
) -> Result<PipelineSet<R, C>, BuildError> {
    match first_missing(primary, alternate, compute) {
        Some(slot) => Err(BuildError::Rejected(slot)),
        None => Ok(PipelineSet { primary: primary->0, alternate: alternate->0, compute: compute->0 }),
    }
}

impl<R, C> PipelineSet<R, C> {
    /// The render program that `selector` selects.
    pub open spec fn render(self, selector: PipelineSelector) -> R {
        match selector {
            PipelineSelector::Primary => self.primary,
            PipelineSelector::Alternate => self.alternate,
        }
    }

    /// Puts a set together from what the backend constructed, `None` standing
    /// for a program that it could not construct. There is a set only where
    /// all three are there.
    pub fn assemble(primary: Option<R>, alternate: Option<R>, compute: Option<C>) -> (built:
        Result<PipelineSet<R, C>, BuildError>)
        ensures
            built == assembled(primary, alternate, compute),
    {
        match (primary, alternate, compute) {
            (Some(primary), Some(alternate), Some(compute)) => Ok(
                PipelineSet { primary, alternate, compute },
            ),
            (None, _, _) => Err(BuildError::Rejected(PipelineSlot::Primary)),
            (_, None, _) => Err(BuildError::Rejected(PipelineSlot::Alternate)),
            (_, _, None) => Err(BuildError::Rejected(PipelineSlot::Compute)),
        }
    }
}

/// The owner of the pipeline set in use. It always holds a whole set: a new
/// one takes the place of the old one in a single move, or not at all.
pub struct PipelineManager<R, C> {
    current: PipelineSet<R, C>,
}

impl<R, C> PipelineManager<R, C> {
    /// The set in use.
    pub closed spec fn set(self) -> PipelineSet<R, C> {
        self.current
    }

    /// The render program that `selector` selects from the set in use.
    pub open spec fn active_program(self, selector: PipelineSelector) -> R {
        self.set().render(selector)
    }

    /// The manager after it was offered `built`: the new set where there is
    /// one, the old set where the build failed.
    pub open spec fn offered(self, built: Result<PipelineSet<R, C>, BuildError>) -> PipelineSet<
        R,
        C,
    > {
        match built {
            Ok(set) => set,
            Err(_) => self.set(),
        }
    }

    /// A manager that starts with `initial`.
    pub fn new(initial: PipelineSet<R, C>) -> (manager: Self)
        ensures
            manager.set() == initial,
    {
        PipelineManager { current: initial }
    }

    /// The render program to draw this frame with.
    pub fn active(&self, selector: PipelineSelector) -> (program: &R)
        ensures
            *program == self.active_program(selector),
    {
        match selector {
            PipelineSelector::Primary => &self.current.primary,
            PipelineSelector::Alternate => &self.current.alternate,
        }
    }

    /// The compute program to step the automaton with.
    pub fn compute(&self) -> (program: &C)
        ensures
            *program == self.set().compute,
    {
        &self.current.compute
    }

    /// Takes the outcome of a build. A whole new set replaces the set in use;
    /// a failed build leaves the set in use as it was and hands the error
    /// back.
    pub fn adopt(&mut self, built: Result<PipelineSet<R, C>, BuildError>) -> (outcome: Result<
        (),
        BuildError,
    >)
        ensures
            final(self).set() == old(self).offered(built),
            match built {
                Ok(_) => outcome is Ok,
                Err(error) => outcome == Err::<(), BuildError>(error),
            },
    {
        match built {
            Ok(set) => {
                self.current = set;
                Ok(())
            },
            Err(error) => Err(error),
        }
    }

    /// Replaces the set in use by the three programs that the backend
    /// constructed from a new artifact, `None` standing for one that it could
    /// not construct. Where one is missing nothing is replaced: the render
    /// programs and the compute program always stem from one artifact.
    pub fn rebuild(&mut self, primary: Option<R>, alternate: Option<R>, compute: Option<C>) -> (outcome:
        Result<(), BuildError>)
        ensures
            final(self).set() == old(self).offered(assembled(primary, alternate, compute)),
            match assembled(primary, alternate, compute) {
                Ok(_) => outcome is Ok,
                Err(error) => outcome == Err::<(), BuildError>(error),
            },
    {
        let built = PipelineSet::assemble(primary, alternate, compute);
        self.adopt(built)
    }
}

/// Selecting the other program twice selects the first one again.
pub proof fn lemma_toggle_twice(selector: PipelineSelector)
    ensures
        selector.toggled().toggled() == selector,
        selector.toggled() != selector,
{
}

/// A failed build changes nothing: whatever the selector, the manager lends
/// out the same render program, and the same compute program, as before.
pub proof fn lemma_failed_build_keeps_active<R, C>(
    manager: PipelineManager<R, C>,
    error: BuildError,
    after: PipelineManager<R, C>,
    selector: PipelineSelector,
)
    requires
        after.set() == manager.offered(Err(error)),
    ensures
        after.active_program(selector) == manager.active_program(selector),
        after.set().compute == manager.set().compute,
{
}

/// A build with a program missing is a failed build, whichever program it
/// is and whatever came of the others: the set in use stays whole and as it
/// was.
pub proof fn lemma_partial_build_keeps_set<R, C>(
    manager: PipelineManager<R, C>,
    primary: Option<R>,
    alternate: Option<R>,
    compute: Option<C>,
)
    requires
        primary is None || alternate is None || compute is None,
    ensures
        assembled(primary, alternate, compute) is Err,
        manager.offered(assembled(primary, alternate, compute)) == manager.set(),
{
}

/// A build with all three programs replaces all three at once.
pub proof fn lemma_whole_build_replaces_set<R, C>(
    manager: PipelineManager<R, C>,
    primary: R,
    alternate: R,
    compute: C,
)
    ensures
        manager.offered(assembled(Some(primary), Some(alternate), Some(compute))) == (PipelineSet {
            primary,
            alternate,
            compute,
        }),
{
}

} // verus!
