//! Moving all outputs to another device.
//!
//! Presenters for the new device are created first, output by output. Only when
//! all of them exist does anything change for the outputs; a failure before that
//! leaves them as they are.

use vstd::prelude::*;

verus! {

/// An output, as far as a new device is concerned.
#[derive(Clone, Copy, Debug)]
pub struct RebuildOutput {
    pub name: u32,
    pub configured_size: Option<(u32, u32)>,
}

/// Why the outputs stay where they are.
#[derive(Clone, Copy, Debug, PartialEq, Eq, Structural)]
pub enum RebuildError {
    MissingSurface { output: u32 },
    PresenterFailed { output: u32 },
}

/// The move to a new device, under way.
#[derive(Debug)]
pub struct RebuildCycle {
    pub outputs: Vec<RebuildOutput>,
    pub at: usize,
    /// The surfaces of the new device that nobody owns yet, by output.
    pub surfaces: Vec<(u32, u64)>,
    /// The outputs that have a new presenter.
    pub presenters: Vec<u32>,
}

/// What the move needs next.
#[derive(Debug)]
pub enum RebuildAction {
    /// Create a presenter that owns the surface.
    CreatePresenter { output: u32, surface: u64, size: (u32, u32) },
    /// All presenters exist.
    Commit,
    /// Destroy these surfaces and leave the outputs as they are.
    Abort { destroy: Vec<u64>, error: RebuildError },
}

/// The first output from `at` on that has a size.
pub open spec fn next_configured(outputs: Seq<RebuildOutput>, at: int) -> Option<int>
    decreases outputs.len() - at,
{
    if at < 0 || at >= outputs.len() {
        None
    } else if outputs[at].configured_size is Some {
        Some(at)
    } else {
        next_configured(outputs, at + 1)
    }
}

/// The place of an output's surface.
pub open spec fn place_of(surfaces: Seq<(u32, u64)>, output: u32) -> Option<int>
    decreases surfaces.len(),
{
    if surfaces.len() == 0 {
        None
    } else {
        match place_of(surfaces.drop_last(), output) {
            Some(place) => Some(place),
            None => if surfaces.last().0 == output {
                Some(surfaces.len() - 1)
            } else {
                None
            },
        }
    }
}

/// The surfaces themselves.
pub open spec fn handles(surfaces: Seq<(u32, u64)>) -> Seq<u64> {
    surfaces.map_values(|entry: (u32, u64)| entry.1)
}

proof fn place_is_the_first(surfaces: Seq<(u32, u64)>, output: u32, found: int)
    requires
        0 <= found < surfaces.len(),
        surfaces[found].0 == output,
        forall|earlier: int| 0 <= earlier < found ==> (#[trigger] surfaces[earlier]).0 != output,
    ensures
        place_of(surfaces, output) == Some(found),
    decreases surfaces.len(),
{
    if found == surfaces.len() - 1 {
        place_is_nowhere(surfaces.drop_last(), output);
    } else {
        place_is_the_first(surfaces.drop_last(), output, found);
    }
}

proof fn place_is_nowhere(surfaces: Seq<(u32, u64)>, output: u32)
    requires
        forall|at: int| 0 <= at < surfaces.len() ==> (#[trigger] surfaces[at]).0 != output,
    ensures
        place_of(surfaces, output) is None,
    decreases surfaces.len(),
{
    if surfaces.len() > 0 {
        place_is_nowhere(surfaces.drop_last(), output);
    }
}

proof fn place_is_within(surfaces: Seq<(u32, u64)>, output: u32)
    ensures
        place_of(surfaces, output) matches Some(place) ==> 0 <= place < surfaces.len()
            && surfaces[place].0 == output,
    decreases surfaces.len(),
{
    if surfaces.len() > 0 {
        place_is_within(surfaces.drop_last(), output);
    }
}

/// The names of the outputs before `at` that have a size, in order.
pub open spec fn sized_before(outputs: Seq<RebuildOutput>, at: int) -> Seq<u32>
    decreases at,
{
    if at <= 0 {
        seq![]
    } else if outputs[at - 1].configured_size is Some {
        sized_before(outputs, at - 1).push(outputs[at - 1].name)
    } else {
        sized_before(outputs, at - 1)
    }
}

proof fn passed_outputs_have_no_size(outputs: Seq<RebuildOutput>, at: int)
    requires
        0 <= at <= outputs.len(),
    ensures
        ({
            let stop = match next_configured(outputs, at) {
                Some(next) => next,
                None => outputs.len() as int,
            };
            &&& at <= stop <= outputs.len()
            &&& next_configured(outputs, at) is Some ==> stop < outputs.len()
                && outputs[stop].configured_size is Some
            &&& sized_before(outputs, stop) == sized_before(outputs, at)
        }),
    decreases outputs.len() - at,
{
    if at < outputs.len() && outputs[at].configured_size is None {
        passed_outputs_have_no_size(outputs, at + 1);
        assert(sized_before(outputs, at + 1) == sized_before(outputs, at));
    }
}

proof fn sized_output_is_listed(outputs: Seq<RebuildOutput>, at: int, index: int)
    requires
        0 <= index < at <= outputs.len(),
        outputs[index].configured_size is Some,
    ensures
        sized_before(outputs, at).contains(outputs[index].name),
    decreases at,
{
    let listed = sized_before(outputs, at);
    if index == at - 1 {
        assert(listed.last() == outputs[index].name);
    } else {
        sized_output_is_listed(outputs, at - 1, index);
        let earlier = sized_before(outputs, at - 1);
        let place = earlier.index_of(outputs[index].name);
        assert(listed[place] == outputs[index].name);
    }
}

impl RebuildCycle {
    /// The outputs that were passed and have a size have a new presenter, and no
    /// others have one.
    pub open spec fn wf(self) -> bool {
        &&& self.at <= self.outputs@.len()
        &&& self.presenters@ == sized_before(self.outputs@, self.at as int)
    }

    /// How the next step relates to the state before it.
    pub open spec fn stepped(self, before: RebuildCycle, action: RebuildAction) -> bool {
        &&& self.outputs == before.outputs
        &&& self.presenters == before.presenters
        &&& match next_configured(before.outputs@, before.at as int) {
            None => action is Commit && self.surfaces@ == before.surfaces@ && self.at == before.at,
            Some(next) => {
                let output = before.outputs@[next];
                match place_of(before.surfaces@, output.name) {
                    None => {
                        &&& action is Abort
                        &&& action->destroy@ == handles(before.surfaces@)
                        &&& action->error == (RebuildError::MissingSurface { output: output.name })
                        &&& self.surfaces@ == before.surfaces@
                        &&& self.at == next
                    },
                    Some(place) => {
                        &&& action == (RebuildAction::CreatePresenter {
                            output: output.name,
                            surface: before.surfaces@[place].1,
                            size: output.configured_size->0,
                        })
                        &&& self.surfaces@ == before.surfaces@.remove(place)
                        &&& self.at == next
                        &&& self.at < self.outputs@.len()
                    },
                }
            },
        }
    }

    fn find(&self, output: u32) -> (found: Option<usize>)
        ensures
            match found {
                Some(place) => place_of(self.surfaces@, output) == Some(place as int) && place
                    < self.surfaces@.len(),
                None => place_of(self.surfaces@, output) is None,
            },
    {
        for index in 0..self.surfaces.len()
            invariant
                forall|earlier: int|
                    0 <= earlier < index ==> (#[trigger] self.surfaces@[earlier]).0 != output,
        {
            if self.surfaces[index].0 == output {
                proof {
                    place_is_the_first(self.surfaces@, output, index as int);
                }
                return Some(index);
            }
        }
        proof {
            place_is_nowhere(self.surfaces@, output);
        }
        None
    }

    /// The surfaces that nobody owns.
    pub fn leftover(&self) -> (unowned: Vec<u64>)
        ensures
            unowned@ == handles(self.surfaces@),
    {
        let mut unowned: Vec<u64> = Vec::new();
        for index in 0..self.surfaces.len()
            invariant
                unowned@ == handles(self.surfaces@.take(index as int)),
        {
            unowned.push(self.surfaces[index].1);
            assert(unowned@ =~= handles(self.surfaces@.take(index + 1)));
        }
        assert(self.surfaces@.take(self.surfaces@.len() as int) =~= self.surfaces@);
        unowned
    }

    fn step(&mut self) -> (action: RebuildAction)
        requires
            old(self).at <= old(self).outputs@.len(),
        ensures
            final(self).stepped(*old(self), action),
    {
        let ghost before = *self;
        let mut at: usize = self.at;
        while at < self.outputs.len()
            invariant
                *self == before,
                before == *old(self),
                at <= self.outputs@.len(),
                next_configured(before.outputs@, before.at as int) == next_configured(
                    before.outputs@,
                    at as int,
                ),
            decreases self.outputs@.len() - at,
        {
            let output: RebuildOutput = self.outputs[at];
            if let Some(size) = output.configured_size {
                self.at = at;
                match self.find(output.name) {
                    None => {
                        let destroy: Vec<u64> = self.leftover();
                        return RebuildAction::Abort {
                            destroy,
                            error: RebuildError::MissingSurface { output: output.name },
                        };
                    },
                    Some(place) => {
                        let (_, surface) = self.surfaces.remove(place);
                        return RebuildAction::CreatePresenter {
                            output: output.name,
                            surface,
                            size,
                        };
                    },
                }
            }
            at += 1;
        }
        RebuildAction::Commit
    }

    /// Starts the move: `surfaces` are those of the new device.
    pub fn begin(outputs: Vec<RebuildOutput>, surfaces: Vec<(u32, u64)>) -> (step: (
        RebuildCycle,
        RebuildAction,
    ))
        ensures
            step.0.stepped(
                RebuildCycle { outputs, at: 0, surfaces, presenters: step.0.presenters },
                step.1,
            ),
            step.0.presenters@ == Seq::<u32>::empty(),
            step.0.wf(),
    {
        let mut cycle = RebuildCycle { outputs, at: 0, surfaces, presenters: Vec::new() };
        let ghost before = cycle;
        let action = cycle.step();
        proof {
            all_presenters_exist_before_anything_changes(before, cycle, action);
        }
        (cycle, action)
    }

    /// Goes on with the move after a presenter was created, or could not be.
    pub fn rebuild_vulkan_runtime(&mut self, created: bool) -> (action: RebuildAction)
        requires
            old(self).at < old(self).outputs@.len(),
        ensures
            ({
                let output = old(self).outputs@[old(self).at as int].name;
                if created {
                    &&& final(self).presenters@ == old(self).presenters@.push(output)
                    &&& final(self).stepped(
                        RebuildCycle {
                            at: (old(self).at + 1) as usize,
                            presenters: final(self).presenters,
                            ..*old(self)
                        },
                        action,
                    )
                } else {
                    &&& *final(self) == *old(self)
                    &&& action is Abort
                    &&& action->destroy@ == handles(old(self).surfaces@)
                    &&& action->error == (RebuildError::PresenterFailed { output })
                }
            }),
            old(self).wf() && old(self).outputs@[old(self).at as int].configured_size is Some
                ==> final(self).wf(),
    {
        let output: RebuildOutput = self.outputs[self.at];
        if !created {
            let destroy: Vec<u64> = self.leftover();
            return RebuildAction::Abort {
                destroy,
                error: RebuildError::PresenterFailed { output: output.name },
            };
        }
        assert(self.outputs.len() == self.outputs@.len());
        self.presenters.push(output.name);
        self.at += 1;
        let ghost before = *self;
        let action = self.step();
        proof {
            if before.wf() {
                all_presenters_exist_before_anything_changes(before, *self, action);
            }
        }
        action
    }

    /// Whether an output has a new presenter.
    pub fn has_presenter(&self, output: u32) -> (has: bool)
        ensures
            has == self.presenters@.contains(output),
    {
        for index in 0..self.presenters.len()
            invariant
                forall|earlier: int| 0 <= earlier < index ==> self.presenters@[earlier] != output,
        {
            if self.presenters[index] == output {
                assert(self.presenters@[index as int] == output);
                return true;
            }
        }
        false
    }

    /// Hands out the surface of an output that has no presenter.
    pub fn take_surface(&mut self, output: u32) -> (surface: Option<u64>)
        ensures
            match place_of(old(self).surfaces@, output) {
                Some(place) => {
                    &&& surface == Some(old(self).surfaces@[place].1)
                    &&& final(self).surfaces@ == old(self).surfaces@.remove(place)
                    &&& *final(self) == (RebuildCycle {
                        surfaces: final(self).surfaces,
                        ..*old(self)
                    })
                },
                None => surface is None && *final(self) == *old(self),
            },
    {
        match self.find(output) {
            Some(place) => {
                let (_, surface) = self.surfaces.remove(place);
                Some(surface)
            },
            None => None,
        }
    }
}

/// The move is committed only when every output that has a size has a new presenter.
/// Until it is, the outputs that were passed have theirs, and the one that a
/// presenter is asked for has a size; the outputs themselves stay as they are.
pub proof fn all_presenters_exist_before_anything_changes(
    before: RebuildCycle,
    after: RebuildCycle,
    action: RebuildAction,
)
    requires
        before.wf(),
        after.stepped(before, action),
    ensures
        after.wf(),
        after.outputs == before.outputs,
        action is CreatePresenter ==> after.at < after.outputs@.len()
            && after.outputs@[after.at as int].configured_size is Some,
        action is Commit ==> forall|index: int|
            0 <= index < after.outputs@.len() && (#[trigger] after.outputs@[index]).configured_size
                is Some ==> after.presenters@.contains(after.outputs@[index].name),
{
    let outputs = before.outputs@;
    passed_outputs_have_no_size(outputs, before.at as int);
    if action is Commit {
        assert forall|index: int|
            0 <= index < outputs.len() && (#[trigger] outputs[index]).configured_size
                is Some implies after.presenters@.contains(outputs[index].name) by {
            sized_output_is_listed(outputs, outputs.len() as int, index);
        }
    }
}

/// A surface of the new device has one owner: one that is handed out is among the
/// unowned ones no more, and no other one is touched.
pub proof fn handed_out_surface_has_one_owner(surfaces: Seq<(u32, u64)>, output: u32)
    requires
        place_of(surfaces, output) is Some,
    ensures
        ({
            let place = place_of(surfaces, output)->0;
            &&& 0 <= place < surfaces.len()
            &&& surfaces[place].0 == output
            &&& surfaces.remove(place).to_multiset().insert(surfaces[place])
                =~= surfaces.to_multiset()
        }),
{
    broadcast use vstd::seq_lib::group_to_multiset_ensures;

    place_is_within(surfaces, output);
    let place = place_of(surfaces, output)->0;
    assert(surfaces.remove(place).insert(place, surfaces[place]) =~= surfaces);
}

proof fn next_with_a_size(outputs: Seq<RebuildOutput>, at: int)
    requires
        0 <= at <= outputs.len(),
    ensures
        match next_configured(outputs, at) {
            Some(next) => at <= next < outputs.len() && outputs[next].configured_size is Some
                && forall|passed: int|
                at <= passed < next ==> (#[trigger] outputs[passed]).configured_size is None,
            None => forall|passed: int|
                at <= passed < outputs.len() ==> (#[trigger] outputs[passed]).configured_size
                    is None,
        },
    decreases outputs.len() - at,
{
    if at < outputs.len() && outputs[at].configured_size is None {
        next_with_a_size(outputs, at + 1);
    }
}

proof fn place_is_of_the_output(surfaces: Seq<(u32, u64)>, output: u32)
    ensures
        match place_of(surfaces, output) {
            Some(place) => 0 <= place < surfaces.len() && surfaces[place].0 == output,
            None => forall|at: int| 0 <= at < surfaces.len() ==> (#[trigger] surfaces[at]).0 != output,
        },
    decreases surfaces.len(),
{
    if surfaces.len() > 0 {
        place_is_of_the_output(surfaces.drop_last(), output);
        if place_of(surfaces, output) is None {
            assert forall|at: int| 0 <= at < surfaces.len() implies (#[trigger] surfaces[at]).0
                != output by {
                if at < surfaces.len() - 1 {
                    assert(surfaces.drop_last()[at] == surfaces[at]);
                }
            }
        }
    }
}

/// Whether `surface` is taken out of the surfaces of `output` and no other is.
pub open spec fn hands_out(
    before: Seq<(u32, u64)>,
    after: Seq<(u32, u64)>,
    output: u32,
    surface: u64,
) -> bool {
    before.to_multiset() == after.to_multiset().insert((output, surface))
}

/// Whether an action is what the outputs from `from` on call for: a presenter for the
/// next one that has a size, of that size and on its own surface; to give up where it
/// has no surface, with all surfaces that nobody owns; to go ahead where none has a size.
pub open spec fn is_called_for(
    outputs: Seq<RebuildOutput>,
    from: int,
    surfaces: Seq<(u32, u64)>,
    cycle: RebuildCycle,
    action: RebuildAction,
) -> bool {
    let at = cycle.at as int;
    &&& cycle.outputs@ == outputs
    &&& match action {
        RebuildAction::CreatePresenter { output, surface, size } => {
            &&& from <= at < outputs.len()
            &&& forall|passed: int|
                from <= passed < at ==> (#[trigger] outputs[passed]).configured_size is None
            &&& outputs[at].name == output
            &&& outputs[at].configured_size == Some(size)
            &&& hands_out(surfaces, cycle.surfaces@, output, surface)
        },
        RebuildAction::Commit => {
            &&& forall|passed: int|
                from <= passed < outputs.len() ==> (#[trigger] outputs[passed]).configured_size
                    is None
            &&& cycle.surfaces@ == surfaces
        },
        RebuildAction::Abort { destroy, error } => {
            &&& from <= at < outputs.len()
            &&& outputs[at].configured_size is Some
            &&& error == (RebuildError::MissingSurface { output: outputs[at].name })
            &&& cycle.surfaces@ == surfaces
            &&& forall|place: int|
                0 <= place < surfaces.len() ==> (#[trigger] surfaces[place]).0 != outputs[at].name
            &&& destroy@.len() == surfaces.len()
            &&& forall|place: int|
                0 <= place < surfaces.len() ==> #[trigger] destroy@[place] == surfaces[place].1
        },
    }
}

proof fn step_is_called_for(before: RebuildCycle, after: RebuildCycle, action: RebuildAction)
    requires
        before.at <= before.outputs@.len(),
        after.stepped(before, action),
    ensures
        is_called_for(before.outputs@, before.at as int, before.surfaces@, after, action),
        after.presenters == before.presenters,
{
    next_with_a_size(before.outputs@, before.at as int);
    if let Some(next) = next_configured(before.outputs@, before.at as int) {
        let name = before.outputs@[next].name;
        place_is_of_the_output(before.surfaces@, name);
        if place_of(before.surfaces@, name) is Some {
            handed_out_surface_has_one_owner(before.surfaces@, name);
        }
    }
}

/// The move asks for one presenter after the other, for the outputs that have a size, in
/// order and each on a surface of its own; it goes ahead only behind the last one. Where
/// a presenter could not be created, all surfaces that nobody owns go, and nothing else
/// happens.
pub proof fn outputs_move_one_after_the_other(
    outputs: Vec<RebuildOutput>,
    surfaces: Vec<(u32, u64)>,
    begun: (RebuildCycle, RebuildAction),
    cycle: &mut RebuildCycle,
    created: bool,
    action: RebuildAction,
    place: int,
)
    requires
        call_ensures(RebuildCycle::begin, (outputs, surfaces), begun),
        old(cycle).at < old(cycle).outputs@.len(),
        call_ensures(RebuildCycle::rebuild_vulkan_runtime, (cycle, created), action),
    ensures
        is_called_for(outputs@, 0, surfaces@, begun.0, begun.1),
        begun.0.presenters@.len() == 0,
        created ==> is_called_for(
            old(cycle).outputs@,
            old(cycle).at + 1,
            old(cycle).surfaces@,
            *final(cycle),
            action,
        ),
        created ==> final(cycle).presenters@ == old(cycle).presenters@.push(
            old(cycle).outputs@[old(cycle).at as int].name,
        ),
        !created ==> {
            &&& *final(cycle) == *old(cycle)
            &&& action matches RebuildAction::Abort { destroy, error }
            &&& error == (RebuildError::PresenterFailed {
                output: old(cycle).outputs@[old(cycle).at as int].name,
            })
            &&& destroy@.len() == old(cycle).surfaces@.len()
            &&& 0 <= place < destroy@.len() ==> destroy@[place] == old(cycle).surfaces@[place].1
        },
{
    let start = RebuildCycle { outputs, at: 0, surfaces, presenters: begun.0.presenters };
    step_is_called_for(start, begun.0, begun.1);
    if created {
        assert(old(cycle).outputs.len() == old(cycle).outputs@.len());
        step_is_called_for(
            RebuildCycle {
                at: (old(cycle).at + 1) as usize,
                presenters: final(cycle).presenters,
                ..*old(cycle)
            },
            *final(cycle),
            action,
        );
    }
}

/// An output without a presenter gets its own surface, where there is one, and that
/// surface is nobody else's then; what is left over is all that nobody owns.
pub proof fn own_surface_is_handed_out(
    cycle: &mut RebuildCycle,
    output: u32,
    surface: Option<u64>,
    unowned: Vec<u64>,
    has: bool,
    place: int,
)
    requires
        call_ensures(RebuildCycle::take_surface, (cycle, output), surface),
        call_ensures(RebuildCycle::leftover, (&*final(cycle),), unowned),
        call_ensures(RebuildCycle::has_presenter, (&*old(cycle), output), has),
    ensures
        surface is None ==> *final(cycle) == *old(cycle),
        surface is None && 0 <= place < old(cycle).surfaces@.len() ==> old(
            cycle).surfaces@[place].0 != output,
        surface matches Some(handle) ==> hands_out(
            old(cycle).surfaces@,
            final(cycle).surfaces@,
            output,
            handle,
        ),
        unowned@.len() == final(cycle).surfaces@.len(),
        0 <= place < unowned@.len() ==> unowned@[place] == final(cycle).surfaces@[place].1,
        has <==> exists|at: int|
            0 <= at < old(cycle).presenters@.len() && #[trigger] old(cycle).presenters@[at]
                == output,
        final(cycle).presenters@ == old(cycle).presenters@,
        final(cycle).outputs@ == old(cycle).outputs@,
{
    place_is_of_the_output(old(cycle).surfaces@, output);
    if place_of(old(cycle).surfaces@, output) is Some {
        handed_out_surface_has_one_owner(old(cycle).surfaces@, output);
    }
}

} // verus!
