//! What holds of every run of the gateway, proved of its transition function.

use crate::failure::FailureView;
use crate::format::{spec_classify, spec_decoder, Compression};
use crate::gateway::{spec_step, ActionView, EventView, GatewayView, PhaseView};
use crate::tool::{
    lemma_failure_message_names_tool, occurs_in, spec_tool_name, utf8_lossy, Platform,
};
use vstd::prelude::*;

verus! {

/// The state after the gateway has answered `events` one after another.
pub open spec fn spec_run(g: GatewayView, events: Seq<EventView>) -> GatewayView
    decreases events.len(),
{
    if events.len() == 0 {
        g
    } else {
        spec_step(spec_run(g, events.drop_last()), events.last()).0
    }
}

/// The actions with which the gateway has answered `events`, in order.
pub open spec fn spec_trace(g: GatewayView, events: Seq<EventView>) -> Seq<ActionView>
    decreases events.len(),
{
    if events.len() == 0 {
        seq![]
    } else {
        spec_trace(g, events.drop_last()).push(
            spec_step(spec_run(g, events.drop_last()), events.last()).1,
        )
    }
}

/// What a driver reports of an artifact that it only inspects: its size, and
/// its leading bytes where the size allows a signature.
pub open spec fn inspection(len: u64, prefix: Seq<u8>) -> Seq<EventView> {
    if len < 4 {
        seq![EventView::Measured { len }]
    } else {
        seq![EventView::Measured { len }, EventView::Sniffed { prefix }]
    }
}

/// Whether `event` tells a run in `phase` that the temporary file now holds
/// the decoded content: the content was written, or the tool exited
/// successfully.
pub open spec fn confirms_success(phase: PhaseView, event: EventView) -> bool {
    match (phase, event) {
        (PhaseView::Storing { .. }, EventView::Stored) => true,
        (PhaseView::Extracting { .. }, EventView::Exited { success, .. }) => success,
        _ => false,
    }
}

/// Every step keeps a well-formed state well-formed, and never changes the
/// host or the directory that replacements go to. The format is settled by
/// one step and never changes afterwards.
pub proof fn lemma_step_preserves_wf(g: GatewayView, event: EventView)
    requires
        g.wf(),
    ensures
        spec_step(g, event).0.wf(),
        spec_step(g, event).0.host == g.host,
        spec_step(g, event).0.parent == g.parent,
        g.kind is Some ==> spec_step(g, event).0.kind == g.kind,
        g.kind is None && spec_step(g, event).0.kind is Some ==> event is Measured
            || event is Sniffed,
{
}

/// Every event brings a run nearer to its end: an action ends the run exactly
/// when the next phase is `Done`, and until then the number of events that the
/// run can still take goes down.
pub proof fn lemma_step_advances(g: GatewayView, event: EventView)
    ensures
        spec_step(g, event).1.ends_run() <==> spec_step(g, event).0.phase is Done,
        !(g.phase is Done) ==> spec_step(g, event).0.phase.remaining() < g.phase.remaining(),
        g.phase is Done ==> spec_step(g, event).0 == g,
{
}

/// The caller's handle stands for another file only after a swap, and a swap
/// is asked for only once success is confirmed: when the decoded content has
/// been written, or when the tool has exited successfully. The file that the
/// handle then stands for is the temporary file of that run.
pub proof fn lemma_handle_moves_only_by_swap(g: GatewayView, event: EventView)
    ensures
        spec_step(g, event).0.artifact != g.artifact ==> spec_step(g, event).1 is Swap,
        spec_step(g, event).1 is Swap <==> confirms_success(g.phase, event),
        spec_step(g, event).1 is Swap ==> g.phase.scratch() == Some(
            spec_step(g, event).0.artifact,
        ),
{
}

/// After a swap exactly one file is held for the artifact, the one that was
/// the temporary file; the file that the handle stood for before is held no
/// longer. The same is true at the end of every run: one file, and after
/// anything but a swap the one that the run began with.
pub proof fn lemma_swap_leaves_one_file(g: GatewayView, event: EventView)
    ensures
        spec_step(g, event).0.phase is Done ==> {
            &&& spec_step(g, event).0.live() == set![spec_step(g, event).0.artifact]
            &&& spec_step(g, event).0.live().len() == 1
        },
        spec_step(g, event).1 is Swap ==> {
            &&& g.phase.scratch() matches Some(scratch)
            &&& spec_step(g, event).0.live() == set![scratch]
            &&& (scratch != g.artifact ==> !spec_step(g, event).0.live().contains(g.artifact))
        },
        spec_step(g, event).0.phase is Done && !(spec_step(g, event).1 is Swap) ==> spec_step(
            g,
            event,
        ).0.live() == set![g.artifact],
{
    let next = spec_step(g, event).0;
    if next.phase is Done {
        assert(next.live() == set![next.artifact]);
    }
}

/// A failure leaves the caller's handle where it was, ends the run, and
/// releases the temporary file if there was one.
pub proof fn lemma_failure_keeps_artifact(g: GatewayView, event: EventView)
    requires
        spec_step(g, event).1 is Fail,
    ensures
        spec_step(g, event).0.artifact == g.artifact,
        spec_step(g, event).0.phase is Done,
        spec_step(g, event).0.live() == set![g.artifact],
{
}

/// When the tool exits without success the run fails with a message that
/// contains the tool's name and what the tool wrote to its standard error,
/// and the caller's handle stays where it was.
pub proof fn lemma_tool_failure_names_tool(g: GatewayView, stderr: Seq<u8>)
    requires
        g.phase is Extracting,
    ensures
        spec_step(g, EventView::Exited { success: false, stderr }).1 matches ActionView::Fail {
            failure: FailureView::Tool { tool, stderr: text, message },
        } && tool == spec_tool_name(g.host) && text == utf8_lossy(stderr) && occurs_in(
            tool,
            message,
        ) && occurs_in(text, message),
        spec_step(g, EventView::Exited { success: false, stderr }).0.artifact == g.artifact,
{
    lemma_failure_message_names_tool(spec_tool_name(g.host), utf8_lossy(stderr));
}

/// The temporary file is only ever asked for in the directory that held the
/// artifact when the run began.
pub proof fn lemma_replacement_goes_beside_artifact(g: GatewayView, event: EventView)
    ensures
        spec_step(g, event).1 matches ActionView::Reserve { dir } ==> g.parent == Some(dir),
{
}

/// Of a compressed artifact nothing is written before the temporary file
/// exists, and the artifact itself is never written: the only actions that
/// write are `Store`, which writes to the temporary file, and `Run`, whose
/// command writes to it.
pub proof fn lemma_writes_go_to_scratch(g: GatewayView, event: EventView)
    ensures
        spec_step(g, event).1 is Store || spec_step(g, event).1 is Run ==> spec_step(
            g,
            event,
        ).0.phase.scratch() is Some,
{
}

/// The gateway answers every event with one action.
pub proof fn lemma_trace_answers_each_event(g: GatewayView, events: Seq<EventView>)
    ensures
        spec_trace(g, events).len() == events.len(),
    decreases events.len(),
{
    if events.len() > 0 {
        lemma_trace_answers_each_event(g, events.drop_last());
    }
}

/// Running on well-formed states gives well-formed states.
pub proof fn lemma_run_preserves_wf(g: GatewayView, events: Seq<EventView>)
    requires
        g.wf(),
    ensures
        spec_run(g, events).wf(),
        spec_run(g, events).host == g.host,
        spec_run(g, events).parent == g.parent,
    decreases events.len(),
{
    if events.len() > 0 {
        lemma_run_preserves_wf(g, events.drop_last());
        lemma_step_preserves_wf(spec_run(g, events.drop_last()), events.last());
    }
}

/// No run takes more than five events: after five, whatever they were, the
/// run is over.
pub proof fn lemma_run_ends(g: GatewayView, events: Seq<EventView>)
    ensures
        spec_run(g, events).phase.remaining() + events.len() <= 5 || spec_run(
            g,
            events,
        ).phase is Done,
        events.len() >= 5 ==> spec_run(g, events).phase is Done,
    decreases events.len(),
{
    if events.len() > 0 {
        lemma_run_ends(g, events.drop_last());
        lemma_step_advances(spec_run(g, events.drop_last()), events.last());
    }
}

/// Throughout any run the caller's handle stands either for the file that the
/// run began with or, once an action was a swap, for another.
pub proof fn lemma_run_moves_handle_only_by_swap(g: GatewayView, events: Seq<EventView>)
    ensures
        spec_run(g, events).artifact != g.artifact ==> exists|i: int|
            0 <= i < events.len() && #[trigger] spec_trace(g, events)[i] is Swap,
    decreases events.len(),
{
    if events.len() > 0 {
        let before = events.drop_last();
        lemma_run_moves_handle_only_by_swap(g, before);
        lemma_trace_answers_each_event(g, before);
        lemma_handle_moves_only_by_swap(spec_run(g, before), events.last());
        let trace = spec_trace(g, events);
        if spec_run(g, events).artifact != g.artifact {
            if spec_run(g, before).artifact != g.artifact {
                let i = choose|i: int|
                    0 <= i < before.len() && #[trigger] spec_trace(g, before)[i] is Swap;
                assert(trace[i] == spec_trace(g, before)[i]);
                assert(trace[i] is Swap);
            } else {
                assert(trace[events.len() - 1] is Swap);
            }
        }
    }
}

/// Inspecting an uncompressed artifact is a no-op, however often it is done:
/// the run ends with `Keep`, every action only reads, no temporary file is
/// asked for, and the handle stands for the same file afterwards, so that a
/// second run begins as the first did and ends the same way.
pub proof fn lemma_uncompressed_is_kept(
    host: Platform,
    artifact: Seq<char>,
    parent: Option<Seq<char>>,
    len: u64,
    prefix: Seq<u8>,
)
    requires
        len < 4 || spec_classify(prefix) == Compression::Uncompressed,
    ensures
        ({
            let events = inspection(len, prefix);
            let first = spec_run(GatewayView::start(host, artifact, parent), events);
            let second = spec_run(GatewayView::start(host, first.artifact, parent), events);
            let trace = spec_trace(GatewayView::start(host, artifact, parent), events);
            &&& first.artifact == artifact
            &&& first.kind == Some(Compression::Uncompressed)
            &&& first.phase is Done
            &&& first.live() == set![artifact]
            &&& second == first
            &&& trace.last() is Keep
            &&& forall|i: int| 0 <= i < trace.len() ==> (#[trigger] trace[i]).only_reads()
        }),
{
    let start = GatewayView::start(host, artifact, parent);
    let events = inspection(len, prefix);
    let measured = EventView::Measured { len };
    assert(events.drop_last().len() == events.len() - 1);
    if len < 4 {
        assert(events.drop_last() =~= Seq::<EventView>::empty());
        assert(spec_run(start, events.drop_last()) == start);
        assert(spec_trace(start, events.drop_last()) =~= Seq::<ActionView>::empty());
        assert(events.last() == measured);
    } else {
        let one = seq![measured];
        assert(events.drop_last() =~= one);
        assert(one.drop_last() =~= Seq::<EventView>::empty());
        assert(spec_run(start, one.drop_last()) == start);
        assert(spec_trace(start, one.drop_last()) =~= Seq::<ActionView>::empty());
        assert(one.last() == measured);
        assert(spec_run(start, one) == spec_step(start, measured).0);
        assert(spec_trace(start, one) =~= seq![spec_step(start, measured).1]);
        assert(events.last() == EventView::Sniffed { prefix });
        assert(spec_decoder(Compression::Uncompressed) is None);
    }
    let first = spec_run(start, events);
    assert(first.live() == set![artifact]);
}

/// What a run answers to the leading bytes of a compressed artifact: a
/// temporary file is wanted in the artifact's parent directory, and in no
/// other; where the artifact has no parent directory the run fails, and
/// nothing is created. This holds of every run, whatever the parent is; of a
/// run begun with `Gateway::new` the parent is the one that the artifact's
/// path has.
pub proof fn lemma_compressed_is_reserved_beside(
    host: Platform,
    artifact: Seq<char>,
    parent: Option<Seq<char>>,
    len: u64,
    prefix: Seq<u8>,
)
    requires
        len >= 4,
        spec_classify(prefix) != Compression::Uncompressed,
    ensures
        ({
            let start = GatewayView::start(host, artifact, parent);
            let sniffing = spec_step(start, EventView::Measured { len });
            let answer = spec_step(sniffing.0, EventView::Sniffed { prefix });
            &&& sniffing.1 is ReadPrefix
            &&& answer.0.kind == Some(spec_classify(prefix))
            &&& answer.0.artifact == artifact
            &&& match parent {
                Some(dir) => answer.1 == (ActionView::Reserve { dir }) && !(answer.0.phase is Done),
                None => answer.1 == (ActionView::Fail { failure: FailureView::NoParent })
                    && answer.0.phase is Done,
            }
        }),
{
}

/// An artifact too short to carry a signature is kept without its content
/// being read at all.
pub proof fn lemma_short_artifact_is_kept(g: GatewayView, len: u64)
    requires
        g.phase is Measuring,
        len < 4,
    ensures
        spec_step(g, EventView::Measured { len }).1 is Keep,
        spec_step(g, EventView::Measured { len }).0.kind == Some(Compression::Uncompressed),
        spec_step(g, EventView::Measured { len }).0.artifact == g.artifact,
{
}

} // verus!
