//! Laws of the frame loop and the frame protocol, over whole event
//! sequences and pairs of calls.
use vstd::prelude::*;
use crate::controller::{Command, FrameLoop, LoopEvent, Phase};
use crate::frame::{lemma_released_disjoint, released, FrameDriver, TextureKey};
use crate::surface::SurfaceExtent;

verus! {

/// Handling an event to its end keeps the surface well-formed.
pub proof fn lemma_settle_wf(s: FrameLoop, event: LoopEvent)
    requires
        s.wf(),
    ensures
        s.settle_spec(event).wf(),
{
}

/// Handling events to their end leaves the loop settled.
pub proof fn lemma_run_settled(s: FrameLoop, events: Seq<LoopEvent>)
    requires
        s.settled(),
    ensures
        s.run_spec(events).settled(),
    decreases events.len(),
{
    if events.len() > 0 {
        lemma_run_settled(s, events.drop_last());
    }
}

/// Whatever sizes the resize events carry, zero among them, the configured
/// surface is at least one pixel wide and high after every event.
pub proof fn lemma_surface_never_empty(
    width: u32,
    height: u32,
    spurious_first_resize: bool,
    events: Seq<LoopEvent>,
)
    ensures
        FrameLoop::initial(width, height, spurious_first_resize).run_spec(events).surface.wf(),
    decreases events.len(),
{
    if events.len() > 0 {
        lemma_surface_never_empty(width, height, spurious_first_resize, events.drop_last());
        let p = FrameLoop::initial(width, height, spurious_first_resize).run_spec(
            events.drop_last(),
        );
        lemma_settle_wf(p, events.last());
    }
}

/// Events other than resizes leave the surface, the screen description and
/// the suppression flag as they were.
pub proof fn lemma_no_resize_keeps_surface(s: FrameLoop, events: Seq<LoopEvent>)
    requires
        forall|i: int| 0 <= i < events.len() ==> !(#[trigger] events[i] is Resized),
    ensures
        s.run_spec(events).surface == s.surface,
        s.run_spec(events).screen == s.screen,
        s.run_spec(events).first_resize_happened == s.first_resize_happened,
    decreases events.len(),
{
    if events.len() > 0 {
        let init = events.drop_last();
        assert forall|i: int| 0 <= i < init.len() implies !(#[trigger] init[i] is Resized) by {
            assert(init[i] == events[i]);
        }
        lemma_no_resize_keeps_surface(s, init);
        assert(!(events[events.len() - 1] is Resized));
    }
}

/// On a platform that sends a spurious resize after window creation, the
/// first resize event leaves the surface configuration and the screen
/// description unchanged, whatever other events came before it.
pub proof fn lemma_first_resize_dropped(
    width: u32,
    height: u32,
    before: Seq<LoopEvent>,
    new_width: u32,
    new_height: u32,
)
    requires
        forall|i: int| 0 <= i < before.len() ==> !(#[trigger] before[i] is Resized),
    ensures
        ({
            let s0 = FrameLoop::initial(width, height, true);
            let s = s0.run_spec(before).settle_spec(
                LoopEvent::Resized { width: new_width, height: new_height },
            );
            s.surface == s0.surface && s.screen == s0.screen
        }),
{
    let s0 = FrameLoop::initial(width, height, true);
    lemma_no_resize_keeps_surface(s0, before);
}

/// Once a resize has been taken in (or none was to be dropped), the flag
/// stays set while the loop runs.
pub proof fn lemma_flag_set_after_resize(s: FrameLoop, events: Seq<LoopEvent>)
    requires
        s.settled(),
        s.first_resize_happened || exists|i: int|
            0 <= i < events.len() && #[trigger] events[i] is Resized,
        !(s.run_spec(events).phase is Closing),
    ensures
        s.run_spec(events).first_resize_happened,
    decreases events.len(),
{
    if events.len() > 0 {
        let init = events.drop_last();
        let p = s.run_spec(init);
        if p.phase is Closing {
            assert(p.settle_spec(events.last()) == p);
        }
        lemma_run_settled(s, init);
        if events.last() is Resized {
        } else {
            if !s.first_resize_happened {
                let i = choose|i: int| 0 <= i < events.len() && #[trigger] events[i] is Resized;
                assert(i != events.len() - 1);
                assert(init[i] == events[i]);
            }
            lemma_flag_set_after_resize(s, init);
        }
    }
}

/// Every resize after the first one reconfigures the surface to the
/// requested size, with zero dimensions clamped to one, unless the loop is
/// closing. Where no spurious resize is expected, this holds from the first.
pub proof fn lemma_later_resizes_apply(
    width: u32,
    height: u32,
    spurious_first_resize: bool,
    events: Seq<LoopEvent>,
    new_width: u32,
    new_height: u32,
)
    requires
        !spurious_first_resize || exists|i: int|
            0 <= i < events.len() && #[trigger] events[i] is Resized,
        !(FrameLoop::initial(width, height, spurious_first_resize).run_spec(events).phase is Closing),
    ensures
        ({
            let s = FrameLoop::initial(width, height, spurious_first_resize).run_spec(events);
            let (t, c) = s.step_spec(LoopEvent::Resized { width: new_width, height: new_height });
            &&& t.surface == SurfaceExtent::clamped_spec(new_width, new_height)
            &&& c == Command::Reconfigure {
                extent: t.surface,
                screen: t.screen,
            }
            &&& t.screen.width_in_pixels == new_width
            &&& t.screen.height_in_pixels == new_height
            &&& t.finish_spec() == (FrameLoop { phase: Phase::Idle, ..t }, Command::RequestRedraw)
        }),
{
    let s0 = FrameLoop::initial(width, height, spurious_first_resize);
    lemma_flag_set_after_resize(s0, events);
    lemma_run_settled(s0, events);
}

/// A close request moves the loop to Closing from every other state and
/// asks for a clean exit.
pub proof fn lemma_close_from_any_state(s: FrameLoop)
    requires
        !(s.phase is Closing),
    ensures
        s.step_spec(LoopEvent::CloseRequested) == (
            FrameLoop { phase: Phase::Closing, ..s },
            Command::Exit { code: 0 },
        ),
{
}

/// Once closing, the loop does no further redraw or resize work: every
/// event and every cycle end leaves it as it is and commands nothing.
pub proof fn lemma_closing_is_final(s: FrameLoop, event: LoopEvent, events: Seq<LoopEvent>)
    requires
        s.phase is Closing,
    ensures
        s.step_spec(event) == (s, Command::Nothing),
        s.finish_spec() == (s, Command::Nothing),
        s.run_spec(events) == s,
    decreases events.len(),
{
    if events.len() > 0 {
        lemma_closing_is_final(s, event, events.drop_last());
    }
}

/// Ending a frame right after beginning it, with nothing added, yields no
/// primitives and an empty texture delta.
pub proof fn lemma_empty_frame(before: FrameDriver, after: FrameDriver)
    requires
        before.wf(),
        before.phase is Idle,
        after.begun_from(&before),
    ensures
        after.output_of().0.len() == 0,
        after.output_of().1.len() == 0,
        after.output_of().2.len() == 0,
{
    assert(released(after.removed@, after.added@) =~= Seq::<TextureKey>::empty());
}

/// The textures a frame releases and those it adds are disjoint.
pub proof fn lemma_delta_disjoint(driver: FrameDriver)
    ensures
        forall|k: TextureKey| #[trigger]
            driver.output_of().2.contains(k) ==> !driver.output_of().1.contains(k),
{
    lemma_released_disjoint(driver.removed@, driver.added@);
}

} // verus!
